//! Control logic of a polyphonic synthesis engine that plays an orchestral
//! instrument from timed note and controller events: velocity layers,
//! articulation by note length, legato detection, round-robin variation, the
//! envelope's stage machine, parameter ramps and the fixed voice pool.

pub mod dispatch;
pub mod driver;
pub mod envelope;
pub mod legato;
pub mod pool;
pub mod smoothing;
