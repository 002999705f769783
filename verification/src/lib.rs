pub mod clock;
pub mod latch;
pub mod station;
pub mod station_laws;
pub mod sequence_laws;
pub mod operation_laws;
