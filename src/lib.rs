//! Samples a child process's CPU and memory use until it exits, and
//! summarises the series it collected.

pub mod report;
pub mod sampling;
pub mod series;
pub mod summary;
pub mod table;
pub mod text;
pub mod textplot;
