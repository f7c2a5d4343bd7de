//! What holds of whole runs, whatever the outside operations report.

pub mod filesystem;
pub mod load;
pub mod run;
pub mod views;
