//! What the commands decide and compose. Talking to the API and printing
//! are left to the program.

pub mod agent;
pub mod device;
pub mod track;
