//! Rules core of a duplicate contract bridge engine: the table's categorical
//! enumerations (directions, axes, vulnerability), a packed record of one
//! trick's plays, and the scoring calculator that turns a finished contract
//! into its signed point score.

pub mod scoring;
pub mod table;
pub mod trick;
