//! mad-eye's verified core: the usage Gauges and the Mood they drive, the
//! poll fold that turns each reading into a Snapshot, the Eye's motion
//! decisions, and the small text and clock helpers they share.

mod clock;
pub mod eye;
pub mod keychain;
pub mod poll;
pub mod text;
pub mod tray;
pub mod usage;
