//! A minimal leveled logging facility: a logger that filters messages by
//! severity and fans timestamped lines out to an ordered list of sinks,
//! where one sink's failure never keeps a line from the rest.
//!
//! The logger is not internally synchronized: an embedding application
//! that shares one logger across threads must serialize access itself.

pub mod level;
pub mod logger;
pub mod render;
pub mod sink;
pub mod stamp;
