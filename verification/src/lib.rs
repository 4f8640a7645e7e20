//! Supervision of a fixed catalog of game servers: which of them run,
//! how each is launched and shut down, and who may ask for either.
//!
//! The library decides and keeps the books; it spawns no process and
//! waits for none. [`supervisor::Supervisor`] takes the requests and says
//! what is to be done, [`launcher`] says how a server is launched,
//! [`shutdown`] leads through the steps of a shutdown, and [`commands`]
//! reads the commands that users give and answers them. [`laws`] holds
//! what is proved of the life of a server as a whole.
pub mod commands;
pub mod definition;
pub mod guard;
pub mod launcher;
pub mod laws;
pub mod listing;
pub mod outcome;
pub mod registry;
pub mod shutdown;
pub mod supervisor;
pub mod text;
