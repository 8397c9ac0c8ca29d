//! Launching a command on the discrete GPU, with its output relayed to the
//! terminal and to a compressed log.
//!
//! The library decides and computes; but for reading the clock when it names
//! a log, it touches nothing outside itself. Its caller reads the command
//! line and the environment, performs what the machines of this library ask
//! for on files, pipes and processes, and reports back.
//!
//! - `resolver`: from an offload mode and a command to the argument vector
//!   that is run and the variables added to its environment.
//! - `launch`: from a request to what is done with it, and the strings of a
//!   command that takes the launcher's place.
//! - `banner`: the texts that tell an operator what is run.
//! - `logfile`: where the logs go and what they are called.
//! - `tee`: the relay of one source to two sinks.
//! - `supervisor`: the life of one supervised child.
//! - `traces`: what holds of a whole supervised run.

pub mod banner;
pub mod launch;
pub mod logfile;
pub mod resolver;
pub mod supervisor;
pub mod tee;
pub mod traces;
