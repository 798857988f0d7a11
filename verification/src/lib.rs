//! A load generator for TCP echo servers, as a verified library.
//!
//! The tool opens a number of connections to an echo server, sends a
//! message of fixed length over each of them again and again for a fixed
//! time, and reports how many round trips were completed and how many
//! connections failed.
//!
//! The library holds every decision the tool makes: how the command line
//! becomes a configuration, how many descriptors the process needs, what a
//! worker sends and when it stops, how the driver moves from spawning to
//! reporting, and how the workers' outcomes fold into one summary. Sockets,
//! threads and the clock stay with the caller, who performs the actions that
//! the state machines here ask for and hands back what happened.
//!
//! - `cli`: the options of the tool and what a list of arguments asks for.
//! - `config`: the configuration of a run and its defaults.
//! - `decimal`: unsigned decimal numbers as text.
//! - `limits`: the limit on open descriptors that a run needs.
//! - `payload`: the bytes of a request and the test of a transfer.
//! - `stop`: the stop signal.
//! - `worker`: one connection worker, as a state machine.
//! - `driver`: the run as a whole, as a state machine.
//! - `aggregate`: outcomes and their reduction to totals.
//! - `report`: what a run prints.

pub mod aggregate;
pub mod cli;
pub mod config;
pub mod decimal;
pub mod driver;
pub mod limits;
pub mod payload;
pub mod report;
pub mod stop;
pub mod worker;
