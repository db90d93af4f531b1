//! Verified core of a command-line client that downloads parking receipts
//! from the RingGo API.
//!
//! Nothing in this crate touches the network or the file system. It says
//! which requests are sent, how each reply is judged, and in which order the
//! steps of a run follow each other; a thin shell performs the requests and
//! writes the files.

pub mod ringgo;
pub mod run;
