//! A logger that filters messages by level and hands them to an output and,
//! when one is attached, to syslog.
//!
//! The logger decides and the program around it acts: requests go in through
//! [`Logger`], `next` says what to do, and `succeed` or `fail` says how that
//! went. [`history`] tells what a run of requests amounts to, and [`laws`] what
//! can be relied on.

pub mod facility;
pub mod history;
pub mod laws;
pub mod level;
pub mod logger;
pub mod output;
pub mod relay;
pub mod request;
pub mod text;
pub mod worker;

pub use facility::{Facility, SyslogTarget};
pub use level::{Level, Severity};
pub use logger::Logger;
pub use output::{Delivery, Duplicate, Output, Stream};
pub use relay::{MessageSender, Relay};
pub use request::Request;
pub use worker::{Action, Worker};
