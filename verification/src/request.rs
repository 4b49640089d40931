//! The requests that a logger works off.

use crate::level::Level;
use crate::output::{Output, OutputView};
use vstd::prelude::*;

verus! {

/// A request to a logger. Of the first four parts, the one that comes first in
/// this order is obeyed: a message, a level, an output, a syslog writer.
///
/// `W` is an open connection to syslog, which the logger only keeps.
pub struct Request<C, F, W> {
    /// The output to write to from now on.
    pub output: Option<Output<C, F>>,
    /// The level of the message, or else the level to keep from now on.
    pub level: Option<Level>,
    /// The message to log.
    pub message: Option<String>,
    /// The syslog writer to use from now on, or none.
    pub syslog: Option<Option<W>>,
    /// The exit code to end the process with once the request is obeyed.
    pub code: Option<i32>,
}

/// A request with its texts as sequences of characters.
pub struct RequestView<C, F, W> {
    pub output: Option<OutputView<C, F>>,
    pub level: Option<Level>,
    pub message: Option<Seq<char>>,
    pub syslog: Option<Option<W>>,
    pub code: Option<i32>,
}

impl<C, F, W> View for Request<C, F, W> {
    type V = RequestView<C, F, W>;

    open spec fn view(&self) -> RequestView<C, F, W> {
        RequestView {
            output: match self.output {
                Some(output) => Some(output@),
                None => None,
            },
            level: self.level,
            message: match self.message {
                Some(message) => Some(message@),
                None => None,
            },
            syslog: self.syslog,
            code: self.code,
        }
    }
}

impl<C, F, W> RequestView<C, F, W> {
    /// A request that asks for nothing.
    pub open spec fn nothing() -> Self {
        RequestView { output: None, level: None, message: None, syslog: None, code: None }
    }

    /// The request to log `message`, and to exit if there is a code.
    pub open spec fn log(level: Level, message: Seq<char>, code: Option<i32>) -> Self {
        RequestView { level: Some(level), message: Some(message), code, ..Self::nothing() }
    }

    /// The request to keep messages from `level` on.
    pub open spec fn set_level(level: Level) -> Self {
        RequestView { level: Some(level), ..Self::nothing() }
    }

    /// The request to write to `output`.
    pub open spec fn set_output(output: OutputView<C, F>) -> Self {
        RequestView { output: Some(output), ..Self::nothing() }
    }

    /// The request to use that syslog writer, or none.
    pub open spec fn set_syslog(syslog: Option<W>) -> Self {
        RequestView { syslog: Some(syslog), ..Self::nothing() }
    }

    /// Whether a logger knows what to do: something is asked for, and a
    /// message comes with its level.
    pub open spec fn valid(self) -> bool {
        if self.message is Some {
            self.level is Some
        } else {
            self.level is Some || self.output is Some || self.syslog is Some
        }
    }
}

impl<C, F, W> Request<C, F, W> {
    /// Asks to log `message`, and then to exit if there is a code.
    pub fn log(level: Level, message: String, code: Option<i32>) -> (request: Self)
        ensures
            request@ == RequestView::<C, F, W>::log(level, message@, code),
            request@.valid(),
            request.message == Some(message),
            request.level == Some(level),
            request.code == code,
            request.output is None,
            request.syslog is None,
    {
        Request { output: None, level: Some(level), message: Some(message), syslog: None, code }
    }

    /// Asks to log an entry that came through a sender: it never ends the
    /// process.
    pub fn relayed(entry: (Level, String)) -> (request: Self)
        ensures
            request@ == RequestView::<C, F, W>::log(entry.0, entry.1@, None),
            request@.valid(),
            request.message == Some(entry.1),
            request.level == Some(entry.0),
            request.code is None,
            request.output is None,
            request.syslog is None,
    {
        Request::log(entry.0, entry.1, None)
    }

    /// Asks to keep messages from `level` on.
    pub fn set_level(level: Level) -> (request: Self)
        ensures
            request@ == RequestView::<C, F, W>::set_level(level),
            request@.valid(),
            request.level == Some(level),
            request.message is None,
            request.code is None,
    {
        Request { output: None, level: Some(level), message: None, syslog: None, code: None }
    }

    /// Asks to write to `output`.
    pub fn set_output(output: Output<C, F>) -> (request: Self)
        ensures
            request@ == RequestView::<C, F, W>::set_output(output@),
            request@.valid(),
            request.output == Some(output),
            request.level is None,
            request.message is None,
            request.code is None,
    {
        Request { output: Some(output), level: None, message: None, syslog: None, code: None }
    }

    /// Asks to write to the file that was created at `path`. Where that failed,
    /// nothing is asked and the error is returned.
    pub fn set_logfile<E>(created: Result<F, E>, path: &str) -> (request: Result<Self, E>)
        ensures
            match created {
                Ok(file) => {
                    &&& request matches Ok(request)
                    &&& request@ == RequestView::<C, F, W>::set_output(
                        OutputView::File(file, path@),
                    )
                    &&& request@.valid()
                },
                Err(error) => request == Err::<Self, E>(error),
            },
    {
        match created {
            Ok(file) => Ok(Request::set_output(Output::File(file, path.to_owned()))),
            Err(error) => Err(error),
        }
    }

    /// Asks to use that syslog writer, or none.
    pub fn set_syslog(syslog: Option<W>) -> (request: Self)
        ensures
            request@ == RequestView::<C, F, W>::set_syslog(syslog),
            request@.valid(),
            request.syslog == Some(syslog),
            request.level is None,
            request.output is None,
            request.message is None,
            request.code is None,
    {
        Request { output: None, level: None, message: None, syslog: Some(syslog), code: None }
    }

    /// Whether a logger knows what to do.
    pub fn is_valid(&self) -> (valid: bool)
        ensures
            valid == self@.valid(),
    {
        if self.message.is_some() {
            self.level.is_some()
        } else {
            self.level.is_some() || self.output.is_some() || self.syslog.is_some()
        }
    }
}

} // verus!
