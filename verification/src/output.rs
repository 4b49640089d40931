//! Where a logger writes to.

use crate::text::{channel_bytes, channel_bytes_of, channel_failure, channel_failure_of};
use vstd::prelude::*;

verus! {

/// The place that log lines go to.
///
/// `C` is the sending end of a channel and `F` an open file. The logger only
/// keeps them; writing to them is left to the program around it.
pub enum Output<C, F> {
    Channel(C),
    Stdout,
    Stderr,
    /// An open file and the path it was opened at.
    File(F, String),
}

/// An output with its path as a sequence of characters.
pub enum OutputView<C, F> {
    Channel(C),
    Stdout,
    Stderr,
    File(F, Seq<char>),
}

impl<C, F> View for Output<C, F> {
    type V = OutputView<C, F>;

    open spec fn view(&self) -> OutputView<C, F> {
        match *self {
            Output::Channel(sender) => OutputView::Channel(sender),
            Output::Stdout => OutputView::Stdout,
            Output::Stderr => OutputView::Stderr,
            Output::File(file, path) => OutputView::File(file, path@),
        }
    }
}

/// An output that takes bytes as they are.
#[derive(PartialEq, Eq, Structural, Clone, Copy, Debug)]
pub enum Stream {
    Stdout,
    Stderr,
    File,
}

/// What writing a buffer to an output comes to.
#[derive(PartialEq, Eq, Debug)]
pub enum Delivery {
    /// Send these bytes over the channel.
    Send(Vec<u8>),
    /// Write the buffer itself to this stream.
    Pass(Stream),
}

/// How to get a second handle on an output.
pub enum Duplicate<C, F> {
    /// The second handle.
    Ready(Output<C, F>),
    /// Open the file at this path for writing, and create it if there is none.
    Reopen(String),
}

impl<C, F> OutputView<C, F> {
    /// The name under which the output shows up in diagnostics.
    pub open spec fn description(self) -> Seq<char> {
        match self {
            OutputView::Channel(_) => "Channel"@,
            OutputView::Stdout => "Stdout"@,
            OutputView::Stderr => "Stderr"@,
            OutputView::File(_, path) => "File: "@ + path,
        }
    }

    /// The stream behind the output; a channel has none.
    pub open spec fn as_stream(self) -> Option<Stream> {
        match self {
            OutputView::Channel(_) => None,
            OutputView::Stdout => Some(Stream::Stdout),
            OutputView::Stderr => Some(Stream::Stderr),
            OutputView::File(_, _) => Some(Stream::File),
        }
    }
}

impl<C, F> Output<C, F> {
    /// Describes the output for diagnostics.
    pub fn describe(&self) -> (text: String)
        ensures
            text@ == self@.description(),
    {
        match self {
            Output::Channel(_) => "Channel".to_owned(),
            Output::Stdout => "Stdout".to_owned(),
            Output::Stderr => "Stderr".to_owned(),
            Output::File(_, path) => {
                let mut text = "File: ".to_owned();
                text.append(path.as_str());
                text
            },
        }
    }

    /// Decides how to write `buf`: a channel is sent the encoded bytes, all in
    /// one piece; any other output takes the buffer as it is.
    pub fn write(&self, buf: &[u8]) -> (delivery: Delivery)
        ensures
            match self@.as_stream() {
                Some(stream) => delivery == Delivery::Pass(stream),
                None => delivery matches Delivery::Send(bytes) && bytes@ == channel_bytes_of(buf@),
            },
    {
        match self {
            Output::Channel(_) => Delivery::Send(channel_bytes(buf)),
            Output::Stdout => Delivery::Pass(Stream::Stdout),
            Output::Stderr => Delivery::Pass(Stream::Stderr),
            Output::File(_, _) => Delivery::Pass(Stream::File),
        }
    }

    /// What to report of writing `len` bytes that ended in `outcome`. A channel
    /// counts as having taken everything, also where nobody receives; any other
    /// output reports what came back.
    pub fn written<E>(&self, len: usize, outcome: Result<usize, E>) -> (reported: Result<usize, E>)
        ensures
            reported == (match self@.as_stream() {
                Some(_) => outcome,
                None => Ok::<usize, E>(len),
            }),
    {
        match self {
            Output::Channel(_) => Ok(len),
            _ => outcome,
        }
    }

    /// The notice that is due when what was written could not be sent, because
    /// of `error`. Only a channel refuses in this way; other outputs report
    /// their errors.
    pub fn refused(&self, error: &String) -> (notice: Option<String>)
        ensures
            match self@.as_stream() {
                Some(_) => notice is None,
                None => notice matches Some(text) && text@ == channel_failure_of(error@),
            },
    {
        match self {
            Output::Channel(_) => Some(channel_failure(error)),
            _ => None,
        }
    }

    /// The stream to flush, if the output has one; a channel has nothing to
    /// flush.
    pub fn flush(&self) -> (stream: Option<Stream>)
        ensures
            stream == self@.as_stream(),
    {
        match self {
            Output::Channel(_) => None,
            Output::Stdout => Some(Stream::Stdout),
            Output::Stderr => Some(Stream::Stderr),
            Output::File(_, _) => Some(Stream::File),
        }
    }

    /// What to report of a flush that ended in `outcome`. A channel is always
    /// flushed; any other output reports what came back.
    pub fn flushed<E>(&self, outcome: Result<(), E>) -> (reported: Result<(), E>)
        ensures
            reported == (match self@.as_stream() {
                Some(_) => outcome,
                None => Ok::<(), E>(()),
            }),
    {
        match self {
            Output::Channel(_) => Ok(()),
            _ => outcome,
        }
    }

    /// The second handle on a file, from opening its path anew. It keeps the
    /// path. Where opening failed, there is none and the error is returned.
    pub fn reopened<E>(&self, opened: Result<F, E>) -> (copy: Result<Output<C, F>, E>)
        requires
            self@ is File,
        ensures
            match opened {
                Ok(file) => {
                    &&& copy matches Ok(second)
                    &&& second@ == OutputView::<C, F>::File(file, self@->File_1)
                },
                Err(error) => copy == Err::<Output<C, F>, E>(error),
            },
    {
        match (self, opened) {
            (_, Err(error)) => Err(error),
            (Output::File(_, path), Ok(file)) => Ok(Output::File(file, path.clone())),
            _ => vstd::pervasive::unreached(),
        }
    }
}

impl<C: Clone, F> Output<C, F> {
    /// Makes a second handle on the same output. A file is to be opened anew by
    /// its path; `reopened` makes the handle from that.
    pub fn duplicate(&self) -> (copy: Duplicate<C, F>)
        ensures
            match self@ {
                OutputView::Channel(sender) => {
                    &&& copy matches Duplicate::Ready(Output::Channel(second))
                    &&& cloned::<C>(sender, second)
                },
                OutputView::Stdout => copy == Duplicate::Ready(Output::<C, F>::Stdout),
                OutputView::Stderr => copy == Duplicate::Ready(Output::<C, F>::Stderr),
                OutputView::File(_, path) => copy matches Duplicate::Reopen(at) && at@ == path,
            },
    {
        match self {
            Output::Channel(sender) => Duplicate::Ready(Output::Channel(sender.clone())),
            Output::Stdout => Duplicate::Ready(Output::Stdout),
            Output::Stderr => Duplicate::Ready(Output::Stderr),
            Output::File(_, path) => Duplicate::Reopen(path.clone()),
        }
    }
}

} // verus!
