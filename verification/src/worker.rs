//! The part of a logger that obeys requests, one step at a time.

use crate::level::{Level, Severity};
use crate::output::{Output, OutputView};
use crate::request::{Request, RequestView};
use crate::text::{line_of, log_failure, log_failure_of, log_line};
use vstd::prelude::*;

verus! {

/// What the program has to do for the logger.
#[derive(PartialEq, Eq, Debug)]
pub enum Action {
    /// Wait for the next request.
    Receive,
    /// Stop: there is nothing left to do, and nothing more to come.
    Stop,
    /// Write the text to the logger's output.
    Write(String),
    /// Send the message to the logger's syslog writer.
    Syslog(Severity, String),
    /// Write the text to the standard error.
    Report(String),
    /// End the process with that exit code.
    Exit(i32),
}

/// An action with its text as a sequence of characters.
pub enum ActionView {
    Receive,
    Stop,
    Write(Seq<char>),
    Syslog(Severity, Seq<char>),
    Report(Seq<char>),
    Exit(i32),
}

impl View for Action {
    type V = ActionView;

    open spec fn view(&self) -> ActionView {
        match *self {
            Action::Receive => ActionView::Receive,
            Action::Stop => ActionView::Stop,
            Action::Write(text) => ActionView::Write(text@),
            Action::Syslog(severity, message) => ActionView::Syslog(severity, message@),
            Action::Report(text) => ActionView::Report(text@),
            Action::Exit(code) => ActionView::Exit(code),
        }
    }
}

/// A message on its way out.
pub struct Entry {
    pub level: Level,
    pub message: String,
    pub code: Option<i32>,
}

/// A message on its way out, as a sequence of characters.
pub struct EntryView {
    pub level: Level,
    pub message: Seq<char>,
    pub code: Option<i32>,
}

impl View for Entry {
    type V = EntryView;

    open spec fn view(&self) -> EntryView {
        EntryView { level: self.level, message: self.message@, code: self.code }
    }
}

/// How far the request at hand has come.
pub enum Phase {
    /// There is no request at hand.
    Idle,
    /// The line is being written to the output.
    Writing(Entry),
    /// Writing failed with that error, which is being reported.
    WriteFailed(Entry, String),
    /// The message is being sent to syslog.
    Sending(Entry),
    /// Sending failed with that error, which is being reported.
    SendFailed(Entry, String),
    /// The process is to end.
    Exiting(i32),
}

/// A phase with its texts as sequences of characters.
pub enum PhaseView {
    Idle,
    Writing(EntryView),
    WriteFailed(EntryView, Seq<char>),
    Sending(EntryView),
    SendFailed(EntryView, Seq<char>),
    Exiting(i32),
}

impl View for Phase {
    type V = PhaseView;

    open spec fn view(&self) -> PhaseView {
        match *self {
            Phase::Idle => PhaseView::Idle,
            Phase::Writing(entry) => PhaseView::Writing(entry@),
            Phase::WriteFailed(entry, error) => PhaseView::WriteFailed(entry@, error@),
            Phase::Sending(entry) => PhaseView::Sending(entry@),
            Phase::SendFailed(entry, error) => PhaseView::SendFailed(entry@, error@),
            Phase::Exiting(code) => PhaseView::Exiting(code),
        }
    }
}

/// Obeys requests: keeps what they set, and says step by step what to do for
/// them.
pub struct Worker<C, F, W> {
    pub level: Level,
    pub output: Output<C, F>,
    pub syslog: Option<W>,
    pub phase: Phase,
}

/// A worker with its texts as sequences of characters.
pub struct WorkerView<C, F, W> {
    pub level: Level,
    pub output: OutputView<C, F>,
    pub syslog: Option<W>,
    pub phase: PhaseView,
}

impl<C, F, W> View for Worker<C, F, W> {
    type V = WorkerView<C, F, W>;

    open spec fn view(&self) -> WorkerView<C, F, W> {
        WorkerView {
            level: self.level,
            output: self.output@,
            syslog: self.syslog,
            phase: self.phase@,
        }
    }
}

impl<C, F, W> WorkerView<C, F, W> {
    /// A worker that has not seen a request yet.
    pub open spec fn fresh(level: Level, output: OutputView<C, F>) -> Self {
        WorkerView { level, output, syslog: None, phase: PhaseView::Idle }
    }

    /// Whether the step under way can go wrong in a way that is reported.
    pub open spec fn can_fail(self) -> bool {
        self.phase is Writing || self.phase is Sending
    }

    /// Whether a step is under way.
    pub open spec fn busy(self) -> bool {
        !(self.phase is Idle) && !(self.phase is Exiting)
    }

    /// What the request sets. Logging a message sets nothing.
    pub open spec fn configured(self, request: RequestView<C, F, W>) -> Self {
        if request.message is Some {
            self
        } else if let Some(level) = request.level {
            WorkerView { level, ..self }
        } else if let Some(output) = request.output {
            WorkerView { output, ..self }
        } else if let Some(syslog) = request.syslog {
            WorkerView { syslog, ..self }
        } else {
            self
        }
    }

    /// The request at hand is done: the process ends if the request says so.
    pub open spec fn finished(self, code: Option<i32>) -> Self {
        WorkerView {
            phase: match code {
                Some(code) => PhaseView::Exiting(code),
                None => PhaseView::Idle,
            },
            ..self
        }
    }

    /// The line has been dealt with: syslog is next, if it is in use.
    pub open spec fn after_write(self, entry: EntryView) -> Self {
        if self.syslog is Some {
            WorkerView { phase: PhaseView::Sending(entry), ..self }
        } else {
            self.finished(entry.code)
        }
    }

    /// The worker once it has taken up the request.
    pub open spec fn received(self, request: RequestView<C, F, W>) -> Self {
        match (request.message, request.level) {
            (Some(message), Some(level)) if self.level.includes(level) => WorkerView {
                phase: PhaseView::Writing(EntryView { level, message, code: request.code }),
                ..self
            },
            _ => self.configured(request).finished(request.code),
        }
    }

    /// The worker once the step under way has succeeded.
    pub open spec fn succeeded(self) -> Self {
        match self.phase {
            PhaseView::Writing(entry) => self.after_write(entry),
            PhaseView::WriteFailed(entry, _) => self.after_write(entry),
            PhaseView::Sending(entry) => self.finished(entry.code),
            PhaseView::SendFailed(entry, _) => self.finished(entry.code),
            PhaseView::Idle => self,
            PhaseView::Exiting(_) => self,
        }
    }

    /// The worker once the step under way has failed with that error.
    pub open spec fn failed(self, error: Seq<char>) -> Self {
        WorkerView {
            phase: match self.phase {
                PhaseView::Writing(entry) => PhaseView::WriteFailed(entry, error),
                PhaseView::Sending(entry) => PhaseView::SendFailed(entry, error),
                phase => phase,
            },
            ..self
        }
    }

    /// What is to be done now.
    pub open spec fn due(self) -> ActionView {
        match self.phase {
            PhaseView::Idle => ActionView::Receive,
            PhaseView::Writing(entry) => ActionView::Write(line_of(entry.message)),
            PhaseView::WriteFailed(entry, error) => ActionView::Report(
                log_failure_of(error, entry.message),
            ),
            PhaseView::Sending(entry) => ActionView::Syslog(
                entry.level.as_severity(),
                entry.message,
            ),
            PhaseView::SendFailed(entry, error) => ActionView::Report(
                log_failure_of(error, entry.message),
            ),
            PhaseView::Exiting(code) => ActionView::Exit(code),
        }
    }
}

impl<C, F, W> Worker<C, F, W> {
    /// A worker that keeps messages from `level` on, writes to `output` and
    /// does not use syslog.
    pub fn new(level: Level, output: Output<C, F>) -> (worker: Self)
        ensures
            worker@ == WorkerView::<C, F, W>::fresh(level, output@),
            worker.level == level,
            worker.output == output,
            worker.syslog is None,
            worker.phase is Idle,
    {
        Worker { level, output, syslog: None, phase: Phase::Idle }
    }

    /// Whether the worker can take up a request.
    pub fn is_idle(&self) -> (idle: bool)
        ensures
            idle == (self@.phase is Idle),
    {
        match self.phase {
            Phase::Idle => true,
            _ => false,
        }
    }

    /// The request at hand is done.
    fn finish(&mut self, code: Option<i32>)
        ensures
            final(self)@ == old(self)@.finished(code),
    {
        self.phase = match code {
            Some(code) => Phase::Exiting(code),
            None => Phase::Idle,
        };
    }

    /// The line has been dealt with.
    fn continue_after_write(&mut self, entry: Entry)
        ensures
            final(self)@ == old(self)@.after_write(entry@),
    {
        if self.syslog.is_some() {
            self.phase = Phase::Sending(entry);
        } else {
            self.finish(entry.code);
        }
    }

    /// Takes up a request. A message is dropped unless the worker's level
    /// includes it; any other request takes effect at once.
    pub fn receive(&mut self, request: Request<C, F, W>)
        requires
            old(self)@.phase is Idle,
            request@.valid(),
        ensures
            final(self)@ == old(self)@.received(request@),
    {
        let code = request.code;
        match (request.message, request.level, request.output, request.syslog) {
            (Some(message), Some(level), _, _) => {
                if self.level.contains(&level) {
                    self.phase = Phase::Writing(Entry { level, message, code });
                } else {
                    self.finish(code);
                }
            },
            (_, Some(level), _, _) => {
                self.level = level;
                self.finish(code);
            },
            (_, _, Some(output), _) => {
                self.output = output;
                self.finish(code);
            },
            (_, _, _, Some(syslog)) => {
                self.syslog = syslog;
                self.finish(code);
            },
            _ => {
                self.finish(code);
            },
        }
    }

    /// Goes on after the step under way has succeeded.
    pub fn succeed(&mut self)
        requires
            old(self)@.busy(),
        ensures
            final(self)@ == old(self)@.succeeded(),
    {
        let mut phase = Phase::Idle;
        core::mem::swap(&mut self.phase, &mut phase);
        match phase {
            Phase::Writing(entry) => self.continue_after_write(entry),
            Phase::WriteFailed(entry, _) => self.continue_after_write(entry),
            Phase::Sending(entry) => self.finish(entry.code),
            Phase::SendFailed(entry, _) => self.finish(entry.code),
            Phase::Idle => {},
            Phase::Exiting(code) => self.phase = Phase::Exiting(code),
        }
    }

    /// Goes on after writing or sending has failed with that error. A report
    /// must not fail.
    pub fn fail(&mut self, error: String)
        requires
            old(self)@.can_fail(),
        ensures
            final(self)@ == old(self)@.failed(error@),
    {
        let mut phase = Phase::Idle;
        core::mem::swap(&mut self.phase, &mut phase);
        self.phase = match phase {
            Phase::Writing(entry) => Phase::WriteFailed(entry, error),
            Phase::Sending(entry) => Phase::SendFailed(entry, error),
            other => other,
        };
    }

    /// Says what is to be done now.
    pub fn action(&self) -> (action: Action)
        ensures
            action@ == self@.due(),
    {
        match &self.phase {
            Phase::Idle => Action::Receive,
            Phase::Writing(entry) => Action::Write(log_line(&entry.message)),
            Phase::WriteFailed(entry, error) => Action::Report(log_failure(error, &entry.message)),
            Phase::Sending(entry) => Action::Syslog(entry.level.severity(), entry.message.clone()),
            Phase::SendFailed(entry, error) => Action::Report(log_failure(error, &entry.message)),
            Phase::Exiting(code) => Action::Exit(*code),
        }
    }
}

} // verus!
