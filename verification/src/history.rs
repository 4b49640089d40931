//! What a logger does over time: the actions that requests bring about, and
//! the steps that lead through them.

use crate::logger::LoggerView;
use crate::output::OutputView;
use crate::request::RequestView;
use crate::text::{line_of, log_failure_of};
use crate::worker::{ActionView, PhaseView, WorkerView};
use vstd::prelude::*;

verus! {

/// An action, with the output and the syslog writer that the logger has while
/// it is done.
pub struct Deed<C, F, W> {
    pub output: OutputView<C, F>,
    pub syslog: Option<W>,
    pub action: ActionView,
}

/// How the steps for one request go wrong, if they do: the error that writing
/// the line ends in, and the error that sending to syslog ends in.
pub struct Errors {
    pub write: Option<Seq<char>>,
    pub send: Option<Seq<char>>,
}

impl<C, F, W> WorkerView<C, F, W> {
    /// The action, done by this worker.
    pub open spec fn deed(self, action: ActionView) -> Deed<C, F, W> {
        Deed { output: self.output, syslog: self.syslog, action }
    }

    /// The report of an error, if there was one.
    pub open spec fn report(self, error: Option<Seq<char>>, message: Seq<char>) -> Seq<
        Deed<C, F, W>,
    > {
        match error {
            Some(error) => seq![self.deed(ActionView::Report(log_failure_of(error, message)))],
            None => seq![],
        }
    }

    /// Everything that is done for a message: if the worker's level includes
    /// it, its line is written, and then it is sent to syslog where that is in
    /// use. What goes wrong is reported and stops nothing.
    pub open spec fn deeds_for_message(
        self,
        request: RequestView<C, F, W>,
        errors: Errors,
    ) -> Seq<Deed<C, F, W>> {
        match (request.message, request.level) {
            (Some(message), Some(level)) if self.level.includes(level) => {
                seq![self.deed(ActionView::Write(line_of(message)))] + self.report(
                    errors.write,
                    message,
                ) + if self.syslog is Some {
                    seq![self.deed(ActionView::Syslog(level.as_severity(), message))] + self.report(
                        errors.send,
                        message,
                    )
                } else {
                    seq![]
                }
            },
            _ => seq![],
        }
    }

    /// Everything that is done for a request. The process ends last, if the
    /// request says so.
    pub open spec fn deeds(self, request: RequestView<C, F, W>, errors: Errors) -> Seq<
        Deed<C, F, W>,
    > {
        self.deeds_for_message(request, errors) + match request.code {
            Some(code) => seq![self.configured(request).deed(ActionView::Exit(code))],
            None => seq![],
        }
    }

    /// The worker once everything is done for a request.
    pub open spec fn after(self, request: RequestView<C, F, W>) -> Self {
        self.configured(request).finished(request.code)
    }

    /// The worker once everything is done for the requests, in their order.
    pub open spec fn after_all(self, requests: Seq<RequestView<C, F, W>>) -> Self
        decreases requests.len(),
    {
        if self.phase is Exiting || requests.len() == 0 {
            self
        } else {
            self.after(requests[0]).after_all(requests.drop_first())
        }
    }

    /// Everything that is done for the requests, in their order. `errors` says
    /// what goes wrong for the request behind which that many others wait.
    pub open spec fn history(
        self,
        requests: Seq<RequestView<C, F, W>>,
        errors: spec_fn(nat) -> Errors,
    ) -> Seq<Deed<C, F, W>>
        decreases requests.len(),
    {
        if self.phase is Exiting || requests.len() == 0 {
            seq![]
        } else {
            let waiting = requests.drop_first();
            self.deeds(requests[0], errors(waiting.len())) + self.after(requests[0]).history(
                waiting,
                errors,
            )
        }
    }

    /// The worker once the step under way has ended, in an error or not.
    pub open spec fn stepped(self, errors: Errors) -> Self {
        match (self.phase, errors.write, errors.send) {
            (PhaseView::Writing(_), Some(error), _) => self.failed(error),
            (PhaseView::Sending(_), _, Some(error)) => self.failed(error),
            _ => self.succeeded(),
        }
    }

    /// The worker once everything is done for the request at hand.
    pub open spec fn ended(self) -> Self {
        match self.phase {
            PhaseView::Writing(entry) => self.finished(entry.code),
            PhaseView::WriteFailed(entry, _) => self.finished(entry.code),
            PhaseView::Sending(entry) => self.finished(entry.code),
            PhaseView::SendFailed(entry, _) => self.finished(entry.code),
            PhaseView::Idle => self,
            PhaseView::Exiting(_) => self,
        }
    }

    /// How many steps the request at hand can still take.
    pub open spec fn steps_left(self) -> nat {
        match self.phase {
            PhaseView::Writing(_) => 4,
            PhaseView::WriteFailed(_, _) => 3,
            PhaseView::Sending(_) => 2,
            PhaseView::SendFailed(_, _) => 1,
            PhaseView::Idle => 0,
            PhaseView::Exiting(_) => 0,
        }
    }
}

impl<C, F, W> LoggerView<C, F, W> {
    /// The worker once everything is done for the request at hand and for the
    /// requests that wait.
    pub open spec fn end(self) -> WorkerView<C, F, W> {
        self.worker.ended().after_all(self.pending)
    }

    /// The logger once the action at hand has ended, in an error or not.
    pub open spec fn stepped(self, errors: Errors) -> Self {
        LoggerView { worker: self.worker.stepped(errors), ..self }
    }

    /// What a program does that asks the logger for the next action, does it
    /// and says how it went, until the logger waits or stops or the process ends.
    pub open spec fn run(self, errors: spec_fn(nat) -> Errors) -> Seq<Deed<C, F, W>>
        decreases self.pending.len(), self.worker.steps_left(),
        when self.wf()
    {
        proof {
            lemma_settled(self);
        }
        let settled = self.settled();
        match settled.worker.phase {
            PhaseView::Idle => seq![],
            PhaseView::Exiting(_) => seq![settled.worker.deed(settled.worker.due())],
            _ => seq![settled.worker.deed(settled.worker.due())] + settled.stepped(
                errors(settled.pending.len()),
            ).run(errors),
        }
    }
}

impl<C, F, W> LoggerView<C, F, W> {
    /// The logger that such a run leaves behind.
    pub open spec fn after_run(self, errors: spec_fn(nat) -> Errors) -> Self
        decreases self.pending.len(), self.worker.steps_left(),
        when self.wf()
    {
        proof {
            lemma_settled(self);
        }
        let settled = self.settled();
        if settled.worker.busy() {
            settled.stepped(errors(settled.pending.len())).after_run(errors)
        } else {
            settled
        }
    }
}

/// Taking up requests uses them up, from the front.
pub proof fn lemma_settled<C, F, W>(logger: LoggerView<C, F, W>)
    requires
        logger.wf(),
    ensures
        logger.settled().wf(),
        logger.settled().pending.len() <= logger.pending.len(),
        logger.settled() == logger || logger.settled().pending.len() < logger.pending.len(),
        logger.settled().worker.phase is Idle ==> logger.settled().pending.len() == 0,
        logger.settled().closed == logger.closed,
        logger.settled().relays == logger.relays,
        logger.settled().gone == logger.gone,
    decreases logger.pending.len(),
{
    if logger.worker.phase is Idle && logger.pending.len() > 0 {
        let next = LoggerView {
            pending: logger.pending.drop_first(),
            worker: logger.worker.received(logger.pending[0]),
            ..logger
        };
        assert(next.wf());
        lemma_settled(next);
    }
}

} // verus!
