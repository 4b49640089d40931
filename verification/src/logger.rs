//! The logger: a queue of requests and the worker that obeys them in order.

use crate::level::Level;
use crate::output::{Output, OutputView};
use crate::relay::{MessageSender, MessageSenderView, Relay};
use crate::request::{Request, RequestView};
use crate::worker::{Action, ActionView, Phase, PhaseView, Worker, WorkerView};
use std::collections::VecDeque;
use vstd::prelude::*;

verus! {

/// A logger. Requests wait in the order in which they were made; `next` takes
/// them up and says what to do for them.
pub struct Logger<C, F, W> {
    queue: VecDeque<Request<C, F, W>>,
    worker: Worker<C, F, W>,
    closed: bool,
    relays: usize,
    gone: bool,
}

/// A logger with its requests, oldest first, as a sequence.
pub struct LoggerView<C, F, W> {
    pub pending: Seq<RequestView<C, F, W>>,
    pub worker: WorkerView<C, F, W>,
    /// Whether requests can only come from senders any more.
    pub closed: bool,
    /// How many senders are still relayed.
    pub relays: nat,
    /// Whether the worker has ended early.
    pub gone: bool,
}

impl<C, F, W> View for Logger<C, F, W> {
    type V = LoggerView<C, F, W>;

    closed spec fn view(&self) -> LoggerView<C, F, W> {
        LoggerView {
            pending: self.queue@.map_values(|request: Request<C, F, W>| request@),
            worker: self.worker@,
            closed: self.closed,
            relays: self.relays as nat,
            gone: self.gone,
        }
    }
}

impl<C, F, W> LoggerView<C, F, W> {
    /// A logger that nothing has been asked of yet.
    pub open spec fn fresh(level: Level, output: OutputView<C, F>) -> Self {
        LoggerView {
            pending: Seq::empty(),
            worker: WorkerView::fresh(level, output),
            closed: false,
            relays: 0,
            gone: false,
        }
    }

    /// Whether the worker knows what to do for every request that waits. A
    /// worker that has ended early has nothing to do.
    pub open spec fn wf(self) -> bool {
        &&& forall|i: int| 0 <= i < self.pending.len() ==> (#[trigger] self.pending[i]).valid()
        &&& self.gone ==> self.pending.len() == 0 && self.worker.phase is Idle
    }

    /// Whether requests can be made through the logger itself.
    pub open spec fn accepting(self) -> bool {
        !self.closed && !self.gone
    }

    /// Whether requests can still come: from the program until the logger is
    /// closed, and from a sender until its relay stops.
    pub open spec fn reachable(self) -> bool {
        !self.gone && (!self.closed || self.relays > 0)
    }

    /// The logger once the request has been added behind the others.
    pub open spec fn submitted(self, request: RequestView<C, F, W>) -> Self {
        LoggerView { pending: self.pending.push(request), ..self }
    }

    /// The logger once it has taken up requests until there is something to
    /// do for one, or none is left.
    pub open spec fn settled(self) -> Self
        decreases self.pending.len(),
    {
        if self.worker.phase is Idle && self.pending.len() > 0 {
            LoggerView {
                pending: self.pending.drop_first(),
                worker: self.worker.received(self.pending[0]),
                ..self
            }.settled()
        } else {
            self
        }
    }

    /// What is to be done now. A logger waits as long as requests can come.
    pub open spec fn due(self) -> ActionView {
        if self.worker.phase is Idle && !self.reachable() {
            ActionView::Stop
        } else {
            self.worker.due()
        }
    }

    /// The logger once the relay from one of its senders has stopped.
    pub open spec fn relay_stopped(self) -> Self {
        LoggerView { relays: (self.relays - 1) as nat, ..self }
    }

    /// The logger and its sender after one step of the relay between them. A
    /// message is handed on to the worker; where that has ended, the relay
    /// stops. It also stops once nothing more can come from the sender.
    pub open spec fn forwarded(self, sender: MessageSenderView) -> (Self, MessageSenderView) {
        if sender.stopped {
            (self, sender)
        } else if sender.entries.len() > 0 && !self.gone {
            let (level, message) = sender.entries[0];
            (self.submitted(RequestView::log(level, message, None)), sender.fetched())
        } else if sender.entries.len() > 0 || sender.hung_up {
            (self.relay_stopped(), sender.cut_off())
        } else {
            (self, sender)
        }
    }
}

impl<C, F, W> Logger<C, F, W> {
    /// A logger with nothing to do.
    fn create(level: Level, output: Output<C, F>) -> (logger: Self)
        ensures
            logger@ == LoggerView::<C, F, W>::fresh(level, output@),
            logger@.wf(),
    {
        let logger = Logger {
            queue: VecDeque::new(),
            worker: Worker::new(level, output),
            closed: false,
            relays: 0,
            gone: false,
        };
        assert(logger@.pending =~= Seq::<RequestView<C, F, W>>::empty());
        logger
    }

    /// Creates a new logger that writes in the standard output.
    pub fn new(level: Level) -> (logger: Self)
        ensures
            logger@ == LoggerView::<C, F, W>::fresh(level, OutputView::Stdout),
            logger@.wf(),
            logger@.worker.level == level,
            logger@.worker.output == OutputView::<C, F>::Stdout,
            logger@.worker.syslog is None,
            logger@.worker.phase is Idle,
            logger@.pending.len() == 0,
    {
        Self::create(level, Output::Stdout)
    }

    /// Creates a new logger that writes in the standard error.
    pub fn new_err(level: Level) -> (logger: Self)
        ensures
            logger@ == LoggerView::<C, F, W>::fresh(level, OutputView::Stderr),
            logger@.wf(),
            logger@.worker.level == level,
            logger@.worker.output == OutputView::<C, F>::Stderr,
            logger@.worker.syslog is None,
            logger@.worker.phase is Idle,
            logger@.pending.len() == 0,
    {
        Self::create(level, Output::Stderr)
    }

    /// Creates a new logger that sends log messages to `s`.
    pub fn channel(level: Level, s: C) -> (logger: Self)
        ensures
            logger@ == LoggerView::<C, F, W>::fresh(level, OutputView::Channel(s)),
            logger@.wf(),
            logger@.worker.level == level,
            logger@.worker.output == OutputView::<C, F>::Channel(s),
            logger@.worker.syslog is None,
            logger@.worker.phase is Idle,
            logger@.pending.len() == 0,
    {
        Self::create(level, Output::Channel(s))
    }

    /// Creates a new logger that writes in the file that was created at
    /// `path`. Where that failed, there is no logger and the error is returned.
    pub fn file<E>(level: Level, created: Result<F, E>, path: &str) -> (logger: Result<Self, E>)
        ensures
            match created {
                Ok(file) => {
                    &&& logger matches Ok(logger)
                    &&& logger@ == LoggerView::<C, F, W>::fresh(
                        level,
                        OutputView::File(file, path@),
                    )
                    &&& logger@.wf()
                    &&& logger@.worker.level == level
                    &&& logger@.worker.output == OutputView::<C, F>::File(file, path@)
                    &&& logger@.worker.syslog is None
                    &&& logger@.worker.phase is Idle
                    &&& logger@.pending.len() == 0
                },
                Err(error) => logger == Err::<Self, E>(error),
            },
    {
        match created {
            Ok(file) => Ok(Self::create(level, Output::File(file, path.to_owned()))),
            Err(error) => Err(error),
        }
    }

    /// Adds a request behind the others.
    pub fn submit(&mut self, request: Request<C, F, W>)
        requires
            old(self)@.wf(),
            old(self)@.reachable(),
            request@.valid(),
        ensures
            final(self)@ == old(self)@.submitted(request@),
            final(self)@.wf(),
    {
        let ghost before = self@;
        self.queue.push_back(request);
        assert(self@.pending =~= before.pending.push(request@));
    }

    /// Disables syslog
    pub fn disable_syslog(&mut self)
        requires
            old(self)@.wf(),
            old(self)@.accepting(),
        ensures
            final(self)@ == old(self)@.submitted(RequestView::set_syslog(None)),
            final(self)@.wf(),
    {
        self.submit(Request::set_syslog(None));
    }

    /// Enables syslog, over the connection that was opened for it.
    pub fn set_syslog(&mut self, writer: W)
        requires
            old(self)@.wf(),
            old(self)@.accepting(),
        ensures
            final(self)@ == old(self)@.submitted(RequestView::set_syslog(Some(writer))),
            final(self)@.wf(),
    {
        self.submit(Request::set_syslog(Some(writer)));
    }

    /// Changes the output to be the file that was created at `path`. Where
    /// that failed, nothing changes and the error is returned.
    pub fn set_logfile<E>(&mut self, created: Result<F, E>, path: &str) -> (result: Result<(), E>)
        requires
            old(self)@.wf(),
            created is Ok ==> old(self)@.accepting(),
        ensures
            match created {
                Ok(file) => {
                    &&& result == Ok::<(), E>(())
                    &&& final(self)@ == old(self)@.submitted(
                        RequestView::set_output(OutputView::File(file, path@)),
                    )
                },
                Err(error) => {
                    &&& result == Err::<(), E>(error)
                    &&& final(self)@ == old(self)@
                },
            },
            final(self)@.wf(),
    {
        match Request::set_logfile(created, path) {
            Ok(request) => {
                self.submit(request);
                Ok(())
            },
            Err(error) => Err(error),
        }
    }

    /// Changes the log level.
    pub fn set_loglevel(&mut self, level: Level)
        requires
            old(self)@.wf(),
            old(self)@.accepting(),
        ensures
            final(self)@ == old(self)@.submitted(RequestView::set_level(level)),
            final(self)@.wf(),
    {
        self.submit(Request::set_level(level));
    }

    /// Creates a new sender to log messages. The logger does not stop before
    /// the relay from it does.
    pub fn sender(&mut self) -> (sender: MessageSender)
        requires
            old(self)@.wf(),
            !old(self)@.closed,
            old(self)@.relays < usize::MAX,
        ensures
            sender@ == MessageSenderView::fresh(),
            final(self)@ == (LoggerView { relays: old(self)@.relays + 1, ..old(self)@ }),
            final(self)@.wf(),
    {
        self.relays = self.relays + 1;
        MessageSender::new()
    }

    /// Does one step of the relay from a sender to this logger: fetches the
    /// oldest message and asks to log it. Returns whether the relay goes on.
    pub fn forward(&mut self, sender: &mut MessageSender) -> (goes_on: bool)
        requires
            old(self)@.wf(),
            old(sender)@.stopped || old(self)@.relays > 0,
        ensures
            (final(self)@, final(sender)@) == old(self)@.forwarded(old(sender)@),
            goes_on == !final(sender)@.stopped,
            final(self)@.wf(),
    {
        if sender.is_stopped() {
            return false;
        }
        let relay = if sender.is_spent() {
            Relay::received(None)
        } else {
            match sender.fetch() {
                Some(entry) => match Relay::received(Some(entry)) {
                    Relay::Submit(request) => {
                        let taken = !self.gone;
                        if taken {
                            self.submit(request);
                        }
                        Relay::handed_on(taken)
                    },
                    relay => relay,
                },
                None => Relay::Receive,
            }
        };
        self.relay_on(relay, sender)
    }

    /// Notes where a relay stops, and says whether it goes on.
    fn relay_on(&mut self, relay: Relay<C, F, W>, sender: &mut MessageSender) -> (goes_on: bool)
        requires
            old(self)@.relays > 0,
        ensures
            goes_on == !(relay is Stop),
            goes_on ==> final(self)@ == old(self)@ && final(sender)@ == old(sender)@,
            !goes_on ==> {
                &&& final(self)@ == old(self)@.relay_stopped()
                &&& final(sender)@ == old(sender)@.cut_off()
            },
    {
        match relay {
            Relay::Stop => {
                self.relays = self.relays - 1;
                sender.cut_off();
                false
            },
            _ => true,
        }
    }

    /// Logs a message with a log level.
    pub fn log(&mut self, level: Level, msg: String, code: Option<i32>)
        requires
            old(self)@.wf(),
            old(self)@.accepting(),
        ensures
            final(self)@ == old(self)@.submitted(RequestView::log(level, msg@, code)),
            final(self)@.wf(),
    {
        self.submit(Request::log(level, msg, code));
    }

    /// Takes up requests, oldest first, until there is something to do, and
    /// says what it is. It is to wait for a request, or to stop where none can
    /// come, only when none is left.
    pub fn next(&mut self) -> (action: Action)
        requires
            old(self)@.wf(),
        ensures
            final(self)@ == old(self)@.settled(),
            final(self)@.wf(),
            action@ == final(self)@.due(),
            action is Receive || action is Stop ==> final(self)@.pending.len() == 0,
    {
        while self.worker.is_idle()
            invariant
                self@.wf(),
                self@.settled() == old(self)@.settled(),
            ensures
                self@ == old(self)@.settled(),
                self@.wf(),
                self@.worker.phase is Idle ==> self@.pending.len() == 0,
            decreases self@.pending.len(),
        {
            let ghost before = self@;
            match self.queue.pop_front() {
                Some(request) => {
                    assert(request@ == before.pending[0]);
                    self.worker.receive(request);
                    assert(self@.pending =~= before.pending.drop_first());
                },
                None => {
                    assert(self@.pending =~= before.pending);
                    break;
                },
            }
        }
        if self.worker.is_idle() && (self.gone || (self.closed && self.relays == 0)) {
            Action::Stop
        } else {
            self.worker.action()
        }
    }

    /// Says that the program makes no more requests of its own. Those that wait
    /// are still obeyed, and so are those that senders relay.
    pub fn close(&mut self)
        requires
            old(self)@.wf(),
        ensures
            final(self)@ == (LoggerView { closed: true, ..old(self)@ }),
            final(self)@.wf(),
    {
        self.closed = true;
    }

    /// Says that the worker has ended early, as it does where a report cannot
    /// be written. What waits is lost, and no more requests are taken.
    pub fn end_worker(&mut self)
        ensures
            final(self)@ == (LoggerView {
                pending: Seq::empty(),
                worker: WorkerView { phase: PhaseView::Idle, ..old(self)@.worker },
                gone: true,
                ..old(self)@
            }),
            final(self)@.wf(),
    {
        self.queue = VecDeque::new();
        self.worker.phase = Phase::Idle;
        self.gone = true;
        assert(self@.pending =~= Seq::<RequestView<C, F, W>>::empty());
    }

    /// Goes on after the action at hand has been done.
    pub fn succeed(&mut self)
        requires
            old(self)@.wf(),
            old(self)@.worker.busy(),
        ensures
            final(self)@ == (LoggerView { worker: old(self)@.worker.succeeded(), ..old(self)@ }),
            final(self)@.wf(),
    {
        self.worker.succeed();
    }

    /// Goes on after writing or sending has failed with that error.
    pub fn fail(&mut self, error: String)
        requires
            old(self)@.wf(),
            old(self)@.worker.can_fail(),
        ensures
            final(self)@ == (LoggerView { worker: old(self)@.worker.failed(error@), ..old(self)@ }),
            final(self)@.wf(),
    {
        self.worker.fail(error);
    }

    /// The output, to write to.
    pub fn output_mut(&mut self) -> (output: &mut Output<C, F>)
        ensures
            output@ == old(self)@.worker.output,
            final(self)@ == (LoggerView {
                worker: WorkerView { output: final(output)@, ..old(self)@.worker },
                ..old(self)@
            }),
    {
        &mut self.worker.output
    }

    /// The syslog writer, if one is in use.
    pub fn syslog(&self) -> (writer: Option<&W>)
        ensures
            writer == (match self@.worker.syslog {
                Some(writer) => Some(&writer),
                None => None,
            }),
    {
        self.worker.syslog.as_ref()
    }
}

} // verus!
