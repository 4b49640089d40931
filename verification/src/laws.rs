//! What can be relied on, whatever is logged and whatever goes wrong.

use crate::facility::{lower, lowercase, Facility};
use crate::history::{lemma_settled, Deed, Errors};
use crate::level::{Level, Severity};
use crate::logger::LoggerView;
use crate::output::OutputView;
use crate::relay::MessageSenderView;
use crate::request::RequestView;
use crate::text::{channel_bytes_of, code_points, line_of, log_failure_of};
use crate::worker::{ActionView, EntryView, PhaseView, WorkerView};
use vstd::prelude::*;
use vstd::utf8::*;

pub mod operations;
pub mod runs;

verus! {

/// What is left to do once the line is dealt with.
spec fn rest_after_write<C, F, W>(
    worker: WorkerView<C, F, W>,
    entry: EntryView,
    errors: Errors,
) -> Seq<Deed<C, F, W>> {
    (if worker.syslog is Some {
        seq![worker.deed(ActionView::Syslog(entry.level.as_severity(), entry.message))]
            + worker.report(errors.send, entry.message)
    } else {
        seq![]
    }) + rest_after_send(worker, entry)
}

/// What is left to do once syslog is dealt with.
spec fn rest_after_send<C, F, W>(worker: WorkerView<C, F, W>, entry: EntryView) -> Seq<
    Deed<C, F, W>,
> {
    match entry.code {
        Some(code) => seq![worker.deed(ActionView::Exit(code))],
        None => seq![],
    }
}

/// What is left to do for the request at hand.
spec fn rest<C, F, W>(worker: WorkerView<C, F, W>, errors: Errors) -> Seq<Deed<C, F, W>> {
    let now = seq![worker.deed(worker.due())];
    match worker.phase {
        PhaseView::Idle => seq![],
        PhaseView::Writing(entry) => now + worker.report(errors.write, entry.message)
            + rest_after_write(worker, entry, errors),
        PhaseView::WriteFailed(entry, _) => now + rest_after_write(worker, entry, errors),
        PhaseView::Sending(entry) => now + worker.report(errors.send, entry.message)
            + rest_after_send(worker, entry),
        PhaseView::SendFailed(entry, _) => now + rest_after_send(worker, entry),
        PhaseView::Exiting(_) => now,
    }
}

/// One step does the first of the deeds that are left.
proof fn lemma_rest_step<C, F, W>(worker: WorkerView<C, F, W>, errors: Errors)
    requires
        worker.busy(),
    ensures
        rest(worker, errors) == seq![worker.deed(worker.due())] + rest(
            worker.stepped(errors),
            errors,
        ),
        worker.stepped(errors).ended() == worker.ended(),
        worker.stepped(errors).steps_left() < worker.steps_left(),
{
    assert(rest(worker, errors) =~= seq![worker.deed(worker.due())] + rest(
        worker.stepped(errors),
        errors,
    ));
}

/// The deeds that are left when a request is taken up are those it brings
/// about.
proof fn lemma_rest_received<C, F, W>(
    worker: WorkerView<C, F, W>,
    request: RequestView<C, F, W>,
    errors: Errors,
)
    requires
        worker.phase is Idle,
        request.valid(),
    ensures
        rest(worker.received(request), errors) == worker.deeds(request, errors),
        worker.received(request).ended() == worker.after(request),
{
    assert(rest(worker.received(request), errors) =~= worker.deeds(request, errors));
}

/// A run finishes the request at hand and then obeys those that wait.
proof fn lemma_run<C, F, W>(logger: LoggerView<C, F, W>, errors: spec_fn(nat) -> Errors)
    requires
        logger.wf(),
    ensures
        logger.run(errors) == rest(
            logger.worker,
            errors(logger.pending.len()),
        ) + logger.worker.ended().history(logger.pending, errors),
    decreases logger.pending.len(), logger.worker.steps_left(),
{
    let worker = logger.worker;
    let waiting = logger.pending.len();
    let goal = rest(worker, errors(waiting)) + worker.ended().history(logger.pending, errors);
    if worker.busy() {
        let stepped = LoggerView { worker: worker.stepped(errors(waiting)), ..logger };
        lemma_rest_step(worker, errors(waiting));
        lemma_run(stepped, errors);
        assert(logger.settled() == logger);
        assert(logger.run(errors) == seq![worker.deed(worker.due())] + stepped.run(errors));
        assert(logger.run(errors) =~= goal);
    } else if worker.phase is Idle && waiting > 0 {
        let taken = LoggerView {
            pending: logger.pending.drop_first(),
            worker: worker.received(logger.pending[0]),
            ..logger
        };
        assert(taken.wf());
        assert(logger.settled() == taken.settled());
        assert(logger.run(errors) == taken.run(errors));
        lemma_run(taken, errors);
        lemma_rest_received(worker, logger.pending[0], errors(taken.pending.len()));
        assert(logger.run(errors) =~= goal);
    } else {
        assert(logger.run(errors) =~= goal);
    }
}

/// A logger obeys the requests that wait in the order in which they were made,
/// each of them whole before the next: asking it for the next action, doing
/// that, and saying how it went does exactly what the requests bring about.
pub proof fn law_requests_are_obeyed_in_order<C, F, W>(
    logger: LoggerView<C, F, W>,
    errors: spec_fn(nat) -> Errors,
)
    requires
        logger.wf(),
        logger.worker.phase is Idle,
    ensures
        logger.run(errors) == logger.worker.history(logger.pending, errors),
{
    lemma_run(logger, errors);
    assert(rest(logger.worker, errors(logger.pending.len())) =~= Seq::empty());
    assert(logger.run(errors) =~= logger.worker.history(logger.pending, errors));
}

/// Requests that come later do not change what is done for earlier ones: what
/// is done for two runs of requests is what is done for the first, and then
/// what is done for the second by the worker that the first leaves.
pub proof fn law_history_splits<C, F, W>(
    worker: WorkerView<C, F, W>,
    first: Seq<RequestView<C, F, W>>,
    second: Seq<RequestView<C, F, W>>,
    errors: spec_fn(nat) -> Errors,
)
    ensures
        worker.history(first + second, errors) == worker.history(
            first,
            |waiting: nat| errors(waiting + second.len()),
        ) + worker.after_all(first).history(second, errors),
        worker.after_all(first + second) == worker.after_all(first).after_all(second),
    decreases first.len(),
{
    let both = first + second;
    let errors_first = |waiting: nat| errors(waiting + second.len());
    let goal = worker.history(first, errors_first) + worker.after_all(first).history(
        second,
        errors,
    );
    if first.len() == 0 {
        assert(both =~= second);
        assert(worker.history(both, errors) =~= goal);
    } else if worker.phase is Exiting {
        assert(worker.history(both, errors) =~= goal);
    } else {
        let next = worker.after(first[0]);
        assert(both.drop_first() =~= first.drop_first() + second);
        law_history_splits(next, first.drop_first(), second, errors);
        assert(worker.history(both, errors) =~= goal);
    }
}

/// A request can be made at any time, also while a message is on its way out:
/// it changes nothing of what the logger does without it, and is obeyed behind
/// everything else.
pub proof fn law_submitting_disturbs_nothing<C, F, W>(
    logger: LoggerView<C, F, W>,
    request: RequestView<C, F, W>,
    errors: spec_fn(nat) -> Errors,
)
    requires
        logger.wf(),
        !logger.gone,
        request.valid(),
    ensures
        logger.submitted(request).run(errors) == logger.run(|waiting: nat| errors(waiting + 1))
            + logger.worker.ended().after_all(logger.pending).history(seq![request], errors),
{
    let earlier = |waiting: nat| errors(waiting + 1);
    let one = seq![request];
    let submitted = logger.submitted(request);
    let ended = logger.worker.ended();
    lemma_run(submitted, errors);
    lemma_run(logger, earlier);
    assert(submitted.pending =~= logger.pending + one);
    law_history_splits(ended, logger.pending, one, errors);
    assert((|waiting: nat| errors(waiting + one.len())) =~= earlier);
    assert(submitted.run(errors) =~= logger.run(earlier) + ended.after_all(
        logger.pending,
    ).history(one, errors));
}

/// Every step leads to the same end. Taking up requests and doing an action,
/// however that goes, leave behind the settings that everything asked so far
/// amounts to, and a logger that waits for requests has reached them.
pub proof fn law_steps_lead_to_one_end<C, F, W>(logger: LoggerView<C, F, W>, errors: Errors)
    requires
        logger.wf(),
    ensures
        logger.settled().end() == logger.end(),
        logger.worker.busy() ==> logger.worker.stepped(errors).ended() == logger.worker.ended(),
        logger.worker.busy() ==> logger.stepped(errors).end() == logger.end(),
        logger.settled().worker.phase is Idle ==> logger.settled().worker == logger.end(),
        logger.settled().worker.phase is Exiting ==> logger.settled().worker == logger.end(),
    decreases logger.pending.len(),
{
    if logger.worker.busy() {
        lemma_rest_step(logger.worker, errors);
    }
    if logger.worker.phase is Idle && logger.pending.len() > 0 {
        let taken = LoggerView {
            pending: logger.pending.drop_first(),
            worker: logger.worker.received(logger.pending[0]),
            ..logger
        };
        assert(taken.wf());
        lemma_rest_received(logger.worker, logger.pending[0], errors);
        law_steps_lead_to_one_end(taken, errors);
    }
}

/// A run of the logger reaches its end, whatever goes wrong: the settings are
/// those that the requests amount to, and nothing is left to do.
pub proof fn law_run_reaches_the_end<C, F, W>(
    logger: LoggerView<C, F, W>,
    errors: spec_fn(nat) -> Errors,
)
    requires
        logger.wf(),
    ensures
        logger.after_run(errors).worker == logger.end(),
        !logger.after_run(errors).worker.busy(),
        logger.after_run(errors).worker.phase is Idle ==> logger.after_run(errors).pending.len()
            == 0,
        logger.after_run(errors).wf(),
        logger.after_run(errors).closed == logger.closed,
        logger.after_run(errors).relays == logger.relays,
        logger.after_run(errors).gone == logger.gone,
    decreases logger.pending.len(), logger.worker.steps_left(),
{
    let settled = logger.settled();
    lemma_settled(logger);
    law_steps_lead_to_one_end(logger, errors(0));
    if settled.worker.busy() {
        let now = errors(settled.pending.len());
        lemma_rest_step(settled.worker, now);
        law_steps_lead_to_one_end(settled, now);
        law_run_reaches_the_end(settled.stepped(now), errors);
    }
}

/// Runs chain: working off one request after the other does what working them
/// off together does. What is done for one more request is what the logger
/// that the run leaves does for it.
pub proof fn law_runs_chain<C, F, W>(
    logger: LoggerView<C, F, W>,
    request: RequestView<C, F, W>,
    errors: spec_fn(nat) -> Errors,
)
    requires
        logger.wf(),
        !logger.gone,
        request.valid(),
        logger.end().phase is Idle,
    ensures
        logger.submitted(request).run(errors) == logger.run(|waiting: nat| errors(waiting + 1))
            + logger.after_run(|waiting: nat| errors(waiting + 1)).submitted(request).run(errors),
{
    let earlier = |waiting: nat| errors(waiting + 1);
    let reached = logger.after_run(earlier);
    law_submitting_disturbs_nothing(logger, request, errors);
    law_run_reaches_the_end(logger, earlier);
    assert(reached.submitted(request).pending =~= seq![request]);
    law_requests_are_obeyed_in_order(reached.submitted(request), errors);
}

/// Closing a logger loses nothing: what was asked of it before is still done.
pub proof fn law_closing_loses_nothing<C, F, W>(
    logger: LoggerView<C, F, W>,
    errors: spec_fn(nat) -> Errors,
)
    requires
        logger.wf(),
    ensures
        (LoggerView { closed: true, ..logger }).run(errors) == logger.run(errors),
{
    lemma_run(logger, errors);
    lemma_run(LoggerView { closed: true, ..logger }, errors);
}

/// A new logger writes the line of a message that its level includes to its
/// output, and reports it if that goes wrong. It does nothing for any other
/// message.
pub proof fn law_logged_message_is_written<C, F, W>(
    kept: Level,
    output: OutputView<C, F>,
    level: Level,
    message: Seq<char>,
    errors: spec_fn(nat) -> Errors,
)
    ensures
        LoggerView::<C, F, W>::fresh(kept, output).submitted(
            RequestView::log(level, message, None),
        ).run(errors) == (if kept.includes(level) {
            let worker = WorkerView::<C, F, W>::fresh(kept, output);
            seq![worker.deed(ActionView::Write(line_of(message)))] + worker.report(
                errors(0).write,
                message,
            )
        } else {
            seq![]
        }),
{
    let logger = LoggerView::<C, F, W>::fresh(kept, output);
    let request = RequestView::<C, F, W>::log(level, message, None);
    let submitted = logger.submitted(request);
    law_requests_are_obeyed_in_order(submitted, errors);
    reveal_with_fuel(WorkerView::history, 2);
    assert(submitted.pending =~= seq![request]);
    assert(submitted.run(errors) =~= logger.worker.deeds(request, errors(0)));
    assert(logger.worker.deeds(request, errors(0)) =~= (if kept.includes(level) {
        seq![logger.worker.deed(ActionView::Write(line_of(message)))] + logger.worker.report(
            errors(0).write,
            message,
        )
    } else {
        seq![]
    }));
}

/// No message is on its way out once everything is done for the requests.
proof fn lemma_at_rest_after_all<C, F, W>(
    worker: WorkerView<C, F, W>,
    requests: Seq<RequestView<C, F, W>>,
)
    requires
        !worker.busy(),
    ensures
        !worker.after_all(requests).busy(),
    decreases requests.len(),
{
    if !(worker.phase is Exiting) && requests.len() > 0 {
        lemma_at_rest_after_all(worker.after(requests[0]), requests.drop_first());
    }
}

/// A new level, output or syslog writer counts for the requests after it, and
/// for none before it.
pub proof fn law_settings_count_for_later_requests<C, F, W>(
    worker: WorkerView<C, F, W>,
    earlier: Seq<RequestView<C, F, W>>,
    setting: RequestView<C, F, W>,
    later: Seq<RequestView<C, F, W>>,
    errors: spec_fn(nat) -> Errors,
)
    requires
        setting.message is None,
        setting.code is None,
        !worker.busy(),
    ensures
        worker.history(earlier + seq![setting] + later, errors) == worker.history(
            earlier,
            |waiting: nat| errors(waiting + 1 + later.len()),
        ) + worker.after_all(earlier).configured(setting).history(later, errors),
{
    let reached = worker.after_all(earlier);
    let rest = seq![setting] + later;
    assert(earlier + seq![setting] + later =~= earlier + rest);
    law_history_splits(worker, earlier, rest, errors);
    lemma_at_rest_after_all(worker, earlier);
    assert(rest.drop_first() =~= later);
    assert(reached.deeds(setting, errors(later.len())) =~= Seq::empty());
    assert(reached.history(rest, errors) =~= reached.configured(setting).history(later, errors));
    assert((|waiting: nat| errors(waiting + rest.len())) =~= (|waiting: nat|
        errors(waiting + 1 + later.len())));
}

/// Setting the level, the output or the syslog writer sets just that, and the
/// last one that was set is the one that stays.
pub proof fn law_last_setting_stays<C, F, W>(
    worker: WorkerView<C, F, W>,
    levels: (Level, Level),
    outputs: (OutputView<C, F>, OutputView<C, F>),
    writers: (Option<W>, Option<W>),
)
    ensures
        worker.after(RequestView::set_level(levels.0)).after(RequestView::set_level(levels.1)) == (
        WorkerView { level: levels.1, phase: PhaseView::Idle, ..worker }),
        worker.after(RequestView::set_output(outputs.0)).after(RequestView::set_output(outputs.1))
            == (WorkerView { output: outputs.1, phase: PhaseView::Idle, ..worker }),
        worker.after(RequestView::set_syslog(writers.0)).after(RequestView::set_syslog(writers.1))
            == (WorkerView { syslog: writers.1, phase: PhaseView::Idle, ..worker }),
{
}

/// Disabling syslog undoes enabling it.
pub proof fn law_disabling_syslog_undoes_enabling<C, F, W>(
    worker: WorkerView<C, F, W>,
    writer: W,
)
    requires
        worker.phase is Idle,
        worker.syslog is None,
    ensures
        worker.after_all(
            seq![RequestView::set_syslog(Some(writer)), RequestView::set_syslog(None)],
        ) == worker,
{
    let requests = seq![
        RequestView::<C, F, W>::set_syslog(Some(writer)),
        RequestView::<C, F, W>::set_syslog(None),
    ];
    reveal_with_fuel(WorkerView::after_all, 3);
    assert(requests.drop_first()[0] == requests[1]);
}

/// A message changes no setting, whether it is kept or not.
pub proof fn law_messages_change_no_setting<C, F, W>(
    worker: WorkerView<C, F, W>,
    request: RequestView<C, F, W>,
)
    requires
        request.message is Some,
    ensures
        worker.after(request).level == worker.level,
        worker.after(request).output == worker.output,
        worker.after(request).syslog == worker.syslog,
{
}

/// The text that a deed writes, if it does, and the output that it goes to.
pub open spec fn written<C, F, W>(deed: Deed<C, F, W>) -> Option<(OutputView<C, F>, Seq<char>)> {
    match deed.action {
        ActionView::Write(text) => Some((deed.output, text)),
        _ => None,
    }
}

/// The message that a deed sends to syslog, if it does, with its severity and
/// the writer that it goes through.
pub open spec fn sent<C, F, W>(deed: Deed<C, F, W>) -> Option<(Option<W>, Severity, Seq<char>)> {
    match deed.action {
        ActionView::Syslog(severity, message) => Some((deed.syslog, severity, message)),
        _ => None,
    }
}

/// The requests to log these messages, none of which ends the process.
pub open spec fn log_requests<C, F, W>(messages: Seq<(Level, Seq<char>)>) -> Seq<
    RequestView<C, F, W>,
> {
    messages.map_values(|message: (Level, Seq<char>)| RequestView::log(message.0, message.1, None))
}

/// The logger and its sender once everything that waited at the sender has
/// been forwarded, or the relay has stopped.
pub open spec fn drained<C, F, W>(
    logger: LoggerView<C, F, W>,
    sender: MessageSenderView,
) -> (LoggerView<C, F, W>, MessageSenderView)
    decreases sender.entries.len(),
{
    if sender.stopped || sender.entries.len() == 0 {
        (logger, sender)
    } else {
        let (next_logger, next_sender) = logger.forwarded(sender);
        drained(next_logger, next_sender)
    }
}

/// Messages that are sent through a sender are all logged, like any others, in
/// the order in which they were sent, and none of them ends the process. This
/// does not depend on whether the logger is closed. The relay goes on after
/// them, unless nobody can send any more: then its next step ends it.
pub proof fn law_senders_keep_the_order<C, F, W>(
    logger: LoggerView<C, F, W>,
    sender: MessageSenderView,
)
    requires
        !sender.stopped,
        !logger.gone,
    ensures
        drained(logger, sender).0 == (LoggerView {
            pending: logger.pending + log_requests(sender.entries),
            ..logger
        }),
        drained(logger, sender).1 == (MessageSenderView { entries: Seq::empty(), ..sender }),
        ({
            let (forwarded, left) = drained(logger, sender);
            forwarded.forwarded(left) == if sender.hung_up {
                (forwarded.relay_stopped(), left.cut_off())
            } else {
                (forwarded, left)
            }
        }),
    decreases sender.entries.len(),
{
    let entries = sender.entries;
    if entries.len() > 0 {
        let first = RequestView::<C, F, W>::log(entries[0].0, entries[0].1, None);
        law_senders_keep_the_order(logger.submitted(first), sender.fetched());
        assert(logger.pending.push(first) + log_requests(entries.drop_first()) =~= logger.pending
            + log_requests(entries));
    } else {
        assert(logger.pending + log_requests::<C, F, W>(entries) =~= logger.pending);
        assert(entries =~= Seq::empty());
    }
}

/// A logger that has nothing left to do stops exactly when it can get no more
/// requests: when its worker has ended early, or when it is closed and no
/// sender is relayed any more. So a sender keeps it open.
pub proof fn law_sender_keeps_the_logger_open<C, F, W>(logger: LoggerView<C, F, W>)
    requires
        logger.wf(),
    ensures
        logger.settled().due() is Stop <==> logger.settled().worker.phase is Idle && (logger.gone
            || (logger.closed && logger.relays == 0)),
        logger.relays > 0 && !logger.gone ==> !(logger.settled().due() is Stop),
{
    lemma_settled(logger);
}

/// A sender outlives the program's own use of the logger: what it relays to a
/// closed logger is filtered and written as it would be by an open one, and
/// the logger then waits for more.
pub proof fn law_sender_outlives_closing<C, F, W>(
    logger: LoggerView<C, F, W>,
    sender: MessageSenderView,
    errors: spec_fn(nat) -> Errors,
)
    requires
        logger.wf(),
        logger.relays > 0,
        !logger.gone,
        !sender.stopped,
    ensures
        ({
            let closed = LoggerView { closed: true, ..logger };
            let (after, _) = drained(closed, sender);
            &&& after.wf()
            &&& after.run(errors) == drained(logger, sender).0.run(errors)
            &&& after.run(errors) == (LoggerView {
                pending: logger.pending + log_requests(sender.entries),
                ..logger
            }).run(errors)
            &&& !(after.after_run(errors).due() is Stop)
        }),
{
    let closed = LoggerView { closed: true, ..logger };
    law_senders_keep_the_order(logger, sender);
    law_senders_keep_the_order(closed, sender);
    let open_after = drained(logger, sender).0;
    let after = drained(closed, sender).0;
    assert(open_after.wf());
    assert(after.wf());
    law_closing_loses_nothing(open_after, errors);
    assert(after == (LoggerView { closed: true, ..open_after }));
    law_run_reaches_the_end(after, errors);
}

/// Once nobody can send through the last sender of a closed logger any more,
/// all that was sent is still passed on, then the relay stops, and the logger
/// stops after it has done what was asked of it, unless that ends the process.
pub proof fn law_last_sender_lets_the_logger_stop<C, F, W>(
    logger: LoggerView<C, F, W>,
    sender: MessageSenderView,
    errors: spec_fn(nat) -> Errors,
)
    requires
        logger.wf(),
        logger.closed,
        logger.relays == 1,
        !logger.gone,
        !sender.stopped,
        sender.hung_up,
    ensures
        ({
            let (passed_on, left) = drained(logger, sender);
            let (after, spent) = passed_on.forwarded(left);
            &&& spent.stopped
            &&& after.pending == logger.pending + log_requests(sender.entries)
            &&& after.run(errors) == passed_on.run(errors)
            &&& after.end().phase is Idle ==> after.after_run(errors).due() is Stop
        }),
{
    law_senders_keep_the_order(logger, sender);
    let (passed_on, left) = drained(logger, sender);
    let (after, spent) = passed_on.forwarded(left);
    assert(passed_on.wf());
    assert(after.wf());
    lemma_run(passed_on, errors);
    lemma_run(after, errors);
    law_run_reaches_the_end(after, errors);
}

/// Where the worker has ended, a relay stops when a message comes, or when
/// none can come any more, and leaves the worker as it is.
pub proof fn law_relay_stops_without_worker<C, F, W>(
    logger: LoggerView<C, F, W>,
    sender: MessageSenderView,
)
    requires
        logger.gone,
        !sender.stopped,
        sender.entries.len() > 0 || sender.hung_up,
    ensures
        logger.forwarded(sender).1.stopped,
        logger.forwarded(sender).0 == logger.relay_stopped(),
        logger.relay_stopped().worker == logger.worker,
        logger.relay_stopped().pending == logger.pending,
{
}

/// A relay that has stopped stays so: every message is refused, and the logger
/// gets none.
pub proof fn law_stopped_relay_takes_nothing<C, F, W>(
    logger: LoggerView<C, F, W>,
    sender: MessageSenderView,
    level: Level,
    message: Seq<char>,
)
    requires
        sender.stopped,
    ensures
        sender.sent(level, message) == sender,
        logger.forwarded(sender.sent(level, message)) == (logger, sender),
{
}

/// Picking from two sequences one after the other picks from each.
proof fn lemma_filter_map_add<A, B>(first: Seq<A>, second: Seq<A>, pick: spec_fn(A) -> Option<B>)
    ensures
        (first + second).filter_map(pick) == first.filter_map(pick) + second.filter_map(pick),
    decreases second.len(),
{
    reveal(Seq::filter_map);
    if second.len() == 0 {
        assert(first + second =~= first);
        assert(first.filter_map(pick) + second.filter_map(pick) =~= first.filter_map(pick));
    } else {
        assert((first + second).drop_last() =~= first + second.drop_last());
        lemma_filter_map_add(first, second.drop_last(), pick);
        assert((first + second).filter_map(pick) =~= first.filter_map(pick) + second.filter_map(
            pick,
        ));
    }
}

/// Messages that the level includes are written to the output, each as a line
/// of its own, in the order in which they were logged; other messages are not. Where syslog
/// is in use the same messages are sent there, in that order, under the
/// severities of their levels; where it is not, nothing is sent. Errors lose no
/// message and repeat none.
pub proof fn law_kept_messages_come_out_in_order<C, F, W>(
    worker: WorkerView<C, F, W>,
    messages: Seq<(Level, Seq<char>)>,
    errors: spec_fn(nat) -> Errors,
)
    requires
        worker.phase is Idle,
    ensures
        worker.history(log_requests(messages), errors).filter_map(
            |deed: Deed<C, F, W>| written(deed),
        ) == messages.filter_map(
            |message: (Level, Seq<char>)|
                if worker.level.includes(message.0) {
                    Some((worker.output, line_of(message.1)))
                } else {
                    None
                },
        ),
        worker.history(log_requests(messages), errors).filter_map(
            |deed: Deed<C, F, W>| sent(deed),
        ) == messages.filter_map(
            |message: (Level, Seq<char>)|
                if worker.syslog is Some && worker.level.includes(message.0) {
                    Some((worker.syslog, message.0.as_severity(), message.1))
                } else {
                    None
                },
        ),
        worker.after_all(log_requests(messages)) == worker,
    decreases messages.len(),
{
    let requests = log_requests::<C, F, W>(messages);
    let written_by = |deed: Deed<C, F, W>| written(deed);
    let sent_by = |deed: Deed<C, F, W>| sent(deed);
    let line_for = |message: (Level, Seq<char>)|
        if worker.level.includes(message.0) {
            Some((worker.output, line_of(message.1)))
        } else {
            None
        };
    let sent_for = |message: (Level, Seq<char>)|
        if worker.syslog is Some && worker.level.includes(message.0) {
            Some((worker.syslog, message.0.as_severity(), message.1))
        } else {
            None
        };
    reveal(Seq::filter_map);
    if messages.len() > 0 {
        let first = messages[0];
        let later = messages.drop_first();
        assert(messages =~= seq![first] + later);
        assert(requests.drop_first() =~= log_requests(later));
        assert(worker.after(requests[0]) == worker);
        law_kept_messages_come_out_in_order(worker, later, errors);
        let deeds = worker.deeds(requests[0], errors(later.len()));
        lemma_filter_map_add(deeds, worker.history(log_requests(later), errors), written_by);
        lemma_filter_map_add(deeds, worker.history(log_requests(later), errors), sent_by);
        lemma_filter_map_add(seq![first], later, line_for);
        lemma_filter_map_add(seq![first], later, sent_for);
        lemma_filter_map_one(first, line_for);
        lemma_filter_map_one(first, sent_for);
        if worker.level.includes(first.0) {
            lemma_message_deeds(worker, first.0, first.1, errors(later.len()), written_by);
            lemma_message_deeds(worker, first.0, first.1, errors(later.len()), sent_by);
        } else {
            assert(deeds =~= Seq::empty());
        }
        assert(seq![first].filter_map(line_for) =~= deeds.filter_map(written_by));
        assert(seq![first].filter_map(sent_for) =~= deeds.filter_map(sent_by));
    }
}

/// At most one thing that was picked.
spec fn at_most_one<B>(picked: Option<B>) -> Seq<B> {
    match picked {
        Some(picked) => seq![picked],
        None => seq![],
    }
}

/// Picking from a single thing.
proof fn lemma_filter_map_one<A, B>(thing: A, pick: spec_fn(A) -> Option<B>)
    ensures
        seq![thing].filter_map(pick) == at_most_one(pick(thing)),
        Seq::<A>::empty().filter_map(pick) == Seq::<B>::empty(),
{
    reveal_with_fuel(Seq::filter_map, 2);
    assert(seq![thing].drop_last() =~= Seq::<A>::empty());
    assert(seq![thing].filter_map(pick) =~= at_most_one(pick(thing)));
}

/// What is picked from what is done for one message, if reports are not.
proof fn lemma_message_deeds<C, F, W, B>(
    worker: WorkerView<C, F, W>,
    level: Level,
    message: Seq<char>,
    errors: Errors,
    pick: spec_fn(Deed<C, F, W>) -> Option<B>,
)
    requires
        worker.level.includes(level),
        forall|text: Seq<char>| pick(#[trigger] worker.deed(ActionView::Report(text))) is None,
    ensures
        worker.deeds(RequestView::log(level, message, None), errors).filter_map(pick)
            == at_most_one(pick(worker.deed(ActionView::Write(line_of(message))))) + (
        if worker.syslog is Some {
            at_most_one(pick(worker.deed(ActionView::Syslog(level.as_severity(), message))))
        } else {
            seq![]
        }),
{
    let write = worker.deed(ActionView::Write(line_of(message)));
    let send = worker.deed(ActionView::Syslog(level.as_severity(), message));
    let write_report = worker.report(errors.write, message);
    let send_report = worker.report(errors.send, message);
    let tail = if worker.syslog is Some {
        seq![send] + send_report
    } else {
        seq![]
    };
    lemma_report_not_picked(worker, errors.write, message, pick);
    lemma_report_not_picked(worker, errors.send, message, pick);
    lemma_filter_map_one(write, pick);
    lemma_filter_map_one(send, pick);
    lemma_filter_map_add(seq![send], send_report, pick);
    lemma_filter_map_add(seq![write], write_report, pick);
    lemma_filter_map_add(seq![write] + write_report, tail, pick);
    let deeds = worker.deeds(RequestView::log(level, message, None), errors);
    assert(deeds =~= seq![write] + write_report + tail);
    assert(deeds.filter_map(pick) =~= at_most_one(pick(write)) + (if worker.syslog is Some {
        at_most_one(pick(send))
    } else {
        seq![]
    }));
}

/// A report is not picked, where no report is.
proof fn lemma_report_not_picked<C, F, W, B>(
    worker: WorkerView<C, F, W>,
    error: Option<Seq<char>>,
    message: Seq<char>,
    pick: spec_fn(Deed<C, F, W>) -> Option<B>,
)
    requires
        forall|text: Seq<char>| pick(#[trigger] worker.deed(ActionView::Report(text))) is None,
    ensures
        worker.report(error, message).filter_map(pick) == Seq::<B>::empty(),
{
    let text = log_failure_of(error.unwrap(), message);
    lemma_filter_map_one(worker.deed(ActionView::Report(text)), pick);
}

/// A request with an exit code ends the process once it is obeyed, also where
/// its message is not kept, and nothing is done for the requests behind it.
pub proof fn law_exit_code_ends_the_process<C, F, W>(
    worker: WorkerView<C, F, W>,
    request: RequestView<C, F, W>,
    later: Seq<RequestView<C, F, W>>,
    errors: spec_fn(nat) -> Errors,
)
    requires
        worker.phase is Idle,
        request.code is Some,
    ensures
        worker.history(seq![request] + later, errors) == worker.deeds_for_message(
            request,
            errors(later.len()),
        ) + seq![worker.configured(request).deed(ActionView::Exit(request.code.unwrap()))],
        worker.after_all(seq![request] + later).phase == PhaseView::Exiting(request.code.unwrap()),
{
    let requests = seq![request] + later;
    reveal_with_fuel(WorkerView::history, 2);
    reveal_with_fuel(WorkerView::after_all, 2);
    assert(requests.drop_first() =~= later);
    assert(worker.history(requests, errors) =~= worker.deeds(request, errors(later.len())));
}

/// Without an exit code, nothing ends the process.
pub proof fn law_no_exit_without_code<C, F, W>(
    worker: WorkerView<C, F, W>,
    requests: Seq<RequestView<C, F, W>>,
    errors: spec_fn(nat) -> Errors,
)
    requires
        worker.phase is Idle,
        forall|i: int| 0 <= i < requests.len() ==> (#[trigger] requests[i]).code is None,
    ensures
        worker.after_all(requests).phase is Idle,
        forall|i: int|
            0 <= i < worker.history(requests, errors).len() ==> !((#[trigger] worker.history(
                requests,
                errors,
            )[i]).action is Exit),
    decreases requests.len(),
{
    if requests.len() > 0 {
        law_no_exit_without_code(worker.after(requests[0]), requests.drop_first(), errors);
    }
}

/// The levels are in order: every level includes itself, of two levels one
/// includes the other, two levels that include each other are the same, and
/// what an included level includes is included.
pub proof fn law_levels_are_ordered(a: Level, b: Level, c: Level)
    ensures
        a.includes(a),
        a.includes(b) || b.includes(a),
        a.includes(b) && b.includes(a) ==> a == b,
        a.includes(b) && b.includes(c) ==> a.includes(c),
{
}

/// `Debug` includes every level, and `Warning` only itself.
pub proof fn law_level_extremes(level: Level)
    ensures
        Level::Debug.includes(level),
        Level::Warning.includes(level) <==> level == Level::Warning,
        level.includes(Level::Warning),
        level.includes(Level::Debug) <==> level == Level::Debug,
{
}

/// Names that differ only in the case of their ASCII letters name the same
/// facility.
pub proof fn law_facility_names_ignore_case(name: Seq<char>, other: Seq<char>)
    requires
        lowercase(name) == lowercase(other),
    ensures
        Facility::of_name(name) == Facility::of_name(other),
        Facility::of_name(lowercase(name)) == Facility::of_name(name),
{
    assert(lowercase(lowercase(name)) =~= lowercase(name));
}

/// A name is that of a local facility exactly if it is `local`, in any case,
/// and a digit below 8. All other names stand for the user facility.
pub proof fn law_only_local_facilities_have_names(name: Seq<char>)
    ensures
        Facility::of_name(name) != Facility::User <==> {
            &&& name.len() == 6
            &&& lowercase(name).take(5) == "local"@
            &&& '0' <= name[5] <= '7'
        },
{
    let low = lowercase(name);
    reveal_strlit("local");
    reveal_strlit("local0");
    reveal_strlit("local1");
    reveal_strlit("local2");
    reveal_strlit("local3");
    reveal_strlit("local4");
    reveal_strlit("local5");
    reveal_strlit("local6");
    reveal_strlit("local7");
    if name.len() == 6 && low.take(5) == "local"@ && '0' <= name[5] <= '7' {
        assert forall|i: int| 0 <= i < 5 implies low[i] == "local"@[i] by {
            assert(low.take(5)[i] == low[i]);
        }
        assert(low[5] == name[5]);
        if name[5] == '0' {
            assert(low =~= "local0"@);
        } else if name[5] == '1' {
            assert(low =~= "local1"@);
        } else if name[5] == '2' {
            assert(low =~= "local2"@);
        } else if name[5] == '3' {
            assert(low =~= "local3"@);
        } else if name[5] == '4' {
            assert(low =~= "local4"@);
        } else if name[5] == '5' {
            assert(low =~= "local5"@);
        } else if name[5] == '6' {
            assert(low =~= "local6"@);
        } else if name[5] == '7' {
            assert(low =~= "local7"@);
        }
    }
    if Facility::of_name(name) != Facility::User {
        assert(low.take(5) =~= "local"@);
        assert(low[5] == lower(name[5]));
    }
}

/// Who receives what is written to a channel can tell from it every byte that
/// was written.
pub proof fn law_channel_bytes_tell_all(bytes: Seq<u8>, others: Seq<u8>)
    ensures
        valid_utf8(channel_bytes_of(bytes)),
        decode_utf8(channel_bytes_of(bytes)) == code_points(bytes),
        channel_bytes_of(bytes) == channel_bytes_of(others) ==> bytes == others,
{
    encode_utf8_valid_utf8(code_points(bytes));
    encode_utf8_decode_utf8(code_points(bytes));
    encode_utf8_decode_utf8(code_points(others));
    if channel_bytes_of(bytes) == channel_bytes_of(others) {
        assert(code_points(bytes) == code_points(others));
        assert forall|i: int| 0 <= i < bytes.len() implies bytes[i] == others[i] by {
            assert(code_points(bytes)[i] == code_points(others)[i]);
        }
        assert(bytes =~= others);
    }
}

/// A channel receives the line of an ASCII message as it is: the bytes of the
/// message and a line feed.
pub proof fn law_channel_receives_ascii_lines(message: Seq<char>)
    requires
        is_ascii_chars(message),
    ensures
        channel_bytes_of(encode_utf8(line_of(message))) == encode_utf8(message).push(10u8),
        encode_utf8(message) == Seq::new(message.len(), |i: int| message[i] as u8),
{
    let line = line_of(message);
    let bytes = encode_utf8(line);
    is_ascii_chars_encode_utf8(message);
    assert(is_ascii_chars(line));
    is_ascii_chars_encode_utf8(line);
    assert forall|i: int| 0 <= i < line.len() implies code_points(bytes)[i] == line[i] by {
        assert(line[i] as u8 == bytes[i]);
    }
    assert(code_points(bytes) =~= line);
    assert(encode_utf8(message) =~= Seq::new(message.len(), |i: int| message[i] as u8));
    assert forall|i: int| 0 <= i < line.len() implies bytes[i] == encode_utf8(message).push(
        10u8,
    )[i] by {
        assert(line[i] as u8 == bytes[i]);
        if i < message.len() {
            assert(line[i] == message[i]);
        }
    }
    assert(bytes =~= encode_utf8(message).push(10u8));
}

} // verus!
