//! What a logger does from being asked to being done, told by what was asked of
//! it and by what comes out.

use crate::history::{Deed, Errors};
use crate::laws::operations::{
    law_line_is_message_and_line_feed, law_sent_messages_all_wait, sent_all,
};
use crate::laws::{
    drained, law_exit_code_ends_the_process, law_kept_messages_come_out_in_order,
    law_requests_are_obeyed_in_order, law_senders_keep_the_order, log_requests, sent, written,
};
use crate::level::Level;
use crate::logger::LoggerView;
use crate::output::OutputView;
use crate::relay::MessageSenderView;
use crate::request::RequestView;
use crate::text::line_of;
use crate::worker::{ActionView, PhaseView, WorkerView};
use vstd::prelude::*;

verus! {

/// Whether nothing is asked of the logger, and its worker is there.
pub open spec fn at_rest<C, F, W>(logger: LoggerView<C, F, W>) -> bool {
    logger.worker.phase is Idle && logger.pending.len() == 0 && !logger.gone
}

/// The report of an error about a message, if there was one, while the output
/// and the syslog writer are these.
pub open spec fn reported<C, F, W>(
    output: OutputView<C, F>,
    syslog: Option<W>,
    error: Option<Seq<char>>,
    message: Seq<char>,
) -> Seq<Deed<C, F, W>> {
    match error {
        Some(error) => seq![
            Deed {
                output,
                syslog,
                action: ActionView::Report("Failed to log "@ + error + " "@ + message),
            },
        ],
        None => seq![],
    }
}

/// What is done for a message that is kept, while the output and the syslog
/// writer are these: it is written with a line feed behind it, then sent to
/// syslog, then the process ends if there is a code. What goes wrong is
/// reported.
pub open spec fn done_for_kept<C, F, W>(
    output: OutputView<C, F>,
    syslog: Option<W>,
    level: Level,
    message: Seq<char>,
    code: Option<i32>,
    errors: Errors,
) -> Seq<Deed<C, F, W>> {
    seq![Deed { output, syslog, action: ActionView::Write(message + seq!['\n']) }] + reported(
        output,
        syslog,
        errors.write,
        message,
    ) + (if syslog is Some {
        seq![Deed { output, syslog, action: ActionView::Syslog(level.as_severity(), message) }]
            + reported(output, syslog, errors.send, message)
    } else {
        seq![]
    }) + done_last(output, syslog, code)
}

/// The end of the process, if there is a code.
pub open spec fn done_last<C, F, W>(
    output: OutputView<C, F>,
    syslog: Option<W>,
    code: Option<i32>,
) -> Seq<Deed<C, F, W>> {
    match code {
        Some(code) => seq![Deed { output, syslog, action: ActionView::Exit(code) }],
        None => seq![],
    }
}

/// What a worker does for a message that its level includes.
proof fn lemma_done_for_kept<C, F, W>(
    worker: WorkerView<C, F, W>,
    level: Level,
    message: Seq<char>,
    code: Option<i32>,
    errors: Errors,
)
    ensures
        worker.deeds(RequestView::log(level, message, code), errors) == (if worker.level.includes(
            level,
        ) {
            done_for_kept(worker.output, worker.syslog, level, message, code, errors)
        } else {
            done_last(worker.output, worker.syslog, code)
        }),
{
    assert(line_of(message) =~= message + seq!['\n']);
    assert(worker.deeds(RequestView::log(level, message, code), errors) =~= (
    if worker.level.includes(level) {
        done_for_kept(worker.output, worker.syslog, level, message, code, errors)
    } else {
        done_last(worker.output, worker.syslog, code)
    }));
}

/// All that a logger at rest does when it is asked to log one message, for
/// every message, level and code, and whatever goes wrong.
pub proof fn law_run_for_one_message<C, F, W>(
    logger: LoggerView<C, F, W>,
    level: Level,
    message: Seq<char>,
    code: Option<i32>,
    errors: spec_fn(nat) -> Errors,
)
    requires
        at_rest(logger),
    ensures
        logger.submitted(RequestView::log(level, message, code)).run(errors) == (
        if logger.worker.level.includes(level) {
            done_for_kept(
                logger.worker.output,
                logger.worker.syslog,
                level,
                message,
                code,
                errors(0),
            )
        } else {
            done_last(logger.worker.output, logger.worker.syslog, code)
        }),
{
    let request = RequestView::<C, F, W>::log(level, message, code);
    let submitted = logger.submitted(request);
    assert(submitted.pending =~= seq![request]);
    law_requests_are_obeyed_in_order(submitted, errors);
    reveal_with_fuel(WorkerView::history, 2);
    assert(submitted.run(errors) =~= logger.worker.deeds(request, errors(0)));
    lemma_done_for_kept(logger.worker, level, message, code, errors(0));
}

/// A logger that is asked to log a message and to exit does so with that code,
/// whatever the code is, as the last thing. Nothing is written for what was
/// asked later.
pub proof fn law_run_ends_with_the_exit_code<C, F, W>(
    logger: LoggerView<C, F, W>,
    level: Level,
    message: Seq<char>,
    code: i32,
    later: Seq<RequestView<C, F, W>>,
    errors: spec_fn(nat) -> Errors,
)
    requires
        logger.wf(),
        logger.worker.phase is Idle,
        logger.pending == seq![RequestView::<C, F, W>::log(level, message, Some(code))] + later,
    ensures
        logger.run(errors) == (if logger.worker.level.includes(level) {
            done_for_kept(
                logger.worker.output,
                logger.worker.syslog,
                level,
                message,
                Some(code),
                errors(later.len()),
            )
        } else {
            done_last(logger.worker.output, logger.worker.syslog, Some(code))
        }),
        logger.run(errors).len() > 0,
        logger.run(errors).last().action == ActionView::Exit(code),
        logger.end().phase == PhaseView::Exiting(code),
{
    let request = RequestView::<C, F, W>::log(level, message, Some(code));
    law_requests_are_obeyed_in_order(logger, errors);
    law_exit_code_ends_the_process(logger.worker, request, later, errors);
    lemma_done_for_kept(logger.worker, level, message, Some(code), errors(later.len()));
    assert(logger.run(errors) =~= logger.worker.deeds(request, errors(later.len())));
}

/// A new logger does everything at the output that it was created for: the
/// first thing is to write a message of its own level there, with a line feed
/// behind it.
pub proof fn law_new_logger_writes_to_its_output<C, F, W>(
    kept: Level,
    output: OutputView<C, F>,
    level: Level,
    message: Seq<char>,
    code: Option<i32>,
    errors: spec_fn(nat) -> Errors,
)
    requires
        kept.includes(level),
    ensures
        ({
            let run = LoggerView::<C, F, W>::fresh(kept, output).submitted(
                RequestView::log(level, message, code),
            ).run(errors);
            &&& run.len() > 0
            &&& run[0].output == output
            &&& run[0].syslog is None
            &&& run[0].action == ActionView::Write(message + seq!['\n'])
            &&& forall|i: int| 0 <= i < run.len() ==> (#[trigger] run[i]).output == output
            &&& forall|i: int| 0 <= i < run.len() ==> !((#[trigger] run[i]).action is Syslog)
        }),
{
    law_run_for_one_message(
        LoggerView::<C, F, W>::fresh(kept, output),
        level,
        message,
        code,
        errors,
    );
}

/// What is done for a message that is logged right after a setting was
/// changed.
proof fn lemma_setting_then_message<C, F, W>(
    logger: LoggerView<C, F, W>,
    setting: RequestView<C, F, W>,
    level: Level,
    message: Seq<char>,
    code: Option<i32>,
    errors: spec_fn(nat) -> Errors,
)
    requires
        at_rest(logger),
        setting.valid(),
        setting.message is None,
        setting.code is None,
    ensures
        logger.submitted(setting).submitted(RequestView::log(level, message, code)).run(errors)
            == logger.worker.configured(setting).deeds(
            RequestView::log(level, message, code),
            errors(0),
        ),
{
    let request = RequestView::<C, F, W>::log(level, message, code);
    let submitted = logger.submitted(setting).submitted(request);
    assert(submitted.pending =~= seq![setting, request]);
    law_requests_are_obeyed_in_order(submitted, errors);
    reveal_with_fuel(WorkerView::history, 3);
    assert(submitted.pending.drop_first() =~= seq![request]);
    assert(logger.worker.deeds(setting, errors(1)) =~= Seq::empty());
    assert(submitted.run(errors) =~= logger.worker.configured(setting).deeds(request, errors(0)));
}

/// Messages that are logged after the output was changed go to the new output,
/// under the level and the syslog writer from before.
pub proof fn law_run_after_changing_the_output<C, F, W>(
    logger: LoggerView<C, F, W>,
    output: OutputView<C, F>,
    level: Level,
    message: Seq<char>,
    code: Option<i32>,
    errors: spec_fn(nat) -> Errors,
)
    requires
        at_rest(logger),
    ensures
        logger.submitted(RequestView::set_output(output)).submitted(
            RequestView::log(level, message, code),
        ).run(errors) == (if logger.worker.level.includes(level) {
            done_for_kept(output, logger.worker.syslog, level, message, code, errors(0))
        } else {
            done_last(output, logger.worker.syslog, code)
        }),
{
    let setting = RequestView::<C, F, W>::set_output(output);
    lemma_setting_then_message(logger, setting, level, message, code, errors);
    lemma_done_for_kept(logger.worker.configured(setting), level, message, code, errors(0));
}

/// Messages that are logged after the level was changed are kept by the new
/// level, and go to the output and the syslog writer from before.
pub proof fn law_run_after_changing_the_level<C, F, W>(
    logger: LoggerView<C, F, W>,
    kept: Level,
    level: Level,
    message: Seq<char>,
    code: Option<i32>,
    errors: spec_fn(nat) -> Errors,
)
    requires
        at_rest(logger),
    ensures
        logger.submitted(RequestView::set_level(kept)).submitted(
            RequestView::log(level, message, code),
        ).run(errors) == (if kept.includes(level) {
            done_for_kept(
                logger.worker.output,
                logger.worker.syslog,
                level,
                message,
                code,
                errors(0),
            )
        } else {
            done_last(logger.worker.output, logger.worker.syslog, code)
        }),
{
    let setting = RequestView::<C, F, W>::set_level(kept);
    lemma_setting_then_message(logger, setting, level, message, code, errors);
    lemma_done_for_kept(logger.worker.configured(setting), level, message, code, errors(0));
}

/// Messages that are logged after syslog was enabled or disabled go to the new
/// writer, or to none, and are kept and written as before.
pub proof fn law_run_after_changing_syslog<C, F, W>(
    logger: LoggerView<C, F, W>,
    writer: Option<W>,
    level: Level,
    message: Seq<char>,
    code: Option<i32>,
    errors: spec_fn(nat) -> Errors,
)
    requires
        at_rest(logger),
    ensures
        logger.submitted(RequestView::set_syslog(writer)).submitted(
            RequestView::log(level, message, code),
        ).run(errors) == (if logger.worker.level.includes(level) {
            done_for_kept(logger.worker.output, writer, level, message, code, errors(0))
        } else {
            done_last(logger.worker.output, writer, code)
        }),
{
    let setting = RequestView::<C, F, W>::set_syslog(writer);
    lemma_setting_then_message(logger, setting, level, message, code, errors);
    lemma_done_for_kept(logger.worker.configured(setting), level, message, code, errors(0));
}

/// Everything that is sent through a new sender reaches the logger, in the
/// order in which it was sent, however much it is: each message becomes one
/// request to log it, without an exit code.
pub proof fn law_all_sent_messages_reach_the_logger<C, F, W>(
    logger: LoggerView<C, F, W>,
    messages: Seq<(Level, Seq<char>)>,
)
    requires
        !logger.gone,
    ensures
        ({
            let sender = sent_all(MessageSenderView::fresh(), messages);
            let after = drained(logger, sender).0;
            &&& after.pending.len() == logger.pending.len() + messages.len()
            &&& after.pending.take(logger.pending.len() as int) == logger.pending
            &&& forall|i: int|
                #![trigger messages[i]]
                0 <= i < messages.len() ==> {
                    let request = after.pending[logger.pending.len() + i];
                    &&& request.level == Some(messages[i].0)
                    &&& request.message == Some(messages[i].1)
                    &&& request.code is None && request.output is None && request.syslog is None
                }
            &&& after.worker == logger.worker
            &&& drained(logger, sender).1.entries.len() == 0
            &&& !drained(logger, sender).1.stopped
        }),
{
    let sender = sent_all(MessageSenderView::fresh(), messages);
    law_sent_messages_all_wait(MessageSenderView::fresh(), messages);
    assert(sender.entries =~= messages);
    law_senders_keep_the_order(logger, sender);
    let after = drained(logger, sender).0;
    assert(after.pending.take(logger.pending.len() as int) =~= logger.pending);
}

/// Of the messages that are sent through a new sender, a logger at rest writes
/// those that its level includes, each with a line feed behind it, in their
/// order, and sends the same to syslog if that is in use.
pub proof fn law_sent_messages_come_out_in_order<C, F, W>(
    logger: LoggerView<C, F, W>,
    messages: Seq<(Level, Seq<char>)>,
    errors: spec_fn(nat) -> Errors,
)
    requires
        at_rest(logger),
    ensures
        drained(logger, sent_all(MessageSenderView::fresh(), messages)).0.run(errors).filter_map(
            |deed: Deed<C, F, W>| written(deed),
        ) == messages.filter_map(
            |message: (Level, Seq<char>)|
                if logger.worker.level.includes(message.0) {
                    Some((logger.worker.output, message.1 + seq!['\n']))
                } else {
                    None
                },
        ),
        drained(logger, sent_all(MessageSenderView::fresh(), messages)).0.run(errors).filter_map(
            |deed: Deed<C, F, W>| sent(deed),
        ) == messages.filter_map(
            |message: (Level, Seq<char>)|
                if logger.worker.syslog is Some && logger.worker.level.includes(message.0) {
                    Some((logger.worker.syslog, message.0.as_severity(), message.1))
                } else {
                    None
                },
        ),
{
    let sender = sent_all(MessageSenderView::fresh(), messages);
    law_sent_messages_all_wait(MessageSenderView::fresh(), messages);
    assert(sender.entries =~= messages);
    law_senders_keep_the_order(logger, sender);
    let after = drained(logger, sender).0;
    assert(after.pending =~= log_requests(messages));
    assert(after.wf());
    law_requests_are_obeyed_in_order(after, errors);
    law_kept_messages_come_out_in_order(logger.worker, messages, errors);
    assert forall|text: Seq<char>| #[trigger] line_of(text) == text + seq!['\n'] by {
        law_line_is_message_and_line_feed(text);
        assert(line_of(text) =~= text + seq!['\n']);
    }
    assert((|message: (Level, Seq<char>)|
        if logger.worker.level.includes(message.0) {
            Some((logger.worker.output, line_of(message.1)))
        } else {
            None
        }) =~= (|message: (Level, Seq<char>)|
        if logger.worker.level.includes(message.0) {
            Some((logger.worker.output, message.1 + seq!['\n']))
        } else {
            None
        }));
}

} // verus!
