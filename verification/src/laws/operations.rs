//! What single operations come to, told by what goes in and what comes out.

use crate::facility::{lower, lowercase, Facility};
use crate::laws::law_only_local_facilities_have_names;
use crate::level::{Level, Severity};
use crate::logger::LoggerView;
use crate::output::{Output, OutputView, Stream};
use crate::relay::MessageSenderView;
use crate::request::{Request, RequestView};
use crate::text::{channel_bytes_of, channel_failure_of, code_points, line_of, log_failure_of};
use crate::worker::{Action, ActionView, Entry, Phase, PhaseView, Worker, WorkerView};
use vstd::prelude::*;
use vstd::utf8::*;

verus! {

/// The line of a message is the message and one line feed, whatever the
/// message is made of. So lines do not run together, and tell the message.
pub proof fn law_line_is_message_and_line_feed(message: Seq<char>)
    ensures
        line_of(message).len() == message.len() + 1,
        line_of(message).last() == '\n',
        line_of(message).drop_last() == message,
{
    assert(line_of(message).drop_last() =~= message);
}

/// The notice of a failure names the error and then the message, in full.
pub proof fn law_failure_notice_names_error_and_message(error: Seq<char>, message: Seq<char>)
    ensures
        log_failure_of(error, message).len() == 15 + error.len() + message.len(),
        log_failure_of(error, message).take(14) == "Failed to log "@,
        log_failure_of(error, message).subrange(14, 14 + error.len() as int) == error,
        log_failure_of(error, message)[14 + error.len() as int] == ' ',
        log_failure_of(error, message).skip(15 + error.len() as int) == message,
{
    reveal_strlit("Failed to log ");
    reveal_strlit(" ");
    let text = log_failure_of(error, message);
    assert(text.take(14) =~= "Failed to log "@);
    assert(text.subrange(14, 14 + error.len() as int) =~= error);
    assert(text.skip(15 + error.len() as int) =~= message);
}

/// The notice of a channel that refuses names the error, in full.
pub proof fn law_channel_notice_names_error(error: Seq<char>)
    ensures
        channel_failure_of(error).len() == 27 + error.len(),
        channel_failure_of(error).take(27) == "Output into Channel error: "@,
        channel_failure_of(error).skip(27) == error,
{
    reveal_strlit("Output into Channel error: ");
    assert(channel_failure_of(error).take(27) =~= "Output into Channel error: "@);
    assert(channel_failure_of(error).skip(27) =~= error);
}

/// A channel receives text in UTF-8 with one character for every byte that was
/// written, in their order: the one whose code point is the byte.
pub proof fn law_channel_receives_a_character_for_every_byte(bytes: Seq<u8>)
    ensures
        valid_utf8(channel_bytes_of(bytes)),
        decode_utf8(channel_bytes_of(bytes)).len() == bytes.len(),
        forall|i: int|
            0 <= i < bytes.len() ==> (#[trigger] decode_utf8(channel_bytes_of(bytes))[i]) as u32
                == bytes[i] as u32,
{
    encode_utf8_valid_utf8(code_points(bytes));
    encode_utf8_decode_utf8(code_points(bytes));
}

/// A level includes itself and the levels above it, from `Debug` over
/// `Verbose` and `Notice` to `Warning`.
pub proof fn law_level_includes_those_above(level: Level, other: Level)
    ensures
        level.includes(other) <==> {
            ||| level == other
            ||| level == Level::Debug
            ||| other == Level::Warning
            ||| level == Level::Verbose && other == Level::Notice
        },
{
}

/// A severity stands for one level alone: `Verbose` goes as information, and
/// every other level under its own name.
pub proof fn law_severity_tells_the_level(level: Level)
    ensures
        level.as_severity() == Severity::Debug <==> level == Level::Debug,
        level.as_severity() == Severity::Info <==> level == Level::Verbose,
        level.as_severity() == Severity::Notice <==> level == Level::Notice,
        level.as_severity() == Severity::Warning <==> level == Level::Warning,
{
}

/// Whether the name is `local`, each letter in upper or lower case, and the
/// digit.
pub open spec fn names_local(name: Seq<char>, digit: char) -> bool {
    &&& name.len() == 6
    &&& name[0] == 'l' || name[0] == 'L'
    &&& name[1] == 'o' || name[1] == 'O'
    &&& name[2] == 'c' || name[2] == 'C'
    &&& name[3] == 'a' || name[3] == 'A'
    &&& name[4] == 'l' || name[4] == 'L'
    &&& name[5] == digit
}

/// The digit in a name says which local facility it is.
pub proof fn law_digit_tells_the_local_facility(name: Seq<char>)
    ensures
        Facility::of_name(name) == Facility::Local0 <==> names_local(name, '0'),
        Facility::of_name(name) == Facility::Local1 <==> names_local(name, '1'),
        Facility::of_name(name) == Facility::Local2 <==> names_local(name, '2'),
        Facility::of_name(name) == Facility::Local3 <==> names_local(name, '3'),
        Facility::of_name(name) == Facility::Local4 <==> names_local(name, '4'),
        Facility::of_name(name) == Facility::Local5 <==> names_local(name, '5'),
        Facility::of_name(name) == Facility::Local6 <==> names_local(name, '6'),
        Facility::of_name(name) == Facility::Local7 <==> names_local(name, '7'),
{
    law_only_local_facilities_have_names(name);
    reveal_strlit("local");
    reveal_strlit("local0");
    reveal_strlit("local1");
    reveal_strlit("local2");
    reveal_strlit("local3");
    reveal_strlit("local4");
    reveal_strlit("local5");
    reveal_strlit("local6");
    reveal_strlit("local7");
    let low = lowercase(name);
    if name.len() == 6 {
        assert forall|i: int| 0 <= i < 6 implies low[i] == lower(#[trigger] name[i]) by {}
        if low.take(5) == "local"@ {
            assert forall|i: int| 0 <= i < 5 implies low[i] == #[trigger] "local"@[i] by {
                assert(low.take(5)[i] == low[i]);
            }
            assert("local"@[0] == 'l' && "local"@[1] == 'o' && "local"@[2] == 'c' && "local"@[3]
                == 'a' && "local"@[4] == 'l');
            assert(lower(name[0]) == 'l' && lower(name[1]) == 'o' && lower(name[2]) == 'c' && lower(
                name[3],
            ) == 'a' && lower(name[4]) == 'l');
        }
        if names_local(name, name[5]) {
            assert(low.take(5) =~= "local"@);
        }
    }
    if Facility::of_name(name) != Facility::User {
        assert(low[5] == name[5]);
        assert("local0"@[5] == '0' && "local1"@[5] == '1' && "local2"@[5] == '2' && "local3"@[5]
            == '3' && "local4"@[5] == '4' && "local5"@[5] == '5' && "local6"@[5] == '6'
            && "local7"@[5] == '7');
    }
}

/// An output shows as what it is, with its handle and its path.
pub proof fn law_output_shows_its_parts<C, F>(output: Output<C, F>)
    ensures
        output matches Output::Channel(sender) ==> output@ == OutputView::<C, F>::Channel(sender),
        output is Stdout ==> output@ is Stdout,
        output is Stderr ==> output@ is Stderr,
        output matches Output::File(file, path) ==> output@ == OutputView::<C, F>::File(
            file,
            path@,
        ),
{
}

/// Of all outputs only a channel takes no bytes as they are; every other one
/// has its own stream.
pub proof fn law_stream_tells_the_output<C, F>(output: OutputView<C, F>)
    ensures
        output.as_stream() is None <==> output is Channel,
        output.as_stream() == Some(Stream::Stdout) <==> output is Stdout,
        output.as_stream() == Some(Stream::Stderr) <==> output is Stderr,
        output.as_stream() == Some(Stream::File) <==> output is File,
{
}

/// A description names the kind of the output, and the path of a file in full.
pub proof fn law_description_tells_the_output<C, F>(output: OutputView<C, F>)
    ensures
        output is Channel <==> output.description() == "Channel"@,
        output is Stdout <==> output.description() == "Stdout"@,
        output is Stderr <==> output.description() == "Stderr"@,
        output matches OutputView::File(_, path) ==> {
            &&& output.description().len() == 6 + path.len()
            &&& output.description().take(6) == "File: "@
            &&& output.description().skip(6) == path
        },
{
    reveal_strlit("Channel");
    reveal_strlit("Stdout");
    reveal_strlit("Stderr");
    reveal_strlit("File: ");
    assert("Stdout"@[3] == 'o' && "Stderr"@[3] == 'e');
    assert("Channel"@[0] == 'C' && "Stdout"@[0] == 'S' && "Stderr"@[0] == 'S' && "File: "@[0]
        == 'F');
    if let OutputView::File(_, path) = output {
        assert(output.description().take(6) =~= "File: "@);
        assert(output.description().skip(6) =~= path);
        assert(output.description()[0] == 'F');
    }
}

/// A request shows every part that it has, as it is.
pub proof fn law_request_shows_its_parts<C, F, W>(request: Request<C, F, W>)
    ensures
        request@.level == request.level,
        request@.syslog == request.syslog,
        request@.code == request.code,
        match request.message {
            Some(message) => request@.message == Some(message@),
            None => request@.message is None,
        },
        match request.output {
            Some(output) => request@.output == Some(output@),
            None => request@.output is None,
        },
{
}

/// A request to log carries its level, its message and its exit code, whatever
/// they are, and nothing else.
pub proof fn law_log_request_carries_all<C, F, W>(
    level: Level,
    message: Seq<char>,
    code: Option<i32>,
)
    ensures
        RequestView::<C, F, W>::log(level, message, code).level == Some(level),
        RequestView::<C, F, W>::log(level, message, code).message == Some(message),
        RequestView::<C, F, W>::log(level, message, code).code == code,
        RequestView::<C, F, W>::log(level, message, code).output is None,
        RequestView::<C, F, W>::log(level, message, code).syslog is None,
{
}

/// A request to change a setting carries just that setting, and neither a
/// message nor an exit code.
pub proof fn law_setting_requests_carry_one_setting<C, F, W>(
    level: Level,
    output: OutputView<C, F>,
    writer: Option<W>,
)
    ensures
        ({
            let request = RequestView::<C, F, W>::set_level(level);
            &&& request.level == Some(level)
            &&& request.output is None && request.syslog is None
            &&& request.message is None && request.code is None
        }),
        ({
            let request = RequestView::<C, F, W>::set_output(output);
            &&& request.output == Some(output)
            &&& request.level is None && request.syslog is None
            &&& request.message is None && request.code is None
        }),
        ({
            let request = RequestView::<C, F, W>::set_syslog(writer);
            &&& request.syslog == Some(writer)
            &&& request.level is None && request.output is None
            &&& request.message is None && request.code is None
        }),
        ({
            let request = RequestView::<C, F, W>::nothing();
            &&& request.level is None && request.output is None && request.syslog is None
            &&& request.message is None && request.code is None
        }),
{
}

/// A logger does not know what to do with a message that has no level, nor
/// with a request that asks for nothing. It knows with any other.
pub proof fn law_what_is_not_valid<C, F, W>(request: RequestView<C, F, W>)
    ensures
        !request.valid() <==> request.level is None && (request.message is Some || (
        request.output is None && request.syslog is None)),
{
}

/// An action shows as what it is, with its text, its severity and its code.
pub proof fn law_action_shows_its_parts(action: Action)
    ensures
        action is Receive ==> action@ is Receive,
        action is Stop ==> action@ is Stop,
        action matches Action::Write(text) ==> action@ == ActionView::Write(text@),
        action matches Action::Syslog(severity, message) ==> action@ == ActionView::Syslog(
            severity,
            message@,
        ),
        action matches Action::Report(text) ==> action@ == ActionView::Report(text@),
        action matches Action::Exit(code) ==> action@ == ActionView::Exit(code),
{
}

/// A worker shows its settings and its message on the way out as they are.
pub proof fn law_worker_shows_its_parts<C, F, W>(
    worker: Worker<C, F, W>,
    entry: Entry,
    error: String,
    code: i32,
)
    ensures
        worker@.level == worker.level,
        worker@.output == worker.output@,
        worker@.syslog == worker.syslog,
        worker@.phase == worker.phase@,
        entry@.level == entry.level && entry@.message == entry.message@ && entry@.code
            == entry.code,
        Phase::Idle@ is Idle,
        Phase::Writing(entry)@ == PhaseView::Writing(entry@),
        Phase::WriteFailed(entry, error)@ == PhaseView::WriteFailed(entry@, error@),
        Phase::Sending(entry)@ == PhaseView::Sending(entry@),
        Phase::SendFailed(entry, error)@ == PhaseView::SendFailed(entry@, error@),
        Phase::Exiting(code)@ == PhaseView::Exiting(code),
{
}

/// A new logger has the level and the output that it was created with,
/// whichever they are. It uses no syslog, nothing waits, and it takes requests.
pub proof fn law_new_logger_is_as_created<C, F, W>(level: Level, output: OutputView<C, F>)
    ensures
        WorkerView::<C, F, W>::fresh(level, output).level == level,
        WorkerView::<C, F, W>::fresh(level, output).output == output,
        WorkerView::<C, F, W>::fresh(level, output).syslog is None,
        WorkerView::<C, F, W>::fresh(level, output).phase is Idle,
        LoggerView::<C, F, W>::fresh(level, output).worker.level == level,
        LoggerView::<C, F, W>::fresh(level, output).worker.output == output,
        LoggerView::<C, F, W>::fresh(level, output).worker.syslog is None,
        LoggerView::<C, F, W>::fresh(level, output).worker.phase is Idle,
        LoggerView::<C, F, W>::fresh(level, output).pending.len() == 0,
        LoggerView::<C, F, W>::fresh(level, output).relays == 0,
        !LoggerView::<C, F, W>::fresh(level, output).closed,
        !LoggerView::<C, F, W>::fresh(level, output).gone,
{
}

/// What is due once a request is done: to exit if it has a code, whatever the
/// code is, and to wait for the next one if not.
pub open spec fn due_at_last(code: Option<i32>) -> ActionView {
    match code {
        Some(code) => ActionView::Exit(code),
        None => ActionView::Receive,
    }
}

/// Whether two workers have the same level, output and syslog writer.
pub open spec fn same_settings<C, F, W>(
    worker: WorkerView<C, F, W>,
    other: WorkerView<C, F, W>,
) -> bool {
    worker.level == other.level && worker.output == other.output && worker.syslog == other.syslog
}

/// A message that the level includes is to be written first, with a line feed
/// behind it; any other message is done with. Settings stay, also where the
/// request holds some.
pub proof fn law_message_is_written_or_dropped<C, F, W>(
    worker: WorkerView<C, F, W>,
    request: RequestView<C, F, W>,
)
    requires
        worker.phase is Idle,
        request.message is Some,
        request.level is Some,
    ensures
        same_settings(worker.received(request), worker),
        worker.level.includes(request.level.unwrap()) ==> {
            &&& worker.received(request).due() matches ActionView::Write(text)
            &&& text.len() == request.message.unwrap().len() + 1
            &&& text.last() == '\n'
            &&& text.drop_last() == request.message.unwrap()
        },
        !worker.level.includes(request.level.unwrap()) ==> worker.received(request).due()
            == due_at_last(request.code),
{
    law_line_is_message_and_line_feed(request.message.unwrap());
}

/// Once the message has been written, it is sent to syslog if a writer is in
/// use, under the severity of its own level; then the request is done. Settings
/// stay throughout.
pub proof fn law_written_message_goes_to_syslog<C, F, W>(
    worker: WorkerView<C, F, W>,
    request: RequestView<C, F, W>,
)
    requires
        worker.phase is Idle,
        request.message is Some,
        request.level is Some,
        worker.level.includes(request.level.unwrap()),
    ensures
        ({
            let written = worker.received(request).succeeded();
            &&& same_settings(written, worker)
            &&& same_settings(written.succeeded(), worker)
            &&& worker.syslog is Some ==> {
                &&& written.due() == ActionView::Syslog(
                    request.level.unwrap().as_severity(),
                    request.message.unwrap(),
                )
                &&& written.succeeded().due() == due_at_last(request.code)
            }
            &&& worker.syslog is None ==> written.due() == due_at_last(request.code)
        }),
{
}

/// A failure is reported, with the error and the message that it is about. It
/// changes nothing else: what follows the report is what follows success.
pub proof fn law_failure_is_reported_and_passed_over<C, F, W>(
    worker: WorkerView<C, F, W>,
    error: Seq<char>,
)
    requires
        worker.can_fail(),
    ensures
        worker.due() matches ActionView::Write(text) ==> worker.failed(error).due()
            == ActionView::Report("Failed to log "@ + error + " "@ + text.drop_last()),
        worker.due() matches ActionView::Syslog(_, message) ==> worker.failed(error).due()
            == ActionView::Report("Failed to log "@ + error + " "@ + message),
        worker.failed(error).succeeded() == worker.succeeded(),
        same_settings(worker.failed(error), worker),
        worker.failed(error).busy(),
        !worker.failed(error).can_fail(),
{
    if let PhaseView::Writing(entry) = worker.phase {
        law_line_is_message_and_line_feed(entry.message);
    }
}

/// The steps of a message on its way out, from wherever it is: writing comes
/// before syslog, syslog before the end, and the settings stay.
pub proof fn law_steps_go_on<C, F, W>(worker: WorkerView<C, F, W>)
    ensures
        same_settings(worker.succeeded(), worker),
        match worker.phase {
            PhaseView::Writing(entry) | PhaseView::WriteFailed(entry, _) => {
                if worker.syslog is Some {
                    worker.succeeded().phase == PhaseView::Sending(entry)
                } else {
                    worker.succeeded().due() == due_at_last(entry.code)
                }
            },
            PhaseView::Sending(entry) | PhaseView::SendFailed(entry, _) => {
                worker.succeeded().due() == due_at_last(entry.code)
            },
            _ => worker.succeeded() == worker,
        },
{
}

/// What is due tells where a worker is: it waits when it is idle, exits only at
/// the end, and is busy with everything else. Only writing and sending can
/// fail.
pub proof fn law_due_tells_the_phase<C, F, W>(worker: WorkerView<C, F, W>)
    ensures
        worker.phase is Idle <==> worker.due() is Receive,
        worker.phase is Writing <==> worker.due() is Write,
        worker.phase is Sending <==> worker.due() is Syslog,
        worker.phase is WriteFailed || worker.phase is SendFailed <==> worker.due() is Report,
        worker.phase matches PhaseView::Exiting(code) ==> worker.due() == ActionView::Exit(code),
        worker.busy() <==> worker.due() is Write || worker.due() is Syslog
            || worker.due() is Report,
        worker.can_fail() <==> worker.due() is Write || worker.due() is Syslog,
        match worker.phase {
            PhaseView::Writing(entry) => worker.due()->Write_0.drop_last() == entry.message,
            PhaseView::Sending(entry) => worker.due()->Syslog_1 == entry.message,
            PhaseView::WriteFailed(entry, error) | PhaseView::SendFailed(entry, error) => {
                worker.due()->Report_0 == "Failed to log "@ + error + " "@ + entry.message
            },
            _ => true,
        },
{
    if let PhaseView::Writing(entry) = worker.phase {
        law_line_is_message_and_line_feed(entry.message);
    }
}

/// A request that sets the level, the output or the syslog writer replaces just
/// that and leaves the rest of the worker as it was.
pub proof fn law_setting_replaces_one_thing<C, F, W>(
    worker: WorkerView<C, F, W>,
    level: Level,
    output: OutputView<C, F>,
    writer: Option<W>,
)
    requires
        worker.phase is Idle,
    ensures
        worker.received(RequestView::set_level(level)) == (WorkerView { level, ..worker }),
        worker.received(RequestView::set_output(output)) == (WorkerView { output, ..worker }),
        worker.received(RequestView::set_syslog(writer)) == (WorkerView {
            syslog: writer,
            ..worker
        }),
        worker.after(RequestView::set_level(level)) == (WorkerView { level, ..worker }),
        worker.after(RequestView::set_output(output)) == (WorkerView { output, ..worker }),
        worker.after(RequestView::set_syslog(writer)) == (WorkerView { syslog: writer, ..worker }),
{
}

/// Of several settings in one request the first counts, in the order level,
/// output, syslog writer; the others stay as they were. The request is then
/// done.
pub proof fn law_first_setting_counts<C, F, W>(
    worker: WorkerView<C, F, W>,
    request: RequestView<C, F, W>,
)
    requires
        worker.phase is Idle,
        request.message is None,
    ensures
        ({
            let taken = worker.received(request);
            let by_level = request.level is Some;
            let by_output = !by_level && request.output is Some;
            let by_syslog = !by_level && !by_output && request.syslog is Some;
            &&& Some(taken.level) == if by_level {
                request.level
            } else {
                Some(worker.level)
            }
            &&& Some(taken.output) == if by_output {
                request.output
            } else {
                Some(worker.output)
            }
            &&& Some(taken.syslog) == if by_syslog {
                request.syslog
            } else {
                Some(worker.syslog)
            }
            &&& taken.due() == due_at_last(request.code)
        }),
{
}

/// A request that is submitted waits behind all that wait, however many do, and
/// changes nothing else.
pub proof fn law_submitted_request_waits_behind_all<C, F, W>(
    logger: LoggerView<C, F, W>,
    request: RequestView<C, F, W>,
)
    ensures
        logger.submitted(request).pending.len() == logger.pending.len() + 1,
        logger.submitted(request).pending.last() == request,
        logger.submitted(request).pending.drop_last() == logger.pending,
        logger.submitted(request).worker == logger.worker,
        logger.submitted(request).closed == logger.closed,
        logger.submitted(request).relays == logger.relays,
        logger.submitted(request).gone == logger.gone,
{
    assert(logger.submitted(request).pending.drop_last() =~= logger.pending);
}

/// A logger at work takes up no request. An idle one takes up the oldest
/// request, and then others only if that left it idle. Those that are not taken
/// up are the newest, in their order.
pub proof fn law_oldest_request_is_taken_up_first<C, F, W>(
    logger: LoggerView<C, F, W>,
    oldest: RequestView<C, F, W>,
    others: Seq<RequestView<C, F, W>>,
)
    requires
        logger.pending == seq![oldest] + others,
    ensures
        !(logger.worker.phase is Idle) ==> logger.settled() == logger,
        logger.worker.phase is Idle && !(logger.worker.received(oldest).phase is Idle)
            ==> logger.settled() == (LoggerView {
            pending: others,
            worker: logger.worker.received(oldest),
            ..logger
        }),
        logger.worker.phase is Idle && logger.worker.received(oldest).phase is Idle
            ==> logger.settled() == (LoggerView {
            pending: others,
            worker: logger.worker.received(oldest),
            ..logger
        }).settled(),
        logger.settled().pending.len() <= logger.pending.len(),
        logger.settled().pending == logger.pending.skip(
            logger.pending.len() - logger.settled().pending.len(),
        ),
    decreases others.len(),
{
    assert(logger.pending.drop_first() =~= others);
    assert(logger.pending.skip(0) =~= logger.pending);
    let taken = LoggerView {
        pending: others,
        worker: logger.worker.received(oldest),
        ..logger
    };
    if logger.worker.phase is Idle {
        assert(logger.settled() == taken.settled());
        if taken.worker.phase is Idle && others.len() > 0 {
            assert(others =~= seq![others[0]] + others.drop_first());
            law_oldest_request_is_taken_up_first(taken, others[0], others.drop_first());
        } else {
            assert(taken.settled() == taken);
        }
        let left = taken.settled().pending;
        assert(others.skip(0) =~= others);
        assert(logger.pending.skip(logger.pending.len() - left.len()) =~= others.skip(
            others.len() - left.len(),
        ));
    }
}

/// A logger that nothing is asked of stays as it is. It waits while requests
/// can come, and stops when the worker has ended, or when it is closed and no
/// sender is relayed. While there is something to do for a request, that is
/// due, whatever else holds.
pub proof fn law_logger_waits_or_stops_only_when_idle<C, F, W>(logger: LoggerView<C, F, W>)
    ensures
        logger.pending.len() == 0 ==> logger.settled() == logger,
        !(logger.worker.phase is Idle) ==> logger.due() == logger.worker.due(),
        logger.worker.phase is Idle && logger.gone ==> logger.due() is Stop,
        logger.worker.phase is Idle && !logger.gone && !logger.closed ==> logger.due() is Receive,
        logger.worker.phase is Idle && !logger.gone && logger.closed ==> (if logger.relays == 0 {
            logger.due() is Stop
        } else {
            logger.due() is Receive
        }),
{
}

/// A logger takes requests of the program until it is closed, and requests at
/// all as long as somebody can make one. It is well formed whatever waits, as
/// long as every request is valid.
pub proof fn law_who_can_make_requests<C, F, W>(logger: LoggerView<C, F, W>)
    ensures
        logger.gone ==> !logger.accepting() && !logger.reachable(),
        !logger.gone ==> (logger.accepting() <==> !logger.closed),
        !logger.gone ==> (!logger.reachable() <==> logger.closed && logger.relays == 0),
        !logger.gone && (forall|i: int|
            0 <= i < logger.pending.len() ==> (#[trigger] logger.pending[i]).valid())
            ==> logger.wf(),
        logger.pending.len() == 0 && logger.worker.phase is Idle ==> logger.wf(),
{
}

/// The sender once these messages have been sent through it, one by one.
pub open spec fn sent_all(
    sender: MessageSenderView,
    messages: Seq<(Level, Seq<char>)>,
) -> MessageSenderView
    decreases messages.len(),
{
    if messages.len() == 0 {
        sender
    } else {
        sent_all(sender.sent(messages[0].0, messages[0].1), messages.drop_first())
    }
}

/// A message that is sent waits behind all that wait, however many do, and
/// changes nothing else. Where the relay has stopped, nothing changes.
pub proof fn law_sent_message_waits_behind_all(
    sender: MessageSenderView,
    level: Level,
    message: Seq<char>,
)
    ensures
        sender.stopped ==> sender.sent(level, message) == sender,
        !sender.stopped ==> {
            &&& sender.sent(level, message).entries.len() == sender.entries.len() + 1
            &&& sender.sent(level, message).entries.last() == (level, message)
            &&& sender.sent(level, message).entries.drop_last() == sender.entries
        },
        sender.sent(level, message).hung_up == sender.hung_up,
        sender.sent(level, message).stopped == sender.stopped,
{
    if !sender.stopped {
        assert(sender.sent(level, message).entries.drop_last() =~= sender.entries);
    }
}

/// All messages that are sent wait in the order in which they were sent, behind
/// those that waited before. None is lost, however many there are.
pub proof fn law_sent_messages_all_wait(
    sender: MessageSenderView,
    messages: Seq<(Level, Seq<char>)>,
)
    requires
        !sender.stopped,
    ensures
        sent_all(sender, messages).entries == sender.entries + messages,
        sent_all(sender, messages).hung_up == sender.hung_up,
        !sent_all(sender, messages).stopped,
    decreases messages.len(),
{
    if messages.len() == 0 {
        assert(sender.entries + messages =~= sender.entries);
    } else {
        let next = sender.sent(messages[0].0, messages[0].1);
        law_sent_message_waits_behind_all(sender, messages[0].0, messages[0].1);
        law_sent_messages_all_wait(next, messages.drop_first());
        assert(next.entries =~= sender.entries.push(messages[0]));
        assert(next.entries + messages.drop_first() =~= sender.entries + messages);
    }
}

/// A new sender holds nothing, and both of its ends are in use.
pub proof fn law_new_sender_is_empty()
    ensures
        MessageSenderView::fresh().entries.len() == 0,
        !MessageSenderView::fresh().hung_up,
        !MessageSenderView::fresh().stopped,
{
}

/// One step of a relay hands over one message, the oldest, and leaves the
/// others and the logger's worker alone.
pub proof fn law_relay_hands_over_the_oldest<C, F, W>(
    logger: LoggerView<C, F, W>,
    sender: MessageSenderView,
    level: Level,
    message: Seq<char>,
    others: Seq<(Level, Seq<char>)>,
)
    requires
        sender.entries == seq![(level, message)] + others,
        !sender.stopped,
        !logger.gone,
    ensures
        ({
            let (after, left) = logger.forwarded(sender);
            &&& after.pending.len() == logger.pending.len() + 1
            &&& after.pending.drop_last() == logger.pending
            &&& after.pending.last().message == Some(message)
            &&& after.pending.last().level == Some(level)
            &&& after.pending.last().code is None
            &&& after.pending.last().output is None && after.pending.last().syslog is None
            &&& after.worker == logger.worker && after.closed == logger.closed
            &&& after.relays == logger.relays && !after.gone
            &&& left.entries == others
            &&& left.hung_up == sender.hung_up && !left.stopped
        }),
{
    assert(sender.entries.drop_first() =~= others);
    assert(logger.forwarded(sender).0.pending.drop_last() =~= logger.pending);
}

/// A relay without a message to hand over waits, unless nobody can send any
/// more: then it stops. It also stops where the worker has ended and a message
/// comes. A stopped relay does nothing. The logger is left alone in all this,
/// but for one relay less when one stops.
pub proof fn law_relay_waits_or_stops<C, F, W>(
    logger: LoggerView<C, F, W>,
    sender: MessageSenderView,
)
    requires
        sender.stopped || sender.entries.len() == 0 || logger.gone,
        sender.stopped || logger.relays > 0,
    ensures
        ({
            let (after, left) = logger.forwarded(sender);
            let stops = !sender.stopped && (sender.entries.len() > 0 || sender.hung_up);
            &&& left.stopped == (sender.stopped || stops)
            &&& left.hung_up == sender.hung_up
            &&& stops ==> after.relays + 1 == logger.relays && left.entries.len() == 0
            &&& !stops ==> after.relays == logger.relays && left.entries == sender.entries
            &&& after.pending == logger.pending && after.worker == logger.worker
            &&& after.closed == logger.closed && after.gone == logger.gone
        }),
{
}

} // verus!
