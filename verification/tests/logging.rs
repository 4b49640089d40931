use logger::{Action, Delivery, Level, Logger, Output, Relay, Request, Severity};
use std::sync::mpsc::{channel, Sender, TryRecvError};

type Writer = &'static str;
type Log = Logger<Sender<Vec<u8>>, Vec<u8>, Writer>;

/// Does what the logger asks for until it waits or exits, and returns what was
/// done. Files are buffers in memory.
fn pump(logger: &mut Log) -> Vec<Action> {
    let mut done = Vec::new();
    loop {
        let action = logger.next();
        match &action {
            Action::Receive | Action::Stop => return done,
            Action::Exit(_) => {
                done.push(action);
                return done;
            }
            Action::Write(line) => {
                let output = logger.output_mut();
                let bytes = line.as_bytes();
                let outcome: Result<usize, String> = match output.write(bytes) {
                    Delivery::Send(encoded) => match output {
                        Output::Channel(sender) => match sender.send(encoded) {
                            Ok(()) => Ok(0),
                            Err(error) => Err(format!("{:?}", error)),
                        },
                        _ => panic!("only a channel is sent to"),
                    },
                    Delivery::Pass(_) => {
                        if let Output::File(buffer, _) = output {
                            buffer.extend_from_slice(bytes);
                        }
                        Ok(bytes.len())
                    }
                };
                match output.written(bytes.len(), outcome) {
                    Ok(n) => {
                        assert_eq!(n, bytes.len());
                        logger.succeed();
                    }
                    Err(error) => logger.fail(error),
                }
            }
            Action::Syslog(_, _) => {
                assert!(logger.syslog().is_some());
                logger.succeed();
            }
            Action::Report(_) => logger.succeed(),
        }
        done.push(action);
    }
}

#[test]
fn log_something() {
    let (tx, rx) = channel();
    let mut logger: Log = Logger::channel(Level::Debug, tx);
    logger.log(Level::Debug, "hello world".to_owned(), None);
    pump(&mut logger);
    assert_eq!(rx.recv().unwrap(), b"hello world\n");
}

#[test]
fn dont_log_something() {
    let (tx, rx) = channel();
    let mut logger: Log = Logger::channel(Level::Warning, tx);
    logger.log(Level::Debug, "hello world".to_owned(), None);
    pump(&mut logger);
    assert_eq!(rx.try_recv().unwrap_err(), TryRecvError::Empty);
}

#[test]
fn test_macro() {
    let (tx, rx) = channel();
    let mut logger: Log = Logger::channel(Level::Debug, tx);
    logger.log(Level::Debug, format!("hello {}", "world"), None);
    pump(&mut logger);
    assert_eq!(rx.recv().unwrap(), b"hello world\n");
}

#[test]
fn test_sender() {
    let (tx, rx) = channel();
    let mut logger: Log = Logger::channel(Level::Debug, tx);
    let mut sender = logger.sender();
    sender.send((Level::Debug, "hello world".to_owned())).unwrap();
    assert!(logger.forward(&mut sender));
    pump(&mut logger);
    assert_eq!(rx.recv().unwrap(), b"hello world\n");
}

#[test]
fn it_works() {
    assert_eq!(2 + 2, 4);
}

#[test]
fn senders_keep_the_order_of_their_messages() {
    let (tx, rx) = channel();
    let mut logger: Log = Logger::channel(Level::Notice, tx);
    let mut one = logger.sender();
    let mut two = logger.sender();
    one.send((Level::Notice, "a".to_owned())).unwrap();
    one.send((Level::Debug, "dropped".to_owned())).unwrap();
    one.send((Level::Warning, "b".to_owned())).unwrap();
    two.send((Level::Warning, "c".to_owned())).unwrap();
    assert!(logger.forward(&mut one));
    assert!(logger.forward(&mut two));
    assert!(logger.forward(&mut one));
    assert!(logger.forward(&mut one));
    assert!(logger.forward(&mut one));
    pump(&mut logger);
    assert_eq!(rx.recv().unwrap(), b"a\n");
    assert_eq!(rx.recv().unwrap(), b"c\n");
    assert_eq!(rx.recv().unwrap(), b"b\n");
    assert_eq!(rx.try_recv().unwrap_err(), TryRecvError::Empty);
}

#[test]
fn relay_stops_when_nobody_sends_any_more() {
    let mut logger: Log = Logger::new(Level::Debug);
    let mut sender = logger.sender();
    assert!(logger.forward(&mut sender));
    sender.send((Level::Debug, "last".to_owned())).unwrap();
    sender.hang_up();
    assert!(logger.forward(&mut sender));
    assert!(!sender.is_stopped());
    assert!(!logger.forward(&mut sender));
    assert!(sender.is_stopped());
    assert!(!logger.forward(&mut sender));
    assert_eq!(pump(&mut logger), vec![Action::Write("last\n".to_owned())]);
    assert_eq!(logger.next(), Action::Receive);
}

#[test]
fn sender_keeps_the_logger_open() {
    let mut logger: Log = Logger::new(Level::Notice);
    let mut one = logger.sender();
    let mut two = logger.sender();
    logger.close();
    assert_eq!(logger.next(), Action::Receive);
    one.send((Level::Warning, "kept".to_owned())).unwrap();
    one.send((Level::Debug, "dropped".to_owned())).unwrap();
    one.hang_up();
    while logger.forward(&mut one) {}
    assert_eq!(pump(&mut logger), vec![Action::Write("kept\n".to_owned())]);
    assert_eq!(logger.next(), Action::Receive);
    two.send((Level::Notice, "last".to_owned())).unwrap();
    two.hang_up();
    while logger.forward(&mut two) {}
    assert_eq!(pump(&mut logger), vec![Action::Write("last\n".to_owned())]);
    assert_eq!(logger.next(), Action::Stop);
}

#[test]
fn relay_stops_when_the_worker_has_ended() {
    let mut logger: Log = Logger::new(Level::Debug);
    let mut sender = logger.sender();
    logger.log(Level::Debug, "waits".to_owned(), None);
    logger.end_worker();
    assert_eq!(logger.next(), Action::Stop);
    assert!(logger.forward(&mut sender));
    sender.send((Level::Debug, "lost".to_owned())).unwrap();
    sender.send((Level::Debug, "lost too".to_owned())).unwrap();
    assert!(!logger.forward(&mut sender));
    assert!(sender.is_stopped());
    assert_eq!(
        sender.send((Level::Notice, "refused".to_owned())),
        Err((Level::Notice, "refused".to_owned()))
    );
    assert!(!logger.forward(&mut sender));
    assert_eq!(pump(&mut logger), vec![]);
}

#[test]
fn failed_logfile_leaves_a_closed_logger_alone() {
    let mut logger: Log = Logger::new(Level::Debug);
    logger.close();
    assert_eq!(logger.set_logfile(Err("denied"), "x.log"), Err("denied"));
    assert_eq!(logger.next(), Action::Stop);
}

#[test]
fn relay_steps() {
    let relay: Relay<u8, u8, u8> = Relay::received(Some((Level::Notice, "m".to_owned())));
    match relay {
        Relay::Submit(request) => {
            assert_eq!(request.level, Some(Level::Notice));
            assert_eq!(request.message, Some("m".to_owned()));
            assert_eq!(request.code, None);
            assert!(request.output.is_none() && request.syslog.is_none());
        }
        _ => panic!("a message is submitted"),
    }
    let relay: Relay<u8, u8, u8> = Relay::received(None);
    assert!(matches!(relay, Relay::Stop));
    let relay: Relay<u8, u8, u8> = Relay::handed_on(true);
    assert!(matches!(relay, Relay::Receive));
    let relay: Relay<u8, u8, u8> = Relay::handed_on(false);
    assert!(matches!(relay, Relay::Stop));
}

#[test]
fn runs_chain() {
    let mut together: Log = Logger::new(Level::Warning);
    together.log(Level::Notice, "dropped".to_owned(), None);
    together.set_loglevel(Level::Notice);
    together.set_syslog("writer");
    together.log(Level::Notice, "kept".to_owned(), None);
    let all = pump(&mut together);

    let mut apart: Log = Logger::new(Level::Warning);
    let mut done = Vec::new();
    apart.log(Level::Notice, "dropped".to_owned(), None);
    done.extend(pump(&mut apart));
    apart.set_loglevel(Level::Notice);
    done.extend(pump(&mut apart));
    apart.set_syslog("writer");
    done.extend(pump(&mut apart));
    apart.log(Level::Notice, "kept".to_owned(), None);
    done.extend(pump(&mut apart));
    assert_eq!(done, all);
    assert_eq!(
        all,
        vec![
            Action::Write("kept\n".to_owned()),
            Action::Syslog(Severity::Notice, "kept".to_owned()),
        ]
    );
}

#[test]
fn kept_messages_come_out_in_order() {
    let mut logger: Log = Logger::new(Level::Verbose);
    logger.log(Level::Warning, "one".to_owned(), None);
    logger.log(Level::Debug, "two".to_owned(), None);
    logger.log(Level::Verbose, "three".to_owned(), None);
    logger.log(Level::Notice, "".to_owned(), None);
    assert_eq!(
        pump(&mut logger),
        vec![
            Action::Write("one\n".to_owned()),
            Action::Write("three\n".to_owned()),
            Action::Write("\n".to_owned()),
        ]
    );
}

#[test]
fn level_counts_for_later_messages() {
    let mut logger: Log = Logger::new_err(Level::Warning);
    assert!(matches!(logger.output_mut(), Output::Stderr));
    logger.log(Level::Debug, "before".to_owned(), None);
    logger.set_loglevel(Level::Debug);
    logger.log(Level::Debug, "after".to_owned(), None);
    logger.set_loglevel(Level::Notice);
    logger.log(Level::Verbose, "too late".to_owned(), None);
    assert_eq!(pump(&mut logger), vec![Action::Write("after\n".to_owned())]);
}

#[test]
fn logfile_counts_for_later_messages() {
    let created: Result<Vec<u8>, String> = Ok(Vec::new());
    let mut logger: Log = match Logger::file(Level::Debug, created, "first.log") {
        Ok(logger) => logger,
        Err(error) => panic!("{}", error),
    };
    logger.log(Level::Debug, "one".to_owned(), None);
    pump(&mut logger);
    match logger.output_mut() {
        Output::File(buffer, path) => {
            assert_eq!(buffer.as_slice(), b"one\n");
            assert_eq!(path, "first.log");
        }
        _ => panic!("the output is a file"),
    }
    let created: Result<Vec<u8>, String> = Ok(Vec::new());
    assert_eq!(logger.set_logfile(created, "second.log"), Ok(()));
    logger.log(Level::Debug, "two".to_owned(), None);
    pump(&mut logger);
    match logger.output_mut() {
        Output::File(buffer, path) => {
            assert_eq!(buffer.as_slice(), b"two\n");
            assert_eq!(path, "second.log");
        }
        _ => panic!("the output is a file"),
    }
}

#[test]
fn file_errors_are_returned() {
    let created: Result<Vec<u8>, String> = Err("no such directory".to_owned());
    let logger: Result<Log, String> = Logger::file(Level::Debug, created, "a/b");
    assert!(matches!(logger, Err(error) if error == "no such directory"));

    let mut logger: Log = Logger::new(Level::Debug);
    let created: Result<Vec<u8>, String> = Err("denied".to_owned());
    assert_eq!(logger.set_logfile(created, "a/b"), Err("denied".to_owned()));
    assert_eq!(pump(&mut logger), vec![]);
    assert!(matches!(logger.output_mut(), Output::Stdout));
}

#[test]
fn kept_messages_go_to_syslog_too() {
    let mut logger: Log = Logger::new(Level::Debug);
    logger.set_syslog("writer");
    logger.log(Level::Debug, "d".to_owned(), None);
    logger.log(Level::Verbose, "v".to_owned(), None);
    logger.set_loglevel(Level::Notice);
    logger.log(Level::Verbose, "dropped".to_owned(), None);
    logger.log(Level::Notice, "n".to_owned(), None);
    logger.log(Level::Warning, "w".to_owned(), None);
    assert_eq!(
        pump(&mut logger),
        vec![
            Action::Write("d\n".to_owned()),
            Action::Syslog(Severity::Debug, "d".to_owned()),
            Action::Write("v\n".to_owned()),
            Action::Syslog(Severity::Info, "v".to_owned()),
            Action::Write("n\n".to_owned()),
            Action::Syslog(Severity::Notice, "n".to_owned()),
            Action::Write("w\n".to_owned()),
            Action::Syslog(Severity::Warning, "w".to_owned()),
        ]
    );
    assert_eq!(logger.syslog(), Some(&"writer"));
}

#[test]
fn disabling_syslog_undoes_enabling() {
    let mut logger: Log = Logger::new(Level::Debug);
    logger.set_syslog("writer");
    logger.disable_syslog();
    logger.log(Level::Warning, "w".to_owned(), None);
    assert_eq!(pump(&mut logger), vec![Action::Write("w\n".to_owned())]);
    assert_eq!(logger.syslog(), None);
}

#[test]
fn errors_are_reported_and_stop_nothing() {
    let mut logger: Log = Logger::new(Level::Debug);
    logger.set_syslog("writer");
    logger.log(Level::Warning, "w".to_owned(), None);
    logger.log(Level::Notice, "n".to_owned(), None);
    assert_eq!(logger.next(), Action::Write("w\n".to_owned()));
    logger.fail("Disk(Full)".to_owned());
    assert_eq!(logger.next(), Action::Report("Failed to log Disk(Full) w".to_owned()));
    logger.succeed();
    assert_eq!(logger.next(), Action::Syslog(Severity::Warning, "w".to_owned()));
    logger.fail("Refused".to_owned());
    assert_eq!(logger.next(), Action::Report("Failed to log Refused w".to_owned()));
    logger.succeed();
    assert_eq!(logger.next(), Action::Write("n\n".to_owned()));
    assert_eq!(logger.next(), Action::Write("n\n".to_owned()));
}

#[test]
fn exit_code_ends_the_process() {
    let mut logger: Log = Logger::new(Level::Debug);
    logger.log(Level::Warning, "bye".to_owned(), Some(-3));
    logger.log(Level::Warning, "never".to_owned(), None);
    let done = vec![Action::Write("bye\n".to_owned()), Action::Exit(-3)];
    assert_eq!(pump(&mut logger), done);
    assert_eq!(logger.next(), Action::Exit(-3));
}

#[test]
fn exit_code_counts_for_dropped_messages() {
    let mut logger: Log = Logger::new(Level::Warning);
    logger.log(Level::Debug, "unseen".to_owned(), Some(1));
    assert_eq!(pump(&mut logger), vec![Action::Exit(1)]);
}

#[test]
fn requests_made_midway_wait() {
    let mut logger: Log = Logger::new(Level::Debug);
    logger.log(Level::Debug, "one".to_owned(), None);
    assert_eq!(logger.next(), Action::Write("one\n".to_owned()));
    logger.set_loglevel(Level::Warning);
    logger.log(Level::Debug, "two".to_owned(), None);
    assert_eq!(logger.next(), Action::Write("one\n".to_owned()));
    logger.succeed();
    assert_eq!(logger.next(), Action::Receive);
}

#[test]
fn closing_loses_nothing() {
    let mut logger: Log = Logger::new(Level::Debug);
    logger.log(Level::Debug, "one".to_owned(), None);
    assert_eq!(logger.next(), Action::Write("one\n".to_owned()));
    logger.log(Level::Debug, "two".to_owned(), None);
    logger.close();
    let done = vec![Action::Write("one\n".to_owned()), Action::Write("two\n".to_owned())];
    assert_eq!(pump(&mut logger), done);
    assert_eq!(logger.next(), Action::Stop);
}

#[test]
fn channel_without_receiver_loses_the_line_quietly() {
    let (tx, rx) = channel();
    drop(rx);
    let mut logger: Log = Logger::channel(Level::Debug, tx);
    logger.log(Level::Debug, "lost".to_owned(), None);
    assert_eq!(pump(&mut logger), vec![Action::Write("lost\n".to_owned())]);
}

#[test]
fn message_comes_before_level_before_output_before_syslog() {
    let mut logger: Log = Logger::new(Level::Debug);
    logger.submit(Request {
        output: Some(Output::Stderr),
        level: Some(Level::Warning),
        message: Some("m".to_owned()),
        syslog: Some(Some("writer")),
        code: None,
    });
    assert_eq!(pump(&mut logger), vec![Action::Write("m\n".to_owned())]);
    assert!(matches!(logger.output_mut(), Output::Stdout));
    assert_eq!(logger.syslog(), None);

    logger.submit(Request {
        output: Some(Output::Stderr),
        level: Some(Level::Warning),
        message: None,
        syslog: Some(Some("writer")),
        code: None,
    });
    logger.log(Level::Notice, "dropped".to_owned(), None);
    assert_eq!(pump(&mut logger), vec![]);
    assert!(matches!(logger.output_mut(), Output::Stdout));

    logger.submit(Request {
        output: Some(Output::Stderr),
        level: None,
        message: None,
        syslog: Some(Some("writer")),
        code: None,
    });
    assert_eq!(pump(&mut logger), vec![]);
    assert!(matches!(logger.output_mut(), Output::Stderr));
    assert_eq!(logger.syslog(), None);

    logger.submit(Request {
        output: None,
        level: None,
        message: None,
        syslog: Some(Some("writer")),
        code: Some(7),
    });
    assert_eq!(pump(&mut logger), vec![Action::Exit(7)]);
    assert_eq!(logger.syslog(), Some(&"writer"));
}

#[test]
fn requests_are_checked() {
    let nothing: Request<u8, u8, u8> =
        Request { output: None, level: None, message: None, syslog: None, code: Some(1) };
    assert!(!nothing.is_valid());
    let no_level: Request<u8, u8, u8> = Request {
        output: Some(Output::Stdout),
        level: None,
        message: Some("m".to_owned()),
        syslog: None,
        code: None,
    };
    assert!(!no_level.is_valid());
    let log: Request<u8, u8, u8> = Request::log(Level::Debug, "m".to_owned(), Some(1));
    assert!(log.is_valid());
    let level: Request<u8, u8, u8> = Request::set_level(Level::Debug);
    assert!(level.is_valid());
    let output: Request<u8, u8, u8> = Request::set_output(Output::Stdout);
    assert!(output.is_valid());
    let created: Result<u8, String> = Ok(5);
    let logfile: Result<Request<u8, u8, u8>, String> = Request::set_logfile(created, "a.log");
    match logfile {
        Ok(request) => {
            assert!(request.is_valid());
            assert!(matches!(request.output, Some(Output::File(5, path)) if path == "a.log"));
        }
        Err(error) => panic!("{}", error),
    }
    let created: Result<u8, String> = Err("denied".to_owned());
    let logfile: Result<Request<u8, u8, u8>, String> = Request::set_logfile(created, "a.log");
    assert!(matches!(logfile, Err(error) if error == "denied"));
    let syslog: Request<u8, u8, u8> = Request::set_syslog(None);
    assert!(syslog.is_valid());
}
