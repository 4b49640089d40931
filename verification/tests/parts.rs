use logger::text::{channel_bytes, channel_failure, log_failure, log_line};
use logger::{Delivery, Duplicate, Facility, Level, Output, Severity, Stream, SyslogTarget};

const LEVELS: [Level; 4] = [Level::Debug, Level::Verbose, Level::Notice, Level::Warning];

#[test]
fn test_log_level() {
    assert!(Level::Debug.contains(&Level::Debug));
    assert!(Level::Debug.contains(&Level::Verbose));
    assert!(Level::Debug.contains(&Level::Notice));
    assert!(Level::Debug.contains(&Level::Warning));
}

#[test]
fn levels_include_higher_levels() {
    for (i, level) in LEVELS.iter().enumerate() {
        for (j, other) in LEVELS.iter().enumerate() {
            assert_eq!(level.contains(other), i <= j);
        }
    }
    assert!(!Level::Warning.contains(&Level::Debug));
}

#[test]
fn levels_have_severities() {
    assert_eq!(Level::Debug.severity(), Severity::Debug);
    assert_eq!(Level::Verbose.severity(), Severity::Info);
    assert_eq!(Level::Notice.severity(), Severity::Notice);
    assert_eq!(Level::Warning.severity(), Severity::Warning);
}

#[test]
fn facilities_have_names() {
    let facilities = [
        Facility::Local0,
        Facility::Local1,
        Facility::Local2,
        Facility::Local3,
        Facility::Local4,
        Facility::Local5,
        Facility::Local6,
        Facility::Local7,
    ];
    for (i, facility) in facilities.iter().enumerate() {
        assert_eq!(Facility::from_name(&format!("local{}", i)), *facility);
        assert_eq!(Facility::from_name(&format!("LOCAL{}", i)), *facility);
        assert_eq!(Facility::from_name(&format!("lOcAl{}", i)), *facility);
    }
}

#[test]
fn other_names_are_the_user_facility() {
    let names = ["", "user", "local", "local8", "local9", "local00", " local0", "daemon", "l\u{d6}cal0"];
    for name in names.iter() {
        assert_eq!(Facility::from_name(name), Facility::User);
    }
}

#[test]
fn syslog_target_takes_both_names() {
    let target = SyslogTarget::new(&"Teos".to_owned(), &"Local5".to_owned());
    assert_eq!(target.facility, Facility::Local5);
    assert_eq!(target.ident, "Teos");
}

#[test]
fn texts_are_worded() {
    assert_eq!(log_line(&"hello world".to_owned()), "hello world\n");
    assert_eq!(log_line(&"".to_owned()), "\n");
    assert_eq!(log_failure(&"Broken".to_owned(), &"m n".to_owned()), "Failed to log Broken m n");
    assert_eq!(
        channel_failure(&"SendError { .. }".to_owned()),
        "Output into Channel error: SendError { .. }"
    );
}

#[test]
fn channel_keeps_ascii() {
    assert_eq!(channel_bytes(b""), b"");
    assert_eq!(channel_bytes(b"hello world\n"), b"hello world\n");
    assert_eq!(channel_bytes(&[0, 0x7f]), [0, 0x7f]);
}

#[test]
fn channel_encodes_other_bytes_one_by_one() {
    assert_eq!(channel_bytes(&[0x80, 0xbf, 0xc0, 0xff]), [0xc2, 0x80, 0xc2, 0xbf, 0xc3, 0x80, 0xc3, 0xbf]);
    assert_eq!(channel_bytes("\u{e9}".as_bytes()), [0xc3, 0x83, 0xc2, 0xa9]);
    for b in 0..=255u8 {
        let expected = (b as char).to_string().into_bytes();
        assert_eq!(channel_bytes(&[b]), expected);
    }
}

#[test]
fn channel_bytes_can_be_read_back() {
    let bytes: Vec<u8> = (0..=255u8).collect();
    let text = String::from_utf8(channel_bytes(&bytes)).unwrap();
    let read: Vec<u32> = text.chars().map(|c| c as u32).collect();
    assert_eq!(read, (0..256).collect::<Vec<u32>>());
    assert_ne!(channel_bytes(b"\xc3\xa9"), channel_bytes(b"\xe9"));
}

#[test]
fn outputs_describe_themselves() {
    let channel: Output<u8, u8> = Output::Channel(1);
    let stdout: Output<u8, u8> = Output::Stdout;
    let stderr: Output<u8, u8> = Output::Stderr;
    let file: Output<u8, u8> = Output::File(1, "/tmp/a.log".to_owned());
    assert_eq!(channel.describe(), "Channel");
    assert_eq!(stdout.describe(), "Stdout");
    assert_eq!(stderr.describe(), "Stderr");
    assert_eq!(file.describe(), "File: /tmp/a.log");
}

#[test]
fn outputs_say_how_to_write() {
    let channel: Output<u8, u8> = Output::Channel(1);
    let stdout: Output<u8, u8> = Output::Stdout;
    let stderr: Output<u8, u8> = Output::Stderr;
    let file: Output<u8, u8> = Output::File(1, "a".to_owned());
    assert_eq!(channel.write(b"x\xe9"), Delivery::Send(vec![b'x', 0xc3, 0xa9]));
    assert_eq!(stdout.write(b"x"), Delivery::Pass(Stream::Stdout));
    assert_eq!(stderr.write(b"x"), Delivery::Pass(Stream::Stderr));
    assert_eq!(file.write(b"x"), Delivery::Pass(Stream::File));
    assert_eq!(channel.flush(), None);
    assert_eq!(stdout.flush(), Some(Stream::Stdout));
    assert_eq!(stderr.flush(), Some(Stream::Stderr));
    assert_eq!(file.flush(), Some(Stream::File));
}

#[test]
fn only_a_channel_always_takes_everything() {
    let channel: Output<u8, u8> = Output::Channel(1);
    let file: Output<u8, u8> = Output::File(1, "a".to_owned());
    assert_eq!(channel.written(9, Err("closed")), Ok(9));
    assert_eq!(channel.written::<&str>(9, Ok(4)), Ok(9));
    assert_eq!(file.written(9, Err("full")), Err("full"));
    assert_eq!(file.written::<&str>(9, Ok(4)), Ok(4));
}

#[test]
fn only_a_channel_gives_a_notice() {
    let channel: Output<u8, u8> = Output::Channel(1);
    let error = "SendError { .. }".to_owned();
    assert_eq!(channel.refused(&error), Some(channel_failure(&error)));
    assert_ne!(channel.refused(&error), Some(error.clone()));
    let file: Output<u8, u8> = Output::File(1, "a.log".to_owned());
    for output in [Output::Stdout, Output::Stderr, file] {
        assert_eq!(output.refused(&error), None);
    }
}

#[test]
fn only_a_channel_is_always_flushed() {
    let channel: Output<u8, u8> = Output::Channel(1);
    let stderr: Output<u8, u8> = Output::Stderr;
    assert_eq!(channel.flushed(Err("closed")), Ok(()));
    assert_eq!(stderr.flushed(Err("closed")), Err("closed"));
    assert_eq!(stderr.flushed::<&str>(Ok(())), Ok(()));
}

#[test]
fn reopened_files_keep_their_path() {
    let file: Output<u8, u8> = Output::File(1, "a.log".to_owned());
    let opened: Result<u8, &str> = Ok(2);
    assert!(matches!(file.reopened(opened), Ok(Output::File(2, path)) if path == "a.log"));
    let opened: Result<u8, &str> = Err("gone");
    assert!(matches!(file.reopened(opened), Err("gone")));
}

#[test]
fn outputs_duplicate() {
    let channel: Output<String, u8> = Output::Channel("tx".to_owned());
    let stdout: Output<String, u8> = Output::Stdout;
    let stderr: Output<String, u8> = Output::Stderr;
    let file: Output<String, u8> = Output::File(1, "a.log".to_owned());
    assert!(matches!(channel.duplicate(), Duplicate::Ready(Output::Channel(tx)) if tx == "tx"));
    assert!(matches!(stdout.duplicate(), Duplicate::Ready(Output::Stdout)));
    assert!(matches!(stderr.duplicate(), Duplicate::Ready(Output::Stderr)));
    assert!(matches!(file.duplicate(), Duplicate::Reopen(path) if path == "a.log"));
}
