use procvisor::cfg::{Config, Process};
use procvisor::log::{ControllerLogRecord, LogStream, Logger, ProcessLogRecord};
use procvisor::supervisor::register_processes;

fn record(name: &str, line: &str) -> ProcessLogRecord {
    ProcessLogRecord { name: name.to_string(), line: line.to_string() }
}

#[test]
fn controller_line_without_processes() {
    let logger = Logger::new();
    assert_eq!(logger.render_controller(LogStream::Stdout, "hello"), "controller[stdout] | hello");
    assert_eq!(logger.render_controller(LogStream::Stderr, "oops"), "controller[stderr] | oops");
}

#[test]
fn short_process_label_is_padded_to_controller() {
    let mut logger = Logger::new();
    logger.register_name("web");
    let line = logger.render_process(LogStream::Stdout, &record("web", "up")).unwrap();
    assert_eq!(line, "proc.web[stdout]   | up");
    assert_eq!(logger.render_controller(LogStream::Stdout, "x"), "controller[stdout] | x");
}

#[test]
fn padding_follows_longest_of_three_names() {
    let mut logger = Logger::new();
    logger.register_name("abcdefg");
    logger.register_name("abc");
    logger.register_name("abcdefghij");
    let width = "proc.abcdefghij".len() + 8;
    assert_eq!(
        logger.render_controller(LogStream::Stdout, "m"),
        format!("{:width$} | m", "controller[stdout]", width = width)
    );
    assert_eq!(
        logger.render_process(LogStream::Stderr, &record("abc", "l")).unwrap(),
        format!("{:width$} | l", "proc.abc[stderr]", width = width)
    );
    assert_eq!(
        logger.render_process(LogStream::Stdout, &record("abcdefg", "l")).unwrap(),
        format!("{:width$} | l", "proc.abcdefg[stdout]", width = width)
    );
    assert_eq!(
        logger.render_process(LogStream::Stdout, &record("abcdefghij", "l")).unwrap(),
        "proc.abcdefghij[stdout] | l"
    );
    let sep = logger.render_controller(LogStream::Stdout, "m").find(" | ").unwrap();
    assert_eq!(sep, 23);
}

#[test]
fn unregistered_process_is_not_rendered() {
    let mut logger = Logger::new();
    logger.register_name("api");
    assert!(logger.render_process(LogStream::Stdout, &record("db", "x")).is_none());
    assert!(logger.render_process(LogStream::Stdout, &record("apx", "x")).is_none());
}

#[test]
fn equal_width_names_are_both_registered() {
    let mut logger = Logger::new();
    logger.register_name("one");
    logger.register_name("two");
    assert!(logger.render_process(LogStream::Stdout, &record("one", "a")).is_some());
    assert!(logger.render_process(LogStream::Stdout, &record("two", "b")).is_some());
}

#[test]
fn register_processes_registers_every_name() {
    let mut logger = Logger::new();
    let p = Process { command: "true".to_string(), directory: None, shell: None };
    let config = Config {
        processes: vec![("alpha".to_string(), p.clone()), ("b".to_string(), p)],
    };
    register_processes(&mut logger, &config);
    assert_eq!(
        logger.render_process(LogStream::Stdout, &record("b", "z")).unwrap(),
        "proc.b[stdout]     | z"
    );
    assert_eq!(
        logger.render_process(LogStream::Stdout, &record("alpha", "z")).unwrap(),
        "proc.alpha[stdout] | z"
    );
}

#[test]
fn controller_record_keeps_its_message() {
    let r = ControllerLogRecord::new("started".to_string());
    assert_eq!(r.message, "started");
    assert!(r.time.secs > 0);
    assert!(r.time.nanos < 1_000_000_000);
}

#[test]
fn longest_name_is_the_widest_label() {
    let mut logger = Logger::new();
    assert_eq!(logger.longest_name(), 10);
    logger.register_name("ab");
    assert_eq!(logger.longest_name(), 10);
    logger.register_name("abcdefghij");
    assert_eq!(logger.longest_name(), 15);
    logger.register_name("abcdefg");
    assert_eq!(logger.longest_name(), 15);
}

#[test]
fn search_name_finds_width_or_slot() {
    let mut logger = Logger::new();
    logger.register_name("abcdefghij");
    logger.register_name("ab");
    // labels, widest first: proc.abcdefghij (15), controller (10), proc.ab (7)
    assert_eq!(logger.search_name("proc.abcdefghij"), Ok(0));
    assert_eq!(logger.search_name("0123456789"), Ok(1));
    assert_eq!(logger.search_name("1234567"), Ok(2));
    assert_eq!(logger.search_name("a"), Err(3));
    assert_eq!(logger.search_name("12345678"), Err(2));
    assert_eq!(logger.search_name("0123456789abcdefghij"), Err(0));
}
