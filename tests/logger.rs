use std::collections::{HashMap, HashSet};

use sinklog::{
    console_tag_of, decompose, directory_chain, file_entry, format_time, render_line, ClockTime,
    Delivery, Level, LogLevel, Logger, Output,
};

/// A file system held in memory, driven the way a caller of the library
/// drives the real one.
struct MemFs {
    dirs: HashSet<String>,
    files: HashMap<String, String>,
}

impl MemFs {
    fn new() -> MemFs {
        MemFs { dirs: HashSet::new(), files: HashMap::new() }
    }

    fn start_writer(&mut self, output: &Output) {
        if let Some(p) = output.target_path() {
            self.files.remove(&p);
        }
    }

    fn apply(&mut self, d: &Delivery) {
        if let Delivery::File { directory, file_name, text } = d {
            for level in directory_chain(directory) {
                self.dirs.insert(level);
            }
            let path = format!("{}{}", directory, file_name);
            let exists = self.files.contains_key(&path);
            let entry = file_entry(exists, text);
            self.files.entry(path).or_default().push_str(&entry);
        }
    }
}

fn noon() -> ClockTime {
    ClockTime { hour: 12, minute: 34, second: 56 }
}

fn file_output(p: &str) -> Output {
    Output::new_as_file(p.to_string())
}

#[test]
fn decompose_splits_directory_and_file() {
    assert_eq!(decompose("logs/app.log"), ("logs/".to_string(), "app.log".to_string()));
    assert_eq!(decompose("app.log"), ("".to_string(), "app.log".to_string()));
    assert_eq!(decompose("a/b/c/out.log"), ("a/b/c/".to_string(), "out.log".to_string()));
}

#[test]
fn decompose_edge_cases() {
    assert_eq!(decompose(""), ("".to_string(), "".to_string()));
    assert_eq!(decompose("logs/"), ("logs/".to_string(), "".to_string()));
    assert_eq!(decompose("/var/log/x"), ("/var/log/".to_string(), "x".to_string()));
}

#[test]
fn new_as_file_holds_both_parts() {
    let o = file_output("logs/app.log");
    assert!(o == Output::File { file_path: "logs/".to_string(), file_name: "app.log".to_string() });
    assert!(o != Output::Console);
    assert!(Output::Console == Output::Console);
    assert_eq!(o.target_path(), Some("logs/app.log".to_string()));
    assert_eq!(Output::Console.target_path(), None);
}

#[test]
fn directory_chain_lists_each_level() {
    assert_eq!(directory_chain("a/b/c/"), vec!["a/".to_string(), "a/b/".to_string(), "a/b/c/".to_string()]);
    assert_eq!(directory_chain(""), Vec::<String>::new());
    assert_eq!(directory_chain("/tmp/"), vec!["/".to_string(), "/tmp/".to_string()]);
}

#[test]
fn format_time_pads_each_field() {
    assert_eq!(format_time(&ClockTime { hour: 9, minute: 5, second: 7 }), "09:05:07");
    assert_eq!(format_time(&ClockTime { hour: 23, minute: 59, second: 59 }), "23:59:59");
    assert_eq!(format_time(&ClockTime { hour: 0, minute: 0, second: 0 }), "00:00:00");
}

#[test]
fn render_line_layout() {
    assert_eq!(render_line("12:34:56", "Info", "app", "hello"), "[12:34:56] [Info] [app]: hello");
    assert_eq!(render_line("", "", "", ""), "[] [] []: ");
}

#[test]
fn file_entry_separates_entries() {
    assert_eq!(file_entry(false, &"B".to_string()), "B");
    assert_eq!(file_entry(true, &"B".to_string()), "\nB");
}

#[test]
fn console_tag_is_plain_or_coloured() {
    let t = console_tag_of(Level::Info);
    assert!(t == "Info" || t == "\x1b[32mInfo\x1b[0m");
    let t = console_tag_of(Level::Error);
    assert!(t == "Error" || t == "\x1b[91mError\x1b[0m");
    let t = console_tag_of(Level::Debug);
    assert!(t == "Debug" || t == "\x1b[37mDebug\x1b[0m");
}

#[test]
fn fatal_has_no_facade_level() {
    assert_eq!(LogLevel::Fatal.facade_level(), None);
    assert_eq!(LogLevel::Warn.facade_level(), Some(Level::Warn));
    assert_eq!(LogLevel::Trace.facade_level(), Some(Level::Trace));
}

#[test]
fn file_delivery_has_plain_line() {
    let logger = Logger::new("app".to_string(), file_output("logs/app.log"));
    let ds = logger.log_at(&noon(), Level::Warn, "disk low".to_string());
    assert_eq!(ds.len(), 1);
    match &ds[0] {
        Delivery::File { directory, file_name, text } => {
            assert_eq!(directory, "logs/");
            assert_eq!(file_name, "app.log");
            assert_eq!(text, "[12:34:56] [Warn] [app]: disk low");
        }
        Delivery::Console { .. } => panic!("expected a file delivery"),
    }
}

#[test]
fn truncation_on_construct() {
    let mut fs = MemFs::new();
    let out = file_output("logs/t.log");
    fs.start_writer(&out);
    let first = Logger::new("one".to_string(), out.clone());
    for d in first.log_at(&noon(), Level::Info, "A".to_string()) {
        fs.apply(&d);
    }
    fs.start_writer(&out);
    let second = Logger::new("two".to_string(), out.clone());
    for d in second.log_at(&noon(), Level::Info, "B".to_string()) {
        fs.apply(&d);
    }
    assert_eq!(fs.files["logs/t.log"], "[12:34:56] [Info] [two]: B");
}

#[test]
fn append_separation() {
    let mut fs = MemFs::new();
    let out = file_output("s.log");
    fs.start_writer(&out);
    let logger = Logger::new("app".to_string(), out);
    for m in ["first", "second"] {
        for d in logger.log_at(&noon(), Level::Info, m.to_string()) {
            fs.apply(&d);
        }
    }
    assert_eq!(
        fs.files["s.log"],
        "[12:34:56] [Info] [app]: first\n[12:34:56] [Info] [app]: second"
    );
}

#[test]
fn fan_out_shares_time_and_name() {
    let mut logger = Logger::new("app".to_string(), Output::Console);
    logger.add_output(file_output("f/x.log"));
    let ds = logger.log(Level::Info, "x".to_string());
    assert_eq!(ds.len(), 2);
    let line = match &ds[0] {
        Delivery::Console { line } => line.clone(),
        Delivery::File { .. } => panic!("console comes first"),
    };
    let text = match &ds[1] {
        Delivery::File { text, .. } => text.clone(),
        Delivery::Console { .. } => panic!("file comes second"),
    };
    assert_eq!(line[..10], text[..10]);
    assert!(text.ends_with("] [Info] [app]: x"));
    assert!(line.ends_with("] [app]: x"));
    let fixed = logger.log_at(&noon(), Level::Info, "x".to_string());
    match &fixed[0] {
        Delivery::Console { line } => assert!(
            line == "[12:34:56] [Info] [app]: x" || line == "[12:34:56] [\x1b[32mInfo\x1b[0m] [app]: x"
        ),
        Delivery::File { .. } => panic!("console comes first"),
    }
}

#[test]
fn directory_auto_creation() {
    let mut fs = MemFs::new();
    let out = file_output("a/b/c/out.log");
    fs.start_writer(&out);
    let logger = Logger::new("app".to_string(), out);
    for d in logger.log_at(&noon(), Level::Error, "boom".to_string()) {
        fs.apply(&d);
    }
    for dir in ["a/", "a/b/", "a/b/c/"] {
        assert!(fs.dirs.contains(dir));
    }
    assert_eq!(fs.dirs.len(), 3);
    assert_eq!(fs.files["a/b/c/out.log"], "[12:34:56] [Error] [app]: boom");
}

#[test]
fn detach_is_safe_on_zero_or_one_sink() {
    let mut logger = Logger::new("app".to_string(), Output::Console);
    logger.delete_output(file_output("other.log"));
    assert_eq!(logger.log_at(&noon(), Level::Info, "m".to_string()).len(), 1);
    logger.delete_output(Output::Console);
    assert_eq!(logger.log_at(&noon(), Level::Info, "m".to_string()).len(), 0);
    logger.delete_output(Output::Console);
    logger.delete_output(file_output("other.log"));
    assert_eq!(logger.log_at(&noon(), Level::Info, "m".to_string()).len(), 0);
}

#[test]
fn detach_removes_every_match_and_keeps_order() {
    let mut logger = Logger::new("app".to_string(), file_output("x.log"));
    logger.add_output(Output::Console);
    logger.add_output(file_output("y.log"));
    logger.add_output(file_output("x.log"));
    assert_eq!(logger.log_at(&noon(), Level::Info, "m".to_string()).len(), 4);
    logger.delete_output(file_output("x.log"));
    let ds = logger.log_at(&noon(), Level::Info, "m".to_string());
    assert_eq!(ds.len(), 2);
    assert!(matches!(&ds[0], Delivery::Console { .. }));
    match &ds[1] {
        Delivery::File { file_name, .. } => assert_eq!(file_name, "y.log"),
        Delivery::Console { .. } => panic!("expected y.log"),
    }
}

#[test]
fn duplicate_attach_writes_twice() {
    let mut logger = Logger::new("app".to_string(), file_output("d.log"));
    logger.add_output(file_output("d.log"));
    let mut fs = MemFs::new();
    for d in logger.log_at(&noon(), Level::Info, "m".to_string()) {
        fs.apply(&d);
    }
    assert_eq!(fs.files["d.log"], "[12:34:56] [Info] [app]: m\n[12:34:56] [Info] [app]: m");
}

#[test]
fn facade_gating() {
    let mut logger = Logger::new("app".to_string(), Output::Console);
    logger.add_output(file_output("g.log"));
    for l in [Level::Trace, Level::Debug] {
        assert!(!logger.enabled(l));
        assert!(logger.log_record(l, "dropped".to_string()).is_empty());
    }
    for l in [Level::Info, Level::Warn, Level::Error] {
        assert!(logger.enabled(l));
        assert_eq!(logger.log_record(l, "kept".to_string()).len(), 2);
    }
}

#[test]
fn direct_log_does_not_filter() {
    let logger = Logger::new("app".to_string(), file_output("t.log"));
    let ds = logger.log_at(&noon(), Level::Trace, "fine".to_string());
    match &ds[0] {
        Delivery::File { text, .. } => assert_eq!(text, "[12:34:56] [Trace] [app]: fine"),
        Delivery::Console { .. } => panic!("expected a file delivery"),
    }
    let ds = logger.log_at(&noon(), Level::Debug, "fine".to_string());
    match &ds[0] {
        Delivery::File { text, .. } => assert_eq!(text, "[12:34:56] [Debug] [app]: fine"),
        Delivery::Console { .. } => panic!("expected a file delivery"),
    }
}
