use console_notify::flag::AccessibilityFlag;
use console_notify::reporter::{report_info, report_warning, Importance, _info_helper, _warning_helper};
use console_notify::sink::OutputSink;

const YELLOW: &str = "\u{1b}[38;5;11m";
const ORANGE: &str = "\u{1b}[38;5;208m";
const RESET: &str = "\u{1b}[0m";

fn flag(accessible: bool) -> AccessibilityFlag {
    let mut f = AccessibilityFlag::new();
    f.set(accessible);
    f
}

#[test]
fn info_accessible_flag_on_writes_bare_message() {
    let f = flag(true);
    let mut sink = OutputSink::new();
    report_info(Importance::Accessible, &mut sink, "Extracting archive", &f);
    assert_eq!(sink.into_string(), "Extracting archive\n");
}

#[test]
fn info_accessible_flag_off_writes_prefixed_message() {
    let f = flag(false);
    let mut sink = OutputSink::new();
    report_info(Importance::Accessible, &mut sink, "Extracting archive", &f);
    assert_eq!(
        sink.into_string(),
        format!("{YELLOW}[INFO]{RESET} Extracting archive\n")
    );
}

#[test]
fn info_inaccessible_flag_on_writes_nothing() {
    let f = flag(true);
    let mut sink = OutputSink::new();
    report_info(Importance::Inaccessible, &mut sink, "Processed file.txt", &f);
    let out = sink.into_string();
    assert_eq!(out.len(), 0);
    assert_eq!(out, "");
}

#[test]
fn info_inaccessible_flag_off_matches_accessible() {
    let f = flag(false);
    let mut sink_a = OutputSink::new();
    let mut sink_b = OutputSink::new();
    report_info(Importance::Accessible, &mut sink_a, "copied 3 files", &f);
    report_info(Importance::Inaccessible, &mut sink_b, "copied 3 files", &f);
    assert_eq!(sink_a.into_string().as_bytes(), sink_b.into_string().as_bytes());
}

#[test]
fn warning_flag_off_uses_short_prefix() {
    let f = flag(false);
    let mut sink = OutputSink::new();
    report_warning(&mut sink, "Could not read config", &f);
    let out = sink.into_string();
    assert!(!out.is_empty());
    assert_eq!(out, format!("{ORANGE}Warning:{RESET} Could not read config\n"));
}

#[test]
fn warning_flag_on_uses_bracketed_prefix() {
    let f = flag(true);
    let mut sink = OutputSink::new();
    report_warning(&mut sink, "Could not read config", &f);
    let out = sink.into_string();
    assert!(!out.is_empty());
    assert_eq!(out, format!("{ORANGE}[WARNING]{RESET} Could not read config\n"));
}

#[test]
fn repeated_identical_calls_are_byte_identical() {
    for accessible in [false, true] {
        let f = flag(accessible);
        let mut first = OutputSink::new();
        let mut second = OutputSink::new();
        report_info(Importance::Accessible, &mut first, "step done", &f);
        report_info(Importance::Accessible, &mut second, "step done", &f);
        assert_eq!(first.as_str().as_bytes(), second.as_str().as_bytes());

        // A second identical call appends exactly the same bytes again.
        let once = first.into_string();
        report_info(Importance::Accessible, &mut second, "step done", &f);
        let twice = second.into_string();
        assert_eq!(twice, format!("{once}{once}"));

        let mut warn_a = OutputSink::new();
        let mut warn_b = OutputSink::new();
        report_warning(&mut warn_a, "low disk space", &f);
        report_warning(&mut warn_b, "low disk space", &f);
        assert_eq!(warn_a.into_string(), warn_b.into_string());
    }
}

#[test]
fn info_helper_writes_exactly_the_prefix() {
    let mut sink = OutputSink::new();
    _info_helper(&mut sink);
    assert_eq!(sink.into_string(), format!("{YELLOW}[INFO]{RESET} "));
}

#[test]
fn warning_helper_prefix_depends_on_mode() {
    let mut sink = OutputSink::new();
    _warning_helper(&mut sink, &flag(false));
    assert_eq!(sink.into_string(), format!("{ORANGE}Warning:{RESET} "));

    let mut sink = OutputSink::new();
    _warning_helper(&mut sink, &flag(true));
    assert_eq!(sink.into_string(), format!("{ORANGE}[WARNING]{RESET} "));
}

#[test]
fn empty_message_still_gets_newline_when_shown() {
    let f = flag(true);
    let mut sink = OutputSink::new();
    report_info(Importance::Accessible, &mut sink, "", &f);
    assert_eq!(sink.into_string(), "\n");

    let mut sink = OutputSink::new();
    report_info(Importance::Inaccessible, &mut sink, "", &f);
    assert_eq!(sink.into_string(), "");
}

#[test]
fn successive_reports_accumulate_in_order() {
    let f = flag(true);
    let mut sink = OutputSink::new();
    report_info(Importance::Accessible, &mut sink, "first", &f);
    report_info(Importance::Inaccessible, &mut sink, "hidden", &f);
    report_info(Importance::Accessible, &mut sink, "second", &f);
    assert_eq!(sink.into_string(), "first\nsecond\n");
}
