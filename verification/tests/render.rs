use helpful::{BacktraceSnapshot, BacktraceStatus, CallHistory, Error, Frame};

fn plain_error(message: &str, frames: Vec<Frame>) -> Error {
    Error {
        source: message.to_string(),
        span_trace: CallHistory { frames },
        backtrace: BacktraceSnapshot { status: BacktraceStatus::Disabled, text: String::new() },
    }
}

#[test]
fn short_form_is_message_exactly() {
    let e = plain_error("boom", vec![]);
    assert_eq!(e.render_short(), "boom");
}

#[test]
fn empty_history_renders_header_only() {
    let e = plain_error("boom", vec![]);
    assert_eq!(e.render_full(), "boom\n\nCall history (recent first):\n");
}

#[test]
fn single_frame_with_field_and_location() {
    let frame = Frame {
        name: "f".to_string(),
        fields: "x=\"1\"".to_string(),
        file: Some("app.rs".to_string()),
        line: Some(3),
    };
    let e = plain_error("m", vec![frame]);
    assert_eq!(
        e.render_full(),
        "m\n\nCall history (recent first):\n0: f\n        with x=\"1\"\n          at app.rs:3\n"
    );
}

#[test]
fn snapshot_freshness_line_order() {
    let frame = Frame {
        name: "f".to_string(),
        fields: "x=\"1\"".to_string(),
        file: None,
        line: None,
    };
    let e = plain_error("m", vec![frame]);
    let rendered = e.render_full();
    let lines: Vec<&str> = rendered.lines().collect();
    let index = lines.iter().position(|line| *line == "0: f").unwrap();
    assert!(lines[index + 1].contains("x=\"1\""));
}

#[test]
fn frame_without_fields_omits_with_line() {
    let frame = Frame {
        name: "f".to_string(),
        fields: String::new(),
        file: Some("app.rs".to_string()),
        line: Some(7),
    };
    let e = plain_error("m", vec![frame]);
    assert_eq!(
        e.render_full(),
        "m\n\nCall history (recent first):\n0: f\n          at app.rs:7\n"
    );
}

#[test]
fn frame_without_line_number_omits_location() {
    let frame = Frame {
        name: "f".to_string(),
        fields: "x=2".to_string(),
        file: Some("app.rs".to_string()),
        line: None,
    };
    let e = plain_error("m", vec![frame]);
    assert_eq!(
        e.render_full(),
        "m\n\nCall history (recent first):\n0: f\n        with x=2\n"
    );
}

#[test]
fn frame_indices_count_upward_in_decimal() {
    let mut frames = Vec::new();
    for _ in 0..11 {
        frames.push(Frame {
            name: "f".to_string(),
            fields: String::new(),
            file: None,
            line: None,
        });
    }
    let e = plain_error("m", frames);
    let rendered = e.render_full();
    assert!(rendered.contains("\n0: f\n"));
    assert!(rendered.contains("\n9: f\n"));
    assert!(rendered.contains("\n10: f\n"));
}

#[test]
fn large_line_number_renders_in_decimal() {
    let frame = Frame {
        name: "f".to_string(),
        fields: String::new(),
        file: Some("app.rs".to_string()),
        line: Some(40270),
    };
    let e = plain_error("m", vec![frame]);
    assert!(e.render_full().contains("          at app.rs:40270\n"));
}

#[test]
fn backtrace_captured_renders_section() {
    let mut e = plain_error("m", vec![]);
    e.backtrace = BacktraceSnapshot {
        status: BacktraceStatus::Captured,
        text: "0: raw_frame".to_string(),
    };
    assert_eq!(
        e.render_full(),
        "m\n\nCall history (recent first):\n\n\nBacktrace:\n0: raw_frame"
    );
}

#[test]
fn backtrace_disabled_omits_section() {
    let mut e = plain_error("m", vec![]);
    e.backtrace = BacktraceSnapshot {
        status: BacktraceStatus::Disabled,
        text: "ignored".to_string(),
    };
    assert!(!e.render_full().contains("Backtrace:"));
}

#[test]
fn backtrace_unsupported_omits_section() {
    let mut e = plain_error("m", vec![]);
    e.backtrace = BacktraceSnapshot {
        status: BacktraceStatus::Unsupported,
        text: String::new(),
    };
    assert!(!e.render_full().contains("Backtrace:"));
}

#[test]
fn end_to_end_missing_config_scenario() {
    let load = Frame {
        name: "config::load".to_string(),
        fields: "path=\"x.json\"".to_string(),
        file: Some("src/config.rs".to_string()),
        line: Some(12),
    };
    let run = Frame {
        name: "cli::run".to_string(),
        fields: "self=Cli { config: \"x.json\" }".to_string(),
        file: Some("src/cli.rs".to_string()),
        line: Some(8),
    };
    let e = plain_error("No such file or directory (os error 2)", vec![load, run]);
    let rendered = e.render_full();
    assert!(rendered.starts_with("No such file or directory (os error 2)"));
    assert!(rendered.contains("Call history (recent first):\n"));
    assert!(rendered.contains("0: config::load\n        with path=\"x.json\"\n"));
    assert!(rendered.contains("1: cli::run\n        with self=Cli { config: \"x.json\" }\n"));
    let history_at = rendered.find("Call history").unwrap();
    let load_at = rendered.find("0: config::load").unwrap();
    let run_at = rendered.find("1: cli::run").unwrap();
    assert!(history_at < load_at && load_at < run_at);
}
