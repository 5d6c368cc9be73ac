use linear_cli::cli::{Cli, Commands, OutputFormat};
use linear_cli::output::{
    compact_row, get_format, is_json_output, is_quiet, item_as_json, json_escape_text,
    paint_of_priority, painted, parse_hex_color, priority_cell, push_json_escape,
    render_collection, render_message, set_format, set_quiet, status_cell, status_colored,
    status_tint, tint_for_name, truncate, OutputSettings, Paint, Rendering, Tint, CELL_SEPARATOR,
    ESCAPE, RESET,
};
use linear_cli::types::Priority;

fn cli(format: OutputFormat, json: bool) -> Cli {
    Cli { command: Commands::Teams, format, json, quiet: false, verbose: false }
}

#[test]
fn json_flag_forces_json() {
    assert!(cli(OutputFormat::Table, true).output_format() == OutputFormat::Json);
    assert!(cli(OutputFormat::Compact, true).output_format() == OutputFormat::Json);
    assert!(cli(OutputFormat::Json, true).output_format() == OutputFormat::Json);
    assert!(cli(OutputFormat::Table, false).output_format() == OutputFormat::Table);
    assert!(cli(OutputFormat::Compact, false).output_format() == OutputFormat::Compact);
    assert!(cli(OutputFormat::Json, false).output_format() == OutputFormat::Json);
    assert!(OutputFormat::default() == OutputFormat::Table);
}

#[test]
fn settings_hold_format_and_quiet() {
    let mut s = OutputSettings::default();
    assert!(get_format(&s) == OutputFormat::Table);
    assert!(!is_quiet(&s));
    assert!(!is_json_output(&s));
    set_format(&mut s, OutputFormat::Json);
    assert!(get_format(&s) == OutputFormat::Json);
    assert!(is_json_output(&s));
    assert!(item_as_json(&s));
    assert!(!is_quiet(&s));
    set_quiet(&mut s, true);
    assert!(is_quiet(&s));
    assert!(get_format(&s) == OutputFormat::Json);
    set_format(&mut s, OutputFormat::Compact);
    assert!(get_format(&s) == OutputFormat::Compact);
    assert!(is_quiet(&s));
    assert!(!is_json_output(&s));
    let t = OutputSettings::new(OutputFormat::Compact, false);
    assert!(get_format(&t) == OutputFormat::Compact && !is_quiet(&t));
}

#[test]
fn messages_in_each_format() {
    let table = OutputSettings::new(OutputFormat::Table, false);
    let compact = OutputSettings::new(OutputFormat::Compact, false);
    let json = OutputSettings::new(OutputFormat::Json, false);
    assert_eq!(render_message(&table, "Done."), Some("Done.".to_string()));
    assert_eq!(render_message(&compact, "Done."), Some("Done.".to_string()));
    assert_eq!(render_message(&json, "Done."), Some("{\"message\": \"Done.\"}".to_string()));
    assert_eq!(
        render_message(&json, "Attached \"a\" to b"),
        Some("{\"message\": \"Attached \\\"a\\\" to b\"}".to_string())
    );
    assert_eq!(render_message(&json, "\n"), Some("{\"message\": \"\\n\"}".to_string()));
    assert_eq!(render_message(&json, "\\"), Some("{\"message\": \"\\\\\"}".to_string()));
    assert_eq!(render_message(&json, ""), Some("{\"message\": \"\"}".to_string()));
}

#[test]
fn json_messages_are_json_for_every_message() {
    let json = OutputSettings::new(OutputFormat::Json, false);
    let cases = [
        "",
        "plain",
        "\n",
        "line one\nline two\r\n",
        "back\\slash",
        "a \"quoted\" word and a \\\" pair",
        "tab\there",
        "bell\u{7} escape\u{1b} null\u{0} unit\u{1f}",
        "backspace\u{8} form feed\u{c}",
        "del\u{7f} nbsp\u{a0} snow\u{2603} emoji\u{1f600}",
        "{\"message\": \"nested\"}",
    ];
    for message in cases {
        let text = render_message(&json, message).unwrap();
        let value: serde_json::Value = serde_json::from_str(&text).unwrap();
        let object = value.as_object().unwrap();
        assert_eq!(object.len(), 1);
        assert_eq!(object["message"].as_str(), Some(message));
    }
}

#[test]
fn json_escapes() {
    assert_eq!(json_escape_text("a\"b"), "a\\\"b");
    assert_eq!(json_escape_text("a\\b"), "a\\\\b");
    assert_eq!(json_escape_text("\n\r\t"), "\\n\\r\\t");
    assert_eq!(json_escape_text("\u{8}\u{c}"), "\\b\\f");
    assert_eq!(json_escape_text("\u{0}\u{1}\u{b}\u{1f}"), "\\u0000\\u0001\\u000b\\u001f");
    assert_eq!(json_escape_text("\u{20}\u{7f}é/"), "\u{20}\u{7f}é/");
    assert_eq!(json_escape_text(""), "");
    let mut out = String::from(">");
    push_json_escape(&mut out, '\u{1e}');
    push_json_escape(&mut out, 'x');
    assert_eq!(out, ">\\u001ex");
}

#[test]
fn escaping_agrees_with_the_json_codec() {
    let mut all = String::new();
    for code in 0u32..0x250 {
        all.push(char::from_u32(code).unwrap());
    }
    let quoted = format!("\"{}\"", json_escape_text(&all));
    assert_eq!(serde_json::from_str::<String>(&quoted).unwrap(), all);
    assert_eq!(quoted, serde_json::to_string(&all).unwrap());
}

#[test]
fn compact_rows() {
    assert_eq!(CELL_SEPARATOR, " | ");
    assert_eq!(compact_row(&vec!["a".to_string(), "b".to_string(), "".to_string()]), "a | b | ");
    assert_eq!(compact_row(&vec!["a".to_string()]), "a");
    assert_eq!(compact_row(&vec![]), "");
}

#[test]
fn tints_of_lowered_names() {
    assert!(tint_for_name("done") == Some(Tint::Green));
    assert!(tint_for_name("in progress") == Some(Tint::Blue));
    assert!(tint_for_name("in review") == Some(Tint::Magenta));
    assert!(tint_for_name("blocked") == Some(Tint::Red));
    assert!(tint_for_name("triage") == Some(Tint::BrightBlack));
    assert!(tint_for_name("todo") == None);
    // The words are looked for as they are: the name is expected in lowercase.
    assert!(tint_for_name("DONE") == None);
}

#[test]
fn quiet_suppresses_messages_in_every_format() {
    for format in [OutputFormat::Table, OutputFormat::Json, OutputFormat::Compact] {
        let s = OutputSettings::new(format, true);
        assert_eq!(render_message(&s, "Done."), None);
    }
}

#[test]
fn collections_in_each_format() {
    let items = vec![3u32, 1, 2];
    let row = |n: &u32| (*n, n * 10);
    let line = |n: &u32| format!("#{n}");
    let json = OutputSettings::new(OutputFormat::Json, false);
    assert!(matches!(render_collection(&json, &items, row, line), Rendering::Json));
    let compact = OutputSettings::new(OutputFormat::Compact, true);
    match render_collection(&compact, &items, row, line) {
        Rendering::Lines(lines) => assert_eq!(lines, vec!["#3", "#1", "#2"]),
        _ => panic!("compact form is lines"),
    }
    let table = OutputSettings::new(OutputFormat::Table, false);
    match render_collection(&table, &items, row, line) {
        Rendering::Table(rows) => assert_eq!(rows, vec![(3, 30), (1, 10), (2, 20)]),
        _ => panic!("a table is rows"),
    }
    match render_collection(&table, &Vec::<u32>::new(), row, line) {
        Rendering::Table(rows) => assert!(rows.is_empty()),
        _ => panic!(),
    }
}

#[test]
fn hex_colors() {
    assert_eq!(parse_hex_color("#ff8800"), Ok((255, 136, 0)));
    assert_eq!(parse_hex_color("FF8800"), Ok((255, 136, 0)));
    assert_eq!(parse_hex_color("##000000"), Ok((0, 0, 0)));
    assert_eq!(parse_hex_color("#0a0B0c"), Ok((10, 11, 12)));
    assert_eq!(parse_hex_color("#+f+0+a"), Ok((15, 0, 10)));
    assert_eq!(parse_hex_color("#fff"), Err(()));
    assert_eq!(parse_hex_color("#ff88000"), Err(()));
    assert_eq!(parse_hex_color("#gg0000"), Err(()));
    assert_eq!(parse_hex_color("#ff88 0"), Err(()));
    assert_eq!(parse_hex_color("#f+8800"), Err(()));
    assert_eq!(parse_hex_color("#-f8800"), Err(()));
    assert_eq!(parse_hex_color("ff8800#"), Err(()));
    assert_eq!(parse_hex_color("#ééé"), Err(()));
    assert_eq!(parse_hex_color(""), Err(()));
    assert_eq!(parse_hex_color("#"), Err(()));
}

#[test]
fn status_tints() {
    assert!(status_tint("Done", None) == Some(Tint::Green));
    assert!(status_tint("COMPLETED", None) == Some(Tint::Green));
    assert!(status_tint("closed", None) == Some(Tint::Green));
    assert!(status_tint("In Progress", None) == Some(Tint::Blue));
    assert!(status_tint("Started", None) == Some(Tint::Blue));
    assert!(status_tint("In Review", None) == Some(Tint::Magenta));
    assert!(status_tint("Blocked", None) == Some(Tint::Red));
    assert!(status_tint("Canceled", None) == Some(Tint::Red));
    assert!(status_tint("Cancelled", None) == Some(Tint::Red));
    assert!(status_tint("Backlog", None) == Some(Tint::BrightBlack));
    assert!(status_tint("Triage", None) == Some(Tint::BrightBlack));
    assert!(status_tint("Todo", None) == None);
    assert!(status_tint("", None) == None);
    // The first group of words that fits decides.
    assert!(status_tint("done review", None) == Some(Tint::Green));
    assert!(status_tint("Todo", Some("#102030")) == Some(Tint::Rgb { r: 16, g: 32, b: 48 }));
    assert!(status_tint("Done", Some("#102030")) == Some(Tint::Rgb { r: 16, g: 32, b: 48 }));
    assert!(status_tint("Done", Some("nonsense")) == Some(Tint::Green));
    assert!(status_tint("Todo", Some("nonsense")) == None);
}

#[test]
fn priority_paints() {
    assert!(paint_of_priority(Priority::NoPriority) == Paint { tint: None, bold: false });
    assert!(paint_of_priority(Priority::Urgent) == Paint { tint: Some(Tint::Red), bold: true });
    assert!(paint_of_priority(Priority::High) == Paint { tint: Some(Tint::Yellow), bold: true });
    assert!(paint_of_priority(Priority::Medium) == Paint { tint: Some(Tint::Blue), bold: false });
    assert!(
        paint_of_priority(Priority::Low) == Paint { tint: Some(Tint::BrightBlack), bold: false }
    );
}

#[test]
fn colour_is_applied_when_the_terminal_takes_it() {
    colored::control::set_override(true);
    let plain = painted("x", Paint { tint: None, bold: false });
    assert_eq!(plain, "x");
    let red = painted("x", Paint { tint: Some(Tint::Red), bold: false });
    assert_eq!(red, "\u{1b}[31mx\u{1b}[0m");
    let bold = painted("x", Paint { tint: Some(Tint::Yellow), bold: true });
    assert_eq!(bold, "\u{1b}[1;33mx\u{1b}[0m");
    let rgb = painted("x", Paint { tint: Some(Tint::Rgb { r: 1, g: 2, b: 3 }), bold: false });
    // Which escape stands for a true colour depends on what the terminal supports.
    assert!(rgb.starts_with("\u{1b}[") && rgb.ends_with("mx\u{1b}[0m"));
    assert_eq!(status_colored("Done", None), "\u{1b}[32mDone\u{1b}[0m");
    assert_eq!(status_colored("Blocked", None), "\u{1b}[31mBlocked\u{1b}[0m");
    assert_eq!(status_colored("In Progress", None), "\u{1b}[34mIn Progress\u{1b}[0m");
    assert_eq!(status_colored("Review", None), "\u{1b}[35mReview\u{1b}[0m");
    assert_eq!(status_colored("Backlog", None), "\u{1b}[90mBacklog\u{1b}[0m");
    assert_eq!(status_colored("Todo", None), "Todo");
    assert_eq!(Priority::Urgent.colored(), "\u{1b}[1;31mUrgent\u{1b}[0m");
    assert_eq!(Priority::Medium.colored(), "\u{1b}[34mMedium\u{1b}[0m");
    assert_eq!(Priority::Low.colored(), "\u{1b}[90mLow\u{1b}[0m");
    assert_eq!(Priority::NoPriority.colored(), "None");
    colored::control::unset_override();
}

#[test]
fn a_painted_text_is_the_text_or_ends_in_text_and_reset() {
    assert_eq!(ESCAPE, '\u{1b}');
    assert_eq!(RESET, "\u{1b}[0m");
    let tints = [
        Tint::Red,
        Tint::Green,
        Tint::Yellow,
        Tint::Blue,
        Tint::Magenta,
        Tint::BrightBlack,
        Tint::Rgb { r: 9, g: 8, b: 7 },
    ];
    for on in [true, false] {
        colored::control::set_override(on);
        for text in ["", "Done", "In Progress", "日本語", "a[0m b"] {
            for tint in tints {
                for bold in [false, true] {
                    let shown = painted(text, Paint { tint: Some(tint), bold });
                    assert!(shown == text || shown.ends_with(&format!("{text}{RESET}")));
                    assert_eq!(shown == text, !on);
                }
            }
        }
    }
    colored::control::unset_override();
}

#[test]
fn colour_is_left_out_when_the_terminal_refuses_it() {
    colored::control::set_override(false);
    assert_eq!(painted("x", Paint { tint: Some(Tint::Red), bold: true }), "x");
    assert_eq!(status_colored("Done", Some("#00ff00")), "Done");
    assert_eq!(Priority::Urgent.colored(), "Urgent");
    colored::control::unset_override();
}

#[test]
fn colour_never_leaks_out_of_a_table() {
    colored::control::set_override(true);
    for format in [OutputFormat::Json, OutputFormat::Compact] {
        let s = OutputSettings::new(format, false);
        assert_eq!(status_cell(&s, "Done", Some("#00ff00")), "Done");
        assert_eq!(status_cell(&s, "Blocked", None), "Blocked");
        assert_eq!(priority_cell(&s, Priority::Urgent), "Urgent");
        assert_eq!(priority_cell(&s, Priority::NoPriority), "None");
    }
    let table = OutputSettings::new(OutputFormat::Table, false);
    assert_eq!(status_cell(&table, "Done", None), "\u{1b}[32mDone\u{1b}[0m");
    assert_eq!(priority_cell(&table, Priority::High), "\u{1b}[1;33mHigh\u{1b}[0m");
    assert_eq!(priority_cell(&table, Priority::NoPriority), "None");
    colored::control::unset_override();
}

#[test]
fn truncation_counts_characters() {
    assert_eq!(truncate("hello world", 8), "hello...");
    assert_eq!(truncate("hello", 5), "hello");
    assert_eq!(truncate("hello", 4), "h...");
    assert_eq!(truncate("hello", 3), "...");
    assert_eq!(truncate("hello", 2), "...");
    assert_eq!(truncate("hello", 0), "...");
    assert_eq!(truncate("", 0), "");
    assert_eq!(truncate("héllo wörld", 8), "héllo...");
    assert_eq!(truncate("日本語のテキスト", 8), "日本語のテキスト");
    assert_eq!(truncate("日本語のテキスト", 7), "日本語の...");
}
