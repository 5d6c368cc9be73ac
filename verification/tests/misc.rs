use linear_cli::cli::CommentArgs;
use linear_cli::commands::attachments::AttachmentRow;
use linear_cli::commands::issues::IssueRow;
use linear_cli::commands::relations::RelationRow;
use linear_cli::commands::comments::{
    added_message, comment_input, list_plan, Comment, CommentRow, CommentUser, IssueWithComments,
    Listing, BODY_WIDTH,
};
use linear_cli::commands::cycles::{compact_line, detail_lines, found_cycle, CycleRow};
use linear_cli::commands::init::{confirms, render_config};
use linear_cli::commands::labels::{
    compact_line as label_line, Label, LabelRow, DESCRIPTION_WIDTH, NO_LABELS,
};
use linear_cli::text::{is_whitespace, trim_text};
use linear_cli::commands::projects::ProjectRow;
use linear_cli::commands::teams::TeamRow;
use linear_cli::config::{Config, API_KEY_VARIABLE, APPLICATION, CONFIG_FILE};
use linear_cli::error::LinearError;
use linear_cli::types::{Cycle, Priority, Project, Team};

#[test]
fn priority_numbers() {
    assert!(Priority::from_i32(0) == Priority::NoPriority);
    assert!(Priority::from_i32(1) == Priority::Urgent);
    assert!(Priority::from_i32(2) == Priority::High);
    assert!(Priority::from_i32(3) == Priority::Medium);
    assert!(Priority::from_i32(4) == Priority::Low);
    assert!(Priority::from_i32(5) == Priority::NoPriority);
    assert!(Priority::from_i32(-1) == Priority::NoPriority);
    assert!(Priority::from_i32(i32::MAX) == Priority::NoPriority);
    for n in 0..=4 {
        assert_eq!(Priority::from_i32(n).as_i32(), n);
    }
}

#[test]
fn priority_names() {
    assert_eq!(Priority::NoPriority.label(), "None");
    assert_eq!(Priority::Urgent.label(), "Urgent");
    assert_eq!(Priority::High.label(), "High");
    assert_eq!(Priority::Medium.label(), "Medium");
    assert_eq!(Priority::Low.label(), "Low");
    assert_eq!(Priority::High.to_string(), "High");
}

#[test]
fn names_of_the_configuration() {
    assert_eq!(APPLICATION, "linear");
    assert_eq!(CONFIG_FILE, "config.toml");
    assert_eq!(API_KEY_VARIABLE, "LINEAR_API_KEY");
}

#[test]
fn explicit_team_wins_over_the_default() {
    let config = Config { api_key: None, default_team: Some("OPS".to_string()) };
    assert_eq!(config.resolve_team(Some("ENG")), Some("ENG".to_string()));
    assert_eq!(config.resolve_team(None), Some("OPS".to_string()));
    assert_eq!(config.require_team(Some("ENG")).unwrap(), "ENG");
    assert_eq!(config.require_team(None).unwrap(), "OPS");
    let bare = Config::default();
    assert_eq!(bare.resolve_team(None), None);
    assert_eq!(bare.resolve_team(Some("")), Some("".to_string()));
    assert!(matches!(bare.require_team(None), Err(LinearError::NoTeam)));
}

#[test]
fn the_environment_wins_over_the_persisted_key() {
    let config = Config { api_key: Some("from-file".to_string()), default_team: None };
    assert_eq!(config.api_key(Some("from-env".to_string())).unwrap(), "from-env");
    assert_eq!(config.api_key(None).unwrap(), "from-file");
    assert_eq!(config.api_key(Some("".to_string())).unwrap(), "");
    let bare = Config::default();
    assert_eq!(bare.api_key(Some("from-env".to_string())).unwrap(), "from-env");
    assert!(matches!(bare.api_key(None), Err(LinearError::MissingApiKey)));
}

#[test]
fn answers_to_overwrite() {
    assert!(confirms("y"));
    assert!(confirms("Y"));
    assert!(confirms("  y\n"));
    assert!(confirms("\tY\r\n"));
    assert!(!confirms("yes"));
    assert!(!confirms("n"));
    assert!(!confirms(""));
    assert!(!confirms("\n"));
    assert!(!confirms("y y"));
}

#[test]
fn trimming() {
    assert_eq!(trim_text("  a b \t\n"), "a b");
    assert_eq!(trim_text("a"), "a");
    assert_eq!(trim_text(""), "");
    assert_eq!(trim_text(" \r\n\t "), "");
    assert_eq!(trim_text("\u{a0}\u{3000}x\u{2003}\u{85}"), "x");
    assert_eq!(trim_text("\u{200b}x"), "\u{200b}x");
    for code in 0u32..0x3100 {
        if let Some(c) = char::from_u32(code) {
            assert_eq!(is_whitespace(c), c.is_whitespace(), "U+{code:04X}");
            let text = format!("{c}x{c}y{c}");
            assert_eq!(trim_text(&text), text.trim(), "U+{code:04X}");
        }
    }
}

#[test]
fn configuration_file_text() {
    assert_eq!(
        render_config(" lin_api_1 \n", " ENG\n").unwrap(),
        "api_key = \"lin_api_1\"\ndefault_team = \"ENG\"\n"
    );
    assert_eq!(render_config("k\n", "\n").unwrap(), "api_key = \"k\"\n");
    assert_eq!(render_config("k", "").unwrap(), "api_key = \"k\"\n");
    assert!(matches!(render_config("  \n", "ENG"), Err(LinearError::MissingApiKey)));
    assert!(matches!(render_config("", ""), Err(LinearError::MissingApiKey)));
}

fn comment(body: &str, user: Option<&str>) -> Comment {
    Comment {
        id: "c1".to_string(),
        body: body.to_string(),
        created_at: "2024-01-01T00:00:00Z".to_string(),
        user: user.map(|n| CommentUser { id: "u1".to_string(), name: n.to_string() }),
    }
}

#[test]
fn row_of_a_comment() {
    assert_eq!(BODY_WIDTH, 60);
    let row = CommentRow::from_at(&comment("first\nsecond", Some("Ada")), 1_704_067_200 + 7200);
    assert_eq!(row.author, "Ada");
    assert_eq!(row.body, "first second");
    assert_eq!(row.created_at, "2 hours ago");
    let long = "word\n".repeat(20);
    let row = CommentRow::from_at(&comment(&long, None), 1_704_067_200);
    assert_eq!(row.author, "Unknown");
    assert_eq!(row.body, format!("{}...", &"word ".repeat(12)[..57]));
    assert_eq!(row.created_at, "just now");
    let now = CommentRow::from(&comment("b", None));
    assert_eq!(now.created_at, "2024-01-01");
    assert_eq!(now.body, "b");
}

#[test]
fn comment_listing_and_adding() {
    match list_plan(None, "ENG-1") {
        Err(LinearError::IssueNotFound(id)) => assert_eq!(id, "ENG-1"),
        _ => panic!(),
    }
    match list_plan(Some(IssueWithComments { comments: vec![] }), "ENG-1").unwrap() {
        Listing::Nothing(m) => assert_eq!(m, "No comments on ENG-1"),
        _ => panic!(),
    }
    match list_plan(Some(IssueWithComments { comments: vec![comment("b", None)] }), "E").unwrap() {
        Listing::Items(items) => assert_eq!(items.len(), 1),
        _ => panic!(),
    }
    let input = comment_input(&CommentArgs { id: "ENG-1".into(), body: "hi".into() });
    assert_eq!((input.issue_id.as_str(), input.body.as_str()), ("ENG-1", "hi"));
    assert_eq!(added_message(true, "ENG-1"), Some("Added comment to ENG-1".to_string()));
    assert_eq!(added_message(false, "ENG-1"), None);
}

#[test]
fn row_and_line_of_a_cycle() {
    let cycle = Cycle {
        id: "c".to_string(),
        name: None,
        number: 14,
        starts_at: "2024-01-01T00:00:00Z".to_string(),
        ends_at: "2024-01-14T23:59:59Z".to_string(),
    };
    let row = CycleRow::from(&cycle);
    assert_eq!(row.number, "14");
    assert_eq!(row.name, "");
    assert_eq!(row.starts, "2024-01-01");
    assert_eq!(row.ends, "2024-01-14");
    assert_eq!(compact_line(&cycle), "14 | -");
    let named = Cycle { name: Some("Sprint".to_string()), number: -3, ..cycle };
    assert_eq!(compact_line(&named), "-3 | Sprint");
    assert_eq!(CycleRow::from(&named).name, "Sprint");
    assert_eq!(
        detail_lines(&named, None, None),
        vec!["Cycle -3 Sprint", "Starts: 2024-01-01 00:00", "Ends:   2024-01-14 23:59"]
    );
    assert_eq!(
        detail_lines(&named, Some("2024-01-01 01:00".to_string()), None),
        vec!["Cycle -3 Sprint", "Starts: 2024-01-01 01:00", "Ends:   2024-01-14 23:59"]
    );
    let bare = Cycle { name: None, number: 14, ends_at: "soon".to_string(), ..named };
    assert_eq!(
        detail_lines(&bare, None, Some("2024-01-15 00:59".to_string())),
        vec!["Cycle 14", "Starts: 2024-01-01 00:00", "Ends:   soon"]
    );
    assert_eq!(found_cycle(Some(bare), "c").unwrap().number, 14);
    match found_cycle(None, "c9") {
        Err(LinearError::CycleNotFound(id)) => assert_eq!(id, "c9"),
        _ => panic!("no cycle was found"),
    }
}

#[test]
fn row_of_a_label() {
    colored::control::set_override(false);
    assert_eq!(DESCRIPTION_WIDTH, 40);
    assert_eq!(NO_LABELS, "No labels found");
    let label = Label {
        id: "l1".to_string(),
        name: "Bug".to_string(),
        color: "nonsense".to_string(),
        description: Some("d".repeat(41)),
    };
    let row = LabelRow::from(&label);
    assert_eq!(row.name, "Bug");
    assert_eq!(row.description, format!("{}...", "d".repeat(37)));
    assert_eq!(row.id, "l1");
    let bare = Label { description: None, ..label };
    assert_eq!(LabelRow::from(&bare).description, "");
    assert_eq!(label_line(&bare), "Bug | l1");
    colored::control::unset_override();
}

#[test]
fn row_of_a_label_in_its_colour() {
    colored::control::set_override(true);
    let label = Label {
        id: "l1".to_string(),
        name: "Bug".to_string(),
        color: "#ff0000".to_string(),
        description: None,
    };
    let name = LabelRow::from(&label).name;
    assert!(name.starts_with("\u{1b}[") && name.ends_with("mBug\u{1b}[0m"));
    colored::control::unset_override();
}

#[test]
fn rows_of_projects_and_teams() {
    let p = Project { id: "p1".into(), name: "Auth".into(), state: Some("started".into()) };
    let row = ProjectRow::from(&p);
    assert_eq!((row.name.as_str(), row.state.as_str(), row.id.as_str()), ("Auth", "started", "p1"));
    let q = Project { id: "p2".into(), name: "Idle".into(), state: None };
    assert_eq!(ProjectRow::from(&q).state, "");
    let t = Team { id: "t1".into(), key: "ENG".into(), name: "Engineering".into() };
    let row = TeamRow::from(&t);
    assert_eq!((row.key.as_str(), row.name.as_str(), row.id.as_str()), ("ENG", "Engineering", "t1"));
}

#[test]
fn headers_and_cells_of_every_table() {
    let s = |t: &str| t.to_string();
    assert_eq!(IssueRow::headers(), vec!["ID", "Title", "Status", "Priority", "Assignee"]);
    let row = IssueRow { id: s("a"), title: s("b"), status: s("c"), priority: s("d"), assignee: s("e") };
    assert_eq!(row.cells(), vec!["a", "b", "c", "d", "e"]);
    assert_eq!(TeamRow::headers(), vec!["Key", "Name", "ID"]);
    assert_eq!(TeamRow { key: s("a"), name: s("b"), id: s("c") }.cells(), vec!["a", "b", "c"]);
    assert_eq!(ProjectRow::headers(), vec!["Name", "State", "ID"]);
    assert_eq!(ProjectRow { name: s("a"), state: s("b"), id: s("c") }.cells(), vec!["a", "b", "c"]);
    assert_eq!(LabelRow::headers(), vec!["Name", "Description", "ID"]);
    assert_eq!(
        LabelRow { name: s("a"), description: s("b"), id: s("c") }.cells(),
        vec!["a", "b", "c"]
    );
    assert_eq!(CycleRow::headers(), vec!["Number", "Name", "Starts", "Ends"]);
    assert_eq!(
        CycleRow { number: s("a"), name: s("b"), starts: s("c"), ends: s("d") }.cells(),
        vec!["a", "b", "c", "d"]
    );
    assert_eq!(CommentRow::headers(), vec!["Author", "Comment", "When"]);
    assert_eq!(
        CommentRow { author: s("a"), body: s("b"), created_at: s("c") }.cells(),
        vec!["a", "b", "c"]
    );
    assert_eq!(AttachmentRow::headers(), vec!["Title", "URL", "Created"]);
    assert_eq!(
        AttachmentRow { title: s("a"), url: s("b"), created_at: s("c") }.cells(),
        vec!["a", "b", "c"]
    );
    assert_eq!(RelationRow::headers(), vec!["Type", "Issue", "Title"]);
    assert_eq!(
        RelationRow { relation_type: s("a"), issue: s("b"), title: s("c") }.cells(),
        vec!["a", "b", "c"]
    );
}
