use linear_cli::commands::relations::{
    compact_line, find_relation, found_relations, no_relations_message, parent_removed_message,
    parent_set_message, related_message, relation_input, row_of_relation, rows_of,
    unrelated_message, IssueWithRelations, RelationRow, TITLE_WIDTH,
};
use linear_cli::error::LinearError;
use linear_cli::types::{IssueRelation, IssueRelationType, RelatedIssueRef};

fn issue_ref(identifier: &str) -> RelatedIssueRef {
    RelatedIssueRef {
        id: format!("uuid-{identifier}"),
        identifier: identifier.to_string(),
        title: format!("Title of {identifier}"),
    }
}

fn relation(id: &str, kind: IssueRelationType, from: &str, to: &str) -> IssueRelation {
    IssueRelation {
        id: id.to_string(),
        relation_type: kind,
        issue: issue_ref(from),
        related_issue: issue_ref(to),
        created_at: "2024-01-01T00:00:00Z".to_string(),
    }
}

fn view(rows: &[RelationRow]) -> Vec<(&str, &str)> {
    rows.iter().map(|r| (r.relation_type.as_str(), r.issue.as_str())).collect()
}

#[test]
fn relation_labels() {
    assert_eq!(IssueRelationType::Blocks.label(), "blocks");
    assert_eq!(IssueRelationType::Duplicate.label(), "duplicate");
    assert_eq!(IssueRelationType::Related.label(), "related");
    assert_eq!(IssueRelationType::Blocks.inverse_label(), "blocked by");
    assert_eq!(IssueRelationType::Duplicate.inverse_label(), "duplicate of");
    assert_eq!(IssueRelationType::Related.inverse_label(), "related to");
    assert_eq!(IssueRelationType::Blocks.to_string(), "blocks");
}

#[test]
fn the_source_sees_the_forward_label() {
    let rel = relation("r1", IssueRelationType::Blocks, "ENG-1", "ENG-2");
    let row = row_of_relation("ENG-1", &rel);
    assert_eq!((row.relation_type.as_str(), row.issue.as_str()), ("blocks", "ENG-2"));
    assert_eq!(row.title, "Title of ENG-2");
}

#[test]
fn the_target_sees_the_inverse_label() {
    for (kind, inverse) in [
        (IssueRelationType::Blocks, "blocked by"),
        (IssueRelationType::Duplicate, "duplicate of"),
        (IssueRelationType::Related, "related to"),
    ] {
        let rel = relation("r1", kind, "ENG-1", "ENG-2");
        let row = row_of_relation("ENG-2", &rel);
        assert_eq!((row.relation_type.as_str(), row.issue.as_str()), (inverse, "ENG-1"));
        assert_ne!(row.relation_type, kind.label());
    }
}

#[test]
fn rows_are_parent_children_relations() {
    assert_eq!(TITLE_WIDTH, 50);
    let issue = IssueWithRelations {
        identifier: "ENG-5".to_string(),
        relations: vec![
            relation("r1", IssueRelationType::Blocks, "ENG-5", "ENG-6"),
            relation("r2", IssueRelationType::Blocks, "ENG-7", "ENG-5"),
            relation("r3", IssueRelationType::Duplicate, "ENG-8", "ENG-5"),
        ],
        parent: Some(issue_ref("ENG-1")),
        children: vec![issue_ref("ENG-10"), issue_ref("ENG-9")],
    };
    let rows = rows_of(&issue);
    assert_eq!(
        view(&rows),
        vec![
            ("parent", "ENG-1"),
            ("child", "ENG-10"),
            ("child", "ENG-9"),
            ("blocks", "ENG-6"),
            ("blocked by", "ENG-7"),
            ("duplicate of", "ENG-8"),
        ]
    );
}

#[test]
fn rows_of_an_issue_without_relations() {
    let issue = IssueWithRelations {
        identifier: "ENG-5".to_string(),
        relations: vec![],
        parent: None,
        children: vec![],
    };
    assert!(rows_of(&issue).is_empty());
    assert_eq!(no_relations_message("ENG-5"), "No relations for ENG-5");
}

#[test]
fn rows_truncate_titles() {
    let mut long = issue_ref("ENG-2");
    long.title = "t".repeat(60);
    let issue = IssueWithRelations {
        identifier: "ENG-5".to_string(),
        relations: vec![],
        parent: Some(long),
        children: vec![],
    };
    assert_eq!(rows_of(&issue)[0].title, format!("{}...", "t".repeat(47)));
}

#[test]
fn compact_lines_of_rows() {
    let row = RelationRow {
        relation_type: "blocked by".to_string(),
        issue: "ENG-7".to_string(),
        title: "Broken".to_string(),
    };
    assert_eq!(compact_line(&row), "blocked by: ENG-7 - Broken");
}

#[test]
fn found_relations_or_not() {
    match found_relations(None, "ENG-5") {
        Err(LinearError::IssueNotFound(id)) => assert_eq!(id, "ENG-5"),
        _ => panic!(),
    }
}

#[test]
fn relating() {
    let input = relation_input("a".to_string(), "b".to_string(), IssueRelationType::Duplicate);
    assert_eq!(
        (input.issue_id.as_str(), input.related_issue_id.as_str(), input.relation.as_str()),
        ("a", "b", "duplicate")
    );
    assert_eq!(
        related_message(true, "ENG-1", IssueRelationType::Blocks, "ENG-2"),
        Some("ENG-1 blocks ENG-2".to_string())
    );
    assert_eq!(related_message(false, "ENG-1", IssueRelationType::Blocks, "ENG-2"), None);
}

#[test]
fn the_relation_to_remove_is_the_first_at_either_end() {
    let relations = vec![
        relation("r1", IssueRelationType::Blocks, "ENG-5", "ENG-6"),
        relation("r2", IssueRelationType::Blocks, "ENG-7", "ENG-5"),
        relation("r3", IssueRelationType::Related, "ENG-5", "ENG-7"),
    ];
    assert_eq!(find_relation(&relations, "ENG-5", "ENG-7").unwrap(), "r2");
    assert_eq!(find_relation(&relations, "ENG-5", "ENG-6").unwrap(), "r1");
    match find_relation(&relations, "ENG-5", "ENG-9") {
        Err(LinearError::RelationNotFound(a, b)) => {
            assert_eq!((a.as_str(), b.as_str()), ("ENG-5", "ENG-9"));
        },
        _ => panic!(),
    }
    assert!(find_relation(&relations, "ENG-5", "eng-7").is_err());
    assert!(find_relation(&vec![], "ENG-5", "ENG-7").is_err());
}

#[test]
fn relation_messages() {
    assert_eq!(
        unrelated_message(true, "ENG-1", "ENG-2"),
        Some("Removed relation between ENG-1 and ENG-2".to_string())
    );
    assert_eq!(unrelated_message(false, "ENG-1", "ENG-2"), None);
    assert_eq!(
        parent_set_message(true, "ENG-2", "ENG-1"),
        Some("Set ENG-1 as parent of ENG-2".to_string())
    );
    assert_eq!(parent_set_message(false, "ENG-2", "ENG-1"), None);
    assert_eq!(
        parent_removed_message(true, "ENG-2"),
        Some("Removed parent from ENG-2".to_string())
    );
    assert_eq!(parent_removed_message(false, "ENG-2"), None);
}
