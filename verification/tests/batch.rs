use linear_cli::batch::{record, run_batch, tally, Asset};
use linear_cli::commands::attachments::{assets_of_attachments, download_attachments_plan};
use linear_cli::commands::images::{
    check_download, download_report, report_line, AssetKind, Channel, DownloadResult,
};
use linear_cli::error::LinearError;
use linear_cli::types::Attachment;

fn asset(index: usize, url: &str) -> Asset {
    Asset { index, title: format!("file {index}"), url: url.to_string() }
}

fn attachment(n: usize, url: Option<&str>) -> Attachment {
    Attachment {
        id: format!("a{n}"),
        title: format!("doc {n}"),
        url: url.map(|u| u.to_string()),
        subtitle: None,
        created_at: "2024-01-15T10:30:00Z".to_string(),
    }
}

#[test]
fn is_success_tells_the_variants_apart() {
    assert!(DownloadResult::Success { index: 1, path: "a".into() }.is_success());
    assert!(!DownloadResult::Failed { index: 1, url: "u".into(), error: "e".into() }.is_success());
}

#[test]
fn record_keeps_index_path_url_and_message() {
    let a = asset(4, "https://example.com/x.png");
    match record(&a, Ok("out/x.png".to_string())) {
        DownloadResult::Success { index, path } => {
            assert_eq!(index, 4);
            assert_eq!(path, "out/x.png");
        },
        _ => panic!("an answer is a success"),
    }
    match record(&a, Err(LinearError::InvalidUrl("bad".to_string()))) {
        DownloadResult::Failed { index, url, error } => {
            assert_eq!(index, 4);
            assert_eq!(url, "https://example.com/x.png");
            assert_eq!(error, "Invalid URL: bad");
        },
        _ => panic!("a failure is recorded as one"),
    }
}

#[test]
fn one_failure_among_three_does_not_stop_the_batch() {
    let attachments = vec![
        attachment(1, Some("https://example.com/1.pdf")),
        attachment(2, Some("https://example.com/2.pdf")),
        attachment(3, Some("https://example.com/3.pdf")),
    ];
    let assets = download_attachments_plan(&attachments, "ENG-1", None).unwrap();
    let results = run_batch(&assets, |a: &Asset| {
        let status: u16 = if a.index == 2 { 404 } else { 200 };
        check_download(AssetKind::Attachment, &a.url, status)?;
        Ok(format!("out/{}.pdf", a.index))
    });
    assert_eq!(results.len(), 3);
    assert!(results[0].is_success());
    assert!(!results[1].is_success());
    assert!(results[2].is_success());
    match &results[1] {
        DownloadResult::Failed { index, url, error } => {
            assert_eq!(*index, 2);
            assert_eq!(url, "https://example.com/2.pdf");
            assert_eq!(
                error,
                "Attachment download failed for https://example.com/2.pdf (status 404)"
            );
        },
        _ => unreachable!(),
    }
    match &results[2] {
        DownloadResult::Success { index, path } => {
            assert_eq!(*index, 3);
            assert_eq!(path, "out/3.pdf");
        },
        _ => unreachable!(),
    }
    assert_eq!(tally(&results), (2, 1));
    let lines = download_report(AssetKind::Attachment, &results);
    assert_eq!(lines.len(), 4);
    assert!(lines[0].channel == Channel::Out);
    assert!(lines[1].channel == Channel::Errors);
    assert!(lines[2].channel == Channel::Out);
    assert_eq!(lines[3].text, "Downloaded 2/3 attachments (1 failed)");
    assert!(lines[3].channel == Channel::Out);
}

#[test]
fn run_batch_has_one_result_for_each_item_in_order() {
    let items: Vec<Asset> = (1..=7).map(|i| asset(i * 10, "u")).collect();
    let results = run_batch(&items, |a: &Asset| {
        if a.index % 20 == 0 {
            Err(LinearError::EmptyResponse)
        } else {
            Ok(a.index.to_string())
        }
    });
    assert_eq!(results.len(), 7);
    for (i, r) in results.iter().enumerate() {
        match r {
            DownloadResult::Success { index, path } => {
                assert_eq!(*index, items[i].index);
                assert_eq!(path, &items[i].index.to_string());
            },
            DownloadResult::Failed { index, .. } => assert_eq!(*index, items[i].index),
        }
    }
    let (ok, bad) = tally(&results);
    assert_eq!((ok, bad), (4, 3));
    assert_eq!(ok + bad, items.len());
}

#[test]
fn run_batch_of_nothing_is_nothing() {
    let results = run_batch(&vec![], |_a: &Asset| Ok(String::new()));
    assert!(results.is_empty());
    assert_eq!(tally(&results), (0, 0));
}

#[test]
fn all_failures_are_all_recorded() {
    let items = vec![asset(1, "a"), asset(2, "b")];
    let results = run_batch(&items, |_a: &Asset| Err(LinearError::EmptyResponse));
    assert_eq!(tally(&results), (0, 2));
}

#[test]
fn index_five_of_three_attachments_is_out_of_bounds() {
    let attachments = vec![
        attachment(1, Some("https://example.com/1.pdf")),
        attachment(2, Some("https://example.com/2.pdf")),
        attachment(3, Some("https://example.com/3.pdf")),
    ];
    match download_attachments_plan(&attachments, "ENG-1", Some(5)) {
        Err(LinearError::AttachmentIndexOutOfBounds { index, total }) => {
            assert_eq!(index, 5);
            assert_eq!(total, 3);
        },
        _ => panic!("position 5 of 3 is a failure"),
    }
    assert!(download_attachments_plan(&attachments, "ENG-1", Some(0)).is_err());
    assert!(download_attachments_plan(&attachments, "ENG-1", Some(4)).is_err());
}

#[test]
fn an_index_selects_one_attachment() {
    let attachments = vec![
        attachment(1, Some("https://example.com/1.pdf")),
        attachment(2, None),
        attachment(3, Some("https://example.com/3.pdf")),
    ];
    let chosen = download_attachments_plan(&attachments, "ENG-1", Some(3)).unwrap();
    assert_eq!(chosen.len(), 1);
    assert_eq!(chosen[0].index, 3);
    assert_eq!(chosen[0].title, "doc 3");
    assert_eq!(chosen[0].url, "https://example.com/3.pdf");
    let first = download_attachments_plan(&attachments, "ENG-1", Some(1)).unwrap();
    assert_eq!(first[0].index, 1);
}

#[test]
fn an_issue_without_attachments_cannot_be_downloaded() {
    match download_attachments_plan(&vec![], "ENG-9", None) {
        Err(LinearError::NoAttachments(id)) => assert_eq!(id, "ENG-9"),
        _ => panic!("nothing to download is a failure"),
    }
}

#[test]
fn attachments_become_assets_at_their_positions() {
    let attachments = vec![attachment(1, Some("https://example.com/1.pdf")), attachment(2, None)];
    let assets = assets_of_attachments(&attachments);
    assert_eq!(assets.len(), 2);
    assert_eq!((assets[0].index, assets[0].url.as_str()), (1, "https://example.com/1.pdf"));
    assert_eq!((assets[1].index, assets[1].url.as_str()), (2, ""));
    assert_eq!(assets[1].title, "doc 2");
}

#[test]
fn report_lines() {
    let ok = DownloadResult::Success { index: 2, path: "out/a.png".into() };
    let bad = DownloadResult::Failed { index: 3, url: "http://x/y".into(), error: "boom".into() };
    let l = report_line(AssetKind::Image, &ok);
    assert_eq!(l.text, "Downloaded image 2 to out/a.png");
    assert!(l.channel == Channel::Out);
    let l = report_line(AssetKind::Image, &bad);
    assert_eq!(l.text, "Failed to download image 3 (http://x/y): boom");
    assert!(l.channel == Channel::Errors);
    let l = report_line(AssetKind::Attachment, &ok);
    assert_eq!(l.text, "Downloaded attachment 2 to out/a.png");
}

#[test]
fn report_summaries() {
    let ok = |i| DownloadResult::Success { index: i, path: format!("p{i}") };
    let one = download_report(AssetKind::Image, &vec![ok(1)]);
    assert_eq!(one.len(), 1);
    let two = download_report(AssetKind::Image, &vec![ok(1), ok(2)]);
    assert_eq!(two.len(), 3);
    assert_eq!(two[2].text, "Downloaded 2 images");
    let mixed = download_report(
        AssetKind::Image,
        &vec![ok(1), DownloadResult::Failed { index: 2, url: "u".into(), error: "e".into() }],
    );
    assert_eq!(mixed.len(), 3);
    assert_eq!(mixed[2].text, "Downloaded 1/2 images (1 failed)");
    assert!(download_report(AssetKind::Image, &vec![]).is_empty());
}
