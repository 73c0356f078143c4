use agnt::files::{
    is_file_reference, parse_file_list, parse_file_metadata, sanitize_file_name, FileResolver, ResolverAction,
    ResolverStage, METADATA_RETRY_DELAY_MS,
};

#[test]
fn metadata_failing_twice_falls_back_to_bin() {
    let mut r = FileResolver::new("file_abc".to_string());
    assert_eq!(r.on_metadata(None), ResolverAction::RetryMetadataAfter { delay_ms: METADATA_RETRY_DELAY_MS });
    assert_eq!(METADATA_RETRY_DELAY_MS, 500);
    assert_eq!(
        r.on_metadata(None),
        ResolverAction::ReportName { file_id: "file_abc".to_string(), name: "file_abc.bin".to_string() }
    );
    assert_eq!(r.stage(), ResolverStage::Content);
    match r.on_content(Err("404 not found".to_string())) {
        ResolverAction::WritePlaceholder { file_name, body } => {
            assert_eq!(file_name, "file_abc.bin");
            assert!(body.contains("File ID: file_abc\n"));
            assert!(body.contains("Error: 404 not found\n"));
            assert!(body.starts_with("Failed to download file from the code execution sandbox.\n\n"));
        }
        other => panic!("unexpected {:?}", other),
    }
    assert_eq!(r.stage(), ResolverStage::Done);
    assert_eq!(r.on_content(Ok(())), ResolverAction::Nothing);
}

#[test]
fn metadata_on_first_try() {
    let mut r = FileResolver::new("file_1".to_string());
    assert_eq!(r.name(), "file_1");
    assert_eq!(
        r.on_metadata(Some("../../etc/report final.csv".to_string())),
        ResolverAction::ReportName { file_id: "file_1".to_string(), name: "../../etc/report final.csv".to_string() }
    );
    assert_eq!(r.on_content(Ok(())), ResolverAction::WriteContent { file_name: "report_final.csv".to_string() });
}

#[test]
fn metadata_on_retry() {
    let mut r = FileResolver::new("file_2".to_string());
    r.on_metadata(None);
    assert_eq!(
        r.on_metadata(Some("plot.png".to_string())),
        ResolverAction::ReportName { file_id: "file_2".to_string(), name: "plot.png".to_string() }
    );
    assert_eq!(r.on_metadata(Some("late.png".to_string())), ResolverAction::Nothing);
    assert_eq!(r.name(), "plot.png");
}

#[test]
fn sanitize_names() {
    assert_eq!(sanitize_file_name("../etc/passwd"), "passwd");
    assert_eq!(sanitize_file_name("my file (1).txt"), "my_file__1_.txt");
    assert_eq!(sanitize_file_name("café.txt"), "caf_.txt");
    assert_eq!(sanitize_file_name(".."), "unnamed_file");
    assert_eq!(sanitize_file_name("/"), "unnamed_file");
    assert_eq!(sanitize_file_name("dir/"), "dir");
    assert_eq!(sanitize_file_name("a-b_c.d"), "a-b_c.d");
}

#[test]
fn file_reference_prefix() {
    assert!(is_file_reference("file_011"));
    assert!(!is_file_reference("f_1"));
    assert!(!is_file_reference("file"));
}

#[test]
fn parse_metadata_body() {
    let m = parse_file_metadata(
        "{\"id\":\"file_9\",\"filename\":\"out.csv\",\"size_bytes\":42,\"mime_type\":\"text/csv\",\"created_at\":\"2025-01-01\",\"downloadable\":true,\"type\":\"file\"}",
    )
    .unwrap();
    assert_eq!(m.id, "file_9");
    assert_eq!(m.filename, "out.csv");
    assert_eq!(m.size, 42);
    assert_eq!(m.content_type, "text/csv");
    assert_eq!(m.created_at.as_deref(), Some("2025-01-01"));
    assert_eq!(m.downloadable, Some(true));
    let bare = parse_file_metadata("{\"id\":\"f\",\"filename\":\"x\",\"size_bytes\":0,\"mime_type\":\"a/b\"}").unwrap();
    assert_eq!(bare.created_at, None);
    assert_eq!(bare.downloadable, None);
    assert!(parse_file_metadata("{\"id\":\"f\",\"filename\":\"x\",\"size_bytes\":-1,\"mime_type\":\"a/b\"}").is_none());
    assert!(parse_file_metadata("{\"id\":\"f\"}").is_none());
    assert!(parse_file_metadata("not json").is_none());
}

#[test]
fn parse_list_body() {
    let l = parse_file_list(
        "{\"data\":[{\"id\":\"a\",\"filename\":\"a.txt\",\"size_bytes\":1,\"mime_type\":\"text/plain\"},{\"id\":\"b\",\"filename\":\"b.txt\",\"size_bytes\":2,\"mime_type\":\"text/plain\"}],\"has_more\":false}",
    )
    .unwrap();
    assert_eq!(l.data.len(), 2);
    assert_eq!(l.data[1].filename, "b.txt");
    assert_eq!(l.has_more, Some(false));
    assert_eq!(l.next_page, None);
    assert!(parse_file_list("{\"data\":[{\"id\":\"a\"}]}").is_none());
    assert!(parse_file_list("{}").is_none());
    assert_eq!(parse_file_list("{\"data\":[]}").unwrap().data.len(), 0);
}
