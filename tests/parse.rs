use oxc_boundary::parse::{
    fan_out_diagnostics, package_comments, package_parse, parse_sync, CommentType, ParseError,
    ParserOptions, Severity,
};

#[test]
fn line_comment_is_reported_without_delimiters() {
    let src = "// hi\nconst a = 1;";
    let r = parse_sync(src.to_string(), None).unwrap();
    assert_eq!(r.comments.len(), 1);
    let c = &r.comments[0];
    assert_eq!(c.kind, CommentType::Line);
    assert_eq!(c.value, " hi");
    assert_eq!(c.start, 0);
    assert_eq!(c.end, 5);
    assert!(r.errors.is_empty());
    assert!(r.program.contains("Program"));
}

#[test]
fn block_comment_span_holds_delimiters_and_value() {
    let src = "let x = 1; /* note */ let y = 2;";
    let r = parse_sync(src.to_string(), None).unwrap();
    assert_eq!(r.comments.len(), 1);
    let c = &r.comments[0];
    assert_eq!(c.kind, CommentType::Block);
    assert_eq!(c.value, " note ");
    let whole = &src[c.start as usize..c.end as usize];
    assert_eq!(whole, format!("/*{}*/", c.value));
}

#[test]
fn invalid_source_gives_diagnostics_within_the_text() {
    let src = "const = ;";
    let r = parse_sync(src.to_string(), None).unwrap();
    assert!(!r.errors.is_empty());
    for d in &r.errors {
        assert!(d.start <= d.end);
        assert!(d.end <= src.len());
        assert_eq!(d.severity, Severity::Error);
        assert!(!d.message.is_empty());
    }
}

#[test]
fn no_comments_and_no_errors_give_empty_collections() {
    let r = parse_sync("let a = 1;".to_string(), None).unwrap();
    assert!(r.comments.is_empty());
    assert!(r.errors.is_empty());
}

#[test]
fn unknown_file_extension_is_refused() {
    let o = ParserOptions { source_type: None, source_filename: Some("notes.txt".to_string()) };
    assert_eq!(parse_sync("let a;".to_string(), Some(o)).unwrap_err(), ParseError::InvalidFileName);
}

#[test]
fn file_name_selects_typescript() {
    let o = ParserOptions { source_type: None, source_filename: Some("a.ts".to_string()) };
    let r = parse_sync("let a: number = 1;".to_string(), Some(o)).unwrap();
    assert!(r.errors.is_empty());
    let js = parse_sync("let a: number = 1;".to_string(), None).unwrap();
    assert!(!js.errors.is_empty());
}

#[test]
fn explicit_source_type_overrides_the_default() {
    let src = "await x;";
    let script = ParserOptions { source_type: Some("script".to_string()), source_filename: None };
    let in_script = parse_sync(src.to_string(), Some(script)).unwrap().errors.is_empty();
    let module = ParserOptions { source_type: Some("module".to_string()), source_filename: None };
    let in_module = parse_sync(src.to_string(), Some(module)).unwrap().errors.is_empty();
    assert!(in_module);
    assert_ne!(in_script, in_module);
}

#[test]
fn comments_are_packaged_in_order() {
    let src = "// a\n/* bc */";
    let raw = vec![(false, 0, 4), (true, 5, 13)];
    let out = package_comments(src, &raw).unwrap();
    assert_eq!(out.len(), 2);
    assert_eq!(out[0].value, " a");
    assert_eq!(out[0].kind, CommentType::Line);
    assert_eq!(out[1].value, " bc ");
    assert_eq!((out[1].start, out[1].end), (5, 13));
}

#[test]
fn malformed_comment_spans_are_refused() {
    let src = "// a";
    assert!(package_comments(src, &vec![(false, 0, 9)]).is_none());
    assert!(package_comments(src, &vec![(true, 0, 3)]).is_none());
    assert!(package_comments("//é", &vec![(false, 0, 3)]).is_none());
    assert!(package_comments("// a // b", &vec![(false, 5, 9), (false, 0, 4)]).is_none());
    assert!(package_comments("// a // b", &vec![(false, 0, 6), (false, 5, 9)]).is_none());
    assert!(package_comments(src, &vec![]).unwrap().is_empty());
}

#[test]
fn multibyte_comment_value_is_kept() {
    let src = "//é";
    let out = package_comments(src, &vec![(false, 0, 4)]).unwrap();
    assert_eq!(out[0].value, "é");
}

#[test]
fn error_without_labels_adds_no_diagnostic() {
    let errors = vec![("lost".to_string(), vec![]), ("found".to_string(), vec![(3, 2)])];
    let out = fan_out_diagnostics(&errors, 20).unwrap();
    assert_eq!(out.len(), 1);
    assert_eq!((out[0].start, out[0].end), (3, 5));
    assert_eq!(out[0].message, "found");
}

#[test]
fn error_with_labels_fans_out_one_per_label() {
    let errors = vec![("bad".to_string(), vec![(0, 1), (4, 3), (9, 0)])];
    let out = fan_out_diagnostics(&errors, 20).unwrap();
    assert_eq!(out.len(), 3);
    let spans: Vec<(usize, usize)> = out.iter().map(|d| (d.start, d.end)).collect();
    assert_eq!(spans, vec![(0, 1), (4, 7), (9, 9)]);
    assert!(out.iter().all(|d| d.message == "bad" && d.severity == Severity::Error));
}

#[test]
fn empty_engine_output_packs_to_empty_collections() {
    let r = package_parse("x", ("{}".to_string(), vec![], vec![])).unwrap();
    assert_eq!(r.program, "{}");
    assert!(r.comments.is_empty());
    assert!(r.errors.is_empty());
    assert!(fan_out_diagnostics(&vec![], 0).unwrap().is_empty());
}

#[test]
fn bad_comment_span_is_a_marshaling_error() {
    let r = package_parse("x", ("{}".to_string(), vec![(false, 0, 7)], vec![]));
    assert_eq!(r.unwrap_err(), ParseError::Marshaling);
}

#[test]
fn labels_past_the_source_end_are_refused() {
    let errors = vec![("bad".to_string(), vec![(4, 3)])];
    assert!(fan_out_diagnostics(&errors, 7).is_some());
    assert!(fan_out_diagnostics(&errors, 6).is_none());
    let r = package_parse("x", ("{}".to_string(), vec![], errors));
    assert_eq!(r.unwrap_err(), ParseError::Marshaling);
}

#[test]
fn html_like_comments_are_kept_as_line_comments() {
    let src = "<!-- x\nlet a;";
    let script = ParserOptions { source_type: Some("script".to_string()), source_filename: None };
    let r = parse_sync(src.to_string(), Some(script)).unwrap();
    assert_eq!(r.comments.len(), 1);
    assert_eq!(r.comments[0].kind, CommentType::Line);
    assert_eq!(r.comments[0].value, "-- x");
    assert_eq!((r.comments[0].start, r.comments[0].end), (0, 6));
    let module = parse_sync(src.to_string(), None).unwrap();
    assert!(!module.errors.is_empty());
}

#[test]
fn comments_of_a_parse_are_ordered_and_within_the_text() {
    let src = "/* a */ let x = 1; // b\n/* c */";
    let r = parse_sync(src.to_string(), None).unwrap();
    assert_eq!(r.comments.len(), 3);
    for w in r.comments.windows(2) {
        assert!(w[0].end <= w[1].start);
    }
    assert!(r.comments.iter().all(|c| c.end as usize <= src.len()));
    assert_eq!(r.comments[1].value, " b");
}
