use diag::{
    diag_err, mark_unimplemented, mark_unreachable, u32_text, unimplemented_err,
    unreachable_err, DiagConfig, DiagError, DiagKind, Diagnostic, Position,
};

fn here() -> Position {
    Position::new("foo.rs".to_string(), 42, 5)
}

#[test]
#[should_panic]
fn diag_unreachable() {
    let d = mark_unreachable(&DiagConfig { panic_on_unreachable: true }, here(), None);
    if d.abort {
        panic!("{}", d.error.to_text());
    }
}

#[test]
#[should_panic]
fn diag_unimplemented() {
    let d = mark_unimplemented(&DiagConfig { panic_on_unreachable: true }, here(), None);
    if d.abort {
        panic!("{}", d.error.to_text());
    }
}

#[test]
fn bail_diag() {
    assert!((|| -> Result<(), Diagnostic> {
        if true {
            return diag::bail_diag(here(), Some("should return error".to_string()));
        }
        Ok(())
    })()
    .is_err());
}

#[test]
fn bail_diag_carries_internal_error() {
    let r: Result<u32, Diagnostic> = diag::bail_diag(here(), None);
    match r {
        Err(d) => {
            assert_eq!(d.error.kind, DiagKind::InternalError);
            assert_eq!(d.error.to_text(), "internal error at foo.rs:42:5");
            assert!(!d.abort);
        }
        Ok(_) => panic!("bail_diag returned Ok"),
    }
}

#[test]
fn position_display() {
    assert_eq!(here().to_text(), "foo.rs:42:5");
}

#[test]
fn position_extremes() {
    assert_eq!(Position::new("a.rs".to_string(), 0, 0).to_text(), "a.rs:0:0");
    assert_eq!(
        Position::new("b.rs".to_string(), u32::MAX, 10).to_text(),
        "b.rs:4294967295:10"
    );
}

#[test]
fn decimal_text_of_integers() {
    assert_eq!(u32_text(0), "0");
    assert_eq!(u32_text(7), "7");
    assert_eq!(u32_text(10), "10");
    assert_eq!(u32_text(1907), "1907");
    assert_eq!(u32_text(u32::MAX), "4294967295");
}

#[test]
fn position_from_source_path_keeps_file_name() {
    let p = Position::from_source_path("src/tests.rs", 42, 5).unwrap();
    assert_eq!(p.file, "tests.rs");
    assert_eq!(p.to_text(), "tests.rs:42:5");
    let q = Position::from_source_path("foo.rs", 1, 2).unwrap();
    assert_eq!(q.to_text(), "foo.rs:1:2");
}

#[test]
fn position_from_source_path_without_file_name() {
    assert!(Position::from_source_path("", 1, 1).is_none());
    assert!(Position::from_source_path("src/..", 1, 1).is_none());
}

#[test]
fn error_texts_of_each_kind() {
    let e = DiagError::new(DiagKind::UnreachableReached, here(), None);
    assert_eq!(e.to_text(), "unreachable code reached at foo.rs:42:5");
    let e = DiagError::new(DiagKind::UnimplementedReached, here(), None);
    assert_eq!(e.to_text(), "unimplemented code reached at foo.rs:42:5");
    let e = DiagError::new(DiagKind::InternalError, here(), None);
    assert_eq!(e.to_text(), "internal error at foo.rs:42:5");
}

#[test]
fn error_text_with_detail() {
    let e = DiagError::new(DiagKind::InternalError, here(), Some("message here".to_string()));
    assert_eq!(e.to_text(), "internal error at foo.rs:42:5: message here");
}

#[test]
fn kind_messages() {
    assert_eq!(DiagKind::UnreachableReached.message(), "unreachable code reached");
    assert_eq!(DiagKind::UnimplementedReached.message(), "unimplemented code reached");
    assert_eq!(DiagKind::InternalError.message(), "internal error");
}

#[test]
fn report_lines_with_given_backtrace() {
    let e = DiagError::new(DiagKind::InternalError, here(), Some("some internal error message here".to_string()));
    let lines = e.report_with("frame 0");
    assert_eq!(
        lines,
        vec![
            "internal error at foo.rs:42:5".to_string(),
            "some internal error message here".to_string(),
            "frame 0".to_string()
        ]
    );
    let e = DiagError::new(DiagKind::UnreachableReached, here(), None);
    assert_eq!(
        e.report_with(""),
        vec!["unreachable code reached at foo.rs:42:5".to_string(), String::new()]
    );
}

#[test]
fn mark_does_not_abort_when_configured_off() {
    let d = mark_unreachable(&DiagConfig { panic_on_unreachable: false }, here(), None);
    assert!(!d.abort);
    assert_eq!(d.error.kind, DiagKind::UnreachableReached);
    assert_eq!(d.lines.len(), 2);
    assert_eq!(d.lines[0], "unreachable code reached at foo.rs:42:5");
    let d = mark_unimplemented(&DiagConfig { panic_on_unreachable: false }, here(), Some("todo".to_string()));
    assert!(!d.abort);
    assert_eq!(d.lines.len(), 3);
    assert_eq!(d.lines[0], "unimplemented code reached at foo.rs:42:5");
    assert_eq!(d.lines[1], "todo");
}

#[test]
fn mark_aborts_when_configured_on() {
    let d = mark_unimplemented(&DiagConfig { panic_on_unreachable: true }, here(), None);
    assert!(d.abort);
    assert_eq!(d.error.kind, DiagKind::UnimplementedReached);
}

#[test]
fn fail_variants_never_abort_and_name_the_call_site() {
    let d = unreachable_err(here(), None);
    assert!(!d.abort);
    assert!(d.error.to_text().contains("foo.rs:42:5"));
    let d = unimplemented_err(here(), Some("message here".to_string()));
    assert!(!d.abort);
    assert_eq!(d.error.kind, DiagKind::UnimplementedReached);
    assert!(d.error.to_text().contains("foo.rs:42:5"));
    assert_eq!(d.lines[1], "message here");
}

#[test]
fn diag_err_is_internal_error() {
    let d = diag_err(here(), None);
    assert!(!d.abort);
    assert_eq!(d.error.kind, DiagKind::InternalError);
    assert_eq!(d.lines.len(), 2);
    assert_eq!(d.error.to_text(), "internal error at foo.rs:42:5");
}
