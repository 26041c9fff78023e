use kicad_ipc::{BoardOriginKind, DrcSeverity};

#[test]
fn board_origin_kind_parses_known_values() {
    assert_eq!(
        BoardOriginKind::from_str("grid").expect("grid should parse"),
        BoardOriginKind::Grid
    );
    assert_eq!(
        BoardOriginKind::from_str("drill").expect("drill should parse"),
        BoardOriginKind::Drill
    );
}

#[test]
fn board_origin_kind_rejects_unknown_values() {
    let result = BoardOriginKind::from_str("other");
    assert!(result.is_err());
}

#[test]
fn drc_severity_parses_known_values() {
    assert_eq!(
        DrcSeverity::from_str("warning").expect("warning should parse"),
        DrcSeverity::Warning
    );
    assert_eq!(
        DrcSeverity::from_str("error").expect("error should parse"),
        DrcSeverity::Error
    );
}

#[test]
fn drc_severity_rejects_unknown_values() {
    let result = DrcSeverity::from_str("fatal");
    assert!(result.is_err());
}
