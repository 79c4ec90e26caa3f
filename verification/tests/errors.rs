use vocaloid::ConvertError;

#[test]
fn io_failure_is_kept_as_such() {
    let e = std::io::Error::new(std::io::ErrorKind::NotFound, "gone");
    match ConvertError::from(e) {
        ConvertError::IoError(inner) => assert_eq!(inner.kind(), std::io::ErrorKind::NotFound),
        other => panic!("unexpected {:?}", other),
    }
}

#[test]
fn json_failure_is_kept_as_such() {
    let e = serde_json::from_str::<serde_json::Value>("{").unwrap_err();
    let line = e.line();
    match ConvertError::from(e) {
        ConvertError::SerdeJsonError(inner) => assert_eq!(inner.line(), line),
        other => panic!("unexpected {:?}", other),
    }
}

#[test]
fn archive_failure_is_kept_as_such() {
    assert!(matches!(
        ConvertError::from(zip::result::ZipError::FileNotFound),
        ConvertError::ZipError(zip::result::ZipError::FileNotFound)
    ));
    assert!(matches!(
        ConvertError::from(zip::result::ZipError::UnsupportedArchive("x")),
        ConvertError::ZipError(zip::result::ZipError::UnsupportedArchive("x"))
    ));
}

#[test]
fn markup_failures_are_kept_as_such() {
    match ConvertError::from(quick_xml::Error::UnexpectedEof(String::from("tag"))) {
        ConvertError::XmlError(quick_xml::Error::UnexpectedEof(what)) => assert_eq!(what, "tag"),
        other => panic!("unexpected {:?}", other),
    }
    match ConvertError::from(quick_xml::DeError::Custom(String::from("shape"))) {
        ConvertError::XmlDeError(quick_xml::DeError::Custom(what)) => assert_eq!(what, "shape"),
        other => panic!("unexpected {:?}", other),
    }
}

#[test]
fn question_mark_converts_a_failure() {
    fn lookup() -> Result<(), ConvertError> {
        Err(zip::result::ZipError::FileNotFound)?;
        Ok(())
    }
    assert!(matches!(lookup(), Err(ConvertError::ZipError(_))));
}
