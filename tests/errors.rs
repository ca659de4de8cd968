use bambu_slicer::SlicerError;

fn msg(s: &str) -> Option<String> {
    Some(s.to_string())
}

#[test]
fn known_codes_translate_with_message() {
    assert_eq!(SlicerError::from_code(1, msg("x")), SlicerError::NullContext);
    assert_eq!(SlicerError::from_code(2, msg("x")), SlicerError::NullParameter);
    assert_eq!(SlicerError::from_code(3, msg("bad mesh")), SlicerError::ModelLoad("bad mesh".to_string()));
    assert_eq!(SlicerError::from_code(4, msg("bad key")), SlicerError::ConfigParse("bad key".to_string()));
    assert_eq!(SlicerError::from_code(5, msg("no A9")), SlicerError::PresetNotFound("no A9".to_string()));
    assert_eq!(SlicerError::from_code(6, msg("x")), SlicerError::NoModel);
    assert_eq!(SlicerError::from_code(7, msg("x")), SlicerError::NoConfig);
    assert_eq!(SlicerError::from_code(8, msg("boom")), SlicerError::ProcessFailed("boom".to_string()));
    assert_eq!(SlicerError::from_code(9, msg("disk")), SlicerError::ExportFailed("disk".to_string()));
    assert_eq!(SlicerError::from_code(10, msg("io")), SlicerError::Io("io".to_string()));
    assert_eq!(SlicerError::from_code(99, msg("oops")), SlicerError::Internal("oops".to_string()));
}

#[test]
fn missing_message_gets_marker() {
    assert_eq!(
        SlicerError::from_code(3, None),
        SlicerError::ModelLoad("No error message available".to_string())
    );
    assert_eq!(
        SlicerError::from_code(99, None),
        SlicerError::Internal("No error message available".to_string())
    );
}

#[test]
fn unknown_codes_keep_the_code() {
    assert_eq!(SlicerError::from_code(42, msg("x")), SlicerError::Unknown(42));
    assert_eq!(SlicerError::from_code(0, None), SlicerError::Unknown(0));
    assert_eq!(SlicerError::from_code(-1, None), SlicerError::Unknown(-1));
    assert_eq!(SlicerError::from_code(11, None), SlicerError::Unknown(11));
}
