use bambu_slicer::artifact::is_supported_extension;
use bambu_slicer::{base64_encode, check_model_filename, ModelFileError};

#[test]
fn base64_of_known_values() {
    assert_eq!(base64_encode(b"hello"), "aGVsbG8=");
    assert_eq!(base64_encode(b""), "");
    assert_eq!(base64_encode(b"G1 X10"), "RzEgWDEw");
    assert_eq!(base64_encode(&[0xff, 0x00]), "/wA=");
}

#[test]
fn model_extensions_are_checked_case_blind() {
    assert_eq!(check_model_filename("part.stl"), Ok(()));
    assert_eq!(check_model_filename("Part.STL"), Ok(()));
    assert_eq!(check_model_filename("plate.3MF"), Ok(()));
    assert_eq!(check_model_filename("x.Obj"), Ok(()));
    assert_eq!(check_model_filename("x.amf"), Ok(()));
}

#[test]
fn model_extension_errors() {
    assert_eq!(check_model_filename("model"), Err(ModelFileError::InvalidExtension));
    assert_eq!(check_model_filename(".stl"), Err(ModelFileError::InvalidExtension));
    assert_eq!(check_model_filename("model.step"), Err(ModelFileError::UnsupportedFormat));
    assert_eq!(check_model_filename("archive.stl.zip"), Err(ModelFileError::UnsupportedFormat));
}

#[test]
fn supported_extensions_are_lower_case() {
    assert!(is_supported_extension("stl"));
    assert!(!is_supported_extension("STL"));
    assert!(!is_supported_extension("st"));
}
