use xege::error::handle_result;
use xege::ImageError;

#[test]
fn ok_code_maps_to_ok() {
    assert_eq!(handle_result(0), Ok(()));
}

#[test]
fn each_known_code_maps_to_its_member() {
    assert_eq!(handle_result(-3), Err(ImageError::FileNotFound));
    assert_eq!(handle_result(21), Err(ImageError::AllocError));
    assert_eq!(handle_result(20), Err(ImageError::NullPointer));
    assert_eq!(handle_result(-12), Err(ImageError::IOError));
}

#[test]
fn unrecognized_codes_map_to_unknown() {
    for code in [1, -1, -2, 17, 19, 22, 1000, i32::MIN, i32::MAX] {
        assert_eq!(handle_result(code), Err(ImageError::UnknownError));
    }
}

#[test]
fn error_messages() {
    assert_eq!(
        ImageError::AllocError.message(),
        "Memory allocation failed during read operation."
    );
    assert_eq!(ImageError::FileNotFound.message(), "The file does not exist.");
    assert_eq!(ImageError::NullPointer.message(), "Pointer conversion failed.");
    assert_eq!(ImageError::IOError.message(), "Reading failed.");
    assert_eq!(ImageError::UnknownError.message(), "Other Unknown error.");
    assert_eq!(ImageError::PathParserError.message(), "Path parsing error.");
}
