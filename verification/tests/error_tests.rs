use shy_isa_lib::CoreError;

#[test]
fn describe_with_detail() {
    let e = CoreError::InvalidInput("bad flag".to_string());
    assert_eq!(e.describe(), "The provided input was invalid: bad flag.");
    let e = CoreError::ResourceNotFound("rom".to_string());
    assert_eq!(e.describe(), "The required resource was not found: rom.");
    let e = CoreError::IOError("disk full".to_string());
    assert_eq!(e.describe(), "An IO error occurred: disk full.");
    let e = CoreError::MemoryError("oob".to_string());
    assert_eq!(e.describe(), "A memory error occurred: oob.");
}

#[test]
fn describe_without_detail() {
    assert_eq!(
        CoreError::InvalidInput(String::new()).describe(),
        "The provided input was invalid."
    );
    assert_eq!(
        CoreError::ResourceNotFound(String::new()).describe(),
        "The required resource was not found."
    );
    assert_eq!(
        CoreError::IOError(String::new()).describe(),
        "An IO error occurred."
    );
    assert_eq!(
        CoreError::MemoryError(String::new()).describe(),
        "A memory error occurred."
    );
}
