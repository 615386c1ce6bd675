use phone_tasks::validate::{validate_content, validate_request, ValidationError};

fn repeat(c: char, n: usize) -> String {
    let mut s = String::new();
    for _ in 0..n {
        s.push(c);
    }
    s
}

#[test]
fn content_of_nine_characters_is_refused() {
    let (ok, msg) = validate_content(&repeat('a', 9));
    assert!(!ok);
    assert!(!msg.is_empty());
}

#[test]
fn content_of_ten_characters_is_accepted() {
    let (ok, msg) = validate_content(&repeat('a', 10));
    assert!(ok);
    assert!(msg.is_empty());
}

#[test]
fn content_of_two_hundred_characters_is_accepted() {
    let (ok, _) = validate_content(&repeat('a', 200));
    assert!(ok);
}

#[test]
fn content_of_two_hundred_one_characters_is_refused() {
    let (ok, _) = validate_content(&repeat('a', 201));
    assert!(!ok);
}

#[test]
fn empty_fields_are_refused() {
    assert_eq!(
        validate_request("", "12345678901", "hello world"),
        Err(ValidationError::EmptyField)
    );
    assert_eq!(
        validate_request("alice", "", "hello world"),
        Err(ValidationError::EmptyField)
    );
    assert_eq!(
        validate_request("alice", "12345678901", ""),
        Err(ValidationError::EmptyField)
    );
}

#[test]
fn target_of_wrong_length_is_refused() {
    assert_eq!(
        validate_request("alice", "1234567890", "hello world"),
        Err(ValidationError::MalformedTarget)
    );
    assert_eq!(
        validate_request("alice", "123456789012", "hello world"),
        Err(ValidationError::MalformedTarget)
    );
}

#[test]
fn content_out_of_bounds_is_refused() {
    assert_eq!(
        validate_request("alice", "12345678901", &repeat('x', 9)),
        Err(ValidationError::ContentLength)
    );
    assert_eq!(
        validate_request("alice", "12345678901", &repeat('x', 201)),
        Err(ValidationError::ContentLength)
    );
}

#[test]
fn well_formed_request_is_accepted() {
    assert_eq!(validate_request("alice", "12345678901", "hello world"), Ok(()));
    assert_eq!(
        validate_request("alice", "12345678901", &repeat('x', 10)),
        Ok(())
    );
    assert_eq!(
        validate_request("alice", "12345678901", &repeat('x', 200)),
        Ok(())
    );
}
