use std::convert::TryFrom;
use tickets::status::Status;
use tickets::status::Status::{Done, InProgress, ToDo};
use tickets::status::StatusCreationError;

#[test]
fn test_try_from_string() {
    let status = Status::try_from("ToDO".to_string()).unwrap();
    assert_eq!(status, ToDo);

    let status = Status::try_from("inproGress".to_string()).unwrap();
    assert_eq!(status, InProgress);

    let status = Status::try_from("Done".to_string()).unwrap();
    assert_eq!(status, Done);
}

#[test]
fn test_try_from_str() {
    let status = Status::try_from("ToDO").unwrap();
    assert_eq!(status, ToDo);

    let status = Status::try_from("inproGress").unwrap();
    assert_eq!(status, InProgress);

    let status = Status::try_from("Done").unwrap();
    assert_eq!(status, Done);
}

#[test]
fn test_try_from_invalid() {
    let status = Status::try_from("Invalid");
    assert!(status.is_err());
}

#[test]
fn invalid_status_error_and_message() {
    assert_eq!(Status::new("in progress"), Err(StatusCreationError::Invalid));
    assert_eq!(Status::new(""), Err(StatusCreationError::Invalid));
    assert_eq!(Status::new("todo "), Err(StatusCreationError::Invalid));
    assert_eq!(StatusCreationError::Invalid.to_string(), "Status is invalid.");
}

#[test]
fn every_case_mix_is_accepted() {
    for text in ["todo", "TODO", "tOdO", "ToDo"] {
        assert_eq!(Status::new(text), Ok(ToDo));
    }
    for text in ["DONE", "done", "dOnE"] {
        assert_eq!(Status::new(text), Ok(Done));
    }
    assert_eq!(Status::new("INPROGRESS"), Ok(InProgress));
}

#[test]
fn lowercase_reading_needs_lowercase() {
    assert_eq!(Status::from_lowercase("todo"), Ok(ToDo));
    assert_eq!(Status::from_lowercase("inprogress"), Ok(InProgress));
    assert_eq!(Status::from_lowercase("done"), Ok(Done));
    assert_eq!(Status::from_lowercase("Done"), Err(StatusCreationError::Invalid));
}

#[test]
fn non_ascii_lookalikes_are_refused() {
    // Full-width letters lower to full-width letters, which name no status.
    assert_eq!(Status::new("ＴＯＤＯ"), Err(StatusCreationError::Invalid));
}
