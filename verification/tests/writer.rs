use opfs_store::error::{parse_js_error, ErrorKind};
use opfs_store::writer::{WriteAction, WriteDriver};

#[test]
fn happy_path_runs_open_seek_write_close() {
    let mut d = WriteDriver::new();
    assert_eq!(d.next_action(), Some(WriteAction::OpenStream));
    d.step(Ok(()));
    assert_eq!(d.next_action(), Some(WriteAction::Seek));
    d.step(Ok(()));
    assert_eq!(d.next_action(), Some(WriteAction::WriteBytes));
    d.step(Ok(()));
    assert_eq!(d.next_action(), Some(WriteAction::CloseStream));
    d.step(Ok(()));
    assert_eq!(d.next_action(), None);
    assert!(d.take_result().is_ok());
}

#[test]
fn open_failure_surfaces_structured_error() {
    let mut d = WriteDriver::new();
    d.step(Err(Some("open denied".to_string())));
    assert_eq!(d.next_action(), None);
    let err = d.take_result().unwrap_err();
    assert_eq!(err.kind(), ErrorKind::Unexpected);
    assert_eq!(err.message(), "open denied");
}

#[test]
fn seek_failure_still_closes_the_stream() {
    let mut d = WriteDriver::new();
    d.step(Ok(()));
    d.step(Err(Some("seek failed".to_string())));
    assert_eq!(d.next_action(), Some(WriteAction::CloseStream));
    d.step(Ok(()));
    assert_eq!(d.next_action(), None);
    let err = d.take_result().unwrap_err();
    assert_eq!(err.kind(), ErrorKind::Unexpected);
    assert_eq!(err.message(), "seek failed");
}

#[test]
fn write_failure_keeps_first_error_even_when_close_fails_too() {
    let mut d = WriteDriver::new();
    d.step(Ok(()));
    d.step(Ok(()));
    d.step(Err(Some("quota exceeded".to_string())));
    assert_eq!(d.next_action(), Some(WriteAction::CloseStream));
    d.step(Err(Some("close also failed".to_string())));
    assert_eq!(d.next_action(), None);
    let err = d.take_result().unwrap_err();
    assert_eq!(err.kind(), ErrorKind::Unexpected);
    assert_eq!(err.message(), "quota exceeded");
}

#[test]
fn close_failure_surfaces_structured_error() {
    let mut d = WriteDriver::new();
    d.step(Ok(()));
    d.step(Ok(()));
    d.step(Ok(()));
    d.step(Err(Some("commit failed".to_string())));
    assert_eq!(d.next_action(), None);
    let err = d.take_result().unwrap_err();
    assert_eq!(err.kind(), ErrorKind::Unexpected);
    assert_eq!(err.message(), "commit failed");
}

#[test]
fn failure_without_extractable_text_gets_empty_message() {
    let mut d = WriteDriver::new();
    d.step(Err(None));
    let err = d.take_result().unwrap_err();
    assert_eq!(err.kind(), ErrorKind::Unexpected);
    assert_eq!(err.message(), "");
}

#[test]
fn parse_js_error_extracts_text() {
    let err = parse_js_error(Some("backend unavailable".to_string()));
    assert_eq!(err.kind(), ErrorKind::Unexpected);
    assert_eq!(err.message(), "backend unavailable");
}

#[test]
fn parse_js_error_defaults_to_empty_message() {
    let err = parse_js_error(None);
    assert_eq!(err.kind(), ErrorKind::Unexpected);
    assert_eq!(err.message(), "");
}
