use rangescan::error::TaskError;
use rangescan::store::{create_db, opened, DBOptions, OpenMode, OpenRequest};
use rangescan::sum;

#[test]
fn store_opens_for_writing_by_default() {
    let request = create_db("/tmp/db".to_string(), None);
    assert_eq!(request, OpenRequest { path: "/tmp/db".to_string(), mode: OpenMode::ReadWrite });
}

#[test]
fn readonly_option_opens_for_reading() {
    let request = create_db("data".to_string(), Some(DBOptions { readonly: true }));
    assert_eq!(request.mode, OpenMode::ReadOnly);
    assert_eq!(request.path, "data");
}

#[test]
fn readonly_false_opens_for_writing() {
    let request = create_db("data".to_string(), Some(DBOptions { readonly: false }));
    assert_eq!(request.mode, OpenMode::ReadWrite);
    assert_eq!(request.path, "data");
}

#[test]
fn store_that_opened_hands_on_its_handle() {
    assert_eq!(opened(Ok(7u8)), Ok(7u8));
    assert_eq!(opened(Ok("handle")), Ok("handle"));
}

#[test]
fn store_that_did_not_open_reports_why() {
    let refused: Result<u8, String> = Err("IO error: No such file or directory".to_string());
    assert_eq!(
        opened(refused),
        Err(TaskError::StoreOpen("IO error: No such file or directory".to_string()))
    );
}

#[test]
fn sum_adds() {
    assert_eq!(sum(2, 3), 5);
    assert_eq!(sum(-7, 7), 0);
    assert_eq!(sum(i32::MAX, -1), i32::MAX - 1);
    assert_eq!(sum(i32::MIN, i32::MAX), -1);
}
