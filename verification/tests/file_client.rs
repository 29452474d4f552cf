use starbyface::{get, Gender, StarByFaceError, StarByFaceFile};
use starbyface::Key;

#[test]
fn upload_failure_message_surfaces_as_error() {
    let client = StarByFaceFile::new(Err("No such file or directory (os error 2)".to_string()));
    match client.get_data() {
        Err(StarByFaceError::Error(m)) => {
            assert_eq!(m, "No such file or directory (os error 2)")
        },
        _ => panic!("expected the upload failure's message"),
    }
    match client.highest_similarity_by_gender(Gender::FEMALE) {
        Err(StarByFaceError::Error(m)) => {
            assert_eq!(m, "No such file or directory (os error 2)")
        },
        _ => panic!("expected the upload failure's message"),
    }
}

#[test]
fn silent_upload_failure_gives_no_data() {
    let client = StarByFaceFile::new(Err(String::new()));
    assert!(matches!(client.get_data(), Err(StarByFaceError::Null(_))));
    assert!(matches!(client.lowest_similarity(), Err(StarByFaceError::Null(_))));
    assert!(client.warning().is_none());
}

#[test]
fn file_client_extracts_records() {
    let body = format!(
        "{}{}{}{}",
        "<html><div id=\"male-celebs-result\">",
        "<div class=\"item\" similarity=\"66\"><a href=\"https://w/tom\"><img src=\"tom.jpg\" /><p class=\"n\">Tom</p></div>",
        "<div id=\"female-celebs-result\">",
        "<div class=\"item\" similarity=\"93\"><a href=\"https://w/ana\"><img src=\"ana.jpg\" /><p class=\"n\">Ana</p></div></html>"
    );
    let client = StarByFaceFile::new(Ok(body));
    let records = client.get_data().unwrap();
    assert_eq!(records.len(), 2);
    assert_eq!(get(records[0].clone(), Key::NAME).unwrap(), "Ana");
    assert_eq!(get(records[1].clone(), Key::NAME).unwrap(), "Tom");
    let males = client.get_data_by_gender(Gender::MALE).unwrap();
    assert_eq!(males.len(), 1);
    assert_eq!(get(males[0].clone(), Key::SIMILARITY).unwrap(), "66%");
}

#[test]
fn file_client_reports_service_error() {
    let body = "<html>{\"errorMsg\":\"Parameter is not valid.\"}</html>".to_string();
    let client = StarByFaceFile::new(Ok(body));
    match client.get_data() {
        Err(StarByFaceError::Error(m)) => assert_eq!(m, "Invalid Image"),
        _ => panic!("expected the service error"),
    }
}

#[test]
fn file_client_warning() {
    let body = "<html>showError(\"Low quality photo\");</html>".to_string();
    let client = StarByFaceFile::new(Ok(body));
    assert_eq!(client.warning().unwrap(), "Low quality photo");
}
