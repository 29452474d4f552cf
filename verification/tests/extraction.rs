use starbyface::{get, get_list, CandidateRecord, Gender, Key, StarByFace, StarByFaceError};

fn female_block(sim: &str, wiki: &str, img: &str, name: &str) -> String {
    format!(
        "<div class=\"item\" similarity=\"{}\"><a href=\"{}\"><img src=\"{}\" /><p class=\"n\">{}</p></div>",
        sim, wiki, img, name
    )
}

fn body_one_each() -> String {
    let male = female_block("80", "https://w/tom", "tom.jpg", "Tom");
    let fem = female_block("91", "https://w/ana", "ana.jpg", "Ana");
    format!(
        "<html><div id=\"male-celebs-result\">{}<div id=\"female-celebs-result\">{}</html>",
        male, fem
    )
}

#[test]
fn female_section_records_in_order() {
    let fem = format!(
        "{}{}{}",
        female_block("91", "https://w/a", "a.jpg", "Ana"),
        female_block("85", "https://w/b", "b.jpg", "Bea"),
        female_block("70", "https://w/c", "c.jpg", "Cam")
    );
    let body = format!("<html><div id=\"female-celebs-result\">{}</html>", fem);
    let client = StarByFace::new(Some(body));
    let records = client.get_data_by_gender(Gender::FEMALE).unwrap();
    assert_eq!(records.len(), 3);
    let names = get_list(records.clone(), Key::NAME).unwrap();
    assert_eq!(names, vec!["Ana".to_string(), "Bea".to_string(), "Cam".to_string()]);
    for r in records {
        assert_eq!(get(r, Key::GENDER).unwrap(), "female");
    }
}

#[test]
fn invalid_parameter_normalized_everywhere() {
    let body = "<html>{\"errorMsg\":\"Parameter is not valid.\"}</html>".to_string();
    let client = StarByFace::new(Some(body));
    match client.get_data() {
        Err(StarByFaceError::Error(m)) => assert_eq!(m, "Invalid Image"),
        other => panic!("unexpected: {:?}", other.map(|_| ())),
    }
    match client.get_data_by_gender(Gender::MALE) {
        Err(StarByFaceError::Error(m)) => assert_eq!(m, "Invalid Image"),
        _ => panic!("expected the service error"),
    }
    match client.highest_similarity() {
        Err(StarByFaceError::Error(m)) => assert_eq!(m, "Invalid Image"),
        _ => panic!("expected the service error"),
    }
    match client.highest_similarity_by_gender(Gender::FEMALE) {
        Err(StarByFaceError::Error(m)) => assert_eq!(m, "Invalid Image"),
        _ => panic!("expected the service error"),
    }
    match client.lowest_similarity() {
        Err(StarByFaceError::Error(m)) => assert_eq!(m, "Invalid Image"),
        _ => panic!("expected the service error"),
    }
    match client.lowest_similarity_by_gender(Gender::MALE) {
        Err(StarByFaceError::Error(m)) => assert_eq!(m, "Invalid Image"),
        _ => panic!("expected the service error"),
    }
}

#[test]
fn other_error_text_kept_verbatim() {
    let body = "<html>{\"errorMsg\":\"No face detected\"}</html>".to_string();
    let client = StarByFace::new(Some(body));
    match client.get_data() {
        Err(StarByFaceError::Error(m)) => assert_eq!(m, "No face detected"),
        _ => panic!("expected the service error"),
    }
}

#[test]
fn error_wins_over_records() {
    let body = format!(
        "<html>{{\"errorMsg\":\"Parameter is not valid.\"}}{}",
        "<div id=\"female-celebs-result\"><div similarity=\"9\"><a href=\"w\"><img src=\"i\" /><p>X</p>"
    );
    let client = StarByFace::new(Some(body));
    match client.get_data() {
        Err(StarByFaceError::Error(m)) => assert_eq!(m, "Invalid Image"),
        _ => panic!("expected the service error"),
    }
}

#[test]
fn empty_sections_give_no_data() {
    let body = "<html><p>nothing here</p></html>".to_string();
    let client = StarByFace::new(Some(body));
    assert!(matches!(client.get_data(), Err(StarByFaceError::Null(_))));
    assert!(matches!(client.highest_similarity(), Err(StarByFaceError::Null(_))));
    assert!(matches!(client.lowest_similarity(), Err(StarByFaceError::Null(_))));
}

#[test]
fn failed_fetch_gives_no_data() {
    let client = StarByFace::new(None);
    assert!(matches!(client.get_data(), Err(StarByFaceError::Null(_))));
    assert!(client.warning().is_none());
}

#[test]
fn marker_without_records_gives_no_data() {
    let body = "<html><div id=\"female-celebs-result\"><p>empty</p></html>".to_string();
    let client = StarByFace::new(Some(body));
    assert!(matches!(client.get_data_by_gender(Gender::FEMALE), Err(StarByFaceError::Null(_))));
}

#[test]
fn highest_and_lowest_by_position() {
    let fem = format!(
        "{}{}{}",
        female_block("91", "https://w/a", "a.jpg", "Ana"),
        female_block("85", "https://w/b", "b.jpg", "Bea"),
        female_block("70", "https://w/c", "c.jpg", "Cam")
    );
    let body = format!("<html><div id=\"female-celebs-result\">{}</html>", fem);
    let client = StarByFace::new(Some(body));
    let first = client.highest_similarity_by_gender(Gender::FEMALE).unwrap();
    assert_eq!(get(first, Key::NAME).unwrap(), "Ana");
    let last = client.lowest_similarity_by_gender(Gender::FEMALE).unwrap();
    assert_eq!(get(last, Key::NAME).unwrap(), "Cam");
    assert!(matches!(
        client.highest_similarity_by_gender(Gender::MALE),
        Err(StarByFaceError::Null(_))
    ));
}

#[test]
fn highest_takes_first_of_each_section() {
    let body = body_one_each();
    let client = StarByFace::new(Some(body));
    let tops = client.highest_similarity().unwrap();
    assert_eq!(tops.len(), 2);
    assert_eq!(get(tops[0].clone(), Key::NAME).unwrap(), "Ana");
    assert_eq!(get(tops[1].clone(), Key::NAME).unwrap(), "Tom");
}

#[test]
fn end_to_end_female_first() {
    let body = body_one_each();
    let client = StarByFace::new(Some(body));
    let records = client.get_data().unwrap();
    assert_eq!(records.len(), 2);
    assert_eq!(
        records[0],
        "{\"similarity\":\"91%\",\"name\":\"Ana\",\"gender\":\"female\",\"image\":\"ana.jpg\",\"wiki\":\"https://w/ana\"}"
    );
    assert_eq!(get(records[0].clone(), Key::GENDER).unwrap(), "female");
    assert_eq!(get(records[1].clone(), Key::NAME).unwrap(), "Tom");
    assert_eq!(get(records[1].clone(), Key::GENDER).unwrap(), "male");
}

#[test]
fn similarity_carries_percent_sign() {
    let body = body_one_each();
    let client = StarByFace::new(Some(body));
    let records = client.get_data().unwrap();
    assert_eq!(get(records[0].clone(), Key::SIMILARITY).unwrap(), "91%");
    assert_eq!(get(records[1].clone(), Key::SIMILARITY).unwrap(), "80%");
}

#[test]
fn image_spaces_all_percent_encoded() {
    let fem = female_block("91", "https://w/a", "a b.jpg", "Ana");
    let body = format!("<html><div id=\"female-celebs-result\">{}</html>", fem);
    let client = StarByFace::new(Some(body));
    let records = client.get_data().unwrap();
    assert_eq!(get(records[0].clone(), Key::IMAGE).unwrap(), "a%20b.jpg");

    let fem2 = female_block("91", "https://w/a", "a b c d.jpg", "Ana");
    let body2 = format!("<html><div id=\"female-celebs-result\">{}</html>", fem2);
    let client2 = StarByFace::new(Some(body2));
    let records2 = client2.get_data().unwrap();
    assert_eq!(get(records2[0].clone(), Key::IMAGE).unwrap(), "a%20b%20c%20d.jpg");
}

#[test]
fn serialize_get_round_trip() {
    let rec = CandidateRecord {
        similarity: "87%".to_string(),
        name: "Ana Maria".to_string(),
        gender: "female".to_string(),
        image: "ana.jpg".to_string(),
        wiki: "https://w/ana".to_string(),
    };
    let text = rec.serialize();
    assert_eq!(get(text.clone(), Key::NAME).unwrap(), "Ana Maria");
    assert_eq!(get(text.clone(), Key::SIMILARITY).unwrap(), "87%");
    assert_eq!(get(text.clone(), Key::GENDER).unwrap(), "female");
    assert_eq!(get(text.clone(), Key::IMAGE).unwrap(), "ana.jpg");
    assert_eq!(get(text, Key::WIKI).unwrap(), "https://w/ana");
}

#[test]
fn serialize_get_round_trip_with_escapes() {
    let rec = CandidateRecord {
        similarity: "87%".to_string(),
        name: "Jo \"Q\" O\\Brien".to_string(),
        gender: "female".to_string(),
        image: "a%20b.jpg".to_string(),
        wiki: "https://w/jo".to_string(),
    };
    let text = rec.serialize();
    assert_eq!(get(text, Key::NAME).unwrap(), "Jo \"Q\" O\\Brien");
}

#[test]
fn get_rejects_malformed_text() {
    assert!(matches!(
        get("not a record".to_string(), Key::NAME),
        Err(StarByFaceError::Null(m)) if m == "null"
    ));
    assert!(matches!(
        get("{\"similarity\":\"87%\"}".to_string(), Key::NAME),
        Err(StarByFaceError::Null(_))
    ));
}

#[test]
fn get_list_behaviour() {
    assert!(matches!(get_list(Vec::new(), Key::NAME), Err(StarByFaceError::Null(_))));
    let a = CandidateRecord {
        similarity: "9%".to_string(),
        name: "A".to_string(),
        gender: "male".to_string(),
        image: "a.jpg".to_string(),
        wiki: "wa".to_string(),
    };
    let b = CandidateRecord {
        similarity: "8%".to_string(),
        name: "B".to_string(),
        gender: "male".to_string(),
        image: "b.jpg".to_string(),
        wiki: "wb".to_string(),
    };
    let good = vec![a.serialize(), b.serialize()];
    assert_eq!(get_list(good, Key::NAME).unwrap(), vec!["A".to_string(), "B".to_string()]);
    let partly_bad = vec![a.serialize(), "garbage".to_string()];
    assert!(matches!(get_list(partly_bad, Key::NAME), Err(StarByFaceError::Null(_))));
}

#[test]
fn warning_stripped_of_wrapping() {
    let body = "<html><script>showError(\"No face found\");</script></html>".to_string();
    let client = StarByFace::new(Some(body));
    assert_eq!(client.warning().unwrap(), "No face found");

    let quiet = StarByFace::new(Some("<html></html>".to_string()));
    assert!(quiet.warning().is_none());
}
