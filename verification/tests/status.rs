use agent_bridge::status::Status;

#[test]
fn status_exists_from_100_to_999() {
    assert!(Status::from_u16(0).is_none());
    assert!(Status::from_u16(99).is_none());
    assert_eq!(Status::from_u16(100).unwrap().as_u16(), 100);
    assert_eq!(Status::from_u16(999).unwrap().as_u16(), 999);
    assert!(Status::from_u16(1000).is_none());
    assert!(Status::from_u16(u16::MAX).is_none());
}

#[test]
fn status_agrees_with_the_http_library_on_every_code() {
    for code in 0u16..=u16::MAX {
        let ours = Status::from_u16(code);
        match reqwest::StatusCode::from_u16(code) {
            Ok(theirs) => {
                let ours = ours.unwrap();
                assert_eq!(ours.as_u16(), theirs.as_u16());
                assert_eq!(ours.is_success(), theirs.is_success());
                assert_eq!(ours.line(), theirs.to_string());
            }
            Err(_) => assert!(ours.is_none()),
        }
    }
}

#[test]
fn success_is_the_2xx_range() {
    assert!(!Status::from_u16(199).unwrap().is_success());
    assert!(Status::from_u16(200).unwrap().is_success());
    assert!(Status::from_u16(299).unwrap().is_success());
    assert!(!Status::from_u16(300).unwrap().is_success());
}

#[test]
fn line_is_number_and_reason() {
    assert_eq!(Status::from_u16(200).unwrap().line(), "200 OK");
    assert_eq!(Status::from_u16(201).unwrap().line(), "201 Created");
    assert_eq!(Status::from_u16(404).unwrap().line(), "404 Not Found");
    assert_eq!(Status::from_u16(100).unwrap().line(), "100 Continue");
    assert_eq!(Status::from_u16(999).unwrap().line(), "999 <unknown status code>");
}

#[test]
fn line_starts_with_the_number_and_a_space() {
    for code in 100u16..=999 {
        let line = Status::from_u16(code).unwrap().line();
        assert!(line.starts_with(&format!("{} ", code)));
    }
}

#[test]
fn equal_codes_are_equal_statuses() {
    assert_eq!(Status::from_u16(404), Status::from_u16(404));
    assert_ne!(Status::from_u16(404), Status::from_u16(405));
}
