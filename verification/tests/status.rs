use imalink_desktop::status::{HttpStatus, CONFLICT};
use imalink_desktop::text::natural_text;

fn status(code: u16) -> HttpStatus {
    match HttpStatus::new(code) {
        Some(status) => status,
        None => panic!("{} is no status code", code),
    }
}

#[test]
fn status_accepts_three_digit_codes_only() {
    assert!(HttpStatus::new(0).is_none());
    assert!(HttpStatus::new(99).is_none());
    assert!(HttpStatus::new(100).is_some());
    assert!(HttpStatus::new(200).is_some());
    assert!(HttpStatus::new(999).is_some());
    assert!(HttpStatus::new(1000).is_none());
    assert!(HttpStatus::new(u16::MAX).is_none());
}

#[test]
fn status_keeps_its_code() {
    assert_eq!(status(100).code(), 100);
    assert_eq!(status(404).code(), 404);
    assert_eq!(status(999).code(), 999);
}

#[test]
fn status_success_is_the_two_hundreds() {
    assert!(!status(100).is_success());
    assert!(!status(199).is_success());
    assert!(status(200).is_success());
    assert!(status(204).is_success());
    assert!(status(299).is_success());
    assert!(!status(300).is_success());
    assert!(!status(409).is_success());
    assert!(!status(500).is_success());
}

#[test]
fn status_success_agrees_with_the_http_client() {
    let mut code: u16 = 100;
    while code <= 999 {
        let theirs = match reqwest::StatusCode::from_u16(code) {
            Ok(s) => s,
            Err(_) => panic!("{} refused", code),
        };
        assert_eq!(status(code).is_success(), theirs.is_success());
        assert_eq!(status(code).is_conflict(), theirs == reqwest::StatusCode::CONFLICT);
        assert_eq!(status(code).describe(), theirs.to_string());
        code += 1;
    }
}

#[test]
fn status_bounds_agree_with_the_http_client() {
    let mut code: u16 = 0;
    while code < 1200 {
        assert_eq!(HttpStatus::new(code).is_some(), reqwest::StatusCode::from_u16(code).is_ok());
        code += 1;
    }
}

#[test]
fn status_conflict_is_409() {
    assert_eq!(CONFLICT, 409);
    assert!(status(409).is_conflict());
    assert!(!status(408).is_conflict());
    assert!(!status(200).is_conflict());
}

#[test]
fn status_describes_code_and_reason() {
    assert_eq!(status(200).describe(), "200 OK");
    assert_eq!(status(401).describe(), "401 Unauthorized");
    assert_eq!(status(404).describe(), "404 Not Found");
    assert_eq!(status(409).describe(), "409 Conflict");
    assert_eq!(status(500).describe(), "500 Internal Server Error");
}

#[test]
fn status_describes_codes_without_a_reason() {
    assert_eq!(status(299).describe(), "299 <unknown status code>");
    assert_eq!(status(999).describe(), "999 <unknown status code>");
}

#[test]
fn status_text_starts_with_the_code_and_a_space() {
    let mut code: u16 = 100;
    while code <= 999 {
        let text = status(code).describe();
        let start = format!("{} ", natural_text(u32::from(code)));
        assert!(text.starts_with(&start), "{}", text);
        assert!(text.len() > start.len(), "{}", text);
        code += 1;
    }
}
