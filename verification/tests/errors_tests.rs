use rss_aggregator::errors::MyError;

fn all() -> Vec<MyError> {
    vec![
        MyError::InvalidSubscription("http://f".to_string(), "no channel".to_string()),
        MyError::CannotFind("no row".to_string()),
        MyError::BadParam("url".to_string(), "x".to_string()),
        MyError::Internal("disk".to_string()),
        MyError::Missing("Item".to_string()),
        MyError::NotLoggedIn("no cookie".to_string()),
    ]
}

#[test]
fn status_codes() {
    let codes: Vec<u16> = all().iter().map(|e| e.status_code()).collect();
    assert_eq!(codes, vec![500, 404, 500, 500, 404, 500]);
}

#[test]
fn messages() {
    let texts: Vec<String> = all().iter().map(|e| e.message()).collect();
    assert_eq!(
        texts,
        vec![
            "Invalid Subscription http://f",
            "Cannot find",
            "Bad Param url",
            "Internal Error",
            "Missing Item",
            "User Not Logged in",
        ]
    );
}

#[test]
fn responses() {
    let errors = all();
    let not_logged_in = errors[5].error_response("id-1");
    assert_eq!(not_logged_in.status, 302);
    assert_eq!(not_logged_in.location.as_deref(), Some("/login"));
    assert_eq!(not_logged_in.body, "Not logged in");
    let cannot_find = errors[1].error_response("id-2");
    assert_eq!(cannot_find.status, 404);
    assert_eq!(cannot_find.location, None);
    assert_eq!(cannot_find.body, "internal error id-2");
    let internal = errors[3].error_response("id-3");
    assert_eq!(internal.status, 500);
    assert_eq!(internal.body, "internal error id-3");
    let bad_param = errors[2].error_response("id-4");
    assert_eq!(bad_param.status, 500);
    assert_eq!(bad_param.location, None);
    assert_eq!(bad_param.body, "Bad Param url");
    let missing = errors[4].error_response("id-5");
    assert_eq!(missing.status, 404);
    assert_eq!(missing.body, "Missing Item");
    let invalid = errors[0].error_response("id-6");
    assert_eq!(invalid.status, 500);
    assert_eq!(invalid.body, "Invalid Subscription http://f");
}

#[test]
fn constructors() {
    assert!(matches!(MyError::internal("x"), MyError::Internal(ref c) if c == "x"));
    assert!(
        matches!(MyError::bad_param("p", "v"), MyError::BadParam(ref p, ref v) if p == "p" && v == "v")
    );
}
