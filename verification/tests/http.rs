use hc_ecowitt::http::{check_status, HTTP_TIMEOUT_SECS};

#[test]
fn a_successful_status_lets_the_body_be_read() {
    assert_eq!(check_status(200), Ok(()));
    assert_eq!(check_status(204), Ok(()));
    assert_eq!(check_status(299), Ok(()));
}

#[test]
fn any_other_status_is_named() {
    assert_eq!(check_status(404), Err("status 404 Not Found".to_string()));
    assert_eq!(check_status(500), Err("status 500 Internal Server Error".to_string()));
    assert_eq!(check_status(301), Err("status 301 Moved Permanently".to_string()));
    assert_eq!(check_status(199), Err("status 199 <unknown status code>".to_string()));
    assert_eq!(check_status(999), Err("status 999 <unknown status code>".to_string()));
}

#[test]
fn a_gateway_has_eight_seconds() {
    assert_eq!(HTTP_TIMEOUT_SECS, 8);
}
