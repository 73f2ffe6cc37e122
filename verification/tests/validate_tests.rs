use uptime_monitor::errors::ApiError;
use uptime_monitor::validate::validate_url;

#[test]
fn empty_url_is_rejected_as_empty() {
    assert_eq!(validate_url(&String::new()), Err(ApiError::UrlEmpty));
}

#[test]
fn whitespace_only_url_is_rejected_as_empty() {
    assert_eq!(validate_url(&String::from("   \t\r\n")), Err(ApiError::UrlEmpty));
}

#[test]
fn url_without_scheme_is_rejected() {
    assert_eq!(validate_url(&String::from("example.com")), Err(ApiError::UrlScheme));
}

#[test]
fn ftp_scheme_is_rejected() {
    assert_eq!(validate_url(&String::from("ftp://x")), Err(ApiError::UrlScheme));
}

#[test]
fn leading_space_before_scheme_is_rejected() {
    assert_eq!(validate_url(&String::from(" https://example.com")), Err(ApiError::UrlScheme));
}

#[test]
fn http_url_is_accepted() {
    assert_eq!(validate_url(&String::from("http://example.com")), Ok(()));
}

#[test]
fn https_url_is_accepted() {
    assert_eq!(validate_url(&String::from("https://example.com")), Ok(()));
}

#[test]
fn bare_http_prefix_is_accepted() {
    // validation checks the scheme prefix only; no further parsing
    assert_eq!(validate_url(&String::from("http://")), Ok(()));
}
