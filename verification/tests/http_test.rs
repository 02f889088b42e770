use fns_cli::http::{HttpClient, HttpError};
use fns_cli::protocol::messages::Response;

fn response(code: i32, status: bool, data: Option<u32>) -> Response<u32> {
    Response {
        code,
        status,
        message: "msg".to_string(),
        data,
        details: None,
        vault: None,
        context: None,
    }
}

#[test]
fn http_test_build_url() {
    let client = HttpClient::new("http://localhost:9000/api", "test-token");
    assert_eq!(client.build_url("/user/info"), "http://localhost:9000/api/user/info");
}

#[test]
fn http_test_build_url_trailing_slash() {
    let client = HttpClient::new("http://localhost:9000/api/", "test-token");
    assert_eq!(client.build_url("/user/info"), "http://localhost:9000/api/user/info");
}

#[test]
fn http_auth_header() {
    let client = HttpClient::new("http://h", "tok");
    assert_eq!(client.auth_header(), "Bearer tok");
}

#[test]
fn http_check_response() {
    assert_eq!(HttpClient::check_response(response(1, true, Some(7))), Ok(7));
    assert_eq!(HttpClient::check_response(response(1, true, None)), Err(HttpError::MissingData));
    assert_eq!(
        HttpClient::check_response(response(0, true, Some(7))),
        Err(HttpError::Api { code: 0, message: "msg".to_string() })
    );
    assert_eq!(
        HttpClient::check_response(response(200, false, Some(7))),
        Err(HttpError::Api { code: 200, message: "msg".to_string() })
    );
}
