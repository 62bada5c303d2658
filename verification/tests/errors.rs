use gateway_client::error::{Error, ErrorMessage};
use gateway_client::graphql::{Details, GraphqlError};
use gateway_client::status::StatusCode;
use gateway_client::text::decimal_text;

fn status(code: u16) -> StatusCode {
    StatusCode::new(code).unwrap()
}

#[test]
fn status_codes_from_100_to_599() {
    assert!(StatusCode::new(99).is_none());
    assert!(StatusCode::new(0).is_none());
    assert!(StatusCode::new(600).is_none());
    assert!(StatusCode::new(u16::MAX).is_none());
    assert_eq!(StatusCode::new(100).unwrap().as_u16(), 100);
    assert_eq!(StatusCode::new(599).unwrap().as_u16(), 599);
    assert!(status(200).is_success());
    assert!(status(299).is_success());
    assert!(!status(199).is_success());
    assert!(!status(300).is_success());
}

#[test]
fn status_line_names_the_reason() {
    assert_eq!(status(404).to_string(), "404 Not Found");
    assert_eq!(status(200).to_string(), "200 OK");
    assert_eq!(status(599).to_string(), "599 <unknown status code>");
}

#[test]
fn decimal_notation() {
    assert_eq!(decimal_text(0), "0");
    assert_eq!(decimal_text(7), "7");
    assert_eq!(decimal_text(10), "10");
    assert_eq!(decimal_text(422), "422");
    assert_eq!(decimal_text(65535), "65535");
    assert_eq!(decimal_text(u64::MAX), "18446744073709551615");
}

#[test]
fn errors_describe_themselves() {
    let message = ErrorMessage { code: 404, message: "not found".to_string() };
    assert_eq!(
        Error::Api(status(404), Some(message)).to_string(),
        "Http client 100: Api error: status: 404 Not Found, code: 404, message: not found"
    );
    assert_eq!(
        Error::Api(status(500), None).to_string(),
        "Http client 100: Api error: status: 500 Internal Server Error"
    );
    assert_eq!(
        Error::Network("timed out".to_string()).to_string(),
        "Http client 200: Network error: timed out"
    );
    assert_eq!(
        Error::Parse("bad json".to_string()).to_string(),
        "Http client 300: Parse error: bad json"
    );
    assert_eq!(
        Error::Unknown("channel".to_string()).to_string(),
        "Http client 400: Unknown error: channel"
    );
}

#[test]
fn only_network_failures_are_network() {
    assert!(Error::Network("x".to_string()).is_network());
    assert!(!Error::Api(status(500), None).is_network());
    assert!(!Error::Parse("x".to_string()).is_network());
    assert!(!Error::Unknown("x".to_string()).is_network());
}

#[test]
fn api_error_goes_outward_with_code_100() {
    let message = ErrorMessage { code: 422, message: "oops".to_string() };
    assert_eq!(
        Error::Api(status(500), Some(message)).into_graphql(),
        GraphqlError {
            message: "Error response from microservice".to_string(),
            code: 100,
            details: Details::Api {
                status: "500 Internal Server Error".to_string(),
                code: "422".to_string(),
                message: "oops".to_string(),
            },
        }
    );
    assert_eq!(
        Error::Api(status(403), None).into_graphql(),
        GraphqlError {
            message: "Error response from microservice".to_string(),
            code: 100,
            details: Details::Status { status: "403 Forbidden".to_string() },
        }
    );
}

#[test]
fn network_error_goes_outward_with_code_200_and_no_internals() {
    assert_eq!(
        Error::Network("connect to 10.0.0.3 refused".to_string()).into_graphql(),
        GraphqlError {
            message: "Network error for microservice".to_string(),
            code: 200,
            details: Details::Text("See server logs for details.".to_string()),
        }
    );
}

#[test]
fn parse_error_goes_outward_with_code_300_and_its_description() {
    assert_eq!(
        Error::Parse("expected value at line 1 column 1".to_string()).into_graphql(),
        GraphqlError {
            message: "Unexpected parsing error".to_string(),
            code: 300,
            details: Details::Text("expected value at line 1 column 1".to_string()),
        }
    );
}

#[test]
fn unknown_error_goes_outward_with_code_400() {
    assert_eq!(
        Error::Unknown("reply channel broken".to_string()).into_graphql(),
        GraphqlError {
            message: "Unknown error for microservice".to_string(),
            code: 400,
            details: Details::Text("See server logs for details.".to_string()),
        }
    );
}
