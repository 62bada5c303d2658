use gateway_client::client::{classify, respond, Client, Config, Step, TransportOutcome};
use gateway_client::error::{Error, ErrorMessage};
use gateway_client::request::{Method, Payload, Request};
use gateway_client::status::StatusCode;

fn config(capacity: usize) -> Config {
    Config { http_client_retries: 2, http_client_buffer_size: capacity }
}

fn payload(url: &str, ticket: u32) -> Payload<u32> {
    Payload { request: Request::new(Method::Get, url.to_string(), None, None), callback: ticket }
}

fn answer(status: u16, body: &str) -> TransportOutcome {
    TransportOutcome::Response {
        status: StatusCode::new(status).unwrap(),
        chunks: vec![body.as_bytes().to_vec()],
    }
}

#[test]
fn not_a_url_is_a_parse_error_without_exchange() {
    let mut client: Client<u32> = Client::new(&config(4));
    assert!(client.enqueue(payload("not a url", 7)).is_ok());
    let mut exchanges = 0;
    match client.stream() {
        Step::Reject(ticket, error) => {
            assert_eq!(ticket, 7);
            assert_eq!(error, Error::Parse("Cannot parse url `not a url`".to_string()));
        }
        Step::Execute => {
            exchanges += 1;
            panic!("an exchange was started for a target that is no url");
        }
        Step::Idle => panic!("the payload was not taken in hand"),
    }
    assert_eq!(exchanges, 0);
    assert_eq!(client.len(), 0);
    assert!(client.in_flight().is_none());
}

#[test]
fn malformed_payload_does_not_stop_the_loop() {
    let mut client: Client<u32> = Client::new(&config(4));
    assert!(client.enqueue(payload("not a url", 1)).is_ok());
    assert!(client.enqueue(payload("http://example.com/users", 2)).is_ok());
    assert!(matches!(client.stream(), Step::Reject(1, Error::Parse(_))));
    assert!(matches!(client.stream(), Step::Execute));
    assert_eq!(client.in_flight().unwrap().url, "http://example.com/users");
    let (ticket, result) = client.complete(answer(200, "[]")).unwrap();
    assert_eq!(ticket, 2);
    assert_eq!(result, Ok("[]".to_string()));
}

#[test]
fn status_404_with_structured_body() {
    let result = classify(answer(404, "{\"code\":404,\"message\":\"not found\"}"));
    let expected = Error::Api(
        StatusCode::new(404).unwrap(),
        Some(ErrorMessage { code: 404, message: "not found".to_string() }),
    );
    assert_eq!(result, Err(expected));
}

#[test]
fn status_500_with_plain_body() {
    let result = classify(answer(500, "oops"));
    let expected = Error::Api(
        StatusCode::new(500).unwrap(),
        Some(ErrorMessage { code: 422, message: "oops".to_string() }),
    );
    assert_eq!(result, Err(expected));
}

#[test]
fn success_delivers_the_body_and_frees_the_dispatcher() {
    let mut client: Client<u32> = Client::new(&config(2));
    assert!(client.enqueue(payload("http://example.com/a", 1)).is_ok());
    assert!(client.enqueue(payload("http://example.com/b", 2)).is_ok());
    assert!(matches!(client.stream(), Step::Execute));
    assert!(matches!(client.stream(), Step::Idle));
    let (ticket, result) = client.complete(answer(200, "{\"id\":1}")).unwrap();
    assert_eq!(ticket, 1);
    assert_eq!(result, Ok("{\"id\":1}".to_string()));
    assert!(client.in_flight().is_none());
    assert!(matches!(client.stream(), Step::Execute));
    assert_eq!(client.in_flight().unwrap().url, "http://example.com/b");
}

#[test]
fn success_range_bounds() {
    assert_eq!(classify(answer(200, "a")), Ok("a".to_string()));
    assert_eq!(classify(answer(299, "b")), Ok("b".to_string()));
    assert!(matches!(classify(answer(199, "c")), Err(Error::Api(_, _))));
    assert!(matches!(classify(answer(300, "d")), Err(Error::Api(_, _))));
}

#[test]
fn structured_body_is_ignored_on_success() {
    let body = "{\"code\":404,\"message\":\"not found\"}";
    assert_eq!(classify(answer(200, body)), Ok(body.to_string()));
}

#[test]
fn transport_failure_is_a_network_error() {
    let result = classify(TransportOutcome::Failure("connection refused".to_string()));
    assert_eq!(result, Err(Error::Network("connection refused".to_string())));
}

#[test]
fn body_that_is_no_text_is_a_network_error() {
    let outcome = TransportOutcome::Response {
        status: StatusCode::new(200).unwrap(),
        chunks: vec![vec![0x66, 0x6f], vec![0xff, 0x6f]],
    };
    let expected = String::from_utf8(vec![0x66, 0x6f, 0xff, 0x6f]).unwrap_err().to_string();
    assert_eq!(classify(outcome), Err(Error::Network(expected)));
    let failed = TransportOutcome::Response {
        status: StatusCode::new(500).unwrap(),
        chunks: vec![vec![0xc3]],
    };
    assert!(matches!(classify(failed), Err(Error::Network(_))));
}

#[test]
fn chunks_are_joined_in_arrival_order() {
    let outcome = TransportOutcome::Response {
        status: StatusCode::new(200).unwrap(),
        chunks: vec![b"he".to_vec(), Vec::new(), b"llo ".to_vec(), b"world".to_vec()],
    };
    assert_eq!(classify(outcome), Ok("hello world".to_string()));
}

#[test]
fn character_split_over_two_chunks_is_read_whole() {
    let bytes = "é".as_bytes();
    let outcome = TransportOutcome::Response {
        status: StatusCode::new(200).unwrap(),
        chunks: vec![vec![bytes[0]], vec![bytes[1]]],
    };
    assert_eq!(classify(outcome), Ok("é".to_string()));
}

#[test]
fn empty_body_is_empty_text() {
    let outcome =
        TransportOutcome::Response { status: StatusCode::new(204).unwrap(), chunks: Vec::new() };
    assert_eq!(classify(outcome), Ok(String::new()));
}

#[test]
fn respond_prefers_the_decoded_message() {
    let status = StatusCode::new(400).unwrap();
    let decoded = ErrorMessage { code: 7, message: "bad".to_string() };
    assert_eq!(
        respond(status, "raw".to_string(), Some(decoded.clone())),
        Err(Error::Api(status, Some(decoded)))
    );
    assert_eq!(
        respond(status, "raw".to_string(), None),
        Err(Error::Api(status, Some(ErrorMessage { code: 422, message: "raw".to_string() })))
    );
    let ok = StatusCode::new(201).unwrap();
    assert_eq!(respond(ok, "raw".to_string(), None), Ok("raw".to_string()));
}

#[test]
fn queue_refuses_beyond_capacity_until_an_exchange_completes() {
    let mut client: Client<u32> = Client::new(&config(2));
    assert!(client.enqueue(payload("http://example.com/1", 1)).is_ok());
    assert!(client.enqueue(payload("http://example.com/2", 2)).is_ok());
    let refused = client.enqueue(payload("http://example.com/3", 3)).unwrap_err();
    assert_eq!(refused.callback, 3);
    assert_eq!(refused.request.url, "http://example.com/3");
    assert_eq!(client.len(), 2);
    assert!(matches!(client.stream(), Step::Execute));
    let again = client.enqueue(refused).unwrap_err();
    assert_eq!(client.len(), 2);
    let (ticket, _) = client.complete(answer(200, "")).unwrap();
    assert_eq!(ticket, 1);
    assert!(client.enqueue(again).is_ok());
    assert_eq!(client.len(), 2);
}

#[test]
fn queue_of_no_capacity_admits_nothing() {
    let mut client: Client<u32> = Client::new(&config(0));
    assert!(client.enqueue(payload("http://example.com/1", 1)).is_err());
    assert!(matches!(client.stream(), Step::Idle));
    assert_eq!(client.len(), 0);
}

#[test]
fn exchanges_are_initiated_in_order_of_admission() {
    let mut client: Client<u32> = Client::new(&config(8));
    for ticket in 0..5u32 {
        let url = format!("http://example.com/{}", ticket);
        assert!(client.enqueue(payload(&url, ticket)).is_ok());
    }
    let mut initiated = Vec::new();
    let mut answered = Vec::new();
    loop {
        match client.stream() {
            Step::Execute => {
                initiated.push(client.in_flight().unwrap().url.clone());
                let (ticket, _) = client.complete(answer(200, "ok")).unwrap();
                answered.push(ticket);
            }
            Step::Reject(_, _) => panic!("every target is usable"),
            Step::Idle => break,
        }
    }
    let expected: Vec<String> =
        (0..5u32).map(|ticket| format!("http://example.com/{}", ticket)).collect();
    assert_eq!(initiated, expected);
    assert_eq!(answered, vec![0, 1, 2, 3, 4]);
}

#[test]
fn complete_without_exchange_in_flight_changes_nothing() {
    let mut client: Client<u32> = Client::new(&config(2));
    assert!(client.enqueue(payload("http://example.com/1", 1)).is_ok());
    assert!(client.complete(answer(200, "")).is_none());
    assert_eq!(client.len(), 1);
    assert!(matches!(client.stream(), Step::Execute));
}

#[test]
fn idle_on_empty_queue() {
    let mut client: Client<u32> = Client::new(&config(2));
    assert!(matches!(client.stream(), Step::Idle));
    assert!(client.in_flight().is_none());
}
