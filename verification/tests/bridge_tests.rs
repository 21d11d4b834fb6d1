use prism::bridge::{
    answer, bridge_network, dispatch, map_prism_error, required_string, route, route_status, Dispatch, Route,
    RpcErrorObject,
};
use prism::error::PrismError;
use prism::http::{
    find_header_end, parse_request_head, response_head, HeadError, ReadError, ReadProgress,
    RequestReader,
};
use prism::network::{Network, NetworkConfig};

#[test]
fn finds_header_boundary() {
    let request = b"POST /rpc HTTP/1.1\r\nHost: localhost\r\n\r\n{}";
    assert_eq!(find_header_end(request), Some(35));
}

#[test]
fn validates_required_string_param() {
    assert_eq!(required_string(Some("abc123"), "txHash").unwrap(), "abc123");
    assert!(required_string(None, "txHash").is_err());
}

#[test]
fn required_string_rejects_empty_and_names_field() {
    let err = required_string(Some(""), "txHash").unwrap_err();
    assert_eq!(err.code, -32602);
    assert_eq!(err.message, "missing required string field `txHash`");
}

#[test]
fn header_end_absent_or_short() {
    assert_eq!(find_header_end(b""), None);
    assert_eq!(find_header_end(b"\r\n\r"), None);
    assert_eq!(find_header_end(b"\r\n\r\n"), Some(0));
    assert_eq!(find_header_end(b"GET / HTTP/1.1\r\n\r\n\r\n\r\n"), Some(14));
}

#[test]
fn reader_collects_request_in_chunks() {
    let mut reader = RequestReader::new();
    match reader.feed(b"POST /rpc HTTP/1.1\r\nContent-Length: 5\r\n") {
        ReadProgress::NeedMore => {}
        other => panic!("unexpected {other:?}"),
    }
    match reader.feed(b"\r\nab") {
        ReadProgress::NeedMore => {}
        other => panic!("unexpected {other:?}"),
    }
    match reader.feed(b"cdefgh") {
        ReadProgress::Complete(req) => {
            assert_eq!(req.method, "POST");
            assert_eq!(req.path, "/rpc");
            assert_eq!(req.body, b"abcde".to_vec());
        }
        other => panic!("unexpected {other:?}"),
    }
}

#[test]
fn reader_reports_closed_and_malformed() {
    let mut reader = RequestReader::new();
    assert!(matches!(reader.feed(b""), ReadProgress::Closed));
    let mut reader = RequestReader::new();
    assert!(matches!(reader.feed(b"GET /"), ReadProgress::NeedMore));
    assert!(matches!(reader.feed(b""), ReadProgress::Failed(ReadError::Malformed)));
}

#[test]
fn reader_reports_truncated_body() {
    let mut reader = RequestReader::new();
    assert!(matches!(
        reader.feed(b"POST /rpc HTTP/1.1\r\ncontent-LENGTH: 10\r\n\r\n123"),
        ReadProgress::NeedMore
    ));
    match reader.feed(b"") {
        ReadProgress::Failed(e) => {
            assert_eq!(e, ReadError::BodyTruncated);
            assert_eq!(e.message(), "request body ended before content-length bytes were read");
        }
        other => panic!("unexpected {other:?}"),
    }
}

#[test]
fn reader_rejects_oversized_head() {
    let mut reader = RequestReader::new();
    let chunk = vec![b'a'; 1024];
    let mut last = None;
    for _ in 0..1025 {
        match reader.feed(&chunk) {
            ReadProgress::NeedMore => {}
            other => {
                last = Some(other);
                break;
            }
        }
    }
    match last {
        Some(ReadProgress::Failed(e)) => {
            assert_eq!(e, ReadError::HeadersTooLarge);
            assert_eq!(e.message(), "request headers too large");
        }
        other => panic!("unexpected {other:?}"),
    }
}

#[test]
fn head_parsing_errors() {
    assert_eq!(parse_request_head(b"").unwrap_err(), HeadError::MissingRequestLine);
    assert_eq!(parse_request_head(b"\r\nHost: x").unwrap_err(), HeadError::MissingMethod);
    assert_eq!(parse_request_head(b"GET").unwrap_err(), HeadError::MissingPath);
    assert_eq!(
        parse_request_head(b"GET / HTTP/1.1\r\nContent-Length: ten").unwrap_err(),
        HeadError::InvalidContentLength
    );
    assert_eq!(parse_request_head(&[0xff, 0xfe]).unwrap_err(), HeadError::NotUtf8);
    assert_eq!(HeadError::MissingPath.message(), "missing HTTP path");
}

#[test]
fn head_parsing_reads_last_content_length() {
    let head = parse_request_head(
        b"POST  /rpc  HTTP/1.1\r\nContent-Length: 3\r\nX: y\r\nCONTENT-LENGTH:  +12 ",
    )
    .unwrap();
    assert_eq!(head.method, "POST");
    assert_eq!(head.path, "/rpc");
    assert_eq!(head.content_length, 12);
}

#[test]
fn response_head_is_exact() {
    assert_eq!(
        response_head(204, "text/plain", 0),
        "HTTP/1.1 204 No Content\r\nContent-Type: text/plain\r\nContent-Length: 0\r\nAccess-Control-Allow-Origin: *\r\nAccess-Control-Allow-Headers: content-type\r\nAccess-Control-Allow-Methods: GET, POST, OPTIONS\r\nConnection: close\r\n\r\n"
    );
    assert!(response_head(500, "application/json", 17).starts_with("HTTP/1.1 500 OK\r\n"));
    assert!(response_head(404, "application/json", 17).contains("Content-Length: 17\r\n"));
}

#[test]
fn routes_requests() {
    assert_eq!(route("GET", "/health"), Route::Health);
    assert_eq!(route("OPTIONS", "/rpc"), Route::Preflight);
    assert_eq!(route("OPTIONS", "/health"), Route::Preflight);
    assert_eq!(route("POST", "/rpc"), Route::Rpc);
    assert_eq!(route("GET", "/rpc"), Route::NotFound);
    assert_eq!(route("POST", "/health"), Route::NotFound);
}

#[test]
fn dispatches_calls() {
    assert_eq!(dispatch("2.0", "prism.health"), Dispatch::Health);
    assert_eq!(dispatch("2.0", "prism.transaction.get"), Dispatch::GetTransaction);
    assert_eq!(dispatch("2.0", "prism.decode"), Dispatch::Decode);
    assert_eq!(dispatch("2.0", "prism.inspect"), Dispatch::Inspect);
    assert_eq!(dispatch("2.0", "prism.trace"), Dispatch::Trace);
    assert_eq!(dispatch("2.0", "prism.profile"), Dispatch::Profile);
    assert_eq!(dispatch("2.0", "prism.diff"), Dispatch::Diff);
    assert_eq!(dispatch("2.0", "prism.unknown"), Dispatch::MethodNotFound);
    assert_eq!(dispatch("1.0", "prism.health"), Dispatch::InvalidRequest);
}

#[test]
fn returns_method_not_found_for_unknown_method() {
    let err = RpcErrorObject::method_not_found("prism.unknown");
    assert_eq!(err.code, -32601);
    assert_eq!(err.message, "Method not found: prism.unknown");
    assert_eq!(RpcErrorObject::parse_error().code, -32700);
    assert_eq!(RpcErrorObject::invalid_request().message, "Invalid Request");
}

#[test]
fn maps_library_errors() {
    let e = map_prism_error(PrismError::TransactionNotFound("abc".to_string()));
    assert_eq!((e.code, e.message.as_str()), (-32004, "Transaction not found: abc"));
    let e = map_prism_error(PrismError::ConfigError("bad".to_string()));
    assert_eq!((e.code, e.message.as_str()), (-32010, "bad"));
    let e = map_prism_error(PrismError::RpcError("down".to_string()));
    assert_eq!((e.code, e.message.as_str()), (-32020, "down"));
    let e = map_prism_error(PrismError::XdrError("junk".to_string()));
    assert_eq!((e.code, e.message.as_str()), (-32000, "XDR error: junk"));
}

#[test]
fn bridge_network_prefers_requested() {
    let default = NetworkConfig::futurenet();
    assert_eq!(bridge_network(None, &default).network, Network::Futurenet);
    assert_eq!(bridge_network(Some("mainnet"), &default).network, Network::Mainnet);
}

#[test]
fn returns_method_not_found_for_unknown_calls() {
    assert_eq!(dispatch("2.0", "prism.unknown"), Dispatch::MethodNotFound);
    let err = RpcErrorObject::method_not_found("prism.unknown");
    assert_eq!(err.code, -32601);
}

#[test]
fn returns_health_payload() {
    assert_eq!(dispatch("2.0", "prism.health"), Dispatch::Health);
    assert_eq!(dispatch("1.0", "prism.health"), Dispatch::InvalidRequest);
}

#[test]
fn routes_answer_with_their_status() {
    assert_eq!(route_status(route("GET", "/health")), 200);
    assert_eq!(route_status(route("OPTIONS", "/rpc")), 204);
    assert_eq!(route_status(route("POST", "/rpc")), 200);
    assert_eq!(route_status(route("GET", "/nope")), 404);
}

#[test]
fn answers_echo_the_id_with_one_of_result_or_error() {
    let ok = answer::<u32, &str, ()>(7, Ok("fine"));
    assert_eq!((ok.jsonrpc, ok.id, ok.result), ("2.0", 7, Some("fine")));
    assert!(ok.error.is_none());
    let err = answer::<u32, (), &str>(8, Err((RpcErrorObject::invalid_request(), Some("2.0"))));
    assert_eq!(err.id, 8);
    assert!(err.result.is_none());
    let (e, data) = err.error.unwrap();
    assert_eq!((e.code, data), (-32600, Some("2.0")));
}
