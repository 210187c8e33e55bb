use processing_client::client::{check_status, decode_body, Client};
use processing_client::codec::{decode_output, decode_request, encode_request, is_valid_request};
use processing_client::json::{is_number_text, is_positive_text};
use processing_client::json::{Json, Number};
use processing_client::model::{ClientError, ProcessingRequest, ProcessorType, SignalType};

fn s(t: &str) -> String {
    t.to_string()
}

fn member(k: &str, v: Json) -> (String, Json) {
    (s(k), v)
}

fn validation() -> Json {
    Json::Object(vec![
        member("status", Json::Str(s("ok"))),
        member("is_valid", Json::Bool(true)),
        member("input_hash", Json::Str(s("9f2c"))),
        member("errors", Json::Array(vec![])),
    ])
}

fn response(processor: &str, retries: Option<Json>) -> Json {
    let mut fs = vec![
        member("result", Json::Object(vec![member("answer", Json::Number(Number::Unsigned(42)))])),
        member("validation", validation()),
        member("processor_used", Json::Str(s(processor))),
        member("processing_time_ms", Json::Number(Number::Decimal(s("12.5")))),
    ];
    if let Some(r) = retries {
        fs.push(member("retries_attempted", r));
    }
    Json::Object(fs)
}

fn request(p: Option<ProcessorType>, t: Option<Number>) -> ProcessingRequest {
    ProcessingRequest { input_data: s("hello"), input_tokens: 17, processor_type: p, timeout_seconds: t }
}

#[test]
fn request_round_trips_with_every_field() {
    let r = request(Some(ProcessorType::Hybrid), Some(Number::Decimal(s("2.5"))));
    let back = decode_request(&encode_request(&r)).unwrap();
    assert_eq!(back, r);
}

#[test]
fn request_round_trips_without_optional_fields() {
    let r = request(None, None);
    let j = encode_request(&r);
    match &j {
        Json::Object(fs) => assert_eq!(fs.len(), 2),
        _ => panic!("not an object"),
    }
    assert_eq!(decode_request(&j).unwrap(), r);
}

#[test]
fn encoded_request_uses_lowercase_tag() {
    let j = encode_request(&request(Some(ProcessorType::Local), Some(Number::Unsigned(30))));
    let expected = Json::Object(vec![
        member("input_data", Json::Str(s("hello"))),
        member("input_tokens", Json::Number(Number::Unsigned(17))),
        member("processor_type", Json::Str(s("local"))),
        member("timeout_seconds", Json::Number(Number::Unsigned(30))),
    ]);
    assert_eq!(j, expected);
}

#[test]
fn processor_tags_round_trip() {
    for p in [ProcessorType::Cloud, ProcessorType::Local, ProcessorType::Hybrid] {
        assert_eq!(ProcessorType::from_tag(p.tag()), Some(p));
    }
    assert_eq!(ProcessorType::Cloud.tag(), "cloud");
    assert_eq!(ProcessorType::Local.tag(), "local");
    assert_eq!(ProcessorType::Hybrid.tag(), "hybrid");
    assert_eq!(ProcessorType::from_tag("quantum"), None);
    assert_eq!(ProcessorType::from_tag("Cloud"), None);
}

#[test]
fn signal_tags_round_trip() {
    for t in [SignalType::Analog, SignalType::Digital, SignalType::Hybrid] {
        assert_eq!(SignalType::from_tag(t.tag()), Some(t));
    }
    assert_eq!(SignalType::Digital.tag(), "digital");
    assert_eq!(SignalType::from_tag("cloud"), None);
}

#[test]
fn unknown_processor_is_a_schema_error() {
    let r = decode_output(response("quantum", None));
    assert_eq!(r, Err(ClientError::Schema(s("processor_used"))));
}

#[test]
fn each_processor_decodes() {
    let o = decode_output(response("cloud", None)).unwrap();
    assert_eq!(o.processor_used, ProcessorType::Cloud);
    let o = decode_output(response("hybrid", None)).unwrap();
    assert_eq!(o.processor_used, ProcessorType::Hybrid);
}

#[test]
fn missing_retries_read_as_zero() {
    let o = decode_output(response("local", None)).unwrap();
    assert_eq!(o.retries_attempted, 0);
    assert_eq!(o.processing_time_ms, Number::Decimal(s("12.5")));
    assert_eq!(o.validation.status, "ok");
    assert!(o.validation.is_valid);
    assert_eq!(o.validation.input_hash, "9f2c");
    assert!(o.validation.errors.is_empty());
    assert_eq!(o.result, Json::Object(vec![member("answer", Json::Number(Number::Unsigned(42)))]));
}

#[test]
fn reported_retries_are_kept() {
    let o = decode_output(response("local", Some(Json::Number(Number::Unsigned(3))))).unwrap();
    assert_eq!(o.retries_attempted, 3);
    let o = decode_output(response("local", Some(Json::Null))).unwrap();
    assert_eq!(o.retries_attempted, 0);
}

#[test]
fn retries_out_of_range_are_refused() {
    let r = decode_output(response("local", Some(Json::Number(Number::Negative(-1)))));
    assert_eq!(r, Err(ClientError::Schema(s("retries_attempted"))));
    let r = decode_output(response("local", Some(Json::Number(Number::Unsigned(1 << 32)))));
    assert_eq!(r, Err(ClientError::Schema(s("retries_attempted"))));
}

#[test]
fn missing_members_are_named() {
    assert_eq!(decode_output(Json::Array(vec![])), Err(ClientError::Schema(s(""))));
    assert_eq!(decode_output(Json::Object(vec![])), Err(ClientError::Schema(s("result"))));
    let j = Json::Object(vec![member("result", Json::Null)]);
    assert_eq!(decode_output(j), Err(ClientError::Schema(s("validation"))));
    let bad_errors = Json::Object(vec![
        member("status", Json::Str(s("rejected"))),
        member("is_valid", Json::Bool(false)),
        member("input_hash", Json::Str(s("00"))),
        member("errors", Json::Array(vec![Json::Str(s("too long")), Json::Bool(false)])),
    ]);
    let j = Json::Object(vec![member("result", Json::Null), member("validation", bad_errors)]);
    assert_eq!(decode_output(j), Err(ClientError::Schema(s("validation.errors"))));
}

#[test]
fn validation_errors_keep_their_order() {
    let v = Json::Object(vec![
        member("status", Json::Str(s("rejected"))),
        member("is_valid", Json::Bool(false)),
        member("input_hash", Json::Str(s("00"))),
        member("errors", Json::Array(vec![Json::Str(s("b")), Json::Str(s("a"))])),
    ]);
    let j = Json::Object(vec![
        member("result", Json::Null),
        member("validation", v),
        member("processor_used", Json::Str(s("cloud"))),
        member("processing_time_ms", Json::Number(Number::Unsigned(0))),
    ]);
    let o = decode_output(j).unwrap();
    assert_eq!(o.validation.errors, vec![s("b"), s("a")]);
    assert!(!o.validation.is_valid);
}

#[test]
fn later_duplicate_member_wins() {
    let j = Json::Object(vec![
        member("input_data", Json::Str(s("first"))),
        member("input_tokens", Json::Number(Number::Unsigned(1))),
        member("input_data", Json::Str(s("second"))),
    ]);
    assert_eq!(decode_request(&j).unwrap().input_data, "second");
}

#[test]
fn request_decoding_names_bad_members() {
    let j = Json::Object(vec![member("input_data", Json::Str(s("x")))]);
    assert_eq!(decode_request(&j), Err(ClientError::Schema(s("input_tokens"))));
    let j = Json::Object(vec![
        member("input_data", Json::Str(s("x"))),
        member("input_tokens", Json::Number(Number::Unsigned(1))),
        member("processor_type", Json::Str(s("quantum"))),
    ]);
    assert_eq!(decode_request(&j), Err(ClientError::Schema(s("processor_type"))));
}

#[test]
fn api_key_header_is_injected() {
    let c = Client::new(s("https://svc.example"), Some(s("abc123")));
    let out = c.prepare(&request(None, None)).unwrap();
    assert_eq!(out.headers, vec![(s("X-API-Key"), s("abc123"))]);
    assert_eq!(out.url, "https://svc.example/process/request");
    assert_eq!(out.body, encode_request(&request(None, None)));
}

#[test]
fn no_key_no_header() {
    let c = Client::new(s("https://svc.example/"), None);
    let out = c.prepare(&request(None, None)).unwrap();
    assert!(out.headers.is_empty());
    assert_eq!(out.url, "https://svc.example/process/request");
}

#[test]
fn key_with_newline_is_refused_before_sending() {
    let c = Client::new(s("https://svc.example"), Some(s("bad\nkey")));
    assert!(matches!(c.prepare(&request(None, None)), Err(ClientError::InvalidCredential)));
    assert!(matches!(c.headers(), Err(ClientError::InvalidCredential)));
}

#[test]
fn header_value_rules() {
    let ok = Client::new(s("h"), Some(s("tab\there caf\u{e9}")));
    assert!(ok.headers().is_ok());
    let del = Client::new(s("h"), Some(s("a\u{7f}")));
    assert!(matches!(del.headers(), Err(ClientError::InvalidCredential)));
}

#[test]
fn status_mapping() {
    assert_eq!(check_status(200, s("{}")), Ok(s("{}")));
    assert_eq!(
        check_status(500, s("internal error")),
        Err(ClientError::Api { status: 500, body: s("internal error") })
    );
    assert_eq!(check_status(299, s("")), Ok(s("")));
    assert!(check_status(199, s("")).is_err());
    assert!(check_status(300, s("")).is_err());
    assert!(check_status(1000, s("")).is_err());
}

#[test]
fn success_body_decodes() {
    let o = decode_body(Some(response("cloud", Some(Json::Number(Number::Unsigned(2)))))).unwrap();
    assert_eq!(o.retries_attempted, 2);
    assert_eq!(decode_body(None), Err(ClientError::Schema(s(""))));
}

#[test]
fn repeated_trailing_slashes_are_removed() {
    let c = Client::new(s("http://svc//"), None);
    assert_eq!(c.endpoint(), "http://svc/process/request");
    let c = Client::new(s("http://svc"), None);
    assert_eq!(c.endpoint(), "http://svc/process/request");
    let c = Client::new(s(""), None);
    assert_eq!(c.endpoint(), "/process/request");
}

#[test]
fn encoded_request_has_only_request_members() {
    let j = encode_request(&request(Some(ProcessorType::Cloud), Some(Number::Decimal(s("0.25")))));
    match j {
        Json::Object(fs) => {
            let keys: Vec<&str> = fs.iter().map(|(k, _)| k.as_str()).collect();
            assert_eq!(keys, vec!["input_data", "input_tokens", "processor_type", "timeout_seconds"]);
        }
        _ => panic!("not an object"),
    }
}

#[test]
fn number_text_grammar() {
    for t in ["0", "-0", "12.5", "1e10", "2.5E-3", "-7.0e+2", "10"] {
        assert!(is_number_text(t), "{}", t);
    }
    for t in ["", "-", "01", "1.", ".5", "1e", "1e+", "abc", "1.5x", "+1"] {
        assert!(!is_number_text(t), "{}", t);
    }
    assert!(Number::Decimal(s("3.5")).is_well_formed());
    assert!(!Number::Decimal(s("abc")).is_well_formed());
    assert!(!Number::Negative(0).is_well_formed());
    assert!(Number::Negative(-4).is_well_formed());
}

#[test]
fn positive_numbers() {
    assert!(is_positive_text("0.001"));
    assert!(is_positive_text("3e-2"));
    assert!(!is_positive_text("0.0"));
    assert!(!is_positive_text("0e5"));
    assert!(!is_positive_text("-1.5"));
    assert!(Number::Unsigned(1).is_positive());
    assert!(!Number::Unsigned(0).is_positive());
    assert!(!Number::Negative(-3).is_positive());
}

#[test]
fn timeout_must_be_positive() {
    assert!(is_valid_request(&request(None, Some(Number::Decimal(s("1.5"))))));
    assert!(is_valid_request(&request(None, None)));
    assert!(!is_valid_request(&request(None, Some(Number::Decimal(s("abc"))))));
    assert!(!is_valid_request(&request(None, Some(Number::Unsigned(0)))));
    let j = Json::Object(vec![
        member("input_data", Json::Str(s("x"))),
        member("input_tokens", Json::Number(Number::Unsigned(1))),
        member("timeout_seconds", Json::Number(Number::Negative(-2))),
    ]);
    assert_eq!(decode_request(&j), Err(ClientError::Schema(s("timeout_seconds"))));
}
