use http::header::{HeaderName, HeaderValue};
use resp_result::config::{InnerConfig, InnerRespConfig, InnerSerdeConfig, InnerStatusSign};
use resp_result::json::{FieldValue, SerializeError};
use resp_result::resp_error::{DeclaredError, ErrorDefaults, ErrorView};
use resp_result::{
    ExtraFlag, LoadSerde, Nil, PlainBody, PrepareRespond, RespError, RespResult, RespondError,
    StatusCode,
};

fn text(bytes: &[u8]) -> &str {
    std::str::from_utf8(bytes).unwrap()
}

fn failing(message: &str, code: u16) -> DeclaredError {
    DeclaredError::new("internal detail".into())
        .err_msg(message.into())
        .err_code(StatusCode::from_u16(code).unwrap())
}

fn signed_full() -> InnerConfig {
    InnerConfig {
        serde: InnerSerdeConfig {
            body_name: "data".into(),
            err_msg_name: "msg".into(),
            full_field: true,
            signed_status: Some(InnerStatusSign {
                field: "ok".into(),
                ok: FieldValue::Bool(true),
                err: FieldValue::Bool(false),
            }),
            extra_code: None,
        },
        resp: InnerRespConfig { extra_code: None },
    }
}

fn with_extra_header() -> InnerConfig {
    InnerConfig {
        serde: InnerSerdeConfig {
            body_name: "data".into(),
            err_msg_name: "msg".into(),
            full_field: false,
            signed_status: None,
            extra_code: Some("code".into()),
        },
        resp: InnerRespConfig { extra_code: Some(HeaderName::from_static("x-error-code")) },
    }
}

struct Unwritable;

impl LoadSerde for Unwritable {
    fn renders(&self) -> bool {
        unreachable!()
    }

    fn json_view(&self) -> resp_result::resp_body::JsonText {
        unreachable!()
    }

    fn load_serde(&self) -> Result<Vec<u8>, SerializeError> {
        Err(SerializeError)
    }
}

impl PlainBody for Unwritable {}

#[test]
fn a_success_is_answered_with_200_and_json() {
    let resp = RespResult::<i32, DeclaredError>::Success(42);
    let p = PrepareRespond::from_resp_result(&resp, &InnerConfig::default()).unwrap();
    assert_eq!(text(&p.body), r#"{"data":42}"#);
    assert_eq!(p.status.as_u16(), 200);
    assert_eq!(p.headers.len(), 1);
    assert_eq!(p.headers.get("content-type").unwrap(), "application/json");
}

#[test]
fn an_error_is_answered_with_its_status_and_message() {
    let resp = RespResult::<i32, DeclaredError>::Error(failing("not found", 404));
    let p = PrepareRespond::from_resp_result(&resp, &InnerConfig::default()).unwrap();
    assert_eq!(text(&p.body), r#"{"msg":"not found"}"#);
    assert_eq!(p.status.as_u16(), 404);
    assert_eq!(p.headers.len(), 1);
    assert_eq!(p.headers.get(http::header::CONTENT_TYPE).unwrap(), "application/json");
}

#[test]
fn an_error_without_declarations_is_a_500_with_its_log_message() {
    let resp = RespResult::<i32, DeclaredError>::Error(DeclaredError::new("broken".into()));
    let p = PrepareRespond::from_resp_result(&resp, &InnerConfig::default()).unwrap();
    assert_eq!(text(&p.body), r#"{"msg":"broken"}"#);
    assert_eq!(p.status.as_u16(), 500);
}

#[test]
fn signed_full_envelopes_and_status() {
    let cfg = signed_full();
    let ok = RespResult::<i32, DeclaredError>::Success(5);
    let p = PrepareRespond::from_resp_result(&ok, &cfg).unwrap();
    assert_eq!(text(&p.body), r#"{"ok":true,"msg":null,"data":5}"#);
    assert_eq!(p.status.as_u16(), 200);

    let err = RespResult::<i32, DeclaredError>::Error(failing("bad", 400));
    let p = PrepareRespond::from_resp_result(&err, &cfg).unwrap();
    assert_eq!(text(&p.body), r#"{"ok":false,"msg":"bad","data":null}"#);
    assert_eq!(p.status.as_u16(), 400);
}

#[test]
fn empty_body_keeps_status_and_headers() {
    for payload in [0i64, -1, i64::MAX] {
        let resp = RespResult::<_, DeclaredError>::Success(payload).with_flags(
            ExtraFlag::EmptyBody + ExtraFlag::append_header(
                HeaderName::from_static("x-trace"),
                HeaderValue::from_static("t1"),
            ),
        );
        let p = PrepareRespond::from_resp_result(&resp, &InnerConfig::default()).unwrap();
        assert_eq!(p.body.len(), 0);
        assert_eq!(p.status.as_u16(), 200);
        assert_eq!(p.headers.len(), 2);
        assert_eq!(p.headers.get("content-type").unwrap(), "application/json");
        assert_eq!(p.headers.get("x-trace").unwrap(), "t1");
    }
}

#[test]
fn empty_body_needs_no_payload_that_can_be_written() {
    let resp = RespResult::<_, DeclaredError>::Success(Unwritable)
        .with_flags(ExtraFlag::EmptyBody.into());
    let p = PrepareRespond::from_resp_result(&resp, &InnerConfig::default()).unwrap();
    assert!(p.body.is_empty());
    assert_eq!(p.status.as_u16(), 200);
}

#[test]
fn a_payload_that_cannot_be_written_fails_the_assembly() {
    let resp = RespResult::<_, DeclaredError>::Success(Unwritable);
    let r = PrepareRespond::from_resp_result(&resp, &InnerConfig::default());
    assert_eq!(r.unwrap_err(), RespondError::Serialize);
}

#[test]
fn a_status_flag_overrides_200() {
    let resp = RespResult::<_, DeclaredError>::Success(String::from("made"))
        .with_flags(ExtraFlag::status(StatusCode::from_u16(201).unwrap()).into());
    let p = PrepareRespond::from_resp_result(&resp, &InnerConfig::default()).unwrap();
    assert_eq!(p.status.as_u16(), 201);
    assert_eq!(text(&p.body), r#"{"data":"made"}"#);
}

#[test]
fn flags_of_a_success_never_reach_an_error() {
    let resp = RespResult::<i32, DeclaredError>::Error(failing("gone", 410)).with_flags(
        ExtraFlag::EmptyBody
            + ExtraFlag::status(StatusCode::ok())
            + ExtraFlag::remove_header(http::header::CONTENT_TYPE),
    );
    let p = PrepareRespond::from_resp_result(&resp, &InnerConfig::default()).unwrap();
    assert_eq!(text(&p.body), r#"{"msg":"gone"}"#);
    assert_eq!(p.status.as_u16(), 410);
    assert_eq!(p.headers.get("content-type").unwrap(), "application/json");
}

#[test]
fn header_flags_run_last_and_may_undo_the_content_type() {
    let resp = RespResult::<_, DeclaredError>::Success(1u32).with_flags(
        ExtraFlag::insert_header(http::header::CONTENT_TYPE, HeaderValue::from_static("text/plain"))
            .into(),
    );
    let p = PrepareRespond::from_resp_result(&resp, &InnerConfig::default()).unwrap();
    assert_eq!(p.headers.len(), 1);
    assert_eq!(p.headers.get("content-type").unwrap(), "text/plain");
}

#[test]
fn an_error_carries_its_extra_message_in_field_and_header() {
    let cfg = with_extra_header();
    let err = failing("bad", 400).extra_msg("E-17".into());
    let p = PrepareRespond::from_resp_result(&RespResult::<Nil, _>::Error(err), &cfg).unwrap();
    assert_eq!(text(&p.body), r#"{"code":"E-17","msg":"bad"}"#);
    assert_eq!(p.status.as_u16(), 400);
    assert_eq!(p.headers.len(), 2);
    assert_eq!(p.headers.get("x-error-code").unwrap(), "E-17");
}

#[test]
fn a_success_carries_no_extra_header() {
    let cfg = with_extra_header();
    let p = PrepareRespond::from_resp_result(&RespResult::<Nil, DeclaredError>::Success(Nil), &cfg)
        .unwrap();
    assert_eq!(text(&p.body), r#"{"data":null}"#);
    assert_eq!(p.headers.len(), 1);
    assert!(p.headers.get("x-error-code").is_none());
}

#[test]
fn an_extra_message_that_is_no_header_value_fails_the_assembly() {
    let cfg = with_extra_header();
    let err = failing("bad", 400).extra_msg("two\nlines".into());
    let r = PrepareRespond::from_resp_result(&RespResult::<Nil, _>::Error(err), &cfg);
    assert_eq!(r.unwrap_err(), RespondError::HeaderValue);
}

#[test]
fn more_headers_than_a_map_can_hold_fail_the_assembly() {
    let mut flags = resp_result::ExtraFlags::none();
    for n in 0..40000 {
        flags = flags
            + ExtraFlag::insert_header(
                HeaderName::from_bytes(format!("x-{n}").as_bytes()).unwrap(),
                HeaderValue::from_static("v"),
            );
    }
    let resp = RespResult::<_, DeclaredError>::Success(1u32).with_flags(flags);
    let r = PrepareRespond::from_resp_result(&resp, &InnerConfig::default());
    assert_eq!(r.unwrap_err(), RespondError::HeaderMapFull);
}

#[test]
fn assembling_twice_gives_the_same_response() {
    let cfg = with_extra_header();
    let resp = RespResult::<Nil, _>::Error(failing("bad", 400).extra_msg("E-17".into()));
    let a = PrepareRespond::from_resp_result(&resp, &cfg).unwrap();
    let b = PrepareRespond::from_resp_result(&resp, &cfg).unwrap();
    assert_eq!(a.body, b.body);
    assert_eq!(a.status, b.status);
    assert_eq!(a.headers, b.headers);
}

#[test]
fn the_steps_of_the_assembly_can_be_run_one_by_one() {
    let cfg = InnerConfig::default();
    let resp = RespResult::<u64, DeclaredError>::Success(8);
    let mut p = PrepareRespond {
        body: b"prefix:".to_vec(),
        status: StatusCode::internal_server_error(),
        headers: http::HeaderMap::new(),
    };
    p.serde_body(&resp, &cfg.serde).unwrap();
    assert_eq!(text(&p.body), r#"prefix:{"data":8}"#);
    assert_eq!(p.status.as_u16(), 500);
    p.set_status(&resp);
    assert_eq!(p.status.as_u16(), 200);
    assert!(p.headers.is_empty());
    p.set_header(&resp, None).unwrap();
    assert_eq!(p.headers.get("content-type").unwrap(), "application/json");
    p.set_header(&resp, Some(HeaderName::from_static("x-unused"))).unwrap();
    assert_eq!(p.headers.get_all("content-type").iter().count(), 2);
    assert!(p.headers.get("x-unused").is_none());
}

#[test]
fn nil_is_null() {
    assert_eq!(Nil.load_serde().unwrap(), b"null".to_vec());
    assert_eq!(Nil.to_string(), "Nil");
    assert_eq!(Nil::from(()), Nil);
}

#[test]
fn payloads_render_as_json() {
    assert_eq!(().load_serde().unwrap(), b"null".to_vec());
    assert_eq!(true.load_serde().unwrap(), b"true".to_vec());
    assert_eq!(false.load_serde().unwrap(), b"false".to_vec());
    assert_eq!(7u32.load_serde().unwrap(), b"7".to_vec());
    assert_eq!(u64::MAX.load_serde().unwrap(), b"18446744073709551615".to_vec());
    assert_eq!((-12i32).load_serde().unwrap(), b"-12".to_vec());
    assert_eq!(i32::MIN.load_serde().unwrap(), b"-2147483648".to_vec());
    assert_eq!(i64::MIN.load_serde().unwrap(), b"-9223372036854775808".to_vec());
    assert_eq!(String::from("a\"b").load_serde().unwrap(), b"\"a\\\"b\"".to_vec());
}

struct Numbered(i64);

impl RespError for Numbered {
    type ExtraMessage = i64;

    fn error_view(&self) -> ErrorView {
        unreachable!()
    }

    fn error_defaults() -> ErrorDefaults {
        unreachable!()
    }

    fn log_message(&self) -> String {
        "numbered".into()
    }

    fn http_code(&self) -> StatusCode {
        StatusCode::from_u16(409).unwrap()
    }

    fn resp_message(&self) -> String {
        "conflict".into()
    }

    fn extra_message(&self) -> i64 {
        self.0
    }

    fn resp_message_default() -> Option<String> {
        None
    }

    fn extra_message_default() -> Option<i64> {
        None
    }
}

#[test]
fn a_numeric_extra_message_is_a_number_in_the_body_and_text_in_the_header() {
    let cfg = with_extra_header();
    let p = PrepareRespond::from_resp_result(&RespResult::<Nil, _>::Error(Numbered(-42)), &cfg)
        .unwrap();
    assert_eq!(text(&p.body), r#"{"code":-42,"msg":"conflict"}"#);
    assert_eq!(p.status.as_u16(), 409);
    assert_eq!(p.headers.get("x-error-code").unwrap(), "-42");
}

#[test]
fn a_failed_body_leaves_the_buffer_as_it_was() {
    let cfg = InnerConfig::default();
    let resp = RespResult::<_, DeclaredError>::Success(Unwritable);
    let mut p = PrepareRespond {
        body: b"kept".to_vec(),
        status: StatusCode::ok(),
        headers: http::HeaderMap::new(),
    };
    assert!(p.serde_body(&resp, &cfg.serde).is_err());
    assert_eq!(p.body, b"kept".to_vec());
}

#[test]
fn a_bad_extra_message_fails_after_the_content_type_is_set() {
    let resp = RespResult::<Nil, _>::Error(failing("bad", 400).extra_msg("a\nb".into()));
    let mut p = PrepareRespond {
        body: Vec::new(),
        status: StatusCode::ok(),
        headers: http::HeaderMap::new(),
    };
    let r = p.set_header(&resp, Some(HeaderName::from_static("x-error-code")));
    assert_eq!(r, Err(RespondError::HeaderValue));
    assert_eq!(p.headers.len(), 1);
    assert_eq!(p.headers.get("content-type").unwrap(), "application/json");
}
