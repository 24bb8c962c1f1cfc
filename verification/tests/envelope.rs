use http::header::HeaderName;
use resp_result::config::{
    InnerConfig, InnerRespConfig, InnerSerdeConfig, InnerStatusSign, RespView, SerdeView,
};
use resp_result::json::{Field, FieldValue};
use resp_result::resp_error::{DeclaredError, ErrorDefaults, ErrorView};
use resp_result::resp_result::serde::{
    begin_fields, duplicate_value, error_envelope, push_extra, push_field, raw_value,
    success_envelope, text_value,
};
use resp_result::{
    ConfigTrait, DefaultConfig, ExtraValue, RespConfig, RespError, RespResult, RespSerialize,
    SerdeConfig, SerializeWrap, SignType, StatusCode, StatusSign,
};

struct Bad;

impl RespError for Bad {
    type ExtraMessage = String;

    fn error_view(&self) -> ErrorView {
        unreachable!()
    }

    fn error_defaults() -> ErrorDefaults {
        unreachable!()
    }

    fn log_message(&self) -> String {
        "bad input: field `n` out of range".into()
    }

    fn http_code(&self) -> StatusCode {
        StatusCode::from_u16(400).unwrap()
    }

    fn resp_message(&self) -> String {
        "bad".into()
    }

    fn extra_message(&self) -> String {
        "E400".into()
    }

    fn resp_message_default() -> Option<String> {
        Some("fine".into())
    }

    fn extra_message_default() -> Option<String> {
        None
    }
}

struct Full;

impl SerdeConfig for Full {
    fn serde_view(&self) -> SerdeView {
        unreachable!()
    }

    fn body_name(&self) -> String {
        "data".into()
    }

    fn err_msg_name(&self) -> String {
        "msg".into()
    }

    fn full_field(&self) -> bool {
        true
    }

    fn signed_status(&self) -> Option<StatusSign> {
        Some(StatusSign::new("ok".into(), SignType::Bool))
    }

    fn extra_message(&self) -> Option<String> {
        None
    }
}

impl RespConfig for Full {
    fn resp_view(&self) -> RespView {
        unreachable!()
    }

    fn head_extra_code(&self) -> Option<HeaderName> {
        None
    }
}

impl ConfigTrait for Full {}

fn layout(full_field: bool, sign: Option<SignType>, extra: Option<&str>) -> InnerSerdeConfig {
    InnerSerdeConfig {
        body_name: "body".into(),
        err_msg_name: "error".into(),
        full_field,
        signed_status: sign.map(|ty| InnerStatusSign::from_sign(StatusSign::new("sign".into(), ty))),
        extra_code: extra.map(|e| e.to_string()),
    }
}

fn text(bytes: Vec<u8>) -> String {
    String::from_utf8(bytes).unwrap()
}

fn names(fields: &[Field]) -> Vec<String> {
    fields.iter().map(|f| f.name.clone()).collect()
}

#[test]
fn the_default_configuration_names_data_and_msg() {
    let cfg = InnerConfig::default();
    assert_eq!(cfg.serde.body_name, "data");
    assert_eq!(cfg.serde.err_msg_name, "msg");
    assert!(!cfg.serde.full_field);
    assert!(cfg.serde.signed_status.is_none());
    assert!(cfg.serde.extra_code.is_none());
    assert!(cfg.resp.extra_code.is_none());
    assert!(cfg.resp.extra_header().is_none());
    assert_eq!(cfg.serde.get_field_size(), (1, 1));
    let again = InnerConfig::from_cfg(&DefaultConfig);
    assert_eq!(again.serde.body_name, "data");
    assert_eq!(again.serde.err_msg_name, "msg");
}

#[test]
fn a_configuration_is_resolved_member_by_member() {
    let cfg = InnerConfig::from_cfg(&Full);
    assert_eq!(cfg.serde.body_name, "data");
    assert_eq!(cfg.serde.err_msg_name, "msg");
    assert!(cfg.serde.full_field);
    let sign = cfg.serde.signed_status.as_ref().unwrap();
    assert_eq!(sign.field, "ok");
    assert!(matches!(sign.ok, FieldValue::Bool(true)));
    assert!(matches!(sign.err, FieldValue::Bool(false)));
    assert!(cfg.serde.extra_code.is_none());
    assert!(cfg.resp.extra_code.is_none());
    let serde = InnerSerdeConfig::into_inner(&Full);
    assert_eq!(serde.get_field_size(), (3, 3));
    assert!(InnerRespConfig::into_inner(&Full).extra_code.is_none());
}

#[test]
fn the_extra_header_is_handed_out_by_name() {
    let cfg = InnerRespConfig { extra_code: Some(HeaderName::from_static("x-code")) };
    assert_eq!(cfg.extra_header().unwrap(), "x-code");
}

#[test]
fn sign_types_give_their_pairs() {
    assert!(matches!(SignType::Bool.into_values(), (FieldValue::Bool(true), FieldValue::Bool(false))));
    assert!(matches!(
        SignType::BoolRevert.into_values(),
        (FieldValue::Bool(false), FieldValue::Bool(true))
    ));
    assert!(matches!(
        SignType::Number { on_ok: 0, on_fail: 1 }.into_values(),
        (FieldValue::Number(0), FieldValue::Number(1))
    ));
    match (SignType::Str { on_ok: "yes".into(), on_fail: "no".into() }).into_values() {
        (FieldValue::Text(a), FieldValue::Text(b)) => {
            assert_eq!(a, "yes");
            assert_eq!(b, "no");
        }
        _ => panic!("not a pair of strings"),
    }
}

#[test]
fn field_counts_follow_the_configuration() {
    assert_eq!(layout(false, None, None).get_field_size(), (1, 1));
    assert_eq!(layout(true, None, None).get_field_size(), (2, 2));
    assert_eq!(layout(false, Some(SignType::Bool), None).get_field_size(), (2, 2));
    assert_eq!(layout(false, None, Some("code")).get_field_size(), (1, 2));
    assert_eq!(layout(true, None, Some("code")).get_field_size(), (3, 3));
    assert_eq!(layout(true, Some(SignType::Bool), Some("code")).get_field_size(), (4, 4));
    assert_eq!(layout(false, Some(SignType::Bool), Some("code")).get_field_size(), (2, 3));
}

#[test]
fn the_field_count_is_the_number_of_fields_written() {
    for full in [false, true] {
        for sign in [None, Some(SignType::BoolRevert)] {
            for extra in [None, Some("code")] {
                let cfg = layout(full, sign.clone(), extra);
                let (ok_size, err_size) = cfg.get_field_size();
                let ok = RespResult::<i64, Bad>::Success(-3).resp_serialize(&cfg).unwrap();
                let err = RespResult::<i64, Bad>::Error(Bad).resp_serialize(&cfg).unwrap();
                assert_eq!(ok.len(), ok_size);
                assert_eq!(err.len(), err_size);
            }
        }
    }
}

#[test]
fn a_success_is_sign_placeholders_payload() {
    let cfg = layout(true, Some(SignType::Number { on_ok: 1, on_fail: 0 }), Some("code"));
    let fields = RespResult::<u32, Bad>::Success(9).resp_serialize(&cfg).unwrap();
    assert_eq!(names(&fields), vec!["sign", "error", "code", "body"]);
    assert!(matches!(fields[0].value, FieldValue::Number(1)));
    assert!(matches!(&fields[1].value, FieldValue::Text(t) if t == "fine"));
    assert!(matches!(fields[2].value, FieldValue::Null));
    assert!(matches!(&fields[3].value, FieldValue::Raw(b) if b == b"9"));
    let bytes = SerializeWrap(&RespResult::<u32, Bad>::Success(9)).serialize(&cfg).unwrap();
    assert_eq!(text(bytes), r#"{"sign":1,"error":"fine","code":null,"body":9}"#);
}

#[test]
fn a_success_without_full_field_is_sign_and_payload() {
    let cfg = layout(false, Some(SignType::Bool), Some("code"));
    let fields = RespResult::<bool, Bad>::Success(true).resp_serialize(&cfg).unwrap();
    assert_eq!(names(&fields), vec!["sign", "body"]);
    let bytes = SerializeWrap(&RespResult::<bool, Bad>::Success(true)).serialize(&cfg).unwrap();
    assert_eq!(text(bytes), r#"{"sign":true,"body":true}"#);
}

#[test]
fn an_error_is_sign_extra_message_body() {
    let cfg = layout(true, Some(SignType::Str { on_ok: "y".into(), on_fail: "n".into() }), Some("code"));
    let fields = RespResult::<u32, Bad>::Error(Bad).resp_serialize(&cfg).unwrap();
    assert_eq!(names(&fields), vec!["sign", "code", "error", "body"]);
    assert!(matches!(&fields[0].value, FieldValue::Text(t) if t == "n"));
    assert!(matches!(&fields[1].value, FieldValue::Raw(j) if j == b"\"E400\""));
    assert!(matches!(&fields[2].value, FieldValue::Text(t) if t == "bad"));
    assert!(matches!(fields[3].value, FieldValue::Null));
    let bytes = SerializeWrap(&RespResult::<u32, Bad>::Error(Bad)).serialize(&cfg).unwrap();
    assert_eq!(text(bytes), r#"{"sign":"n","code":"E400","error":"bad","body":null}"#);
}

#[test]
fn an_error_never_shows_the_log_message() {
    let cfg = layout(true, Some(SignType::Bool), Some("code"));
    let bytes = SerializeWrap(&RespResult::<u32, Bad>::Error(Bad)).serialize(&cfg).unwrap();
    assert!(!text(bytes).contains("out of range"));
}

#[test]
fn the_default_envelopes_are_one_member_each() {
    let cfg = InnerConfig::default();
    let ok = SerializeWrap(&RespResult::<i32, DeclaredError>::Success(42)).serialize(&cfg.serde);
    assert_eq!(text(ok.unwrap()), r#"{"data":42}"#);
    let not_found = DeclaredError::new("row 7 missing".into())
        .err_msg("not found".into())
        .err_code(StatusCode::from_u16(404).unwrap());
    let err = SerializeWrap(&RespResult::<i32, DeclaredError>::Error(not_found)).serialize(&cfg.serde);
    assert_eq!(text(err.unwrap()), r#"{"msg":"not found"}"#);
}

#[test]
fn full_field_and_sign_give_the_three_member_envelopes() {
    let cfg = InnerConfig::from_cfg(&Full);
    let ok = SerializeWrap(&RespResult::<i32, Bad>::Success(5)).serialize(&cfg.serde).unwrap();
    assert_eq!(text(ok), r#"{"ok":true,"msg":"fine","data":5}"#);
    let ok = SerializeWrap(&RespResult::<i32, DeclaredError>::Success(5)).serialize(&cfg.serde);
    assert_eq!(text(ok.unwrap()), r#"{"ok":true,"msg":null,"data":5}"#);
    let err = SerializeWrap(&RespResult::<i32, Bad>::Error(Bad)).serialize(&cfg.serde).unwrap();
    assert_eq!(text(err), r#"{"ok":false,"msg":"bad","data":null}"#);
}

#[test]
fn serializing_twice_gives_the_same_bytes() {
    let cfg = layout(true, Some(SignType::Bool), Some("code"));
    let ok = RespResult::<String, Bad>::Success("payload \"x\"".into());
    assert_eq!(
        SerializeWrap(&ok).serialize(&cfg).unwrap(),
        SerializeWrap(&ok).serialize(&cfg).unwrap()
    );
    let err = RespResult::<String, Bad>::Error(Bad);
    assert_eq!(
        SerializeWrap(&err).serialize(&cfg).unwrap(),
        SerializeWrap(&err).serialize(&cfg).unwrap()
    );
}

#[test]
fn envelopes_are_built_from_their_parts() {
    let cfg = layout(true, Some(SignType::Bool), Some("code"));
    let fields = success_envelope(&cfg, None, Some(b"\"none\"".to_vec()), b"[]".to_vec());
    assert_eq!(names(&fields), vec!["sign", "error", "code", "body"]);
    assert!(matches!(fields[1].value, FieldValue::Null));
    assert!(matches!(&fields[2].value, FieldValue::Raw(j) if j == b"\"none\""));
    let fields = error_envelope(&cfg, b"17".to_vec(), "m".into());
    assert!(matches!(&fields[1].value, FieldValue::Raw(j) if j == b"17"));
    assert_eq!(names(&fields), vec!["sign", "code", "error", "body"]);
    let plain = layout(false, None, None);
    assert_eq!(names(&success_envelope(&plain, None, None, b"1".to_vec())), vec!["body"]);
    assert_eq!(names(&error_envelope(&plain, b"1".to_vec(), "m".into())), vec!["error"]);
}

#[test]
fn the_helpers_of_the_envelope_do_one_thing_each() {
    let cfg = layout(false, Some(SignType::BoolRevert), Some("code"));
    let fields = begin_fields(&cfg, true);
    assert_eq!(names(&fields), vec!["sign"]);
    assert!(matches!(fields[0].value, FieldValue::Bool(false)));
    assert!(matches!(begin_fields(&cfg, false)[0].value, FieldValue::Bool(true)));
    assert!(begin_fields(&layout(false, None, None), true).is_empty());

    let mut fields = Vec::new();
    push_field(&mut fields, Field { name: "a".into(), value: FieldValue::Null });
    push_extra(&mut fields, &cfg, FieldValue::Number(3));
    push_extra(&mut fields, &layout(false, None, None), FieldValue::Number(4));
    assert_eq!(names(&fields), vec!["a", "code"]);
    assert!(matches!(fields[1].value, FieldValue::Number(3)));

    assert!(matches!(raw_value(None), FieldValue::Null));
    assert!(matches!(raw_value(Some(b"7".to_vec())), FieldValue::Raw(j) if j == b"7"));
    assert!(matches!(text_value(None), FieldValue::Null));
    assert!(matches!(text_value(Some("t".into())), FieldValue::Text(t) if t == "t"));
    assert!(matches!(duplicate_value(&FieldValue::Raw(b"1".to_vec())), FieldValue::Raw(b) if b == b"1"));
    assert!(matches!(duplicate_value(&FieldValue::Text("s".into())), FieldValue::Text(t) if t == "s"));
    assert!(matches!(duplicate_value(&FieldValue::Number(9)), FieldValue::Number(9)));
    assert!(matches!(duplicate_value(&FieldValue::Bool(true)), FieldValue::Bool(true)));
    assert!(matches!(duplicate_value(&FieldValue::Null), FieldValue::Null));
}

struct Coded(u32);

impl RespError for Coded {
    type ExtraMessage = u32;

    fn error_view(&self) -> ErrorView {
        unreachable!()
    }

    fn error_defaults() -> ErrorDefaults {
        unreachable!()
    }

    fn log_message(&self) -> String {
        format!("code {}", self.0)
    }

    fn http_code(&self) -> StatusCode {
        StatusCode::from_u16(422).unwrap()
    }

    fn resp_message(&self) -> String {
        "refused".into()
    }

    fn extra_message(&self) -> u32 {
        self.0
    }

    fn resp_message_default() -> Option<String> {
        None
    }

    fn extra_message_default() -> Option<u32> {
        Some(0)
    }
}

#[test]
fn a_numeric_extra_message_is_a_number_in_the_envelope() {
    let cfg = layout(true, None, Some("code"));
    let err = SerializeWrap(&RespResult::<u32, Coded>::Error(Coded(1017))).serialize(&cfg).unwrap();
    assert_eq!(text(err), r#"{"code":1017,"error":"refused","body":null}"#);
    let ok = SerializeWrap(&RespResult::<u32, Coded>::Success(1)).serialize(&cfg).unwrap();
    assert_eq!(text(ok), r#"{"error":null,"code":0,"body":1}"#);
}

#[test]
fn extra_values_render_as_json_and_as_text() {
    assert_eq!(String::from("a\"b").to_json(), b"\"a\\\"b\"".to_vec());
    assert_eq!(ExtraValue::to_text(&String::from("a\"b")), "a\"b");
    assert_eq!(7u16.to_json(), b"7".to_vec());
    assert_eq!(ExtraValue::to_text(&7u16), "7");
    assert_eq!(ExtraValue::to_text(&4000000000u32), "4000000000");
    assert_eq!(u64::MAX.to_json(), b"18446744073709551615".to_vec());
    assert_eq!(ExtraValue::to_text(&u64::MAX), "18446744073709551615");
    assert_eq!((-5i32).to_json(), b"-5".to_vec());
    assert_eq!(ExtraValue::to_text(&-5i32), "-5");
    assert_eq!(ExtraValue::to_text(&i64::MIN), "-9223372036854775808");
    assert_eq!(i64::MIN.to_json(), b"-9223372036854775808".to_vec());
    assert_eq!(resp_result::json::ascii_text(&b"-120".to_vec()), "-120");
}
