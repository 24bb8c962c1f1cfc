use http::header::{HeaderMap, HeaderName, HeaderValue};
use resp_result::extra_flag::{FlagWrap, HeaderMapFull};
use resp_result::{BodyEffect, Effects, ExtraFlag, ExtraFlags, StatusCode};

fn name(text: &'static str) -> HeaderName {
    HeaderName::from_static(text)
}

fn value(text: &'static str) -> HeaderValue {
    HeaderValue::from_static(text)
}

fn values_of(map: &HeaderMap, key: &str) -> Vec<String> {
    map.get_all(key).iter().map(|v| v.to_str().unwrap().to_string()).collect()
}

#[test]
fn flags_keep_the_order_in_which_they_were_added() {
    let flags = ExtraFlag::empty_body()
        + ExtraFlag::status(StatusCode::ok())
        + ExtraFlag::remove_header(name("x"));
    assert_eq!(flags.flags.len(), 3);
    assert!(matches!(flags.flags[0], ExtraFlag::EmptyBody));
    assert!(matches!(flags.flags[1], ExtraFlag::SetStatus(_)));
    assert!(matches!(flags.flags[2], ExtraFlag::RemoveHeader(_)));

    let more = flags.concat(ExtraFlags::none().with(ExtraFlag::append_header(name("y"), value("1"))));
    assert_eq!(more.flags.len(), 4);
    assert!(matches!(more.flags[3], ExtraFlag::SetHeader(..)));

    let one: ExtraFlags = ExtraFlag::EmptyBody.into();
    assert_eq!(one.flags.len(), 1);
    assert_eq!(ExtraFlags::none().flags.len(), 0);
}

#[test]
fn header_flags_keep_name_value_and_kind() {
    match ExtraFlag::insert_header(name("etag"), value("abc")) {
        ExtraFlag::SetHeader(k, v, ty) => {
            assert_eq!(k, "etag");
            assert_eq!(v, "abc");
            assert_eq!(ty, resp_result::HeaderType::Insert);
        }
        _ => panic!("not a header flag"),
    }
    match ExtraFlag::append_header(name("etag"), value("abc")) {
        ExtraFlag::SetHeader(_, _, ty) => assert_eq!(ty, resp_result::HeaderType::Append),
        _ => panic!("not a header flag"),
    }
    match ExtraFlag::remove_header(name("x-gone")) {
        ExtraFlag::RemoveHeader(k) => assert_eq!(k, "x-gone"),
        _ => panic!("not a removal"),
    }
    match ExtraFlag::status(StatusCode::ok()) {
        ExtraFlag::SetStatus(s) => assert_eq!(s.as_u16(), 200),
        _ => panic!("not a status flag"),
    }
    assert!(matches!(ExtraFlag::empty_body(), ExtraFlag::EmptyBody));
}

#[test]
fn the_effects_leave_the_flags_as_they_are() {
    let flags = ExtraFlag::insert_header(name("a"), value("1"))
        + ExtraFlag::append_header(name("a"), value("2"));
    let mut first = HeaderMap::new();
    let mut second = HeaderMap::new();
    assert_eq!(flags.headers_effect(&mut first), Ok(()));
    assert_eq!(flags.headers_effect(&mut second), Ok(()));
    assert_eq!(values_of(&first, "a"), vec!["1", "2"]);
    assert_eq!(first, second);
}

#[test]
fn empty_body_clears_the_buffer() {
    let flags = ExtraFlag::status(StatusCode::ok()) + ExtraFlag::EmptyBody;
    let mut body = b"something".to_vec();
    assert_eq!(flags.body_effect(&mut body), BodyEffect::Empty);
    assert!(body.is_empty());
}

#[test]
fn without_empty_body_the_buffer_stays() {
    let flags = ExtraFlag::status(StatusCode::ok()) + ExtraFlag::remove_header(name("x"));
    let mut body = b"something".to_vec();
    assert_eq!(flags.body_effect(&mut body), BodyEffect::Continue);
    assert_eq!(body, b"something".to_vec());
    let mut body = b"kept".to_vec();
    assert_eq!(ExtraFlags::none().body_effect(&mut body), BodyEffect::Continue);
    assert_eq!(body, b"kept".to_vec());
}

#[test]
fn the_last_status_flag_wins() {
    let flags = ExtraFlag::status(StatusCode::from_u16(201).unwrap())
        + ExtraFlag::EmptyBody
        + ExtraFlag::status(StatusCode::from_u16(304).unwrap())
        + ExtraFlag::remove_header(name("x"));
    assert_eq!(flags.status_effect(), Some(StatusCode::from_u16(304).unwrap()));
    assert_eq!(ExtraFlags::none().status_effect(), None);
    assert_eq!((ExtraFlag::EmptyBody + ExtraFlag::EmptyBody).status_effect(), None);
}

#[test]
fn remove_insert_append_replaces_a_header() {
    let mut map = HeaderMap::new();
    map.insert("x", value("stale"));
    map.append("x", value("older"));
    map.insert("keep", value("1"));
    let flags = ExtraFlag::remove_header(name("x"))
        + ExtraFlag::insert_header(name("x"), value("v1"))
        + ExtraFlag::append_header(name("x"), value("v2"));
    assert_eq!(flags.headers_effect(&mut map), Ok(()));
    assert_eq!(values_of(&map, "x"), vec!["v1", "v2"]);
    assert_eq!(values_of(&map, "keep"), vec!["1"]);
    assert_eq!(map.len(), 3);
}

#[test]
fn removals_run_before_settings_whatever_their_place() {
    let mut map = HeaderMap::new();
    map.insert("x", value("old"));
    let flags = ExtraFlag::append_header(name("x"), value("new"))
        + ExtraFlag::remove_header(name("x"));
    assert_eq!(flags.headers_effect(&mut map), Ok(()));
    assert_eq!(values_of(&map, "x"), vec!["new"]);
}

#[test]
fn insert_overwrites_and_append_adds() {
    let mut map = HeaderMap::new();
    map.insert("a", value("1"));
    map.append("a", value("2"));
    map.insert("b", value("1"));
    let flags = ExtraFlag::insert_header(name("a"), value("3"))
        + ExtraFlag::append_header(name("b"), value("2"))
        + ExtraFlag::append_header(name("c"), value("only"));
    assert_eq!(flags.headers_effect(&mut map), Ok(()));
    assert_eq!(values_of(&map, "a"), vec!["3"]);
    assert_eq!(values_of(&map, "b"), vec!["1", "2"]);
    assert_eq!(values_of(&map, "c"), vec!["only"]);
}

#[test]
fn removing_an_absent_header_changes_nothing() {
    let mut map = HeaderMap::new();
    map.insert("a", value("1"));
    let flags: ExtraFlags = ExtraFlag::remove_header(name("zz")).into();
    assert_eq!(flags.headers_effect(&mut map), Ok(()));
    assert_eq!(values_of(&map, "a"), vec!["1"]);
    assert_eq!(map.len(), 1);
}

#[test]
fn a_full_map_refuses_and_keeps_what_was_done() {
    let mut map = HeaderMap::new();
    let mut n = 0usize;
    while map.try_insert(HeaderName::from_bytes(format!("h{n}").as_bytes()).unwrap(), value("v")).is_ok() {
        n += 1;
    }
    let held = map.len();
    assert!(held > 0);
    let flags = ExtraFlag::remove_header(name("h0"))
        + ExtraFlag::remove_header(name("h1"))
        + ExtraFlag::insert_header(name("fresh-one"), value("a"))
        + ExtraFlag::insert_header(name("fresh-two"), value("b"))
        + ExtraFlag::insert_header(name("fresh-three"), value("c"));
    assert_eq!(flags.headers_effect(&mut map), Err(HeaderMapFull));
    assert!(!map.contains_key("h0"));
    assert!(!map.contains_key("h1"));
    assert!(!map.contains_key("fresh-three"));
}

#[test]
fn plain_payloads_have_no_effects() {
    let mut body = b"abc".to_vec();
    assert_eq!(12i32.body_effect(&mut body), BodyEffect::Continue);
    assert_eq!(body, b"abc".to_vec());
    assert_eq!(12i32.status_effect(), None);
    let mut map = HeaderMap::new();
    map.insert("a", value("1"));
    assert_eq!(String::from("x").headers_effect(&mut map), Ok(()));
    assert_eq!(map.len(), 1);
    assert_eq!(true.status_effect(), None);
    assert_eq!(().status_effect(), None);
}

#[test]
fn a_wrapped_payload_has_the_effects_of_its_flags() {
    let wrapped = FlagWrap::new(
        7u64,
        ExtraFlag::EmptyBody + ExtraFlag::status(StatusCode::from_u16(202).unwrap()),
    );
    let mut body = b"abc".to_vec();
    assert_eq!(wrapped.body_effect(&mut body), BodyEffect::Empty);
    assert!(body.is_empty());
    assert_eq!(wrapped.status_effect().unwrap().as_u16(), 202);
    assert_eq!(wrapped.inner, 7);
}
