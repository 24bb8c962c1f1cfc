//! The assembly of a response: body, then status, then headers.

use super::serde::{RespSerialize, SerializeWrap};
use super::RespResult;
use crate::config::{InnerConfig, InnerSerdeConfig, SerdeView};
use crate::expect_ext::ExpectExt;
use crate::extra_flag::effect::{BodyEffect, Effects, PlainBody};
use crate::headers::{
    content_type_bytes, content_type_name, has_room, header_map_values, header_name_bytes,
    header_value_from_str,
    headers_append, is_value_byte, is_value_text, new_header_map, no_headers, try_append_header,
    Headers,
};
use crate::json::{null_text, object_text, push_all, write_null, SerializeError};
use crate::resp_body::{LoadSerde, RespBody};
use crate::resp_error::{ExtraValue, RespError};
use crate::status::StatusCode;
use core::convert::Infallible;
use http::header::{HeaderMap, HeaderName, HeaderValue};
use vstd::prelude::*;
use vstd::string::StringExecFns;
use vstd::string::StringSliceAdditionalSpecFns;
use vstd::utf8::{encode_utf8, is_ascii_chars, is_ascii_chars_encode_utf8};

verus! {

/// Why a response could not be assembled.
#[derive(Clone, Copy, Debug, PartialEq, Eq, Structural)]
pub enum RespondError {
    /// the body could not be written as JSON
    Serialize,
    /// the extra message of the error cannot stand in a header
    HeaderValue,
    /// the header map can take no more
    HeaderMapFull,
}

/// A response, ready to be handed to the framework.
#[derive(Debug)]
pub struct PrepareRespond {
    pub body: Vec<u8>,
    pub status: StatusCode,
    pub headers: HeaderMap<HeaderValue>,
}

/// The value of the header that says that a body is JSON.
pub open spec fn json_type_bytes() -> Seq<u8> {
    "application/json".spec_bytes()
}

/// The status of the response to `resp`: what its payload sets, else 200
/// for a success and the status of the error for a failure.
pub open spec fn status_of<T: RespBody, E: RespError>(resp: &RespResult<T, E>) -> StatusCode {
    match resp.status_override() {
        Some(status) => status,
        None => match resp {
            RespResult::Success(_) => StatusCode::of(200),
            RespResult::Error(e) => e.error_view().http_code,
        },
    }
}

/// The body of the response to `resp`: nothing where its payload says so,
/// else the JSON text of its envelope.
pub open spec fn body_of<T: RespBody, E: RespError>(resp: &RespResult<T, E>, cfg: SerdeView) -> Seq<
    u8,
> {
    if resp.clears_body() {
        Seq::empty()
    } else {
        object_text(resp.envelope(cfg))
    }
}

/// The bytes of the extra message of `resp`, where it is an error.
pub open spec fn extra_bytes<T: RespBody, E: RespError>(resp: &RespResult<T, E>) -> Seq<u8> {
    match resp {
        RespResult::Success(_) => Seq::empty(),
        RespResult::Error(e) => encode_utf8(e.error_view().extra_text),
    }
}

/// Whether the response to `resp` carries the extra message in a header:
/// it does where `resp` is an error and `extra_header` names one.
pub open spec fn has_extra_header<T: RespBody, E: RespError>(
    resp: &RespResult<T, E>,
    extra_header: Option<Seq<u8>>,
) -> bool {
    resp is Error && extra_header is Some
}

/// Whether the extra message of `resp` is to go into a header and cannot
/// stand in one.
pub open spec fn has_bad_extra<T: RespBody, E: RespError>(
    resp: &RespResult<T, E>,
    extra_header: Option<Seq<u8>>,
) -> bool {
    has_extra_header(resp, extra_header) && !is_value_text(extra_bytes(resp))
}

/// Whether the body of the response to `resp` can be had: it is empty, or
/// what `resp` carries renders.
pub open spec fn has_body<T: RespBody, E: RespError>(resp: &RespResult<T, E>) -> bool {
    resp.clears_body() || resp.serializes()
}

/// The bytes of the name of a header, if there is one.
pub open spec fn name_of(header: Option<HeaderName>) -> Option<Seq<u8>> {
    match header {
        Some(name) => Some(header_name_bytes(name)),
        None => None,
    }
}

/// Whether a map that holds `before` is sure to take the headers of the
/// response to `resp`: the two that the assembly may add, and those that
/// the payload sets.
pub open spec fn headers_sure<T: RespBody, E: RespError>(
    resp: &RespResult<T, E>,
    extra_header: Option<Seq<u8>>,
    before: Headers,
) -> bool {
    has_room(before, 2) && resp.headers_fit(headers_added(resp, extra_header, before))
}

/// The headers that the assembly adds to `before`: the kind of the body
/// and, for an error, the extra message under the header that
/// `extra_header` names.
pub open spec fn headers_added<T: RespBody, E: RespError>(
    resp: &RespResult<T, E>,
    extra_header: Option<Seq<u8>>,
    before: Headers,
) -> Headers {
    let typed = headers_append(before, content_type_bytes(), json_type_bytes());
    if has_extra_header(resp, extra_header) {
        headers_append(typed, extra_header->0, extra_bytes(resp))
    } else {
        typed
    }
}

/// The headers of the response to `resp`: those that the assembly adds,
/// then what the payload makes of them.
pub open spec fn headers_of<T: RespBody, E: RespError>(
    resp: &RespResult<T, E>,
    extra_header: Option<Seq<u8>>,
) -> Headers {
    resp.headers_after(headers_added(resp, extra_header, no_headers()))
}

/// Whether `this` is the response to `resp` under `cfg`: whether its body,
/// its status and its headers are those of that response.
pub open spec fn is_response_to<T: RespBody, E: RespError>(
    this: PrepareRespond,
    resp: &RespResult<T, E>,
    cfg: InnerConfig,
) -> bool {
    &&& this.body@ == body_of(resp, cfg.serde@)
    &&& this.status == status_of(resp)
    &&& header_map_values(this.headers) == headers_of(resp, cfg.resp@.extra_code)
}

/// The status of the response to an error is the status of that error: an
/// error carries no payload that could set another.
pub proof fn lemma_error_status<T: RespBody, E: RespError>(resp: &RespResult<T, E>)
    requires
        resp is Error,
    ensures
        status_of(resp) == resp->Error_0.error_view().http_code,
{
}

/// The status of the response to a success is 200, unless its payload sets
/// one, and then it is that one.
pub proof fn lemma_success_status<T: RespBody, E: RespError>(resp: &RespResult<T, E>)
    requires
        resp is Success,
    ensures
        status_of(resp) == (match resp->Success_0.status_override() {
            Some(status) => status,
            None => StatusCode::of(200),
        }),
{
}

/// A payload that asks for no body gets none, whatever it holds, and
/// status and headers are what they would be with a body.
pub proof fn lemma_empty_body<T: RespBody, E: RespError>(
    this: PrepareRespond,
    resp: &RespResult<T, E>,
    cfg: InnerConfig,
)
    requires
        is_response_to(this, resp, cfg),
        resp.clears_body(),
    ensures
        this.body@.len() == 0,
        this.status == status_of(resp),
        header_map_values(this.headers) == headers_of(resp, cfg.resp@.extra_code),
{
}

/// Two responses to the same outcome under the same configuration have the
/// same body, byte for byte, the same status and the same headers.
pub proof fn lemma_response_is_unique<T: RespBody, E: RespError>(
    first: PrepareRespond,
    second: PrepareRespond,
    resp: &RespResult<T, E>,
    cfg: InnerConfig,
)
    requires
        is_response_to(first, resp, cfg),
        is_response_to(second, resp, cfg),
    ensures
        first.body@ == second.body@,
        first.status == second.status,
        header_map_values(first.headers) == header_map_values(second.headers),
{
}

/// The body of the response to an error can always be had: an error
/// renders, whatever it says.
pub proof fn lemma_error_has_body<T: RespBody, E: RespError>(resp: &RespResult<T, E>)
    requires
        resp is Error,
    ensures
        has_body(resp),
        !resp.clears_body(),
{
}

/// `mime::APPLICATION_JSON` as text: `application/json`.
#[verifier::external_body]
fn json_media_type() -> (r: String)
    ensures
        r@ == "application/json"@,
{
    mime::APPLICATION_JSON.as_ref().to_owned()
}

/// The name of the JSON media type may stand in a header.
pub proof fn lemma_json_type_is_value_text()
    ensures
        is_value_text(json_type_bytes()),
{
    reveal_strlit("application/json");
    let chars = "application/json"@;
    assert(is_ascii_chars(chars));
    is_ascii_chars_encode_utf8(chars);
    assert forall|i: int| 0 <= i < json_type_bytes().len() implies is_value_byte(
        #[trigger] json_type_bytes()[i],
    ) by {
        assert(chars[i] as u8 == encode_utf8(chars)[i]);
    }
}

impl PrepareRespond {
    /// Assembles the response to `resp` under `cfg`: first the body, then
    /// the status, then the headers.
    ///
    /// It fails with `Serialize` exactly where a body is wanted and the
    /// payload does not render; else with `HeaderValue` exactly where the
    /// extra message is to go into a header and cannot stand in one; else it
    /// succeeds wherever the headers that the payload sets are sure to fit.
    /// An error outcome whose extra message can stand in a header always
    /// gets its response.
    pub fn from_resp_result<T, E>(resp: &RespResult<T, E>, cfg: &InnerConfig) -> (r: Result<
        PrepareRespond,
        RespondError,
    >) where T: RespBody, E: RespError
        ensures
            r matches Ok(this) ==> is_response_to(this, resp, *cfg),
            r matches Err(RespondError::Serialize) <==> !has_body(resp),
            r matches Err(RespondError::HeaderValue) <==> has_body(resp) && has_bad_extra(
                resp,
                cfg.resp@.extra_code,
            ),
            r matches Err(RespondError::HeaderMapFull) ==> !headers_sure(
                resp,
                cfg.resp@.extra_code,
                no_headers(),
            ),
            resp is Error && !has_bad_extra(resp, cfg.resp@.extra_code) ==> r is Ok,
    {
        let mut this = PrepareRespond {
            body: Vec::new(),
            status: StatusCode::ok(),
            headers: new_header_map(),
        };
        if this.serde_body(resp, &cfg.serde).is_err() {
            return Err(RespondError::Serialize);
        }
        this.set_status(resp);
        let extra_header = cfg.resp.extra_header();
        match this.set_header(resp, extra_header) {
            Ok(()) => Ok(this),
            Err(e) => Err(e),
        }
    }

    /// Writes the body: nothing where the payload of `resp` says so, else
    /// the JSON text of its envelope behind what the body holds. Fails where
    /// a body is wanted and the payload does not render, and then leaves
    /// the body as it was.
    pub fn serde_body<T, E>(&mut self, resp: &RespResult<T, E>, cfg: &InnerSerdeConfig) -> (r:
        Result<(), SerializeError>) where T: RespBody, E: RespError
        ensures
            r is Ok <==> has_body(resp),
            r is Ok ==> final(self).body@ == (if resp.clears_body() {
                Seq::<u8>::empty()
            } else {
                old(self).body@ + object_text(resp.envelope(cfg@))
            }),
            r is Err ==> final(self).body@ == old(self).body@,
            final(self).status == old(self).status,
            final(self).headers == old(self).headers,
    {
        match resp.body_effect(&mut self.body) {
            BodyEffect::Continue => {
                match SerializeWrap(resp).serialize(cfg) {
                    Ok(text) => {
                        push_all(&mut self.body, &text);
                        Ok(())
                    },
                    Err(e) => Err(e),
                }
            },
            BodyEffect::Empty => Ok(()),
        }
    }

    /// Adds the headers of the assembly, then lets the payload of `resp`
    /// change them.
    ///
    /// It fails with `HeaderValue` where the extra message is to go into a
    /// header and cannot stand in one; the kind of the body is set by then.
    /// It succeeds wherever the map has room for the two headers of the
    /// assembly and the headers that the payload sets are sure to fit.
    pub fn set_header<T, E>(
        &mut self,
        resp: &RespResult<T, E>,
        extra_header: Option<HeaderName>,
    ) -> (r: Result<(), RespondError>) where T: RespBody, E: RespError
        ensures
            r is Ok ==> header_map_values(final(self).headers) == resp.headers_after(
                headers_added(resp, name_of(extra_header), header_map_values(old(self).headers)),
            ),
            r matches Err(RespondError::HeaderValue) ==> has_bad_extra(resp, name_of(extra_header))
                && header_map_values(final(self).headers) == headers_append(
                header_map_values(old(self).headers),
                content_type_bytes(),
                json_type_bytes(),
            ),
            has_bad_extra(resp, name_of(extra_header)) ==> r is Err,
            has_bad_extra(resp, name_of(extra_header)) && has_room(
                header_map_values(old(self).headers),
                1,
            ) ==> r matches Err(RespondError::HeaderValue),
            !has_bad_extra(resp, name_of(extra_header)) && headers_sure(
                resp,
                name_of(extra_header),
                header_map_values(old(self).headers),
            ) ==> r is Ok,
            r matches Err(RespondError::HeaderMapFull) && resp is Error ==> header_map_values(
                final(self).headers,
            ) == header_map_values(old(self).headers) || header_map_values(final(self).headers)
                == headers_append(
                header_map_values(old(self).headers),
                content_type_bytes(),
                json_type_bytes(),
            ),
            !(r matches Err(RespondError::Serialize)),
            final(self).body == old(self).body,
            final(self).status == old(self).status,
    {
        let media_type = json_media_type();
        proof {
            lemma_json_type_is_value_text();
        }
        let content_type = header_value_from_str(media_type.as_str()).with_expect(
            "Bad HeaderValue",
        );
        let name = content_type_name();
        if try_append_header(&mut self.headers, &name, content_type).is_err() {
            return Err(RespondError::HeaderMapFull);
        }
        match (resp, &extra_header) {
            (RespResult::Error(err), Some(key)) => {
                let text = err.extra_message().to_text();
                let value = match header_value_from_str(text.as_str()) {
                    Ok(value) => value,
                    Err(_) => {
                        return Err(RespondError::HeaderValue);
                    },
                };
                if try_append_header(&mut self.headers, key, value).is_err() {
                    return Err(RespondError::HeaderMapFull);
                }
            },
            _ => {},
        }
        match resp.headers_effect(&mut self.headers) {
            Ok(()) => Ok(()),
            Err(_) => Err(RespondError::HeaderMapFull),
        }
    }

    /// Sets the status: what the payload of `resp` asks for, else 200 for a
    /// success and the status of the error for a failure.
    pub fn set_status<T, E>(&mut self, resp: &RespResult<T, E>) where T: RespBody, E: RespError
        ensures
            final(self).status == status_of(resp),
            final(self).body == old(self).body,
            final(self).headers == old(self).headers,
    {
        let status = match resp {
            RespResult::Success(_) => StatusCode::ok(),
            RespResult::Error(e) => e.http_code(),
        };
        self.status = match resp.status_effect() {
            Some(overriding) => overriding,
            None => status,
        };
    }
}

/// The payload of a response that has none: it renders as `null`.
#[derive(Clone, Copy, Debug, PartialEq, Eq, Structural)]
pub struct Nil;

impl From<()> for Nil {
    fn from(unit: ()) -> (r: Nil) {
        Nil
    }
}

impl vstd::std_specs::convert::FromSpecImpl<()> for Nil {
    open spec fn obeys_from_spec() -> bool {
        true
    }

    open spec fn from_spec(unit: ()) -> Nil {
        Nil
    }
}

impl From<Infallible> for Nil {
    fn from(never: Infallible) -> (r: Nil) {
        Nil
    }
}

impl vstd::std_specs::convert::FromSpecImpl<Infallible> for Nil {
    open spec fn obeys_from_spec() -> bool {
        true
    }

    open spec fn from_spec(never: Infallible) -> Nil {
        Nil
    }
}

impl Nil {
    /// The name of this payload: `Nil`.
    pub fn to_string(&self) -> (r: String)
        ensures
            r@ == "Nil"@,
    {
        String::from_str("Nil")
    }
}

impl LoadSerde for Nil {
    open spec fn renders(&self) -> bool {
        true
    }

    open spec fn json_view(&self) -> Seq<u8> {
        null_text()
    }

    fn load_serde(&self) -> (r: Result<Vec<u8>, SerializeError>) {
        Ok(write_null())
    }
}

impl PlainBody for Nil {

}

} // verus!
