//! The envelope: which members stand for an outcome, in which order, and
//! their JSON text.

use super::RespResult;
use crate::config::{error_field_count, success_field_count, InnerSerdeConfig, SerdeView};
use crate::json::{
    field_views, object_text, write_object, Field, FieldValue, FieldValueView, FieldView,
    SerializeError,
};
use crate::resp_body::{LoadSerde, RespBody};
use crate::resp_error::{ExtraValue, RespError};
use vstd::prelude::*;

verus! {

/// The member that marks success or failure, where `cfg` asks for one.
pub open spec fn sign_fields(cfg: SerdeView, success: bool) -> Seq<FieldView> {
    match cfg.signed_status {
        Some(sign) => seq![
            FieldView {
                name: sign.field,
                value: if success {
                    sign.ok
                } else {
                    sign.err
                },
            },
        ],
        None => Seq::empty(),
    }
}

/// The member of the extra message with the value `value`, where `cfg` asks
/// for one.
pub open spec fn extra_fields(cfg: SerdeView, value: FieldValueView) -> Seq<FieldView> {
    match cfg.extra_code {
        Some(name) => seq![FieldView { name, value }],
        None => Seq::empty(),
    }
}

/// A text as a value, and `null` in place of a missing one.
pub open spec fn text_or_null(text: Option<Seq<char>>) -> FieldValueView {
    match text {
        Some(t) => FieldValueView::Text(t),
        None => FieldValueView::Null,
    }
}

/// JSON text as a value, and `null` in place of a missing one.
pub open spec fn raw_or_null(json: Option<Seq<u8>>) -> FieldValueView {
    match json {
        Some(j) => FieldValueView::Raw(j),
        None => FieldValueView::Null,
    }
}

/// The members of a success, in their order: the status member; where every
/// member is asked for, the placeholders of the error text and of the extra
/// message; the payload. `extra` is the JSON text of the placeholder of the
/// extra message.
pub open spec fn success_fields(
    cfg: SerdeView,
    message: Option<Seq<char>>,
    extra: Option<Seq<u8>>,
    payload: Seq<u8>,
) -> Seq<FieldView> {
    let placeholders = if cfg.full_field {
        seq![FieldView { name: cfg.err_msg_name, value: text_or_null(message) }] + extra_fields(
            cfg,
            raw_or_null(extra),
        )
    } else {
        Seq::empty()
    };
    sign_fields(cfg, true) + placeholders + seq![
        FieldView { name: cfg.body_name, value: FieldValueView::Raw(payload) },
    ]
}

/// The members of an error, in their order: the status member; the extra
/// message; the error text; where every member is asked for, `null` in
/// place of the payload. `extra` is the JSON text of the extra message.
pub open spec fn error_fields(cfg: SerdeView, extra: Seq<u8>, message: Seq<char>) -> Seq<
    FieldView,
> {
    let body = if cfg.full_field {
        seq![FieldView { name: cfg.body_name, value: FieldValueView::Null }]
    } else {
        Seq::empty()
    };
    sign_fields(cfg, false) + extra_fields(cfg, FieldValueView::Raw(extra)) + seq![
        FieldView { name: cfg.err_msg_name, value: FieldValueView::Text(message) },
    ] + body
}

/// The envelope of a success has as many members as the configuration
/// counts for one.
pub proof fn lemma_success_field_count(
    cfg: SerdeView,
    message: Option<Seq<char>>,
    extra: Option<Seq<u8>>,
    payload: Seq<u8>,
)
    ensures
        success_fields(cfg, message, extra, payload).len() == success_field_count(cfg),
{
}

/// The envelope of an error has as many members as the configuration counts
/// for one.
pub proof fn lemma_error_field_count(cfg: SerdeView, extra: Seq<u8>, message: Seq<char>)
    ensures
        error_fields(cfg, extra, message).len() == error_field_count(cfg),
{
}

/// In the envelope of a success the status member comes first, where there
/// is one, and the payload last, under its configured name. Where every
/// member is asked for, the placeholder of the error text stands behind the
/// status member, and that of the extra message, where there is one, behind
/// it.
pub proof fn lemma_success_order(
    cfg: SerdeView,
    message: Option<Seq<char>>,
    extra: Option<Seq<u8>>,
    payload: Seq<u8>,
)
    ensures
        ({
            let fields = success_fields(cfg, message, extra, payload);
            let start: int = if cfg.signed_status is Some {
                1
            } else {
                0
            };
            &&& fields.last() == FieldView {
                name: cfg.body_name,
                value: FieldValueView::Raw(payload),
            }
            &&& cfg.signed_status matches Some(sign) ==> fields[0] == FieldView {
                name: sign.field,
                value: sign.ok,
            }
            &&& cfg.full_field ==> fields[start] == FieldView {
                name: cfg.err_msg_name,
                value: text_or_null(message),
            }
            &&& cfg.full_field ==> (cfg.extra_code matches Some(name) ==> fields[start + 1]
                == FieldView { name, value: raw_or_null(extra) })
        }),
{
}

/// In the envelope of an error the status member comes first, where there
/// is one, then the extra message, where there is one, then the error text
/// under its configured name. Where every member is asked for, `null`
/// stands last, under the name of the payload.
pub proof fn lemma_error_order(cfg: SerdeView, extra: Seq<u8>, message: Seq<char>)
    ensures
        ({
            let fields = error_fields(cfg, extra, message);
            let start: int = if cfg.signed_status is Some {
                1
            } else {
                0
            };
            let text_at: int = if cfg.extra_code is Some {
                start + 1
            } else {
                start
            };
            &&& cfg.signed_status matches Some(sign) ==> fields[0] == FieldView {
                name: sign.field,
                value: sign.err,
            }
            &&& cfg.extra_code matches Some(name) ==> fields[start] == FieldView {
                name,
                value: FieldValueView::Raw(extra),
            }
            &&& fields[text_at] == FieldView {
                name: cfg.err_msg_name,
                value: FieldValueView::Text(message),
            }
            &&& cfg.full_field ==> fields.last() == FieldView {
                name: cfg.body_name,
                value: FieldValueView::Null,
            }
        }),
{
}

/// A value that stands for the same as `value`.
pub fn duplicate_value(value: &FieldValue) -> (r: FieldValue)
    ensures
        r@ == value@,
{
    match value {
        FieldValue::Null => FieldValue::Null,
        FieldValue::Bool(b) => FieldValue::Bool(*b),
        FieldValue::Number(n) => FieldValue::Number(*n),
        FieldValue::Text(s) => FieldValue::Text(s.clone()),
        FieldValue::Raw(b) => FieldValue::Raw(b.clone()),
    }
}

/// A text as a value, and `null` in place of a missing one.
pub fn text_value(text: Option<String>) -> (r: FieldValue)
    ensures
        r@ == text_or_null(
            match text {
                Some(t) => Some(t@),
                None => None,
            },
        ),
{
    match text {
        Some(t) => FieldValue::Text(t),
        None => FieldValue::Null,
    }
}

/// Starts an envelope: the status member, where `cfg` asks for one.
pub fn begin_fields(cfg: &InnerSerdeConfig, success: bool) -> (r: Vec<Field>)
    ensures
        field_views(r@) == sign_fields(cfg@, success),
{
    let mut fields: Vec<Field> = Vec::new();
    if let Some(sign) = &cfg.signed_status {
        let value = if success {
            duplicate_value(&sign.ok)
        } else {
            duplicate_value(&sign.err)
        };
        fields.push(Field { name: sign.field.clone(), value });
    }
    assert(field_views(fields@) == sign_fields(cfg@, success));
    fields
}

/// Appends `field` to an envelope.
pub fn push_field(fields: &mut Vec<Field>, field: Field)
    ensures
        field_views(final(fields)@) == field_views(old(fields)@).push(field@),
{
    fields.push(field);
    assert(field_views(fields@) == field_views(old(fields)@).push(field@));
}

/// Appends the member of the extra message, where `cfg` asks for one.
pub fn push_extra(fields: &mut Vec<Field>, cfg: &InnerSerdeConfig, value: FieldValue)
    ensures
        field_views(final(fields)@) == field_views(old(fields)@) + extra_fields(cfg@, value@),
{
    if let Some(name) = &cfg.extra_code {
        push_field(fields, Field { name: name.clone(), value });
        assert(field_views(fields@) == field_views(old(fields)@) + extra_fields(cfg@, value@));
    } else {
        assert(field_views(fields@) == field_views(old(fields)@) + extra_fields(cfg@, value@));
    }
}

/// JSON text as a value, and `null` in place of a missing one.
pub fn raw_value(json: Option<Vec<u8>>) -> (r: FieldValue)
    ensures
        r@ == raw_or_null(
            match json {
                Some(j) => Some(j@),
                None => None,
            },
        ),
{
    match json {
        Some(j) => FieldValue::Raw(j),
        None => FieldValue::Null,
    }
}

/// The members of a success whose payload has the JSON text `payload`, for
/// an error type with the placeholder `message` of the error text and the
/// placeholder of the extra message that has the JSON text `extra`.
pub fn success_envelope(
    cfg: &InnerSerdeConfig,
    message: Option<String>,
    extra: Option<Vec<u8>>,
    payload: Vec<u8>,
) -> (r: Vec<Field>)
    ensures
        field_views(r@) == success_fields(
            cfg@,
            match message {
                Some(t) => Some(t@),
                None => None,
            },
            match extra {
                Some(j) => Some(j@),
                None => None,
            },
            payload@,
        ),
{
    let mut fields = begin_fields(cfg, true);
    if cfg.full_field {
        push_field(
            &mut fields,
            Field { name: cfg.err_msg_name.clone(), value: text_value(message) },
        );
        push_extra(&mut fields, cfg, raw_value(extra));
    }
    push_field(&mut fields, Field { name: cfg.body_name.clone(), value: FieldValue::Raw(payload) });
    fields
}

/// The members of an error whose extra message has the JSON text `extra`,
/// with the message `message` for the client.
pub fn error_envelope(cfg: &InnerSerdeConfig, extra: Vec<u8>, message: String) -> (r: Vec<Field>)
    ensures
        field_views(r@) == error_fields(cfg@, extra@, message@),
{
    let mut fields = begin_fields(cfg, false);
    push_extra(&mut fields, cfg, FieldValue::Raw(extra));
    push_field(
        &mut fields,
        Field { name: cfg.err_msg_name.clone(), value: FieldValue::Text(message) },
    );
    if cfg.full_field {
        push_field(&mut fields, Field { name: cfg.body_name.clone(), value: FieldValue::Null });
    }
    fields
}

/// Something that serializes as an envelope.
pub trait RespSerialize {
    /// Whether this can be written: whether what it carries renders.
    spec fn serializes(&self) -> bool;

    /// The members of the envelope under `cfg`, in their order.
    spec fn envelope(&self, cfg: SerdeView) -> Seq<FieldView>;

    /// The members of the envelope under `cfg`, in their order; fails where
    /// what this carries does not render.
    fn resp_serialize(&self, cfg: &InnerSerdeConfig) -> (r: Result<Vec<Field>, SerializeError>)
        ensures
            r is Ok <==> self.serializes(),
            r matches Ok(fields) ==> field_views(fields@) == self.envelope(cfg@),
    ;
}

/// An outcome on its way to the JSON writer.
pub struct SerializeWrap<'s, S>(pub &'s S);

impl<'s, Rs: RespSerialize> SerializeWrap<'s, Rs> {
    /// The JSON text of the envelope under `cfg`; fails where what the
    /// outcome carries does not render.
    pub fn serialize(&self, cfg: &InnerSerdeConfig) -> (r: Result<Vec<u8>, SerializeError>)
        ensures
            r is Ok <==> self.0.serializes(),
            r matches Ok(bytes) ==> bytes@ == object_text(self.0.envelope(cfg@)),
    {
        match self.0.resp_serialize(cfg) {
            Ok(fields) => Ok(write_object(&fields)),
            Err(e) => Err(e),
        }
    }
}

impl<T, E> RespSerialize for RespResult<T, E> where T: RespBody, E: RespError {
    open spec fn serializes(&self) -> bool {
        match self {
            RespResult::Success(data) => data.renders(),
            RespResult::Error(_) => true,
        }
    }

    open spec fn envelope(&self, cfg: SerdeView) -> Seq<FieldView> {
        match self {
            RespResult::Success(data) => success_fields(
                cfg,
                E::error_defaults().resp_message,
                E::error_defaults().extra_json,
                data.json_view(),
            ),
            RespResult::Error(err) => error_fields(
                cfg,
                err.error_view().extra_json,
                err.error_view().resp_message,
            ),
        }
    }

    fn resp_serialize(&self, cfg: &InnerSerdeConfig) -> (r: Result<Vec<Field>, SerializeError>)
        ensures
            r matches Ok(fields) ==> fields@.len() == (if self is Success {
                success_field_count(cfg@)
            } else {
                error_field_count(cfg@)
            }),
    {
        let sizes = cfg.get_field_size();
        match self {
            RespResult::Success(data) => {
                let payload = match data.load_serde() {
                    Ok(bytes) => bytes,
                    Err(e) => {
                        return Err(e);
                    },
                };
                let fields = success_envelope(
                    cfg,
                    E::resp_message_default(),
                    match E::extra_message_default() {
                        Some(extra) => Some(extra.to_json()),
                        None => None,
                    },
                    payload,
                );
                proof {
                    lemma_success_field_count(
                        cfg@,
                        E::error_defaults().resp_message,
                        E::error_defaults().extra_json,
                        data.json_view(),
                    );
                }
                assert(fields@.len() == sizes.0);
                Ok(fields)
            },
            RespResult::Error(err) => {
                let fields = error_envelope(cfg, err.extra_message().to_json(), err.resp_message());
                proof {
                    lemma_error_field_count(
                        cfg@,
                        err.error_view().extra_json,
                        err.error_view().resp_message,
                    );
                }
                assert(fields@.len() == sizes.1);
                Ok(fields)
            },
        }
    }
}

} // verus!
