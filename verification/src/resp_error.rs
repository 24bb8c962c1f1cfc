//! What an error must be able to say of itself before it can stand in a
//! [`RespResult`](crate::RespResult).

pub mod declared;
pub mod extra;

pub use self::declared::{Declaration, DeclaredError};
pub use self::extra::ExtraValue;
use crate::json::json_string;
use crate::resp_body::JsonText;
use crate::status::StatusCode;
use vstd::prelude::*;

verus! {

/// The text of a description.
pub type LogText = Seq<char>;

/// What one error says of itself.
pub struct ErrorView {
    /// the description for the developer
    pub log_message: Seq<char>,
    /// the status of the response
    pub http_code: StatusCode,
    /// the message for the client
    pub resp_message: Seq<char>,
    /// the extra message as it stands in the envelope: its JSON text
    pub extra_json: JsonText,
    /// the extra message as it stands in a header: its text
    pub extra_text: Seq<char>,
}

/// What an error type says where no error is at hand: the placeholders that
/// the envelope of a success carries when every member is asked for.
pub struct ErrorDefaults {
    /// in place of the message for the client
    pub resp_message: Option<Seq<char>>,
    /// in place of the extra message, as JSON text
    pub extra_json: Option<JsonText>,
}

/// An error that a handler may return.
///
/// The usual answers are: for the status, 500; for the message to the
/// client, the description for the developer; for the extra message, the
/// empty text; for both placeholders, nothing. A [`PlainError`] gets them
/// all, and a [`DeclaredError`] each one that it does not declare.
pub trait RespError {
    /// The type of the extra message: text, a number, or whatever else
    /// renders as JSON and as the text of a header.
    type ExtraMessage: ExtraValue;

    /// What this error says of itself.
    spec fn error_view(&self) -> ErrorView;

    /// What the type says where no error is at hand.
    spec fn error_defaults() -> ErrorDefaults;

    /// The description for the developer. It goes to the log and never to
    /// the client, unless `resp_message` hands it on.
    fn log_message(&self) -> (r: String)
        ensures
            r@ == self.error_view().log_message,
    ;

    /// The status of the response.
    fn http_code(&self) -> (r: StatusCode)
        ensures
            r == self.error_view().http_code,
    ;

    /// The message for the client.
    fn resp_message(&self) -> (r: String)
        ensures
            r@ == self.error_view().resp_message,
    ;

    /// The extra message, such as a code for machines.
    fn extra_message(&self) -> (r: Self::ExtraMessage)
        ensures
            r.extra_json() == self.error_view().extra_json,
            r.extra_text() == self.error_view().extra_text,
    ;

    /// What stands in place of the message for the client in the envelope
    /// of a success.
    fn resp_message_default() -> (r: Option<String>)
        ensures
            r is Some <==> Self::error_defaults().resp_message is Some,
            r matches Some(text) ==> text@ == Self::error_defaults().resp_message->0,
    ;

    /// What stands in place of the extra message in the envelope of a
    /// success.
    fn extra_message_default() -> (r: Option<Self::ExtraMessage>)
        ensures
            r is Some <==> Self::error_defaults().extra_json is Some,
            r matches Some(extra) ==> extra.extra_json() == Self::error_defaults().extra_json->0,
    ;
}

/// An error that says no more of itself than its description. It gets the
/// usual answers for everything else: the status 500, its description as
/// the message for the client, the empty text as the extra message, and no
/// placeholder.
pub trait PlainError {
    /// The description for the developer.
    spec fn log_view(&self) -> LogText;

    /// The description for the developer.
    fn log_message(&self) -> (r: String)
        ensures
            r@ == self.log_view(),
    ;
}

impl<T: PlainError> RespError for T {
    type ExtraMessage = String;

    open spec fn error_view(&self) -> ErrorView {
        ErrorView {
            log_message: self.log_view(),
            http_code: StatusCode::of(500),
            resp_message: self.log_view(),
            extra_json: json_string(Seq::empty()),
            extra_text: Seq::empty(),
        }
    }

    open spec fn error_defaults() -> ErrorDefaults {
        ErrorDefaults { resp_message: None, extra_json: None }
    }

    fn log_message(&self) -> (r: String) {
        PlainError::log_message(self)
    }

    fn http_code(&self) -> (r: StatusCode) {
        StatusCode::internal_server_error()
    }

    fn resp_message(&self) -> (r: String) {
        PlainError::log_message(self)
    }

    fn extra_message(&self) -> (r: String) {
        String::new()
    }

    fn resp_message_default() -> (r: Option<String>) {
        None
    }

    fn extra_message_default() -> (r: Option<String>) {
        None
    }
}

} // verus!
