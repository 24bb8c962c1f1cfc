//! An error described by values: its text, and what its variant declares.
//!
//! This is the error contract without generated code: what a derived
//! implementation answers by a match on the variant, this type answers from
//! the declaration that it carries.

use super::{ErrorDefaults, ErrorView, RespError};
use crate::json::json_string;
use crate::status::StatusCode;
use vstd::prelude::*;

verus! {

/// What the variant of an error declares.
#[derive(Debug)]
pub struct Declaration {
    /// the message for the client
    pub resp_msg: Option<String>,
    /// the status
    pub http_code: Option<StatusCode>,
    /// the extra message
    pub extra_msg: Option<String>,
}

/// An error with the description `log` for the developer, of a variant that
/// declares `declared`.
#[derive(Debug)]
pub struct DeclaredError {
    pub log: String,
    pub declared: Declaration,
}

impl DeclaredError {
    /// An error that declares nothing.
    pub fn new(log: String) -> (r: DeclaredError)
        ensures
            r.log == log,
            r.declared.resp_msg is None,
            r.declared.http_code is None,
            r.declared.extra_msg is None,
    {
        DeclaredError {
            log,
            declared: Declaration { resp_msg: None, http_code: None, extra_msg: None },
        }
    }

    /// This error with `message` for the client.
    pub fn err_msg(self, message: String) -> (r: DeclaredError)
        ensures
            r.log == self.log,
            r.declared.resp_msg == Some(message),
            r.declared.http_code == self.declared.http_code,
            r.declared.extra_msg == self.declared.extra_msg,
    {
        let DeclaredError { log, declared } = self;
        DeclaredError {
            log,
            declared: Declaration {
                resp_msg: Some(message),
                http_code: declared.http_code,
                extra_msg: declared.extra_msg,
            },
        }
    }

    /// This error with the status `code`.
    pub fn err_code(self, code: StatusCode) -> (r: DeclaredError)
        ensures
            r.log == self.log,
            r.declared.resp_msg == self.declared.resp_msg,
            r.declared.http_code == Some(code),
            r.declared.extra_msg == self.declared.extra_msg,
    {
        let DeclaredError { log, declared } = self;
        DeclaredError {
            log,
            declared: Declaration {
                resp_msg: declared.resp_msg,
                http_code: Some(code),
                extra_msg: declared.extra_msg,
            },
        }
    }

    /// This error with the extra message `extra`.
    pub fn extra_msg(self, extra: String) -> (r: DeclaredError)
        ensures
            r.log == self.log,
            r.declared.resp_msg == self.declared.resp_msg,
            r.declared.http_code == self.declared.http_code,
            r.declared.extra_msg == Some(extra),
    {
        let DeclaredError { log, declared } = self;
        DeclaredError {
            log,
            declared: Declaration {
                resp_msg: declared.resp_msg,
                http_code: declared.http_code,
                extra_msg: Some(extra),
            },
        }
    }

    /// The message for the client is the description for the developer
    /// where the variant declares none, and the declared message where it
    /// declares one.
    pub proof fn lemma_message_falls_back(self)
        ensures
            self.declared.resp_msg is None ==> self.error_view().resp_message
                == self.error_view().log_message,
            self.declared.resp_msg matches Some(message) ==> self.error_view().resp_message
                == message@,
    {
    }

    /// The status is 500 where the variant declares none, and the declared
    /// status where it declares one.
    pub proof fn lemma_status_falls_back(self)
        ensures
            self.declared.http_code is None ==> self.error_view().http_code == StatusCode::of(500),
            self.declared.http_code matches Some(code) ==> self.error_view().http_code == code,
    {
    }
}

impl RespError for DeclaredError {
    type ExtraMessage = String;

    open spec fn error_view(&self) -> ErrorView {
        ErrorView {
            log_message: self.log@,
            http_code: match self.declared.http_code {
                Some(code) => code,
                None => StatusCode::of(500),
            },
            resp_message: match self.declared.resp_msg {
                Some(message) => message@,
                None => self.log@,
            },
            extra_json: json_string(
                match self.declared.extra_msg {
                    Some(extra) => extra@,
                    None => Seq::empty(),
                },
            ),
            extra_text: match self.declared.extra_msg {
                Some(extra) => extra@,
                None => Seq::empty(),
            },
        }
    }

    open spec fn error_defaults() -> ErrorDefaults {
        ErrorDefaults { resp_message: None, extra_json: None }
    }

    fn log_message(&self) -> (r: String) {
        self.log.clone()
    }

    fn http_code(&self) -> (r: StatusCode) {
        match self.declared.http_code {
            Some(code) => code,
            None => StatusCode::internal_server_error(),
        }
    }

    fn resp_message(&self) -> (r: String) {
        match &self.declared.resp_msg {
            Some(message) => message.clone(),
            None => self.log_message(),
        }
    }

    fn extra_message(&self) -> (r: String) {
        match &self.declared.extra_msg {
            Some(extra) => extra.clone(),
            None => String::new(),
        }
    }

    fn resp_message_default() -> (r: Option<String>) {
        None
    }

    fn extra_message_default() -> (r: Option<String>) {
        None
    }
}

} // verus!
