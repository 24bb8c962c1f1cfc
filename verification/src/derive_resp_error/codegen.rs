//! The text of a derived implementation.

use crate::json::push_char;
use vstd::prelude::*;
use vstd::string::{StrSliceExecFns, StringExecFns};

verus! {

/// What is declared on one variant, ready for generation.
#[derive(Clone, Debug)]
pub struct VariantCodeGen {
    /// the name of the variant
    pub ident: String,
    /// the message for the client
    pub resp_msg: Option<String>,
    /// the expression that gives the status
    pub http_code: Option<String>,
    /// the expression that gives the extra message
    pub extra_msg: Option<String>,
}

/// What a [`VariantCodeGen`] stands for.
pub struct VariantView {
    pub ident: Seq<char>,
    pub resp_msg: Option<Seq<char>>,
    pub http_code: Option<Seq<char>>,
    pub extra_msg: Option<Seq<char>>,
}

/// The text that an optional string stands for.
pub open spec fn text_view(text: Option<String>) -> Option<Seq<char>> {
    match text {
        Some(t) => Some(t@),
        None => None,
    }
}

impl View for VariantCodeGen {
    type V = VariantView;

    open spec fn view(&self) -> VariantView {
        VariantView {
            ident: self.ident@,
            resp_msg: text_view(self.resp_msg),
            http_code: text_view(self.http_code),
            extra_msg: text_view(self.extra_msg),
        }
    }
}

/// An enum and what is declared on it, ready for generation.
#[derive(Clone, Debug)]
pub struct RespErrorCodeGen {
    /// the name of the enum
    pub ident: String,
    /// its variants, in the order of the declaration
    pub variants: Vec<VariantCodeGen>,
    /// the type of the extra message, where the enum declares one
    pub extra_message_type: Option<String>,
}

/// What a [`RespErrorCodeGen`] stands for.
pub struct CodeGenView {
    pub ident: Seq<char>,
    pub variants: Seq<VariantView>,
    pub extra_message_type: Option<Seq<char>>,
}

/// What a sequence of variants stands for.
pub open spec fn variant_views(variants: Seq<VariantCodeGen>) -> Seq<VariantView> {
    variants.map_values(|v: VariantCodeGen| v@)
}

impl View for RespErrorCodeGen {
    type V = CodeGenView;

    open spec fn view(&self) -> CodeGenView {
        CodeGenView {
            ident: self.ident@,
            variants: variant_views(self.variants@),
            extra_message_type: text_view(self.extra_message_type),
        }
    }
}

/// Which of the three declarations a match arm answers.
#[derive(Clone, Copy, Debug, PartialEq, Eq, Structural)]
pub enum Declared {
    /// the message for the client
    RespMsg,
    /// the status
    HttpCode,
    /// the extra message
    ExtraMsg,
}

/// How one character stands in a string literal: a quote, a backslash, a
/// line feed, a carriage return, a tab and the null character are escaped,
/// every other character stands for itself.
pub open spec fn escaped_char(c: char) -> Seq<char> {
    if c == '"' {
        seq!['\\', '"']
    } else if c == '\\' {
        seq!['\\', '\\']
    } else if c == '\n' {
        seq!['\\', 'n']
    } else if c == '\r' {
        seq!['\\', 'r']
    } else if c == '\t' {
        seq!['\\', 't']
    } else if c == '\0' {
        seq!['\\', '0']
    } else {
        seq![c]
    }
}

/// The characters of `text`, each as it stands in a string literal.
pub open spec fn escaped_text(text: Seq<char>) -> Seq<char>
    decreases text.len(),
{
    if text.len() == 0 {
        Seq::empty()
    } else {
        escaped_text(text.drop_last()) + escaped_char(text.last())
    }
}

/// The string literal that denotes `text`.
pub open spec fn string_literal(text: Seq<char>) -> Seq<char> {
    seq!['"'] + escaped_text(text) + seq!['"']
}

/// What an arm answers with: for the message, a string made from the
/// literal of the declared text; for the other two, the declared expression
/// as it was written.
pub open spec fn arm_value(kind: Declared, declared: Seq<char>) -> Seq<char> {
    match kind {
        Declared::RespMsg => "::std::string::String::from("@ + string_literal(declared) + ")"@,
        Declared::HttpCode => declared,
        Declared::ExtraMsg => declared,
    }
}

/// What `variant` declares for `kind`.
pub open spec fn declared(kind: Declared, variant: VariantView) -> Option<Seq<char>> {
    match kind {
        Declared::RespMsg => variant.resp_msg,
        Declared::HttpCode => variant.http_code,
        Declared::ExtraMsg => variant.extra_msg,
    }
}

/// The match arm of `variant` for `kind`: nothing where it declares
/// nothing, else its pattern, whatever its fields, and its answer.
pub open spec fn arm_text(kind: Declared, variant: VariantView) -> Seq<char> {
    match declared(kind, variant) {
        Some(text) => "Self::"@ + variant.ident + "{..} => "@ + arm_value(kind, text) + ","@,
        None => Seq::empty(),
    }
}

/// The match arms of `variants` for `kind`, in the order of the variants.
pub open spec fn arms_text(kind: Declared, variants: Seq<VariantView>) -> Seq<char>
    decreases variants.len(),
{
    if variants.len() == 0 {
        Seq::empty()
    } else {
        arms_text(kind, variants.drop_last()) + arm_text(kind, variants.last())
    }
}

/// A variant that declares no message has no arm in `resp_message`, so the
/// last arm answers for it, with the description for the developer. A
/// variant that declares one has an arm of its own.
pub proof fn lemma_fallback_arm(variant: VariantView)
    ensures
        variant.resp_msg is None <==> arm_text(Declared::RespMsg, variant).len() == 0,
{
    reveal_strlit("Self::");
}

/// A variant that declares an extra message has its arm in `extra_message`,
/// whether the enum declares the type of the extra message or not.
pub proof fn lemma_extra_arm(variant: VariantView)
    ensures
        variant.extra_msg matches Some(expr) ==> arm_text(Declared::ExtraMsg, variant)
            == "Self::"@ + variant.ident + "{..} => "@ + expr + ","@,
        variant.extra_msg is None <==> arm_text(Declared::ExtraMsg, variant).len() == 0,
{
    reveal_strlit("Self::");
}

/// The two functions that stand for the ghost items of the contract.
pub open spec fn ghost_items_text() -> Seq<char> {
    "fn error_view(&self) -> ::resp_result::resp_error::ErrorView { ::std::unreachable!() } "@
        + "fn error_defaults() -> ::resp_result::resp_error::ErrorDefaults { ::std::unreachable!() } "@
}

/// The function that gives the description for the developer: the text that
/// the error displays as.
pub open spec fn log_message_text() -> Seq<char> {
    "fn log_message(&self) -> ::std::string::String { ::std::string::ToString::to_string(self) } "@
}

/// The function that gives the status: the declared expression of the
/// variant, and 500 for a variant that declares none.
pub open spec fn http_code_text(variants: Seq<VariantView>) -> Seq<char> {
    "fn http_code(&self) -> ::resp_result::StatusCode { match self { "@ + arms_text(
        Declared::HttpCode,
        variants,
    ) + "_ => ::resp_result::StatusCode::internal_server_error() } } "@
}

/// The function that gives the message for the client: the declared text of
/// the variant, and the description for the developer for a variant that
/// declares none.
pub open spec fn resp_message_text(variants: Seq<VariantView>) -> Seq<char> {
    "fn resp_message(&self) -> ::std::string::String { match self { "@ + arms_text(
        Declared::RespMsg,
        variants,
    ) + "_ => <Self as ::resp_result::RespError>::log_message(self) } } "@
}

/// The type of the extra message: the one that the enum declares, and text
/// where it declares none.
pub open spec fn extra_type_text(gen: CodeGenView) -> Seq<char> {
    match gen.extra_message_type {
        Some(ty) => ty,
        None => "::std::string::String"@,
    }
}

/// The type of the extra message and the function that gives it: the
/// declared expression of the variant, and the default of that type for a
/// variant that declares none.
pub open spec fn extra_message_text(gen: CodeGenView) -> Seq<char> {
    "type ExtraMessage = "@ + extra_type_text(gen)
        + "; fn extra_message(&self) -> Self::ExtraMessage { match self { "@ + arms_text(
        Declared::ExtraMsg,
        gen.variants,
    ) + "_ => ::std::default::Default::default() } } "@
}

/// The two functions that give the placeholders: nothing.
pub open spec fn defaults_text() -> Seq<char> {
    "fn resp_message_default() -> ::std::option::Option<::std::string::String> { ::std::option::Option::None } "@
        + "fn extra_message_default() -> ::std::option::Option<Self::ExtraMessage> { ::std::option::Option::None } "@
}

/// The text of the implementation of the error contract for `gen`.
pub open spec fn impl_text(gen: CodeGenView) -> Seq<char> {
    "impl ::resp_result::RespError for "@ + gen.ident + " { "@ + ghost_items_text()
        + log_message_text() + http_code_text(gen.variants) + resp_message_text(gen.variants)
        + extra_message_text(gen) + defaults_text() + "}"@
}

/// Appends `c` to `out` as it stands in a string literal.
pub fn push_escaped_char(out: &mut String, c: char)
    ensures
        final(out)@ == old(out)@ + escaped_char(c),
{
    if c == '"' {
        push_char(out, '\\');
        push_char(out, '"');
    } else if c == '\\' {
        push_char(out, '\\');
        push_char(out, '\\');
    } else if c == '\n' {
        push_char(out, '\\');
        push_char(out, 'n');
    } else if c == '\r' {
        push_char(out, '\\');
        push_char(out, 'r');
    } else if c == '\t' {
        push_char(out, '\\');
        push_char(out, 't');
    } else if c == '\0' {
        push_char(out, '\\');
        push_char(out, '0');
    } else {
        push_char(out, c);
    }
    assert(out@ == old(out)@ + escaped_char(c));
}

/// Appends the string literal that denotes `text` to `out`.
pub fn push_string_literal(out: &mut String, text: &str)
    ensures
        final(out)@ == old(out)@ + string_literal(text@),
{
    push_char(out, '"');
    let ghost start = out@;
    let len = text.unicode_len();
    let mut i: usize = 0;
    while i < len
        invariant
            i <= len,
            len == text@.len(),
            out@ == start + escaped_text(text@.take(i as int)),
        decreases len - i,
    {
        let ghost next = text@.take(i as int + 1);
        assert(next.drop_last() == text@.take(i as int));
        assert(next.last() == text@[i as int]);
        push_escaped_char(out, text.get_char(i));
        i += 1;
    }
    assert(text@.take(len as int) == text@);
    push_char(out, '"');
    assert(out@ == old(out)@ + string_literal(text@));
}

/// What `variant` declares for `kind`.
pub fn declared_of(kind: Declared, variant: &VariantCodeGen) -> (r: &Option<String>)
    ensures
        text_view(*r) == declared(kind, variant@),
{
    match kind {
        Declared::RespMsg => &variant.resp_msg,
        Declared::HttpCode => &variant.http_code,
        Declared::ExtraMsg => &variant.extra_msg,
    }
}

/// Appends the match arm of `variant` for `kind` to `out`.
pub fn push_arm(out: &mut String, kind: Declared, variant: &VariantCodeGen)
    ensures
        final(out)@ == old(out)@ + arm_text(kind, variant@),
{
    match declared_of(kind, variant) {
        Some(text) => {
            out.append("Self::");
            out.append(variant.ident.as_str());
            out.append("{..} => ");
            match kind {
                Declared::RespMsg => {
                    out.append("::std::string::String::from(");
                    push_string_literal(out, text.as_str());
                    out.append(")");
                },
                Declared::HttpCode => {
                    out.append(text.as_str());
                },
                Declared::ExtraMsg => {
                    out.append(text.as_str());
                },
            }
            out.append(",");
            assert(out@ == old(out)@ + arm_text(kind, variant@));
        },
        None => {
            assert(out@ == old(out)@ + arm_text(kind, variant@));
        },
    }
}

/// Appends the match arms of `variants` for `kind` to `out`, in the order of
/// the variants.
pub fn push_arms(out: &mut String, kind: Declared, variants: &Vec<VariantCodeGen>)
    ensures
        final(out)@ == old(out)@ + arms_text(kind, variant_views(variants@)),
{
    let ghost views = variant_views(variants@);
    let mut i: usize = 0;
    assert(out@ == old(out)@ + arms_text(kind, views.take(0)));
    while i < variants.len()
        invariant
            i <= variants.len(),
            views == variant_views(variants@),
            out@ == old(out)@ + arms_text(kind, views.take(i as int)),
        decreases variants.len() - i,
    {
        let ghost next = views.take(i as int + 1);
        assert(next.drop_last() == views.take(i as int));
        assert(next.last() == variants@[i as int]@);
        push_arm(out, kind, &variants[i]);
        i += 1;
        assert(out@ == old(out)@ + arms_text(kind, views.take(i as int)));
    }
    assert(views.take(variants.len() as int) == views);
}

impl RespErrorCodeGen {
    /// Appends the text of the implementation of the error contract to
    /// `tokens`.
    pub fn to_tokens(&self, tokens: &mut String)
        ensures
            final(tokens)@ == old(tokens)@ + impl_text(self@),
    {
        let mut out = String::new();
        out.append("impl ::resp_result::RespError for ");
        out.append(self.ident.as_str());
        out.append(" { ");
        out.append(
            "fn error_view(&self) -> ::resp_result::resp_error::ErrorView { ::std::unreachable!() } ",
        );
        out.append(
            "fn error_defaults() -> ::resp_result::resp_error::ErrorDefaults { ::std::unreachable!() } ",
        );
        out.append(
            "fn log_message(&self) -> ::std::string::String { ::std::string::ToString::to_string(self) } ",
        );
        out.append("fn http_code(&self) -> ::resp_result::StatusCode { match self { ");
        push_arms(&mut out, Declared::HttpCode, &self.variants);
        out.append("_ => ::resp_result::StatusCode::internal_server_error() } } ");
        out.append("fn resp_message(&self) -> ::std::string::String { match self { ");
        push_arms(&mut out, Declared::RespMsg, &self.variants);
        out.append("_ => <Self as ::resp_result::RespError>::log_message(self) } } ");
        out.append("type ExtraMessage = ");
        match &self.extra_message_type {
            Some(ty) => {
                out.append(ty.as_str());
            },
            None => {
                out.append("::std::string::String");
            },
        }
        out.append("; fn extra_message(&self) -> Self::ExtraMessage { match self { ");
        push_arms(&mut out, Declared::ExtraMsg, &self.variants);
        out.append("_ => ::std::default::Default::default() } } ");
        out.append(
            "fn resp_message_default() -> ::std::option::Option<::std::string::String> { ::std::option::Option::None } ",
        );
        out.append(
            "fn extra_message_default() -> ::std::option::Option<Self::ExtraMessage> { ::std::option::Option::None } ",
        );
        out.append("}");
        assert(out@ == impl_text(self@));
        tokens.append(out.as_str());
    }
}

} // verus!
