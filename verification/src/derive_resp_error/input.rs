//! The declaration that an implementation is derived from, and the checks
//! that it has to pass.

use super::codegen::{
    text_view, variant_views, CodeGenView, RespErrorCodeGen, VariantCodeGen, VariantView,
};
use vstd::prelude::*;

verus! {

/// The status that a variant declares: what was written, and whether it
/// was read as an expression.
#[derive(Clone, Debug)]
pub enum HttpCode {
    /// an expression, as it was written
    Expr(String),
    /// a text that is no expression
    Invalid(String),
}

/// What an [`HttpCode`] stands for.
pub enum CodeView {
    Expr(Seq<char>),
    Invalid(Seq<char>),
}

impl View for HttpCode {
    type V = CodeView;

    open spec fn view(&self) -> CodeView {
        match self {
            HttpCode::Expr(text) => CodeView::Expr(text@),
            HttpCode::Invalid(text) => CodeView::Invalid(text@),
        }
    }
}

impl HttpCode {
    /// The expression, where this is one.
    pub fn to_expr(&self) -> (r: Option<String>)
        ensures
            r is Some <==> self is Expr,
            r matches Some(expr) ==> self@ == CodeView::Expr(expr@),
    {
        match self {
            HttpCode::Expr(text) => Some(text.clone()),
            HttpCode::Invalid(_) => None,
        }
    }
}

/// What is declared on one variant.
#[derive(Clone, Debug)]
pub struct VariantInfo {
    /// the name of the variant
    pub ident: String,
    /// the message for the client
    pub resp_msg: Option<String>,
    /// the status
    pub http_code: Option<HttpCode>,
    /// the expression that gives the extra message
    pub extra_msg: Option<String>,
}

/// What a [`VariantInfo`] stands for.
pub struct InfoView {
    pub ident: Seq<char>,
    pub resp_msg: Option<Seq<char>>,
    pub http_code: Option<CodeView>,
    pub extra_msg: Option<Seq<char>>,
}

impl View for VariantInfo {
    type V = InfoView;

    open spec fn view(&self) -> InfoView {
        InfoView {
            ident: self.ident@,
            resp_msg: text_view(self.resp_msg),
            http_code: match self.http_code {
                Some(code) => Some(code@),
                None => None,
            },
            extra_msg: text_view(self.extra_msg),
        }
    }
}

/// Whether `variant` declares a status that is no expression.
pub open spec fn has_bad_code(variant: InfoView) -> bool {
    variant.http_code matches Some(CodeView::Invalid(_))
}

/// The expression of the status that `variant` declares, if it declares
/// one that is an expression.
pub open spec fn code_expr(variant: InfoView) -> Option<Seq<char>> {
    match variant.http_code {
        Some(CodeView::Expr(text)) => Some(text),
        _ => None,
    }
}

/// A declared variant, ready for generation: what it declares, with the
/// expression of its status.
pub open spec fn ready(variant: InfoView) -> VariantView {
    VariantView {
        ident: variant.ident,
        resp_msg: variant.resp_msg,
        http_code: code_expr(variant),
        extra_msg: variant.extra_msg,
    }
}

/// A text that stands for the same as `text`.
pub fn copy_text(text: &Option<String>) -> (r: Option<String>)
    ensures
        text_view(r) == text_view(*text),
{
    match text {
        Some(t) => Some(t.clone()),
        None => None,
    }
}

impl VariantInfo {
    /// This variant for generation, where the status that it declares is
    /// an expression or it declares none.
    pub fn to_codegen(&self) -> (r: Option<VariantCodeGen>)
        ensures
            r is Some <==> !has_bad_code(self@),
            r matches Some(made) ==> made@ == ready(self@),
    {
        let http_code = match &self.http_code {
            Some(code) => match code.to_expr() {
                Some(expr) => Some(expr),
                None => {
                    return None;
                },
            },
            None => None,
        };
        Some(
            VariantCodeGen {
                ident: self.ident.clone(),
                resp_msg: copy_text(&self.resp_msg),
                http_code,
                extra_msg: copy_text(&self.extra_msg),
            },
        )
    }
}

/// What the derivation was applied to.
#[derive(Clone, Debug)]
pub enum DeriveData {
    /// an enum, with these variants in the order of the declaration
    Enum(Vec<VariantInfo>),
    /// a struct
    Struct,
}

/// The declaration of a type that asks for the error contract.
#[derive(Clone, Debug)]
pub struct RespErrorDeriveInput {
    /// the name of the type
    pub ident: String,
    /// its body
    pub data: DeriveData,
    /// the type of the extra message, where one is declared
    pub extra_message_type: Option<String>,
}

/// Why no implementation can be derived.
#[derive(Clone, Debug, PartialEq, Eq)]
pub enum DeriveError {
    /// the type is no enum
    OnlySupportEnum,
    /// the status that this variant declares is no expression
    BadHttpCode(String),
}

/// What a sequence of declared variants stands for.
pub open spec fn info_views(variants: Seq<VariantInfo>) -> Seq<InfoView> {
    variants.map_values(|v: VariantInfo| v@)
}

/// The place of the first of `variants` that declares a status that is no
/// expression.
pub open spec fn first_bad_code(variants: Seq<InfoView>) -> Option<int>
    decreases variants.len(),
{
    if variants.len() == 0 {
        None
    } else {
        match first_bad_code(variants.drop_last()) {
            Some(k) => Some(k),
            None => if has_bad_code(variants.last()) {
                Some(variants.len() - 1)
            } else {
                None
            },
        }
    }
}

/// What `try_into` answers for a declaration that stands for `ident`,
/// `data` and `extra_message_type`. Of a struct: that only an enum will do.
/// Of an enum with a status that is no expression: the name of the first
/// variant that declares one. Of any other enum: the same declaration,
/// ready for generation.
pub open spec fn derive_outcome(
    ident: Seq<char>,
    data: Option<Seq<InfoView>>,
    extra_message_type: Option<Seq<char>>,
) -> Result<CodeGenView, Option<Seq<char>>> {
    match data {
        None => Err(None),
        Some(variants) => match first_bad_code(variants) {
            Some(k) => Err(Some(variants[k].ident)),
            None => Ok(
                CodeGenView {
                    ident,
                    variants: variants.map_values(|v: InfoView| ready(v)),
                    extra_message_type,
                },
            ),
        },
    }
}

impl View for DeriveData {
    type V = Option<Seq<InfoView>>;

    open spec fn view(&self) -> Option<Seq<InfoView>> {
        match self {
            DeriveData::Enum(variants) => Some(info_views(variants@)),
            DeriveData::Struct => None,
        }
    }
}

impl View for DeriveError {
    type V = Option<Seq<char>>;

    open spec fn view(&self) -> Option<Seq<char>> {
        match self {
            DeriveError::OnlySupportEnum => None,
            DeriveError::BadHttpCode(variant) => Some(variant@),
        }
    }
}

/// Where no variant before the one at `i` declares a bad status and that
/// one does, it is the first that does.
pub proof fn lemma_first_bad_code(variants: Seq<InfoView>, i: int)
    requires
        0 <= i < variants.len(),
        first_bad_code(variants.take(i)) is None,
        has_bad_code(variants[i]),
    ensures
        first_bad_code(variants) == Some(i),
    decreases variants.len(),
{
    if i == variants.len() - 1 {
        assert(variants.drop_last() == variants.take(i));
    } else {
        assert(variants.drop_last().take(i) == variants.take(i));
        lemma_first_bad_code(variants.drop_last(), i);
    }
}

impl RespErrorDeriveInput {
    /// Checks the declaration and makes it ready for generation.
    pub fn try_into(self) -> (r: Result<RespErrorCodeGen, DeriveError>)
        ensures
            match derive_outcome(self.ident@, self.data@, text_view(self.extra_message_type)) {
                Ok(gen) => r matches Ok(made) && made@ == gen,
                Err(why) => r matches Err(e) && e@ == why,
            },
    {
        let RespErrorDeriveInput { ident, data, extra_message_type } = self;
        let variants = match data {
            DeriveData::Enum(variants) => variants,
            DeriveData::Struct => {
                return Err(DeriveError::OnlySupportEnum);
            },
        };
        let ghost views = info_views(variants@);
        let ghost wanted = views.map_values(|v: InfoView| ready(v));
        let mut vars: Vec<VariantCodeGen> = Vec::new();
        let mut i: usize = 0;
        while i < variants.len()
            invariant
                i <= variants.len(),
                views == info_views(variants@),
                wanted == views.map_values(|v: InfoView| ready(v)),
                self.data@ == Some(views),
                first_bad_code(views.take(i as int)) is None,
                variant_views(vars@) == wanted.take(i as int),
            decreases variants.len() - i,
        {
            let ghost next = views.take(i as int + 1);
            assert(next.drop_last() == views.take(i as int));
            assert(next.last() == variants@[i as int]@);
            let info = &variants[i];
            let made = match info.to_codegen() {
                Some(made) => made,
                None => {
                    proof {
                        assert(views[i as int] == info@);
                        lemma_first_bad_code(views, i as int);
                    }
                    return Err(DeriveError::BadHttpCode(info.ident.clone()));
                },
            };
            let ghost done = variant_views(vars@);
            vars.push(made);
            i += 1;
            assert(variant_views(vars@) == done.push(made@));
            assert(made@ == wanted[i as int - 1]);
            assert(wanted.take(i as int) == wanted.take(i as int - 1).push(wanted[i as int - 1]));
        }
        assert(views.take(variants.len() as int) == views);
        assert(wanted.take(variants.len() as int) == wanted);
        Ok(RespErrorCodeGen { ident, variants: vars, extra_message_type })
    }
}

} // verus!
