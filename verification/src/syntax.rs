//! The syntax boundary: what `syn` and `proc-macro2` read out of source text,
//! held as plain values.
//!
//! Every function in this module that carries `external_body` is trusted: its
//! contract is believed, not proved. Each one names the parser's answer with an
//! uninterpreted function of the source text, so that the generators built on
//! top of it can say exactly what they return for whatever the parser answered.
//! The answers are functions of the text alone because the crate builds
//! `proc-macro2` without its `proc-macro` feature: lexing and printing are then
//! always done by `proc-macro2` itself, never by a compiler that happens to
//! host the process.

use quote::ToTokens;
use syn::{
    parse_str, Fields, FnArg, Ident, ImplItem, ItemEnum, ItemImpl, ItemStruct, Pat, Signature, Type,
};
use vstd::prelude::*;

verus! {

/// Why a piece of source text was turned down by the parser.
#[derive(Clone, Debug, PartialEq, Eq)]
pub struct SyntaxError {
    pub message: String,
}

/// One field of a struct declaration as written: its name, if it has one, and
/// the tokens of its type.
#[derive(Clone, Debug, PartialEq, Eq)]
pub struct FieldSyntax {
    pub name: Option<String>,
    pub declared_type: String,
}

pub struct FieldSyntaxView {
    pub name: Option<Seq<char>>,
    pub declared_type: Seq<char>,
}

impl DeepView for FieldSyntax {
    type V = FieldSyntaxView;

    open spec fn deep_view(&self) -> FieldSyntaxView {
        FieldSyntaxView {
            name: match self.name {
                Some(n) => Some(n@),
                None => None,
            },
            declared_type: self.declared_type@,
        }
    }
}

/// A struct declaration as written: its name and its fields in order.
#[derive(Clone, Debug, PartialEq, Eq)]
pub struct StructSyntax {
    pub name: String,
    pub fields: Vec<FieldSyntax>,
}

pub struct StructSyntaxView {
    pub name: Seq<char>,
    pub fields: Seq<FieldSyntaxView>,
}

impl DeepView for StructSyntax {
    type V = StructSyntaxView;

    open spec fn deep_view(&self) -> StructSyntaxView {
        StructSyntaxView { name: self.name@, fields: self.fields.deep_view() }
    }
}

/// How the payload of an enum variant is written.
#[derive(Clone, Copy, Debug, PartialEq, Eq, Structural)]
pub enum VariantShape {
    /// `Variant { a: A }`
    Named,
    /// `Variant(A)`
    Unnamed,
    /// `Variant`
    Unit,
}

/// One variant of an enum declaration as written.
#[derive(Clone, Debug, PartialEq, Eq)]
pub struct VariantSyntax {
    pub name: String,
    pub shape: VariantShape,
}

pub struct VariantSyntaxView {
    pub name: Seq<char>,
    pub shape: VariantShape,
}

impl DeepView for VariantSyntax {
    type V = VariantSyntaxView;

    open spec fn deep_view(&self) -> VariantSyntaxView {
        VariantSyntaxView { name: self.name@, shape: self.shape }
    }
}

/// An enum declaration as written: its name and its variants in order.
#[derive(Clone, Debug, PartialEq, Eq)]
pub struct EnumSyntax {
    pub name: String,
    pub variants: Vec<VariantSyntax>,
}

pub struct EnumSyntaxView {
    pub name: Seq<char>,
    pub variants: Seq<VariantSyntaxView>,
}

impl DeepView for EnumSyntax {
    type V = EnumSyntaxView;

    open spec fn deep_view(&self) -> EnumSyntaxView {
        EnumSyntaxView { name: self.name@, variants: self.variants.deep_view() }
    }
}

/// One member of a method block as written: a routine, kept as the tokens of
/// its signature, or anything else (a constant, a type, a macro call).
#[derive(Clone, Debug, PartialEq, Eq)]
pub enum MemberSyntax {
    Routine { signature: String },
    Other,
}

pub enum MemberSyntaxView {
    Routine { signature: Seq<char> },
    Other,
}

impl DeepView for MemberSyntax {
    type V = MemberSyntaxView;

    open spec fn deep_view(&self) -> MemberSyntaxView {
        match self {
            MemberSyntax::Routine { signature } => MemberSyntaxView::Routine {
                signature: signature@,
            },
            MemberSyntax::Other => MemberSyntaxView::Other,
        }
    }
}

/// A method block as written: the tokens of the type it extends and its
/// members in order.
#[derive(Clone, Debug, PartialEq, Eq)]
pub struct ImplSyntax {
    pub self_type: String,
    pub members: Vec<MemberSyntax>,
}

pub struct ImplSyntaxView {
    pub self_type: Seq<char>,
    pub members: Seq<MemberSyntaxView>,
}

impl DeepView for ImplSyntax {
    type V = ImplSyntaxView;

    open spec fn deep_view(&self) -> ImplSyntaxView {
        ImplSyntaxView { self_type: self.self_type@, members: self.members.deep_view() }
    }
}

/// The `self` input of a routine as written.
///
/// The parser gives every receiver a type: the type written after `self:`,
/// or, for the short spellings `self`, `&self` and `&mut self`, the type they
/// stand for (`Self`, `&Self`, `&mut Self`).
#[derive(Clone, Copy, Debug, PartialEq, Eq)]
pub struct ReceiverSyntax {
    /// Whether `mut` stands before `self`, as in `mut self` and `&mut self`.
    pub mutable: bool,
    /// Whether the receiver's type is a reference and, if it is, whether the
    /// reference carries `mut`.
    pub reference: Option<bool>,
}

/// One input of a routine signature as written.
#[derive(Clone, Debug, PartialEq, Eq)]
pub enum ArgumentSyntax {
    /// The `self` input, in any of its spellings.
    Receiver(ReceiverSyntax),
    /// An input bound to a single identifier, with the tokens of its type.
    Binding { name: String, declared_type: String },
    /// An input bound by any other pattern.
    Pattern,
}

pub enum ArgumentSyntaxView {
    Receiver(ReceiverSyntax),
    Binding { name: Seq<char>, declared_type: Seq<char> },
    Pattern,
}

impl DeepView for ArgumentSyntax {
    type V = ArgumentSyntaxView;

    open spec fn deep_view(&self) -> ArgumentSyntaxView {
        match self {
            ArgumentSyntax::Receiver(receiver) => ArgumentSyntaxView::Receiver(*receiver),
            ArgumentSyntax::Binding { name, declared_type } => ArgumentSyntaxView::Binding {
                name: name@,
                declared_type: declared_type@,
            },
            ArgumentSyntax::Pattern => ArgumentSyntaxView::Pattern,
        }
    }
}

/// A routine signature as written: its name and all its inputs in order.
#[derive(Clone, Debug, PartialEq, Eq)]
pub struct SignatureSyntax {
    pub name: String,
    pub inputs: Vec<ArgumentSyntax>,
}

pub struct SignatureSyntaxView {
    pub name: Seq<char>,
    pub inputs: Seq<ArgumentSyntaxView>,
}

impl DeepView for SignatureSyntax {
    type V = SignatureSyntaxView;

    open spec fn deep_view(&self) -> SignatureSyntaxView {
        SignatureSyntaxView { name: self.name@, inputs: self.inputs.deep_view() }
    }
}

/// One token tree of an invocation's input.
#[derive(Clone, Debug, PartialEq, Eq)]
pub enum Token {
    /// A word: an identifier or a keyword.
    Word(String),
    /// A single punctuation character.
    Punct(char),
    /// A literal, as written.
    Literal(String),
    /// A delimited group, as written.
    Group(String),
}

pub enum TokenView {
    Word(Seq<char>),
    Punct(char),
    Literal(Seq<char>),
    Group(Seq<char>),
}

impl DeepView for Token {
    type V = TokenView;

    open spec fn deep_view(&self) -> TokenView {
        match self {
            Token::Word(text) => TokenView::Word(text@),
            Token::Punct(c) => TokenView::Punct(*c),
            Token::Literal(text) => TokenView::Literal(text@),
            Token::Group(text) => TokenView::Group(text@),
        }
    }
}

/// What a parser call came back with, by view: the value read, or the
/// message of the refusal.
pub open spec fn outcome<T: DeepView>(r: Result<T, SyntaxError>) -> Result<T::V, Seq<char>> {
    match r {
        Ok(value) => Ok(value.deep_view()),
        Err(e) => Err(e.message@),
    }
}

/// What `syn` makes of `source` when asked for a struct declaration.
pub uninterp spec fn struct_syntax(source: Seq<char>) -> Result<StructSyntaxView, Seq<char>>;

/// What `syn` makes of `source` when asked for an enum declaration.
pub uninterp spec fn enum_syntax(source: Seq<char>) -> Result<EnumSyntaxView, Seq<char>>;

/// What `syn` makes of `source` when asked for a method block.
pub uninterp spec fn impl_syntax(source: Seq<char>) -> Result<ImplSyntaxView, Seq<char>>;

/// What `syn` makes of `source` when asked for a routine signature.
pub uninterp spec fn signature_syntax(source: Seq<char>) -> Result<
    SignatureSyntaxView,
    Seq<char>,
>;

/// The token trees that `proc-macro2` lexes `source` into.
pub uninterp spec fn token_trees(source: Seq<char>) -> Result<Seq<TokenView>, Seq<char>>;

/// Whether `syn` takes `text` for an identifier: one word that is neither a
/// reserved keyword nor `_`.
pub uninterp spec fn is_identifier(text: Seq<char>) -> bool;

/// Trusted. Calls `syn::parse_str::<syn::ItemStruct>` and copies out the
/// declaration's name and, for each field in order, its name (absent in a
/// tuple struct) and the printed tokens of its type. A refusal carries the
/// parser's message. The contract claims only that the answer is the one
/// named [`struct_syntax`] for this text.
#[verifier::external_body]
pub(crate) fn parse_struct(source: &str) -> (r: Result<StructSyntax, SyntaxError>)
    ensures
        outcome(r) == struct_syntax(source@),
{
    match parse_str::<ItemStruct>(source) {
        Ok(ast) => Ok(StructSyntax {
            name: ast.ident.to_string(),
            fields: ast.fields.iter().map(|f| FieldSyntax {
                name: f.ident.as_ref().map(|i| i.to_string()),
                declared_type: f.ty.to_token_stream().to_string(),
            }).collect(),
        }),
        Err(e) => Err(SyntaxError { message: e.to_string() }),
    }
}

/// Trusted. Calls `syn::parse_str::<syn::ItemEnum>` and copies out the
/// declaration's name and, for each variant in order, its name and which of
/// the three payload shapes it is written with. A refusal carries the
/// parser's message. The contract claims only that the answer is the one
/// named [`enum_syntax`] for this text.
#[verifier::external_body]
pub(crate) fn parse_enum(source: &str) -> (r: Result<EnumSyntax, SyntaxError>)
    ensures
        outcome(r) == enum_syntax(source@),
{
    match parse_str::<ItemEnum>(source) {
        Ok(ast) => Ok(EnumSyntax {
            name: ast.ident.to_string(),
            variants: ast.variants.iter().map(|v| VariantSyntax {
                name: v.ident.to_string(),
                shape: match v.fields {
                    Fields::Named(_) => VariantShape::Named,
                    Fields::Unnamed(_) => VariantShape::Unnamed,
                    Fields::Unit => VariantShape::Unit,
                },
            }).collect(),
        }),
        Err(e) => Err(SyntaxError { message: e.to_string() }),
    }
}

/// Trusted. Calls `syn::parse_str::<syn::ItemImpl>` and copies out the printed
/// tokens of the block's self type and, for each member in order, either the
/// printed tokens of its signature (an associated function) or the fact that
/// it is something else. A refusal carries the parser's message. The contract
/// claims only that the answer is the one named [`impl_syntax`] for this text.
#[verifier::external_body]
pub(crate) fn parse_impl(source: &str) -> (r: Result<ImplSyntax, SyntaxError>)
    ensures
        outcome(r) == impl_syntax(source@),
{
    match parse_str::<ItemImpl>(source) {
        Ok(ast) => Ok(ImplSyntax {
            self_type: ast.self_ty.to_token_stream().to_string(),
            members: ast.items.iter().map(|m| match m {
                ImplItem::Fn(f) => MemberSyntax::Routine {
                    signature: f.sig.to_token_stream().to_string(),
                },
                _ => MemberSyntax::Other,
            }).collect(),
        }),
        Err(e) => Err(SyntaxError { message: e.to_string() }),
    }
}

/// Trusted. Calls `syn::parse_str::<syn::Signature>` and copies out the
/// routine's name and each input in order: the `self` input, an input bound
/// to one identifier with the printed tokens of its type, or an input bound
/// by another pattern. Of the `self` input it copies two facts: whether `mut`
/// stands before `self`, and whether its type is a `Type::Reference` and, if
/// so, whether that reference carries `mut`. A refusal carries the parser's
/// message. The contract claims only that the answer is the one named
/// [`signature_syntax`] for this text.
#[verifier::external_body]
pub(crate) fn parse_signature(source: &str) -> (r: Result<SignatureSyntax, SyntaxError>)
    ensures
        outcome(r) == signature_syntax(source@),
{
    let sig = parse_str::<Signature>(source).map_err(|e| SyntaxError { message: e.to_string() })?;
    let inputs = sig.inputs.iter().map(|a| match a {
        FnArg::Receiver(r) => ArgumentSyntax::Receiver(ReceiverSyntax {
            mutable: r.mutability.is_some(),
            reference: match &*r.ty {
                Type::Reference(t) => Some(t.mutability.is_some()),
                _ => None,
            },
        }),
        FnArg::Typed(t) => match (&*t.pat, t.ty.to_token_stream().to_string()) {
            (Pat::Ident(p), declared_type) => ArgumentSyntax::Binding { name: p.ident.to_string(), declared_type },
            _ => ArgumentSyntax::Pattern,
        },
    });
    Ok(SignatureSyntax { name: sig.ident.to_string(), inputs: inputs.collect() })
}

/// Trusted. Calls `proc_macro2::TokenStream::from_str` and copies out each
/// top-level token tree in order with the text it prints as. A refusal
/// carries the lexer's message. The contract claims only that the answer is
/// the one named [`token_trees`] for this text.
#[verifier::external_body]
pub(crate) fn lex(source: &str) -> (r: Result<Vec<Token>, SyntaxError>)
    ensures
        outcome(r) == token_trees(source@),
{
    match source.parse::<proc_macro2::TokenStream>() {
        Ok(stream) => Ok(stream.into_iter().map(|t| match t {
            proc_macro2::TokenTree::Ident(i) => Token::Word(i.to_string()),
            proc_macro2::TokenTree::Punct(p) => Token::Punct(p.as_char()),
            proc_macro2::TokenTree::Literal(l) => Token::Literal(l.to_string()),
            proc_macro2::TokenTree::Group(g) => Token::Group(g.to_string()),
        }).collect()),
        Err(e) => Err(SyntaxError { message: e.to_string() }),
    }
}

/// Trusted. Calls `syn::parse_str::<syn::Ident>` and reports whether it
/// succeeded. The contract claims only that the answer is the one named
/// [`is_identifier`] for this text.
#[verifier::external_body]
pub(crate) fn accepts_identifier(text: &str) -> (r: bool)
    ensures
        r == is_identifier(text@),
{
    parse_str::<Ident>(text).is_ok()
}

} // verus!
