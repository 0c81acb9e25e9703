//! Reading the item that derives `Table`: from its source text, through
//! `syn`, to the plain description that the derive works on.
//!
//! The source is read in small steps, each with one parser of `syn` or
//! `proc_macro2`: the item (name, visibility, attribute and field texts),
//! each field, each attribute, the items and the tokens of an attribute's
//! argument list, each such item, and a string literal. Every step hands
//! back plain values, gathered into a `StructItem`; what the derive makes of
//! them is `derive_item`, stated exactly.
//!
//! What those parsers give back is not a function of the text alone: in a
//! procedural macro the compiler lexes the text (it normalises identifiers,
//! prints tokens with its own spacing and writes its own lexer errors), in
//! any other process `proc_macro2` does. So the steps state nothing of their
//! outcome, and nothing names it.
use proc_macro2::TokenTree;
use quote::ToTokens;
use syn::{Data, DataStruct, Fields};
use vstd::prelude::*;

use crate::attr::{idents_ok, is_named, spec_attr, FieldInput, MacroArg, StructData, StructInput};
use crate::derive::{expand, generated_match};
use crate::error::{MacroError, MacroErrorView};
use crate::text::str_eq;

verus! {

/// An item as `syn` reads it, its parts as text.
pub struct RawStruct {
    pub name: String,
    pub vis: String,
    /// Each outer attribute's text.
    pub attrs: Vec<String>,
    pub data: RawData,
}

/// The fields of a raw item.
pub enum RawData {
    /// Each named field's text, attributes included.
    Named(Vec<String>),
    /// A tuple or unit struct.
    NotNamed,
    /// An enum or a union.
    NotStruct,
}

/// A named field as `syn` reads it.
pub struct RawField {
    pub name: Option<String>,
    pub vis: String,
    pub ty: String,
    /// Each attribute's text.
    pub attrs: Vec<String>,
}

/// An attribute as `syn` reads it: its path when that is one identifier,
/// and the tokens inside its delimiters when it has the `path(...)` form.
pub struct RawAttr {
    pub path: Option<String>,
    pub tokens: Option<String>,
}

/// One item of an attribute's argument list as `syn` reads it.
#[derive(Debug)]
pub enum RawMeta {
    Path { path: Option<String> },
    List { path: Option<String>, first: Option<String> },
    NameValue { path: Option<String>, value: String },
}

/// One token of an attribute's argument list, as `proc_macro2` lexes it.
#[derive(Debug)]
pub enum RawToken {
    /// An identifier or a keyword, as written.
    Ident(String),
    /// A punctuation character, and whether it is joined to the next one.
    Punct(char, bool),
    /// A literal.
    Literal,
    /// A delimited group: whether its delimiters are parentheses, and its
    /// first token when that is an identifier.
    Group(bool, Option<String>),
}

/// Reads an item with `syn::parse_str::<syn::DeriveInput>`: its name,
/// visibility, attribute texts and field texts, or syn's error message.
/// Nothing is stated of the outcome.
#[verifier::external_body]
fn read_struct_item(source: &str) -> (res: Result<RawStruct, String>) {
    let input = match syn::parse_str::<syn::DeriveInput>(source) {
        Ok(input) => input,
        Err(e) => return Err(e.to_string()),
    };
    let data = match &input.data {
        Data::Struct(DataStruct { fields: Fields::Named(named), .. }) => RawData::Named(
            named.named.iter().map(|f| f.to_token_stream().to_string()).collect(),
        ),
        Data::Struct(_) => RawData::NotNamed,
        _ => RawData::NotStruct,
    };
    let attrs = input.attrs.iter().map(|a| a.to_token_stream().to_string()).collect();
    Ok(RawStruct { name: input.ident.to_string(), vis: input.vis.to_token_stream().to_string(), attrs, data })
}

/// Reads a named field with `syn::Field::parse_named`, or `None` when syn
/// refuses the text. Nothing is stated of the outcome.
#[verifier::external_body]
fn read_field(text: &str) -> (res: Option<RawField>) {
    let f = syn::parse::Parser::parse_str(syn::Field::parse_named, text).ok()?;
    Some(RawField {
        name: f.ident.as_ref().map(|i| i.to_string()),
        vis: f.vis.to_token_stream().to_string(),
        ty: f.ty.to_token_stream().to_string(),
        attrs: f.attrs.iter().map(|a| a.to_token_stream().to_string()).collect(),
    })
}

/// Reads outer attributes with `syn::Attribute::parse_outer`, or `None` when
/// syn refuses the text. Nothing is stated of the outcome.
#[verifier::external_body]
fn read_attributes(text: &str) -> (res: Option<Vec<RawAttr>>) {
    let attrs = syn::parse::Parser::parse_str(syn::Attribute::parse_outer, text).ok()?;
    Some(attrs.iter().map(|a| RawAttr {
        path: a.path().get_ident().map(|i| i.to_string()),
        tokens: a.meta.require_list().ok().map(|l| l.tokens.to_string()),
    }).collect())
}

/// Splits an argument list into its items with
/// `Punctuated::<syn::Meta, syn::token::Comma>::parse_terminated`, giving
/// each item's text, or `None` when syn refuses the list. Nothing is stated
/// of the outcome.
#[verifier::external_body]
fn parse_meta_list(tokens: &str) -> (res: Option<Vec<String>>) {
    let parser = syn::punctuated::Punctuated::<syn::Meta, syn::token::Comma>::parse_terminated;
    let list = syn::parse::Parser::parse_str(parser, tokens).ok()?;
    Some(list.iter().map(|m| m.to_token_stream().to_string()).collect())
}

/// Reads one item of an argument list with `syn::parse_str::<syn::Meta>`,
/// or `None` when syn refuses it. Nothing is stated of the outcome.
#[verifier::external_body]
fn read_meta(text: &str) -> (res: Option<RawMeta>) {
    let ident = |p: &syn::Path| p.get_ident().map(|i| i.to_string());
    Some(match syn::parse_str::<syn::Meta>(text).ok()? {
        syn::Meta::Path(p) => RawMeta::Path { path: ident(&p) },
        syn::Meta::List(l) => RawMeta::List { path: ident(&l.path), first: match l.tokens.into_iter().next() {
            Some(TokenTree::Ident(i)) => Some(i.to_string()),
            _ => None,
        } },
        syn::Meta::NameValue(nv) => RawMeta::NameValue { path: ident(&nv.path), value: nv.value.to_token_stream().to_string() },
    })
}

/// The value of a string literal with `syn::parse_str::<syn::LitStr>`, or
/// `None` when the text is not one string literal. Nothing is stated of the
/// outcome.
#[verifier::external_body]
fn string_literal_value(text: &str) -> (res: Option<String>) {
    match syn::parse_str::<syn::LitStr>(text) {
        Ok(lit) => Some(lit.value()),
        Err(_) => None,
    }
}

/// Lexes an argument list's text with `proc_macro2::TokenStream::from_str`
/// into its top-level tokens, or `None` when the text does not lex. Nothing
/// is stated of the outcome.
#[verifier::external_body]
fn lex_tokens(text: &str) -> (res: Option<Vec<RawToken>>) {
    let stream = text.parse::<proc_macro2::TokenStream>().ok()?;
    Some(stream.into_iter().map(|t| match t {
        TokenTree::Ident(i) => RawToken::Ident(i.to_string()),
        TokenTree::Punct(p) => RawToken::Punct(p.as_char(), matches!(p.spacing(), proc_macro2::Spacing::Joint)),
        TokenTree::Literal(_) => RawToken::Literal,
        TokenTree::Group(g) => RawToken::Group(matches!(g.delimiter(), proc_macro2::Delimiter::Parenthesis), match g.stream().into_iter().next() {
            Some(TokenTree::Ident(i)) => Some(i.to_string()),
            _ => None,
        }),
    }).collect())
}

/// One item of an attribute's argument list as read: syn's reading of it,
/// `None` when syn refuses it, and for a `name = value` item its value read
/// as a string literal.
#[derive(Debug)]
pub struct MetaItem {
    pub meta: Option<RawMeta>,
    pub str_value: Option<String>,
}

/// An attribute as read: its path when that is one identifier, and for the
/// `path(...)` form the reading of each item of its argument list (`None`
/// when syn refuses the list) and the list's tokens (`None` when they do not
/// lex); both are `None` for the other forms.
#[derive(Debug)]
pub struct AttrItem {
    pub path: Option<String>,
    pub metas: Option<Vec<MetaItem>>,
    pub tokens: Option<Vec<RawToken>>,
}

/// An attribute text and its attributes as read, `None` when syn refuses
/// the text.
#[derive(Debug)]
pub struct AttrText {
    pub text: String,
    pub attrs: Option<Vec<AttrItem>>,
}

/// A named field as read.
#[derive(Debug)]
pub struct FieldParts {
    pub name: Option<String>,
    pub vis: String,
    pub ty: String,
    pub attrs: Vec<AttrText>,
}

/// A field's text and the field as read, `None` when syn refuses the text.
#[derive(Debug)]
pub struct FieldItem {
    pub text: String,
    pub parts: Option<FieldParts>,
}

/// The fields of a read item.
#[derive(Debug)]
pub enum ItemData {
    Named(Vec<FieldItem>),
    NotNamed,
    NotStruct,
}

/// An item as syn read it: every reading that the derive works on.
#[derive(Debug)]
pub struct StructItem {
    pub name: String,
    pub vis: String,
    pub attrs: Vec<AttrText>,
    pub data: ItemData,
}

/// Reads each item of an argument list.
fn read_metas(tokens: &str) -> (res: Option<Vec<MetaItem>>) {
    let texts = match parse_meta_list(tokens) {
        Some(t) => t,
        None => return None,
    };
    let mut out: Vec<MetaItem> = Vec::new();
    let mut i: usize = 0;
    while i < texts.len()
        decreases texts.len() - i,
    {
        let meta = read_meta(texts[i].as_str());
        let str_value = match &meta {
            Some(RawMeta::NameValue { value, .. }) => string_literal_value(value.as_str()),
            _ => None,
        };
        out.push(MetaItem { meta, str_value });
        i = i + 1;
    }
    Some(out)
}

/// Reads the attributes of each text.
fn read_attr_texts(texts: &Vec<String>) -> (res: Vec<AttrText>) {
    let mut out: Vec<AttrText> = Vec::new();
    let mut i: usize = 0;
    while i < texts.len()
        decreases texts.len() - i,
    {
        let attrs = match read_attributes(texts[i].as_str()) {
            None => None,
            Some(raws) => {
                let mut items: Vec<AttrItem> = Vec::new();
                let mut j: usize = 0;
                while j < raws.len()
                    decreases raws.len() - j,
                {
                    let (metas, tokens) = match &raws[j].tokens {
                        Some(t) => (read_metas(t.as_str()), lex_tokens(t.as_str())),
                        None => (None, None),
                    };
                    items.push(AttrItem { path: raws[j].path.clone(), metas, tokens });
                    j = j + 1;
                }
                Some(items)
            },
        };
        out.push(AttrText { text: texts[i].clone(), attrs });
        i = i + 1;
    }
    out
}

/// Reads an item's source with syn, or gives syn's refusal of the item.
fn read_item(source: &str) -> (res: Result<StructItem, String>) {
    let raw = match read_struct_item(source) {
        Ok(r) => r,
        Err(msg) => return Err(msg),
    };
    let attrs = read_attr_texts(&raw.attrs);
    let data = match &raw.data {
        RawData::Named(texts) => {
            let mut fields: Vec<FieldItem> = Vec::new();
            let mut i: usize = 0;
            while i < texts.len()
                decreases texts.len() - i,
            {
                let parts = match read_field(texts[i].as_str()) {
                    None => None,
                    Some(f) => Some(
                        FieldParts { name: f.name, vis: f.vis, ty: f.ty, attrs: read_attr_texts(&f.attrs) },
                    ),
                };
                fields.push(FieldItem { text: texts[i].clone(), parts });
                i = i + 1;
            }
            ItemData::Named(fields)
        },
        RawData::NotNamed => ItemData::NotNamed,
        RawData::NotStruct => ItemData::NotStruct,
    };
    Ok(StructItem { name: raw.name, vis: raw.vis, attrs, data })
}

/// The attributes of the given texts, in order, or the first text that syn
/// refused.
pub open spec fn spec_attr_texts(ts: Seq<AttrText>) -> Result<Seq<AttrItem>, Seq<char>>
    decreases ts.len(),
{
    if ts.len() == 0 {
        Ok(Seq::empty())
    } else {
        match spec_attr_texts(ts.drop_last()) {
            Err(t) => Err(t),
            Ok(prev) => match ts.last().attrs {
                None => Err(ts.last().text@),
                Some(v) => Ok(prev + v@),
            },
        }
    }
}

/// A field's name, visibility, type and attributes, or the first of its
/// texts that syn refused.
pub open spec fn spec_field_read(f: FieldItem) -> Result<
    (Option<String>, String, String, Seq<AttrItem>),
    Seq<char>,
> {
    match f.parts {
        None => Err(f.text@),
        Some(p) => match spec_attr_texts(p.attrs@) {
            Err(t) => Err(t),
            Ok(a) => Ok((p.name, p.vis, p.ty, a)),
        },
    }
}

/// The fields read, in order, or the first text that syn refused.
pub open spec fn spec_fields_read(fs: Seq<FieldItem>) -> Result<
    Seq<(Option<String>, String, String, Seq<AttrItem>)>,
    Seq<char>,
>
    decreases fs.len(),
{
    if fs.len() == 0 {
        Ok(Seq::empty())
    } else {
        match spec_fields_read(fs.drop_last()) {
            Err(t) => Err(t),
            Ok(prev) => match spec_field_read(fs.last()) {
                Err(t) => Err(t),
                Ok(f) => Ok(prev.push(f)),
            },
        }
    }
}

/// The item's attributes and, for named fields, its fields; or the first
/// text that syn refused, the item's attributes first.
pub open spec fn spec_item_read(item: StructItem) -> Result<
    (Seq<AttrItem>, Option<Seq<(Option<String>, String, String, Seq<AttrItem>)>>),
    Seq<char>,
> {
    match spec_attr_texts(item.attrs@) {
        Err(t) => Err(t),
        Ok(a) => match item.data {
            ItemData::Named(fs) => match spec_fields_read(fs@) {
                Err(t) => Err(t),
                Ok(v) => Ok((a, Some(v))),
            },
            _ => Ok((a, None)),
        },
    }
}

/// The argument that an item of an argument list becomes, from syn's
/// reading of it and, for a `name = value` item, the value read as a string
/// literal.
pub open spec fn meta_arg(raw: RawMeta, str_value: Option<String>) -> MacroArg {
    match raw {
        RawMeta::Path { path } => MacroArg::Path { path },
        RawMeta::List { path, first } => MacroArg::List { path, first },
        RawMeta::NameValue { path, value } => MacroArg::NameValue { path, text: value, str_value },
    }
}

/// The arguments of a list's items, or `None` when syn refused one.
pub open spec fn spec_meta_args(ms: Seq<MetaItem>) -> Option<Seq<MacroArg>>
    decreases ms.len(),
{
    if ms.len() == 0 {
        Some(Seq::empty())
    } else {
        match (spec_meta_args(ms.drop_last()), ms.last().meta) {
            (Some(prev), Some(m)) => Some(prev.push(meta_arg(m, ms.last().str_value))),
            _ => None,
        }
    }
}

/// The arguments of the `#[tiny_orm(...)]` attributes among `attrs`, in
/// order; one whose argument list syn refuses, or that has no such list, is
/// refused.
pub open spec fn spec_orm_args(attrs: Seq<AttrItem>) -> Result<Seq<MacroArg>, MacroErrorView>
    decreases attrs.len(),
{
    if attrs.len() == 0 {
        Ok(Seq::empty())
    } else {
        match spec_orm_args(attrs.drop_last()) {
            Err(e) => Err(e),
            Ok(prev) => if is_named(attrs.last().path, "tiny_orm"@) {
                match attrs.last().metas {
                    None => Err(MacroErrorView::InvalidAttribute),
                    Some(ms) => match spec_meta_args(ms@) {
                        None => Err(MacroErrorView::InvalidAttribute),
                        Some(v) => Ok(prev + v),
                    },
                }
            } else {
                Ok(prev)
            },
        }
    }
}

/// A `:` joined to a `:` at `i`: the path separator `::`.
pub open spec fn colon2_at(ts: Seq<RawToken>, i: int) -> bool {
    &&& 0 <= i
    &&& i + 1 < ts.len()
    &&& ts[i] matches RawToken::Punct(c, joint) && c == ':' && joint
    &&& ts[i + 1] matches RawToken::Punct(d, _) && d == ':'
}

/// The text of an identifier token.
pub open spec fn ident_text(t: RawToken) -> Option<Seq<char>> {
    match t {
        RawToken::Ident(s) => Some(s@),
        _ => None,
    }
}

/// For a group in parentheses, the text of its first token when that is an
/// identifier; `None` for any other token.
pub open spec fn paren_first(t: RawToken) -> Option<Option<Seq<char>>> {
    match t {
        RawToken::Group(paren, first) => if paren {
            Some(
                match first {
                    Some(f) => Some(f@),
                    None => None,
                },
            )
        } else {
            None
        },
        _ => None,
    }
}

/// A comma.
pub open spec fn is_comma(t: RawToken) -> bool {
    t matches RawToken::Punct(c, _) && c == ','
}

/// How many tokens from `i` continue a path: `::` and an identifier, as
/// often as they come; `None` when a `::` is not followed by an
/// identifier.
pub open spec fn path_tail_len(ts: Seq<RawToken>, i: int) -> Option<nat>
    decreases ts.len() - i,
{
    if colon2_at(ts, i) {
        if i + 2 < ts.len() && ident_text(ts[i + 2]) is Some {
            match path_tail_len(ts, i + 3) {
                Some(n) => Some(n + 3),
                None => None,
            }
        } else {
            None
        }
    } else {
        Some(0)
    }
}

/// The path that starts at `p`, taken as syn takes the name of an item of
/// a nested attribute (an optional leading `::`, then identifiers or
/// keywords joined by `::`): where it ends, and the identifier when it is a
/// single one without a leading `::`; `None` when no path starts at `p`.
pub open spec fn meta_path_at(ts: Seq<RawToken>, p: int) -> Option<(int, Option<Seq<char>>)> {
    let start = if colon2_at(ts, p) {
        p + 2
    } else {
        p
    };
    if 0 <= start < ts.len() && ident_text(ts[start]) is Some {
        match path_tail_len(ts, start + 1) {
            None => None,
            Some(n) => Some(
                (
                    start + 1 + n,
                    if start == p && n == 0 {
                        ident_text(ts[start])
                    } else {
                        None
                    },
                ),
            ),
        }
    } else {
        None
    }
}

/// The key markers of an argument list's tokens from position `p`, read as
/// syn reads nested attribute items: each item's name is read; a
/// `primary_key` item marks the key, and a parenthesised group right after
/// it is read too, marking that the database fills the key when its first
/// token is `auto`; then a comma and a next item must follow. The reading
/// stops wherever that fails, keeping the marks read so far: so after a
/// `name = value` item, after a list under another name, and before an
/// item that has no name.
pub open spec fn marks_from(ts: Seq<RawToken>, p: int) -> (bool, bool)
    decreases ts.len() - p,
{
    match meta_path_at(ts, p) {
        None => (false, false),
        Some((e, name)) => {
            let pk = name == Some("primary_key"@);
            let group = pk && 0 <= e < ts.len() && paren_first(ts[e]) is Some;
            let auto = group && paren_first(ts[e]) == Some(Some("auto"@));
            let q = if group {
                e + 1
            } else {
                e
            };
            let rest = if q + 1 < ts.len() && is_comma(ts[q]) {
                marks_from(ts, q + 1)
            } else {
                (false, false)
            };
            (pk || rest.0, auto || rest.1)
        },
    }
}

/// The key markers of an attribute: none unless it is `#[tiny_orm(...)]`
/// with tokens that lex.
pub open spec fn attr_marks(a: AttrItem) -> (bool, bool) {
    if is_named(a.path, "tiny_orm"@) {
        match a.tokens {
            Some(ts) => marks_from(ts@, 0),
            None => (false, false),
        }
    } else {
        (false, false)
    }
}

/// Whether some attribute marks the key (`auto` false) or a key that the
/// database fills (`auto` true); the marks of several attributes add up.
pub open spec fn attrs_mark(attrs: Seq<AttrItem>, auto: bool) -> bool
    decreases attrs.len(),
{
    attrs.len() > 0 && (attrs_mark(attrs.drop_last(), auto) || (if auto {
        attr_marks(attrs.last()).1
    } else {
        attr_marks(attrs.last()).0
    }))
}

/// A field of the derive's input: its name, visibility and type; it is the
/// key when its attributes mark it so, filled by the database when they
/// mark `primary_key(auto)` (see `marks_from`). `None` for a field without
/// a name.
pub open spec fn spec_field_input(f: (Option<String>, String, String, Seq<AttrItem>)) -> Option<
    FieldInput,
> {
    match f.0 {
        None => None,
        Some(n) => Some(
            FieldInput {
                name: n,
                vis: f.1,
                ty: f.2,
                primary_key: attrs_mark(f.3, false),
                auto_increment: attrs_mark(f.3, true),
            },
        ),
    }
}

/// The fields of the derive's input, or `None` when one has no name.
pub open spec fn spec_field_inputs(fs: Seq<(Option<String>, String, String, Seq<AttrItem>)>) -> Option<
    Seq<FieldInput>,
>
    decreases fs.len(),
{
    if fs.len() == 0 {
        Some(Seq::empty())
    } else {
        match (spec_field_inputs(fs.drop_last()), spec_field_input(fs.last())) {
            (Some(prev), Some(f)) => Some(prev.push(f)),
            _ => None,
        }
    }
}

/// The derive's input for an item as syn read it, or why it is refused:
/// first a text that syn refused, then the `#[tiny_orm(...)]` arguments,
/// then a field without a name.
pub open spec fn struct_input_match(item: StructItem, res: Result<StructInput, MacroError>) -> bool {
    match spec_item_read(item) {
        Err(t) => res matches Err(x) && x@ == MacroErrorView::Unparsable(t),
        Ok((attrs, fields)) => match spec_orm_args(attrs) {
            Err(e) => res matches Err(x) && x@ == e,
            Ok(args) => match fields {
                None => res matches Ok(si) && si.name == item.name && si.vis == item.vis && si.args@
                    == args && si.data == (if item.data is NotStruct {
                    StructData::NotStruct
                } else {
                    StructData::NotNamed
                }),
                Some(fs) => match spec_field_inputs(fs) {
                    None => res matches Err(x) && x@ == MacroErrorView::MissingFieldName,
                    Some(v) => res matches Ok(si) && si.name == item.name && si.vis == item.vis
                        && si.args@ == args && (si.data matches StructData::Named(x) && x@ == v),
                },
            },
        },
    }
}

proof fn lemma_attr_texts_error(ts: Seq<AttrText>, i: int)
    requires
        0 <= i <= ts.len(),
        spec_attr_texts(ts.take(i)) is Err,
    ensures
        spec_attr_texts(ts) == spec_attr_texts(ts.take(i)),
    decreases ts.len() - i,
{
    if i < ts.len() {
        assert(ts.take(i + 1).drop_last() =~= ts.take(i));
        lemma_attr_texts_error(ts, i + 1);
    } else {
        assert(ts.take(i) =~= ts);
    }
}

proof fn lemma_fields_read_error(fs: Seq<FieldItem>, i: int)
    requires
        0 <= i <= fs.len(),
        spec_fields_read(fs.take(i)) is Err,
    ensures
        spec_fields_read(fs) == spec_fields_read(fs.take(i)),
    decreases fs.len() - i,
{
    if i < fs.len() {
        assert(fs.take(i + 1).drop_last() =~= fs.take(i));
        lemma_fields_read_error(fs, i + 1);
    } else {
        assert(fs.take(i) =~= fs);
    }
}

proof fn lemma_meta_args_none(ms: Seq<MetaItem>, i: int)
    requires
        0 <= i <= ms.len(),
        spec_meta_args(ms.take(i)) is None,
    ensures
        spec_meta_args(ms) is None,
    decreases ms.len() - i,
{
    if i < ms.len() {
        assert(ms.take(i + 1).drop_last() =~= ms.take(i));
        lemma_meta_args_none(ms, i + 1);
    } else {
        assert(ms.take(i) =~= ms);
    }
}

proof fn lemma_orm_args_error(attrs: Seq<AttrItem>, i: int)
    requires
        0 <= i <= attrs.len(),
        spec_orm_args(attrs.take(i)) is Err,
    ensures
        spec_orm_args(attrs) == spec_orm_args(attrs.take(i)),
    decreases attrs.len() - i,
{
    if i < attrs.len() {
        assert(attrs.take(i + 1).drop_last() =~= attrs.take(i));
        lemma_orm_args_error(attrs, i + 1);
    } else {
        assert(attrs.take(i) =~= attrs);
    }
}

proof fn lemma_field_inputs_none(fs: Seq<(Option<String>, String, String, Seq<AttrItem>)>, i: int)
    requires
        0 <= i <= fs.len(),
        spec_field_inputs(fs.take(i)) is None,
    ensures
        spec_field_inputs(fs) is None,
    decreases fs.len() - i,
{
    if i < fs.len() {
        assert(fs.take(i + 1).drop_last() =~= fs.take(i));
        lemma_field_inputs_none(fs, i + 1);
    } else {
        assert(fs.take(i) =~= fs);
    }
}

/// The attributes of the given texts, or the first text that syn refused.
fn attrs_of_texts(given: Vec<AttrText>) -> (res: Result<Vec<AttrItem>, String>)
    ensures
        match spec_attr_texts(given@) {
            Err(t) => res matches Err(x) && x@ == t,
            Ok(v) => res matches Ok(x) && x@ == v,
        },
{
    let ghost all = given@;
    let _n = given.len();
    let mut ts = given;
    let mut out: Vec<AttrItem> = Vec::new();
    let mut i: usize = 0;
    while ts.len() > 0
        invariant
            all == given@,
            all.len() <= usize::MAX,
            i + ts@.len() == all.len(),
            ts@ == all.skip(i as int),
            spec_attr_texts(all.take(i as int)) == Ok::<Seq<AttrItem>, Seq<char>>(out@),
        decreases ts.len(),
    {
        proof {
            assert(all[i as int] == ts@[0]);
        }
        let a = ts.remove(0);
        proof {
            let t = all.take(i as int + 1);
            assert(t.drop_last() =~= all.take(i as int));
            assert(t.last() == a);
            assert(ts@ =~= all.skip(i as int + 1));
        }
        match a.attrs {
            None => {
                proof {
                    assert(spec_attr_texts(all.take(i as int + 1)) == Err::<Seq<AttrItem>, Seq<char>>(
                        a.text@,
                    ));
                    lemma_attr_texts_error(all, i as int + 1);
                }
                return Err(a.text);
            },
            Some(v) => {
                let mut v = v;
                out.append(&mut v);
            },
        }
        i = i + 1;
    }
    assert(all.take(all.len() as int) =~= all);
    Ok(out)
}

/// A field with its attributes read.
struct ReadField {
    name: Option<String>,
    vis: String,
    ty: String,
    attrs: Vec<AttrItem>,
}

spec fn read_field_view(r: ReadField) -> (Option<String>, String, String, Seq<AttrItem>) {
    (r.name, r.vis, r.ty, r.attrs@)
}

spec fn read_fields_view(v: Seq<ReadField>) -> Seq<(Option<String>, String, String, Seq<AttrItem>)> {
    v.map_values(|r: ReadField| read_field_view(r))
}

/// The fields read, or the first text that syn refused.
fn fields_of_items(given: Vec<FieldItem>) -> (res: Result<Vec<ReadField>, String>)
    ensures
        match spec_fields_read(given@) {
            Err(t) => res matches Err(x) && x@ == t,
            Ok(v) => res matches Ok(x) && read_fields_view(x@) == v,
        },
{
    let ghost all = given@;
    let _n = given.len();
    let mut fs = given;
    let mut out: Vec<ReadField> = Vec::new();
    let mut i: usize = 0;
    while fs.len() > 0
        invariant
            all == given@,
            all.len() <= usize::MAX,
            i + fs@.len() == all.len(),
            fs@ == all.skip(i as int),
            spec_fields_read(all.take(i as int)) matches Ok(v) && read_fields_view(out@) == v,
        decreases fs.len(),
    {
        proof {
            assert(all[i as int] == fs@[0]);
        }
        let f = fs.remove(0);
        proof {
            let t = all.take(i as int + 1);
            assert(t.drop_last() =~= all.take(i as int));
            assert(t.last() == f);
            assert(fs@ =~= all.skip(i as int + 1));
        }
        let ghost fv = f;
        match f.parts {
            None => {
                proof {
                    assert(spec_fields_read(all.take(i as int + 1)) == Err::<
                        Seq<(Option<String>, String, String, Seq<AttrItem>)>,
                        Seq<char>,
                    >(f.text@));
                    lemma_fields_read_error(all, i as int + 1);
                }
                return Err(f.text);
            },
            Some(p) => {
                let ghost pv = p;
                let FieldParts { name, vis, ty, attrs } = p;
                match attrs_of_texts(attrs) {
                    Err(t) => {
                        proof {
                            assert(spec_field_read(fv) == Err::<
                                (Option<String>, String, String, Seq<AttrItem>),
                                Seq<char>,
                            >(t@));
                            assert(spec_fields_read(all.take(i as int + 1)) == Err::<
                                Seq<(Option<String>, String, String, Seq<AttrItem>)>,
                                Seq<char>,
                            >(t@));
                            lemma_fields_read_error(all, i as int + 1);
                        }
                        return Err(t);
                    },
                    Ok(a) => {
                        let r = ReadField { name, vis, ty, attrs: a };
                        proof {
                            assert(spec_field_read(fv) == Ok::<
                                (Option<String>, String, String, Seq<AttrItem>),
                                Seq<char>,
                            >(read_field_view(r)));
                        }
                        let ghost before = out@;
                        out.push(r);
                        proof {
                            assert(read_fields_view(out@) =~= read_fields_view(before).push(
                                read_field_view(r),
                            ));
                        }
                    },
                }
            },
        }
        i = i + 1;
    }
    assert(all.take(all.len() as int) =~= all);
    Ok(out)
}

fn arg_of(raw: RawMeta, str_value: Option<String>) -> (res: MacroArg)
    ensures
        res == meta_arg(raw, str_value),
{
    match raw {
        RawMeta::Path { path } => MacroArg::Path { path },
        RawMeta::List { path, first } => MacroArg::List { path, first },
        RawMeta::NameValue { path, value } => MacroArg::NameValue { path, text: value, str_value },
    }
}

/// The arguments of a list's items, or `None` when syn refused one.
fn args_of_metas(given: Vec<MetaItem>) -> (res: Option<Vec<MacroArg>>)
    ensures
        match spec_meta_args(given@) {
            None => res is None,
            Some(v) => res matches Some(x) && x@ == v,
        },
{
    let ghost all = given@;
    let _n = given.len();
    let mut ms = given;
    let mut out: Vec<MacroArg> = Vec::new();
    let mut i: usize = 0;
    while ms.len() > 0
        invariant
            all == given@,
            all.len() <= usize::MAX,
            i + ms@.len() == all.len(),
            ms@ == all.skip(i as int),
            spec_meta_args(all.take(i as int)) == Some(out@),
        decreases ms.len(),
    {
        proof {
            assert(all[i as int] == ms@[0]);
        }
        let m = ms.remove(0);
        proof {
            let t = all.take(i as int + 1);
            assert(t.drop_last() =~= all.take(i as int));
            assert(t.last() == m);
            assert(ms@ =~= all.skip(i as int + 1));
        }
        match m.meta {
            None => {
                proof {
                    lemma_meta_args_none(all, i as int + 1);
                }
                return None;
            },
            Some(raw) => {
                out.push(arg_of(raw, m.str_value));
            },
        }
        i = i + 1;
    }
    assert(all.take(all.len() as int) =~= all);
    Some(out)
}

fn path_is(path: &Option<String>, name: &str) -> (res: bool)
    ensures
        res == is_named(*path, name@),
{
    match path {
        Some(p) => str_eq(p.as_str(), name),
        None => false,
    }
}

/// The arguments of the `#[tiny_orm(...)]` attributes, or why one is
/// refused.
fn orm_args(given: Vec<AttrItem>) -> (res: Result<Vec<MacroArg>, MacroError>)
    ensures
        match spec_orm_args(given@) {
            Err(e) => res matches Err(x) && x@ == e,
            Ok(v) => res matches Ok(x) && x@ == v,
        },
{
    let ghost all = given@;
    let _n = given.len();
    let mut attrs = given;
    let mut out: Vec<MacroArg> = Vec::new();
    let mut i: usize = 0;
    while attrs.len() > 0
        invariant
            all == given@,
            all.len() <= usize::MAX,
            i + attrs@.len() == all.len(),
            attrs@ == all.skip(i as int),
            spec_orm_args(all.take(i as int)) == Ok::<Seq<MacroArg>, MacroErrorView>(out@),
        decreases attrs.len(),
    {
        proof {
            assert(all[i as int] == attrs@[0]);
        }
        let a = attrs.remove(0);
        proof {
            let t = all.take(i as int + 1);
            assert(t.drop_last() =~= all.take(i as int));
            assert(t.last() == a);
            assert(attrs@ =~= all.skip(i as int + 1));
        }
        if path_is(&a.path, "tiny_orm") {
            let args = match a.metas {
                None => None,
                Some(ms) => args_of_metas(ms),
            };
            match args {
                None => {
                    proof {
                        lemma_orm_args_error(all, i as int + 1);
                    }
                    return Err(MacroError::InvalidAttribute);
                },
                Some(v) => {
                    let mut v = v;
                    out.append(&mut v);
                },
            }
        }
        i = i + 1;
    }
    assert(all.take(all.len() as int) =~= all);
    Ok(out)
}

fn colon2_at_exec(ts: &Vec<RawToken>, i: usize) -> (res: bool)
    ensures
        res == colon2_at(ts@, i as int),
{
    if i >= ts.len() || i + 1 >= ts.len() {
        return false;
    }
    match (&ts[i], &ts[i + 1]) {
        (RawToken::Punct(c, joint), RawToken::Punct(d, _)) => *c == ':' && *joint && *d == ':',
        _ => false,
    }
}

fn is_ident_token(t: &RawToken) -> (res: bool)
    ensures
        res == (ident_text(*t) is Some),
{
    match t {
        RawToken::Ident(_) => true,
        _ => false,
    }
}

/// Where the `::`-joined tail of a path that continues at `i` ends.
fn path_tail_end(ts: &Vec<RawToken>, i: usize) -> (res: Option<usize>)
    requires
        i <= ts@.len(),
    ensures
        match path_tail_len(ts@, i as int) {
            None => res is None,
            Some(n) => res matches Some(e) && e == i + n && e <= ts@.len(),
        },
    decreases ts@.len() - i,
{
    let n = ts.len();
    if colon2_at_exec(ts, i) {
        if n - i > 2 && is_ident_token(&ts[i + 2]) {
            path_tail_end(ts, i + 3)
        } else {
            None
        }
    } else {
        Some(i)
    }
}

fn marks_from_exec(ts: &Vec<RawToken>, p: usize) -> (res: (bool, bool))
    requires
        p <= ts@.len(),
    ensures
        res == marks_from(ts@, p as int),
    decreases ts@.len() - p,
{
    let n = ts.len();
    let start = if colon2_at_exec(ts, p) {
        p + 2
    } else {
        p
    };
    if start >= ts.len() {
        return (false, false);
    }
    let name = match &ts[start] {
        RawToken::Ident(s) => s,
        _ => return (false, false),
    };
    let e = match path_tail_end(ts, start + 1) {
        Some(e) => e,
        None => return (false, false),
    };
    let pk = start == p && e == start + 1 && str_eq(name.as_str(), "primary_key");
    let mut q = e;
    let mut auto = false;
    if pk && e < ts.len() {
        if let RawToken::Group(paren, first) = &ts[e] {
            if *paren {
                q = e + 1;
                if let Some(f) = first {
                    auto = str_eq(f.as_str(), "auto");
                }
            }
        }
    }
    let comma = q < n && n - q > 1 && match &ts[q] {
        RawToken::Punct(c, _) => *c == ',',
        _ => false,
    };
    let rest = if comma {
        marks_from_exec(ts, q + 1)
    } else {
        (false, false)
    };
    (pk || rest.0, auto || rest.1)
}

fn attrs_marking(attrs: &Vec<AttrItem>) -> (res: (bool, bool))
    ensures
        res.0 == attrs_mark(attrs@, false),
        res.1 == attrs_mark(attrs@, true),
{
    let mut key = false;
    let mut auto = false;
    let mut i: usize = 0;
    while i < attrs.len()
        invariant
            i <= attrs@.len(),
            key == attrs_mark(attrs@.take(i as int), false),
            auto == attrs_mark(attrs@.take(i as int), true),
        decreases attrs.len() - i,
    {
        let a = &attrs[i];
        let m = if path_is(&a.path, "tiny_orm") {
            match &a.tokens {
                Some(ts) => marks_from_exec(ts, 0),
                None => (false, false),
            }
        } else {
            (false, false)
        };
        proof {
            let t = attrs@.take(i as int + 1);
            assert(t.drop_last() =~= attrs@.take(i as int));
            assert(t.last() == *a);
        }
        key = key || m.0;
        auto = auto || m.1;
        i = i + 1;
    }
    assert(attrs@.take(attrs@.len() as int) =~= attrs@);
    (key, auto)
}

/// The fields of the derive's input, or `None` when one has no name.
fn field_inputs(given: Vec<ReadField>) -> (res: Option<Vec<FieldInput>>)
    ensures
        match spec_field_inputs(read_fields_view(given@)) {
            None => res is None,
            Some(v) => res matches Some(x) && x@ == v,
        },
{
    let ghost all = read_fields_view(given@);
    let ghost orig = given@;
    let _n = given.len();
    let mut fs = given;
    let mut out: Vec<FieldInput> = Vec::new();
    let mut i: usize = 0;
    while fs.len() > 0
        invariant
            orig == given@,
            orig.len() <= usize::MAX,
            all == read_fields_view(orig),
            i + fs@.len() == orig.len(),
            fs@ == orig.skip(i as int),
            spec_field_inputs(all.take(i as int)) == Some(out@),
        decreases fs.len(),
    {
        proof {
            assert(orig[i as int] == fs@[0]);
        }
        let f = fs.remove(0);
        proof {
            let t = all.take(i as int + 1);
            assert(t.drop_last() =~= all.take(i as int));
            assert(t.last() == read_field_view(f));
            assert(fs@ =~= orig.skip(i as int + 1));
        }
        let (primary_key, auto_increment) = attrs_marking(&f.attrs);
        let ReadField { name, vis, ty, attrs: _ } = f;
        match name {
            None => {
                proof {
                    lemma_field_inputs_none(all, i as int + 1);
                }
                return None;
            },
            Some(n) => {
                out.push(FieldInput { name: n, vis, ty, primary_key, auto_increment });
            },
        }
        i = i + 1;
    }
    assert(all.take(all.len() as int) =~= all);
    Some(out)
}

/// The derive's input for an item as syn read it: the arguments of its
/// `#[tiny_orm(...)]` attributes, and its fields with their key markers.
pub fn struct_input(item: StructItem) -> (res: Result<StructInput, MacroError>)
    ensures
        struct_input_match(item, res),
{
    let ghost orig = item;
    let StructItem { name, vis, attrs, data } = item;
    let attrs = match attrs_of_texts(attrs) {
        Ok(a) => a,
        Err(t) => return Err(MacroError::Unparsable(t)),
    };
    let not_struct = match &data {
        ItemData::NotStruct => true,
        _ => false,
    };
    let fields = match data {
        ItemData::Named(fs) => match fields_of_items(fs) {
            Ok(v) => Some(v),
            Err(t) => return Err(MacroError::Unparsable(t)),
        },
        _ => None,
    };
    let args = match orm_args(attrs) {
        Ok(a) => a,
        Err(e) => return Err(e),
    };
    let sd = match fields {
        None => if not_struct {
            StructData::NotStruct
        } else {
            StructData::NotNamed
        },
        Some(fs) => match field_inputs(fs) {
            Some(v) => StructData::Named(v),
            None => return Err(MacroError::MissingFieldName),
        },
    };
    Ok(StructInput { name, vis, args, data: sd })
}

/// What the derive makes of an item as syn read it: its reason to refuse,
/// or the source of the `impl` block of its derive input, with the
/// identifier parser's outcomes as `idents_ok` allows.
pub open spec fn derive_outcome(item: StructItem, res: Result<String, MacroError>) -> bool {
    exists|si: Result<StructInput, MacroError>|
        #[trigger] struct_input_match(item, si) && match si {
            Err(e) => res matches Err(x) && x@ == e@,
            Ok(input) => exists|parsed: Seq<Option<Seq<char>>>|
                idents_ok(input.args@, parsed) && #[trigger] generated_match(
                    spec_attr(input, parsed),
                    res,
                ),
        }
}

/// The derive on an item as syn read it.
pub fn derive_item(item: StructItem) -> (res: Result<String, MacroError>)
    ensures
        derive_outcome(item, res),
{
    let ghost it = item;
    let input = match struct_input(item) {
        Ok(input) => input,
        Err(e) => {
            assert(struct_input_match(it, Err(e)));
            return Err(e);
        },
    };
    let ghost si = input;
    let res = expand(&input);
    assert(struct_input_match(it, Ok(si)));
    res
}

/// The derive on an item's source text: reads the item with syn and runs
/// `derive_item` on what syn read. What syn reads of a text is not stated
/// (see the module's documentation); whatever it read, the outcome is
/// syn's refusal of the item, or `derive_item`'s exact outcome for the item
/// as read.
pub fn derive_source(source: &str) -> (res: Result<String, MacroError>)
    ensures
        res matches Err(MacroError::Unparsable(_)) || exists|item: StructItem|
            #[trigger] derive_outcome(item, res),
{
    let item = match read_item(source) {
        Ok(item) => item,
        Err(msg) => return Err(MacroError::Unparsable(msg)),
    };
    let ghost it = item;
    let res = derive_item(item);
    assert(derive_outcome(it, res));
    res
}

} // verus!
