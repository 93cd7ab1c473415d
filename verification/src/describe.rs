//! Descriptions and type facts read off attributes and types: doc comments,
//! `#[function_call_description = "..."]`, the macro's own string argument,
//! `Option`/`Result` detection and the printed form of a type.
use vstd::prelude::*;
use crate::model::{
    bare, bare_error, opt_view, same_text, AttributeModel, ErrorKind, ExprModel, MacroArgs, MacroError, MetaModel, TypeModel,
};
use crate::text::{chars_of, join, join_strings, replace_all, replace_chars, string_of, trim, trim_str};

verus! {

/// Whether the attribute's path is the single identifier `name`.
pub open spec fn named(a: AttributeModel, name: Seq<char>) -> bool {
    match a.name {
        Some(n) => n@ == name,
        None => false,
    }
}

/// The string of a `#[name = "..."]` attribute, if it has that form.
pub open spec fn name_value_str(a: AttributeModel) -> Option<Seq<char>> {
    match a.meta {
        MetaModel::NameValue(ExprModel::Str(s)) => Some(s@),
        _ => None,
    }
}

/// Whether the attribute is a `#[doc = "..."]` line.
pub open spec fn is_doc_line(a: AttributeModel) -> bool {
    named(a, "doc"@) && name_value_str(a) is Some
}

/// The trimmed lines of the doc comment spread over `attrs`, in order.
pub open spec fn doc_lines(attrs: Seq<AttributeModel>) -> Seq<Seq<char>>
    decreases attrs.len(),
{
    if attrs.len() == 0 {
        Seq::empty()
    } else if is_doc_line(attrs.last()) {
        doc_lines(attrs.drop_last()).push(trim(name_value_str(attrs.last())->0))
    } else {
        doc_lines(attrs.drop_last())
    }
}

/// The doc comment of an item: its trimmed lines joined by single spaces and
/// trimmed again; `None` when the item has no doc line.
pub open spec fn doc_comment(attrs: Seq<AttributeModel>) -> Option<Seq<char>> {
    let lines = doc_lines(attrs);
    if lines.len() == 0 {
        None
    } else {
        Some(trim(join(lines, " "@)))
    }
}

/// The value of the first `#[function_call_description = "..."]` in `attrs`.
pub open spec fn param_description(attrs: Seq<AttributeModel>) -> Option<Seq<char>>
    decreases attrs.len(),
{
    if attrs.len() == 0 {
        None
    } else if named(attrs[0], "function_call_description"@) && name_value_str(attrs[0]) is Some {
        name_value_str(attrs[0])
    } else {
        param_description(attrs.drop_first())
    }
}

/// The value of the first string literal among `args`.
pub open spec fn first_str(args: Seq<ExprModel>) -> Option<Seq<char>>
    decreases args.len(),
{
    if args.len() == 0 {
        None
    } else {
        match args[0] {
            ExprModel::Str(s) => Some(s@),
            ExprModel::Other => first_str(args.drop_first()),
        }
    }
}

/// `o`'s value, or `d` when `o` is `None`.
pub open spec fn or_else(o: Option<Seq<char>>, d: Seq<char>) -> Seq<char> {
    match o {
        Some(s) => s,
        None => d,
    }
}

/// The description of a function: the macro's first string argument, else
/// the function's doc comment, else empty; an error when the macro's
/// arguments cannot be read.
pub open spec fn attr_description(args: MacroArgs, fn_attrs: Seq<AttributeModel>) -> Result<Seq<char>, MacroError> {
    match args {
        MacroArgs::Malformed(m) => Err(bare(ErrorKind::Syntax(m))),
        MacroArgs::Exprs(es) => Ok(
            match first_str(es@) {
                Some(s) => s,
                None => or_else(doc_comment(fn_attrs), Seq::empty()),
            },
        ),
    }
}

/// The character view of a result holding a string.
pub open spec fn result_view(r: Result<String, MacroError>) -> Result<Seq<char>, MacroError> {
    match r {
        Ok(s) => Ok(s@),
        Err(e) => Err(e),
    }
}

/// `None` for an empty string, else the string.
pub open spec fn nonempty(s: Seq<char>) -> Option<Seq<char>> {
    if s.len() == 0 {
        None
    } else {
        Some(s)
    }
}

/// Whether the type is a path type whose last segment is `name`.
pub open spec fn outer_is(ty: TypeModel, name: Seq<char>) -> bool {
    match ty.last_segment {
        Some(s) => s@ == name,
        None => false,
    }
}

/// The printed form of a type: its token text with the spaces that token
/// printing puts around `<`, `>`, `,` and `::` taken out.
pub open spec fn type_text(tokens: Seq<char>) -> Seq<char> {
    let a = replace_all(tokens, " < "@, "<"@);
    let b = replace_all(a, " > "@, ">"@);
    let c = replace_all(b, " >"@, ">"@);
    let d = replace_all(c, " ,"@, ","@);
    let e = replace_all(d, " ::"@, "::"@);
    replace_all(e, ":: "@, "::"@)
}

/// `None` for an empty string, else the string (an `Option<String>`
/// description).
pub fn optional_string(s: &str) -> (r: Option<String>)
    ensures
        opt_view(r) == nonempty(s@),
{
    if s.is_empty() {
        None
    } else {
        Some(s.to_owned())
    }
}

/// `None` for an empty string, else the string (a description held in a
/// static entry).
pub fn optional_static_str(s: &str) -> (r: Option<String>)
    ensures
        opt_view(r) == nonempty(s@),
{
    if s.is_empty() {
        None
    } else {
        Some(s.to_owned())
    }
}

/// Whether the attribute's path is the single identifier `name`.
pub fn is_named(a: &AttributeModel, name: &str) -> (r: bool)
    ensures
        r == named(*a, name@),
{
    match &a.name {
        Some(n) => same_text(n.as_str(), name),
        None => false,
    }
}

/// Whether the outermost type is `Option<_>` (a path ending in `Option`).
pub fn is_option_type(ty: &TypeModel) -> (r: bool)
    ensures
        r == outer_is(*ty, "Option"@),
{
    match &ty.last_segment {
        Some(s) => same_text(s.as_str(), "Option"),
        None => false,
    }
}

/// Whether the outermost type is `Result<_, _>` (a path ending in `Result`).
pub fn is_result_type(ty: &TypeModel) -> (r: bool)
    ensures
        r == outer_is(*ty, "Result"@),
{
    match &ty.last_segment {
        Some(s) => same_text(s.as_str(), "Result"),
        None => false,
    }
}

/// The type rendered close to its source form, generic arguments included
/// (for example `Vec<String>` or `Option<u8>`).
pub fn type_token_string(ty: &TypeModel) -> (r: String)
    ensures
        r@ == type_text(ty.tokens@),
{
    proof {
        reveal_strlit(" < ");
        reveal_strlit(" > ");
        reveal_strlit(" >");
        reveal_strlit(" ,");
        reveal_strlit(" ::");
        reveal_strlit(":: ");
    }
    let v = chars_of(ty.tokens.as_str());
    let v = replace_chars(&v, " < ", "<");
    let v = replace_chars(&v, " > ", ">");
    let v = replace_chars(&v, " >", ">");
    let v = replace_chars(&v, " ,", ",");
    let v = replace_chars(&v, " ::", "::");
    let v = replace_chars(&v, ":: ", "::");
    string_of(&v)
}

/// The value of the first `#[function_call_description = "..."]` among a
/// parameter's attributes.
pub fn extract_parameter_description(attrs: &Vec<AttributeModel>) -> (r: Option<String>)
    ensures
        opt_view(r) == param_description(attrs@),
{
    let mut i: usize = 0;
    assert(attrs@.skip(0) =~= attrs@);
    while i < attrs.len()
        invariant
            i <= attrs@.len(),
            param_description(attrs@) == param_description(attrs@.skip(i as int)),
        decreases attrs@.len() - i,
    {
        assert(attrs@.skip(i as int).drop_first() =~= attrs@.skip(i + 1));
        let a = &attrs[i];
        if is_named(a, "function_call_description") {
            if let MetaModel::NameValue(ExprModel::Str(s)) = &a.meta {
                return Some(s.clone());
            }
        }
        i = i + 1;
    }
    None
}

/// The doc comment of an item (`///` lines): trimmed lines joined by single
/// spaces and trimmed again; `None` when there is no doc line.
pub fn collect_doc_comment(attrs: &Vec<AttributeModel>) -> (r: Option<String>)
    ensures
        opt_view(r) == doc_comment(attrs@),
{
    let mut lines: Vec<String> = Vec::new();
    let mut i: usize = 0;
    while i < attrs.len()
        invariant
            i <= attrs@.len(),
            lines@.map_values(|l: String| l@) == doc_lines(attrs@.take(i as int)),
        decreases attrs@.len() - i,
    {
        assert(attrs@.take(i + 1).drop_last() =~= attrs@.take(i as int));
        let a = &attrs[i];
        if is_named(a, "doc") {
            if let MetaModel::NameValue(ExprModel::Str(s)) = &a.meta {
                let line = trim_str(s.as_str());
                lines.push(line);
            }
        }
        assert(lines@.map_values(|l: String| l@) =~= doc_lines(attrs@.take(i + 1)));
        i = i + 1;
    }
    assert(attrs@.take(attrs@.len() as int) =~= attrs@);
    if lines.len() == 0 {
        None
    } else {
        let joined = join_strings(&lines, " ");
        Some(trim_str(joined.as_str()))
    }
}

/// The value of the first string literal among `args`.
fn first_str_arg(es: &Vec<ExprModel>) -> (r: Option<String>)
    ensures
        opt_view(r) == first_str(es@),
{
    let mut i: usize = 0;
    assert(es@.skip(0) =~= es@);
    while i < es.len()
        invariant
            i <= es@.len(),
            first_str(es@) == first_str(es@.skip(i as int)),
        decreases es@.len() - i,
    {
        assert(es@.skip(i as int).drop_first() =~= es@.skip(i + 1));
        assert(es@.skip(i as int)[0] == es@[i as int]);
        if let ExprModel::Str(s) = &es[i] {
            return Some(s.clone());
        }
        i = i + 1;
    }
    None
}

/// The function-level description: the macro's first string-literal
/// argument, else the doc comment, else empty.
pub fn parse_attr_description(attr: &MacroArgs, fn_attrs: &Vec<AttributeModel>) -> (r: Result<String, MacroError>)
    ensures
        result_view(r) == attr_description(*attr, fn_attrs@),
{
    match attr {
        MacroArgs::Malformed(m) => Err(bare_error(ErrorKind::Syntax(m.clone()))),
        MacroArgs::Exprs(es) => match first_str_arg(es) {
            Some(s) => Ok(s),
            None => match collect_doc_comment(fn_attrs) {
                Some(d) => Ok(d),
                None => Ok(String::new()),
            },
        },
    }
}

} // verus!
