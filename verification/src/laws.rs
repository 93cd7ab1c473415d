//! Properties of the library as a whole, each proved over the specifications
//! the functions' contracts use.
use vstd::prelude::*;
use crate::derive::{collected_fields, derive_body, param_of, FieldInfoView, SchemaTypeView};
use crate::describe::{doc_comment, doc_lines, is_doc_line, name_value_str, named, outer_is, param_description, type_text};
use crate::function::{
    arg_stripped, fn_stripped, function_call_schema, is_helper_attr, param_metas, tool_result,
    without_helper_attrs, ParamMetaView,
};
use crate::model::{
    AttributeModel, DataModel, DeriveInputModel, FieldModel, FnArgModel, ItemFnModel, MacroArgs, MacroError, PatModel,
    NestedItem, ReturnModel,
};
use crate::opts::{default_crate_path, field_items, field_opts_of, FieldOptsView};
use crate::external::{first_colon, is_ident_char, is_reserved_word, plain_ident, plain_path, plain_segments};
use crate::text::{decimal, is_white_space, join, replace_all, trim, trim_end, trim_start};

verus! {

// ---------------------------------------------------------------------------
// Trimming
// ---------------------------------------------------------------------------

proof fn lemma_trim_start_shape(s: Seq<char>)
    ensures
        trim_start(s).len() <= s.len(),
        trim_start(s).len() > 0 ==> !is_white_space(trim_start(s)[0]),
        trim_start(s) == s.skip(s.len() - trim_start(s).len()),
    decreases s.len(),
{
    if s.len() > 0 && is_white_space(s[0]) {
        lemma_trim_start_shape(s.drop_first());
        assert(s.drop_first().skip(s.drop_first().len() - trim_start(s).len()) =~= s.skip(s.len() - trim_start(s).len()));
    } else {
        assert(s.skip(0) =~= s);
    }
}

proof fn lemma_trim_end_shape(s: Seq<char>)
    ensures
        trim_end(s).len() <= s.len(),
        trim_end(s).len() > 0 ==> !is_white_space(trim_end(s).last()),
        trim_end(s) == s.take(trim_end(s).len() as int),
    decreases s.len(),
{
    if s.len() > 0 && is_white_space(s.last()) {
        lemma_trim_end_shape(s.drop_last());
        assert(s.drop_last().take(trim_end(s).len() as int) =~= s.take(trim_end(s).len() as int));
    } else {
        assert(s.take(s.len() as int) =~= s);
    }
}

proof fn lemma_trim_start_fixed(s: Seq<char>)
    requires
        s.len() > 0 ==> !is_white_space(s[0]),
    ensures
        trim_start(s) == s,
{
}

proof fn lemma_trim_end_fixed(s: Seq<char>)
    requires
        s.len() > 0 ==> !is_white_space(s.last()),
    ensures
        trim_end(s) == s,
{
}

/// Trimming leaves no whitespace at either end, and trimming a trimmed
/// string changes nothing.
pub proof fn law_trim(s: Seq<char>)
    ensures
        trim(s).len() > 0 ==> !is_white_space(trim(s)[0]) && !is_white_space(trim(s).last()),
        trim(trim(s)) == trim(s),
{
    let a = trim_start(s);
    let t = trim_end(a);
    lemma_trim_start_shape(s);
    lemma_trim_end_shape(a);
    if t.len() > 0 {
        assert(t == a.take(t.len() as int));
        assert(t[0] == a[0]);
    }
    lemma_trim_start_fixed(t);
    lemma_trim_end_fixed(t);
}

/// A doc comment is `None` exactly when the item has no `#[doc = "..."]`
/// line, and when present it has no whitespace at either end.
pub proof fn law_doc_comment(attrs: Seq<AttributeModel>)
    ensures
        (doc_comment(attrs) is None) == (doc_lines(attrs).len() == 0),
        doc_comment(attrs) matches Some(d) ==> (d.len() > 0 ==> !is_white_space(d[0]) && !is_white_space(d.last())),
{
    if doc_lines(attrs).len() > 0 {
        law_trim(crate::text::join(doc_lines(attrs), " "@));
    }
}

// ---------------------------------------------------------------------------
// Printed types
// ---------------------------------------------------------------------------

proof fn lemma_replace_without_space(s: Seq<char>, from: Seq<char>, to: Seq<char>, k: int)
    requires
        0 <= k < from.len(),
        from[k] == ' ',
        forall|i: int| 0 <= i < s.len() ==> s[i] != ' ',
    ensures
        replace_all(s, from, to) == s,
    decreases s.len(),
{
    if s.len() >= from.len() {
        assert(s.take(from.len() as int)[k] != from[k]);
        lemma_replace_without_space(s.drop_first(), from, to, k);
        assert(seq![s[0]] + s.drop_first() =~= s);
    }
}

/// A type whose printed tokens hold no space (a single-token type such as
/// `bool`, `u8` or `String`) is printed exactly as its tokens.
pub proof fn law_type_text_without_space(tokens: Seq<char>)
    requires
        forall|i: int| 0 <= i < tokens.len() ==> tokens[i] != ' ',
    ensures
        type_text(tokens) == tokens,
{
    reveal_strlit(" < ");
    reveal_strlit(" > ");
    reveal_strlit(" >");
    reveal_strlit(" ,");
    reveal_strlit(" ::");
    reveal_strlit(":: ");
    lemma_replace_without_space(tokens, " < "@, "<"@, 0);
    lemma_replace_without_space(tokens, " > "@, ">"@, 0);
    lemma_replace_without_space(tokens, " >"@, ">"@, 0);
    lemma_replace_without_space(tokens, " ,"@, ","@, 0);
    lemma_replace_without_space(tokens, " ::"@, "::"@, 0);
    lemma_replace_without_space(tokens, ":: "@, "::"@, 2);
}

// ---------------------------------------------------------------------------
// #[function_call] and #[tool]
// ---------------------------------------------------------------------------

/// `#[tool]` is a superset of `#[function_call]`: for the same arguments and
/// function it emits the same schema constant, and refuses exactly the same
/// inputs with the same error.
pub proof fn law_tool_schema_is_function_call_schema(args: MacroArgs, f: ItemFnModel, with_registry: bool)
    ensures
        match function_call_schema(args, f) {
            Ok(s) => tool_result(args, f, with_registry) matches Ok(t) && t.schema == s,
            Err(e) => tool_result(args, f, with_registry) == Err::<crate::function::ToolView, MacroError>(e),
        },
{
}

proof fn lemma_stripped_attrs_clean(attrs: Seq<AttributeModel>)
    ensures
        forall|i: int| 0 <= i < without_helper_attrs(attrs).len() ==> !is_helper_attr(#[trigger] without_helper_attrs(attrs)[i]),
    decreases attrs.len(),
{
    if attrs.len() > 0 {
        lemma_stripped_attrs_clean(attrs.drop_last());
        let p = without_helper_attrs(attrs.drop_last());
        if !is_helper_attr(attrs.last()) {
            assert forall|i: int| 0 <= i < p.push(attrs.last()).len() implies !is_helper_attr(#[trigger] p.push(attrs.last())[i]) by {
                if i < p.len() {
                    assert(p.push(attrs.last())[i] == p[i]);
                }
            }
        }
    }
}

proof fn lemma_no_description(attrs: Seq<AttributeModel>)
    requires
        forall|i: int| 0 <= i < attrs.len() ==> !is_helper_attr(#[trigger] attrs[i]),
    ensures
        param_description(attrs) == None::<Seq<char>>,
    decreases attrs.len(),
{
    if attrs.len() > 0 {
        assert(!is_helper_attr(attrs[0]));
        assert forall|i: int| 0 <= i < attrs.drop_first().len() implies !is_helper_attr(#[trigger] attrs.drop_first()[i]) by {
            assert(attrs.drop_first()[i] == attrs[i + 1]);
        }
        lemma_no_description(attrs.drop_first());
    }
}

/// Stripping removes every helper attribute and keeps the others in order;
/// stripping twice is stripping once.
pub proof fn law_strip_attrs(attrs: Seq<AttributeModel>)
    ensures
        forall|i: int| 0 <= i < without_helper_attrs(attrs).len() ==> !is_helper_attr(#[trigger] without_helper_attrs(attrs)[i]),
        without_helper_attrs(without_helper_attrs(attrs)) == without_helper_attrs(attrs),
        param_description(without_helper_attrs(attrs)) == None::<Seq<char>>,
    decreases attrs.len(),
{
    lemma_stripped_attrs_clean(attrs);
    lemma_no_description(without_helper_attrs(attrs));
    if attrs.len() > 0 {
        law_strip_attrs(attrs.drop_last());
        let p = without_helper_attrs(attrs.drop_last());
        if !is_helper_attr(attrs.last()) {
            assert(p.push(attrs.last()).drop_last() =~= p);
        }
    }
}

/// The parameters of `before` and `after` correspond one to one, each with
/// its helper attributes removed.
pub open spec fn args_stripped(before: Seq<FnArgModel>, after: Seq<FnArgModel>) -> bool {
    &&& after.len() == before.len()
    &&& forall|k: int| 0 <= k < before.len() ==> arg_stripped(#[trigger] before[k], after[k])
}

/// A parameter's metadata with its description consumed.
pub open spec fn consumed(p: ParamMetaView) -> ParamMetaView {
    ParamMetaView { description: Seq::empty(), ..p }
}

proof fn lemma_metas_after_strip(before: Seq<FnArgModel>, after: Seq<FnArgModel>)
    requires
        args_stripped(before, after),
    ensures
        param_metas(after) == param_metas(before).map_values(|p: ParamMetaView| consumed(p)),
    decreases before.len(),
{
    if before.len() > 0 {
        assert forall|k: int| 0 <= k < before.drop_last().len() implies arg_stripped(#[trigger] before.drop_last()[k], after.drop_last()[k]) by {
            assert(before.drop_last()[k] == before[k]);
            assert(after.drop_last()[k] == after[k]);
        }
        lemma_metas_after_strip(before.drop_last(), after.drop_last());
        assert(arg_stripped(before.last(), after.last()));
        match before.last() {
            FnArgModel::Typed { attrs, pat, ty } => {
                law_strip_attrs(attrs@);
            },
            FnArgModel::Receiver => {},
        }
        let prev = param_metas(before.drop_last());
        assert(param_metas(before).map_values(|p: ParamMetaView| consumed(p)) =~= match before.last() {
            FnArgModel::Typed { attrs, pat: PatModel::Ident(n), ty } => prev.map_values(|p: ParamMetaView| consumed(p)).push(
                consumed(param_metas(before).last()),
            ),
            _ => prev.map_values(|p: ParamMetaView| consumed(p)),
        });
    }
}

/// The function the macros re-emit keeps every parameter the schema lists,
/// under the same name and type, and no longer carries their descriptions:
/// reading it again gives the same parameters with empty descriptions.
pub proof fn law_strip_consumes_descriptions(before: ItemFnModel, after: ItemFnModel)
    requires
        fn_stripped(before, after),
    ensures
        param_metas(after.inputs@) == param_metas(before.inputs@).map_values(|p: ParamMetaView| consumed(p)),
{
    lemma_metas_after_strip(before.inputs@, after.inputs@);
}

// ---------------------------------------------------------------------------
// #[derive(FunctionCall)]
// ---------------------------------------------------------------------------

/// The positions of the fields that are not skipped, in order (up to the
/// first field whose options are refused).
pub open spec fn kept_fields(fields: Seq<FieldModel>) -> Seq<int>
    decreases fields.len(),
{
    if fields.len() == 0 {
        Seq::empty()
    } else {
        match field_opts_of(fields.last().attrs@) {
            Ok(o) => if o.skip {
                kept_fields(fields.drop_last())
            } else {
                kept_fields(fields.drop_last()).push(fields.len() - 1)
            },
            Err(_) => kept_fields(fields.drop_last()),
        }
    }
}

proof fn lemma_collected_fields(fields: Seq<FieldModel>)
    ensures
        collected_fields(fields) matches Ok(infos) ==> {
            &&& infos.map_values(|f: FieldInfoView| f.field) == kept_fields(fields)
            &&& forall|j: int| 0 <= j < infos.len() ==> {
                let f = #[trigger] infos[j];
                &&& 0 <= f.field < fields.len()
                &&& f.ty == fields[f.field].ty@
                &&& f.required == !outer_is(fields[f.field].ty, "Option"@)
            }
        },
    decreases fields.len(),
{
    if fields.len() > 0 {
        lemma_collected_fields(fields.drop_last());
        if let Ok(infos) = collected_fields(fields) {
            let prev = collected_fields(fields.drop_last())->Ok_0;
            assert forall|j: int| 0 <= j < infos.len() implies ({
                let f = #[trigger] infos[j];
                &&& 0 <= f.field < fields.len()
                &&& f.ty == fields[f.field].ty@
                &&& f.required == !outer_is(fields[f.field].ty, "Option"@)
            }) by {
                if j < prev.len() {
                    assert(infos[j] == prev[j]);
                    assert(fields.drop_last()[prev[j].field] == fields[prev[j].field]);
                }
            }
            assert(infos.map_values(|f: FieldInfoView| f.field) =~= kept_fields(fields));
        }
    }
}

/// In the schema of a struct, the parameters are exactly the fields not
/// marked `skip`, in declaration order; each parameter is required exactly
/// when its field's type is not `Option<_>`; and `schema_type()` lists the
/// same parameters as `fn_schema()`.
pub proof fn law_struct_schema(input: DeriveInputModel, p: Seq<char>)
    requires
        input.data is Struct,
        derive_body(input, p) is Ok,
    ensures
        ({
            let v = derive_body(input, p)->Ok_0;
            let fields = input.data->Struct_0@;
            &&& v.schema_type == SchemaTypeView::Object(v.parameters)
            &&& v.parameters.map_values(|q: crate::derive::ParamSpecView| q.field) == kept_fields(fields)
            &&& forall|j: int| 0 <= j < v.parameters.len() ==> {
                let q = #[trigger] v.parameters[j];
                &&& 0 <= q.field < fields.len()
                &&& q.ty == fields[q.field].ty@
                &&& q.required == !outer_is(fields[q.field].ty, "Option"@)
            }
        }),
{
    let fields = input.data->Struct_0@;
    lemma_collected_fields(fields);
    let infos = collected_fields(fields)->Ok_0;
    let v = derive_body(input, p)->Ok_0;
    assert(v.parameters =~= infos.map_values(|f: FieldInfoView| param_of(f)));
    assert(v.parameters.map_values(|q: crate::derive::ParamSpecView| q.field) =~= infos.map_values(|f: FieldInfoView| f.field));
    assert forall|j: int| 0 <= j < v.parameters.len() implies ({
        let q = #[trigger] v.parameters[j];
        &&& 0 <= q.field < fields.len()
        &&& q.ty == fields[q.field].ty@
        &&& q.required == !outer_is(fields[q.field].ty, "Option"@)
    }) by {
        assert(v.parameters[j] == param_of(infos[j]));
    }
}

} // verus!

verus! {

proof fn lemma_first_colon_past(a: Seq<char>, t: Seq<char>)
    requires
        forall|i: int| 0 <= i < a.len() ==> #[trigger] is_ident_char(a[i]),
        t.len() == 0 || t[0] == ':',
    ensures
        first_colon(a + t) == a.len(),
    decreases a.len(),
{
    if a.len() > 0 {
        assert((a + t).drop_first() =~= a.drop_first() + t);
        assert(is_ident_char(a[0]));
        assert forall|i: int| 0 <= i < a.drop_first().len() implies #[trigger] is_ident_char(a.drop_first()[i]) by {
            assert(a.drop_first()[i] == a[i + 1]);
        }
        lemma_first_colon_past(a.drop_first(), t);
    } else {
        assert(a + t =~= t);
    }
}

proof fn lemma_segments_one(a: Seq<char>)
    requires
        plain_ident(a),
    ensures
        plain_segments(a),
{
    lemma_first_colon_past(a, Seq::empty());
    assert(a + Seq::<char>::empty() =~= a);
}

proof fn lemma_segments_cons(a: Seq<char>, rest: Seq<char>)
    requires
        plain_ident(a),
        rest.len() > 0,
        plain_segments(rest),
    ensures
        plain_segments(a + (seq![':', ':'] + rest)),
{
    let t = seq![':', ':'] + rest;
    let s = a + t;
    lemma_first_colon_past(a, t);
    assert(s.take(a.len() as int) =~= a);
    assert(s.skip(a.len() as int + 2) =~= rest);
    assert(s[a.len() as int + 1] == ':');
}

/// Length and leading characters of syn's reserved words.
proof fn lemma_reserved_shape(s: Seq<char>)
    requires
        is_reserved_word(s),
    ensures
        s.len() <= 8,
        s.len() == 5 ==> s[0] != 'i' && s[0] != 'l',
        s.len() == 4 ==> s[0] != 't' || s[1] != 'o',
{
    reveal_strlit("_");
    reveal_strlit("abstract");
    reveal_strlit("as");
    reveal_strlit("async");
    reveal_strlit("await");
    reveal_strlit("become");
    reveal_strlit("box");
    reveal_strlit("break");
    reveal_strlit("const");
    reveal_strlit("continue");
    reveal_strlit("crate");
    reveal_strlit("do");
    reveal_strlit("dyn");
    reveal_strlit("else");
    reveal_strlit("enum");
    reveal_strlit("extern");
    reveal_strlit("false");
    reveal_strlit("final");
    reveal_strlit("fn");
    reveal_strlit("for");
    reveal_strlit("if");
    reveal_strlit("impl");
    reveal_strlit("in");
    reveal_strlit("let");
    reveal_strlit("loop");
    reveal_strlit("macro");
    reveal_strlit("match");
    reveal_strlit("mod");
    reveal_strlit("move");
    reveal_strlit("mut");
    reveal_strlit("override");
    reveal_strlit("priv");
    reveal_strlit("pub");
    reveal_strlit("ref");
    reveal_strlit("return");
    reveal_strlit("Self");
    reveal_strlit("self");
    reveal_strlit("static");
    reveal_strlit("struct");
    reveal_strlit("super");
    reveal_strlit("trait");
    reveal_strlit("true");
    reveal_strlit("try");
    reveal_strlit("type");
    reveal_strlit("typeof");
    reveal_strlit("unsafe");
    reveal_strlit("unsized");
    reveal_strlit("use");
    reveal_strlit("virtual");
    reveal_strlit("where");
    reveal_strlit("while");
    reveal_strlit("yield");
}

/// A word of the default module path is a plain identifier.
proof fn lemma_word(w: Seq<char>)
    requires
        w.len() > 0,
        !('0' <= w[0] && w[0] <= '9'),
        forall|i: int| 0 <= i < w.len() ==> #[trigger] is_ident_char(w[i]),
        w.len() > 8 || (w.len() == 5 && (w[0] == 'i' || w[0] == 'l')) || (w.len() == 4 && w[0] == 't' && w[1] == 'o'),
    ensures
        plain_ident(w),
{
    if is_reserved_word(w) {
        lemma_reserved_shape(w);
    }
}

/// The words of the default module path are plain identifiers.
proof fn lemma_default_words()
    ensures
        plain_ident("open_ai_rust"@),
        plain_ident("logoi"@),
        plain_ident("input"@),
        plain_ident("tool"@),
        plain_ident("raw_macro"@),
{
    reveal_strlit("open_ai_rust");
    reveal_strlit("logoi");
    reveal_strlit("input");
    reveal_strlit("tool");
    reveal_strlit("raw_macro");
    assert("open_ai_rust"@ =~= seq!['o', 'p', 'e', 'n', '_', 'a', 'i', '_', 'r', 'u', 's', 't']);
    assert("logoi"@ =~= seq!['l', 'o', 'g', 'o', 'i']);
    assert("input"@ =~= seq!['i', 'n', 'p', 'u', 't']);
    assert("tool"@ =~= seq!['t', 'o', 'o', 'l']);
    assert("raw_macro"@ =~= seq!['r', 'a', 'w', '_', 'm', 'a', 'c', 'r', 'o']);
    lemma_word("open_ai_rust"@);
    lemma_word("logoi"@);
    lemma_word("input"@);
    lemma_word("tool"@);
    lemma_word("raw_macro"@);
}

/// The default module path is a plain path: a type with no
/// `crate = "..."` option is never refused for its path, and its derive
/// outcome is exactly `derive_body` over the default path.
pub proof fn law_default_path_is_plain()
    ensures
        plain_path(default_crate_path()),
{
    lemma_default_words();
    reveal_strlit("::open_ai_rust::logoi::input::tool::raw_macro");
    reveal_strlit("open_ai_rust");
    reveal_strlit("logoi");
    reveal_strlit("input");
    reveal_strlit("tool");
    reveal_strlit("raw_macro");
    let w5 = "raw_macro"@;
    let s4 = "tool"@ + (seq![':', ':'] + w5);
    let s3 = "input"@ + (seq![':', ':'] + s4);
    let s2 = "logoi"@ + (seq![':', ':'] + s3);
    let s1 = "open_ai_rust"@ + (seq![':', ':'] + s2);
    lemma_segments_one(w5);
    lemma_segments_cons("tool"@, w5);
    lemma_segments_cons("input"@, s4);
    lemma_segments_cons("logoi"@, s3);
    lemma_segments_cons("open_ai_rust"@, s2);
    assert(default_crate_path().skip(2) =~= s1);
}

// ---------------------------------------------------------------------------
// The dispatch wrapper and the registry entry of #[tool]
// ---------------------------------------------------------------------------

/// Whether a return type is written as a path whose last segment is
/// `Result`.
pub open spec fn written_as_result(output: ReturnModel) -> bool {
    match output {
        ReturnModel::Type(t) => match t.last_segment {
            Some(s) => s@ == "Result"@,
            None => false,
        },
        ReturnModel::Default => false,
    }
}

/// `f` with its asyncness flipped and nothing else changed.
pub open spec fn with_async_flipped(f: ItemFnModel) -> ItemFnModel {
    ItemFnModel { is_async: !f.is_async, ..f }
}

/// The dispatch wrapper of `#[tool]` awaits exactly the `async` functions
/// and unwraps the returned value exactly when the return type is a path
/// ending in `Result`, whether or not the function is `async`: flipping
/// asyncness changes whether the call is awaited and nothing about the
/// unwrapping or the schema.
pub proof fn law_tool_dispatch_plan(args: MacroArgs, f: ItemFnModel, with_registry: bool)
    ensures
        match tool_result(args, f, with_registry) {
            Ok(v) => {
                &&& v.awaits == f.is_async
                &&& v.unwraps_result == written_as_result(f.output)
                &&& tool_result(args, with_async_flipped(f), with_registry) matches Ok(u)
                &&& u.unwraps_result == v.unwraps_result
                &&& u.awaits == !v.awaits
                &&& u.schema == v.schema
            },
            Err(_) => tool_result(args, with_async_flipped(f), with_registry) is Err,
        },
{
}

/// With registration on, the registry entry lists the schema constant's
/// parameters in the same order and under the same names, and each
/// carries the parameter's description: `Some(d)` exactly when the schema
/// constant records a non-empty description `d`; the entry and its schema
/// carry the tool's description the same way. With registration off there
/// is no entry.
pub proof fn law_registry_entry_mirrors_schema(args: MacroArgs, f: ItemFnModel, with_registry: bool)
    ensures
        tool_result(args, f, with_registry) matches Ok(v) ==> {
            &&& (v.registry is Some) == with_registry
            &&& v.registry matches Some(reg) ==> {
                &&& reg.parameters.len() == v.schema.parameters.len()
                &&& reg.entry_description == (if v.schema.description.len() == 0 { None } else { Some(v.schema.description) })
                &&& reg.schema_description == reg.entry_description
                &&& forall|k: int| 0 <= k < reg.parameters.len() ==> {
                    let rp = #[trigger] reg.parameters[k];
                    let sp = v.schema.parameters[k];
                    &&& rp.name == sp.name
                    &&& rp.description == (if sp.description.len() == 0 { None } else { Some(sp.description) })
                }
            }
        },
{
    if let Ok(v) = tool_result(args, f, with_registry) {
        if let Some(reg) = v.registry {
            assert forall|k: int| 0 <= k < reg.parameters.len() implies ({
                let rp = #[trigger] reg.parameters[k];
                let sp = v.schema.parameters[k];
                &&& rp.name == sp.name
                &&& rp.description == (if sp.description.len() == 0 { None } else { Some(sp.description) })
            }) by {
                assert(reg.parameters[k] == crate::function::registry_param_of(v.arguments[k]));
                assert(v.schema.parameters[k] == crate::function::raw_of(v.arguments[k]));
            }
        }
    }
}

// ---------------------------------------------------------------------------
// Field options
// ---------------------------------------------------------------------------

/// Whether the item's key is the single identifier `key`.
pub open spec fn item_named(item: NestedItem, key: Seq<char>) -> bool {
    match item.key {
        Some(k) => k@ == key,
        None => false,
    }
}

/// The string values the items give to `key`, in order.
pub open spec fn values_for(items: Seq<NestedItem>, key: Seq<char>) -> Seq<Seq<char>>
    decreases items.len(),
{
    if items.len() == 0 {
        Seq::empty()
    } else {
        let prev = values_for(items.drop_last(), key);
        let it = items.last();
        match it.as_string {
            Ok(v) => if item_named(it, key) { prev.push(v@) } else { prev },
            Err(_) => prev,
        }
    }
}

/// Whether some item has the key `key`.
pub open spec fn mentions(items: Seq<NestedItem>, key: Seq<char>) -> bool {
    exists|i: int| 0 <= i < items.len() && item_named(#[trigger] items[i], key)
}

/// The string values the `#[function_call(...)]` attributes among `attrs`
/// give to `key`, in order of attributes and of items.
pub open spec fn attr_values_for(attrs: Seq<AttributeModel>, key: Seq<char>) -> Seq<Seq<char>>
    decreases attrs.len(),
{
    if attrs.len() == 0 {
        Seq::empty()
    } else if named(attrs.last(), "function_call"@) {
        attr_values_for(attrs.drop_last(), key) + values_for(attrs.last().args.items@, key)
    } else {
        attr_values_for(attrs.drop_last(), key)
    }
}

/// Whether some `#[function_call(...)]` attribute among `attrs` has an item
/// with the key `key`.
pub open spec fn attrs_mention(attrs: Seq<AttributeModel>, key: Seq<char>) -> bool {
    exists|i: int| 0 <= i < attrs.len() && named(#[trigger] attrs[i], "function_call"@) && mentions(attrs[i].args.items@, key)
}

/// The last of `vs`, if any.
pub open spec fn last_of(vs: Seq<Seq<char>>) -> Option<Seq<char>> {
    if vs.len() == 0 {
        None
    } else {
        Some(vs.last())
    }
}

proof fn lemma_option_keys_differ()
    ensures
        "skip"@ != "rename"@,
        "skip"@ != "description"@,
        "rename"@ != "description"@,
{
    reveal_strlit("skip");
    reveal_strlit("rename");
    reveal_strlit("description");
    assert("skip"@.len() != "rename"@.len());
    assert("skip"@.len() != "description"@.len());
    assert("rename"@.len() != "description"@.len());
}

proof fn lemma_field_items_accumulate(o: FieldOptsView, items: Seq<NestedItem>)
    ensures
        field_items(o, items) matches Ok(q) ==> {
            &&& q.rename == (if values_for(items, "rename"@).len() == 0 { o.rename } else { last_of(values_for(items, "rename"@)) })
            &&& q.description == (if values_for(items, "description"@).len() == 0 { o.description } else { last_of(values_for(items, "description"@)) })
            &&& q.skip == (o.skip || mentions(items, "skip"@))
        },
    decreases items.len(),
{
    lemma_option_keys_differ();
    if items.len() > 0 {
        let init = items.drop_last();
        lemma_field_items_accumulate(o, init);
        if let Ok(q) = field_items(o, items) {
            let it = items.last();
            assert(mentions(items, "skip"@) == (mentions(init, "skip"@) || item_named(it, "skip"@))) by {
                if mentions(items, "skip"@) {
                    let i = choose|i: int| 0 <= i < items.len() && item_named(#[trigger] items[i], "skip"@);
                    if i < init.len() {
                        assert(init[i] == items[i]);
                    }
                }
                if mentions(init, "skip"@) {
                    let i = choose|i: int| 0 <= i < init.len() && item_named(#[trigger] init[i], "skip"@);
                    assert(items[i] == init[i]);
                }
                if item_named(it, "skip"@) {
                    assert(items[items.len() - 1] == it);
                }
            }
        }
    }
}

proof fn lemma_field_opts_accumulate(attrs: Seq<AttributeModel>)
    ensures
        field_opts_of(attrs) matches Ok(o) ==> {
            &&& o.rename == last_of(attr_values_for(attrs, "rename"@))
            &&& o.description == last_of(attr_values_for(attrs, "description"@))
            &&& o.skip == attrs_mention(attrs, "skip"@)
        },
    decreases attrs.len(),
{
    if attrs.len() > 0 {
        let init = attrs.drop_last();
        let a = attrs.last();
        lemma_field_opts_accumulate(init);
        if let Ok(o) = field_opts_of(attrs) {
            let p = field_opts_of(init)->Ok_0;
            assert(attrs_mention(attrs, "skip"@) == (attrs_mention(init, "skip"@) || (named(a, "function_call"@)
                && mentions(a.args.items@, "skip"@)))) by {
                if attrs_mention(attrs, "skip"@) {
                    let i = choose|i: int| 0 <= i < attrs.len() && named(#[trigger] attrs[i], "function_call"@) && mentions(attrs[i].args.items@, "skip"@);
                    if i < init.len() {
                        assert(init[i] == attrs[i]);
                    }
                }
                if attrs_mention(init, "skip"@) {
                    let i = choose|i: int| 0 <= i < init.len() && named(#[trigger] init[i], "function_call"@) && mentions(init[i].args.items@, "skip"@);
                    assert(attrs[i] == init[i]);
                }
                if named(a, "function_call"@) && mentions(a.args.items@, "skip"@) {
                    assert(attrs[attrs.len() - 1] == a);
                }
            }
            if named(a, "function_call"@) {
                lemma_field_items_accumulate(p, a.args.items@);
                let r = attr_values_for(init, "rename"@);
                let rv = values_for(a.args.items@, "rename"@);
                let d = attr_values_for(init, "description"@);
                let dv = values_for(a.args.items@, "description"@);
                if rv.len() > 0 {
                    assert((r + rv).last() == rv.last());
                } else {
                    assert(r + rv =~= r);
                }
                if dv.len() > 0 {
                    assert((d + dv).last() == dv.last());
                } else {
                    assert(d + dv =~= d);
                }
            }
        }
    }
}

/// Whether the item is one of the field options in the shape it takes:
/// `skip` alone, or `rename` / `description` with a string value.
pub open spec fn readable_option(item: NestedItem) -> bool {
    ||| item_named(item, "skip"@) && item.as_flag is Ok
    ||| item_named(item, "rename"@) && item.as_string is Ok
    ||| item_named(item, "description"@) && item.as_string is Ok
}

/// Whether every `#[function_call(...)]` attribute among `attrs` was read
/// to its end and holds only readable options.
pub open spec fn options_readable(attrs: Seq<AttributeModel>) -> bool {
    forall|i: int| 0 <= i < attrs.len() && named(#[trigger] attrs[i], "function_call"@) ==> {
        &&& attrs[i].args.syntax_error is None
        &&& forall|j: int| 0 <= j < attrs[i].args.items@.len() ==> readable_option(#[trigger] attrs[i].args.items@[j])
    }
}

proof fn lemma_field_items_readable(o: FieldOptsView, items: Seq<NestedItem>)
    requires
        forall|j: int| 0 <= j < items.len() ==> readable_option(#[trigger] items[j]),
    ensures
        field_items(o, items) is Ok,
    decreases items.len(),
{
    lemma_option_keys_differ();
    if items.len() > 0 {
        assert forall|j: int| 0 <= j < items.drop_last().len() implies readable_option(#[trigger] items.drop_last()[j]) by {
            assert(items.drop_last()[j] == items[j]);
        }
        lemma_field_items_readable(o, items.drop_last());
        assert(readable_option(items[items.len() - 1]));
    }
}

proof fn lemma_field_opts_readable(attrs: Seq<AttributeModel>)
    requires
        options_readable(attrs),
    ensures
        field_opts_of(attrs) is Ok,
    decreases attrs.len(),
{
    if attrs.len() > 0 {
        let init = attrs.drop_last();
        assert forall|i: int| 0 <= i < init.len() && named(#[trigger] init[i], "function_call"@) implies ({
            &&& init[i].args.syntax_error is None
            &&& forall|j: int| 0 <= j < init[i].args.items@.len() ==> readable_option(#[trigger] init[i].args.items@[j])
        }) by {
            assert(init[i] == attrs[i]);
        }
        lemma_field_opts_readable(init);
        let a = attrs.last();
        assert(a == attrs[attrs.len() - 1]);
        if named(a, "function_call"@) {
            lemma_field_items_readable(field_opts_of(init)->Ok_0, a.args.items@);
        }
    }
}

/// The options of a field accumulate over its `#[function_call(...)]`
/// attributes and over the items inside each: `rename` and `description`
/// are the value of the last item that names them (`None` when no item
/// does), whatever items come between, and `skip` holds exactly when some
/// item is `skip`. So `rename = r, description = d` in one attribute gives
/// both `Some(r)` and `Some(d)`. Attributes read to their end that hold only
/// these options in their shapes are never refused.
pub proof fn law_field_options_accumulate(attrs: Seq<AttributeModel>)
    ensures
        field_opts_of(attrs) matches Ok(o) ==> {
            &&& o.rename == last_of(attr_values_for(attrs, "rename"@))
            &&& o.description == last_of(attr_values_for(attrs, "description"@))
            &&& o.skip == attrs_mention(attrs, "skip"@)
        },
        options_readable(attrs) ==> field_opts_of(attrs) is Ok,
{
    lemma_field_opts_accumulate(attrs);
    if options_readable(attrs) {
        lemma_field_opts_readable(attrs);
    }
}

// ---------------------------------------------------------------------------
// Doc comments and the descriptions taken from them
// ---------------------------------------------------------------------------

/// `None` for an empty text, else the text.
pub open spec fn unless_empty(s: Seq<char>) -> Option<Seq<char>> {
    if s.len() == 0 {
        None
    } else {
        Some(s)
    }
}

proof fn lemma_doc_lines_clean(attrs: Seq<AttributeModel>)
    ensures
        forall|i: int| 0 <= i < doc_lines(attrs).len() && #[trigger] doc_lines(attrs)[i].len() > 0 ==> {
            &&& !is_white_space(doc_lines(attrs)[i][0])
            &&& !is_white_space(doc_lines(attrs)[i].last())
        },
    decreases attrs.len(),
{
    if attrs.len() > 0 {
        let init = attrs.drop_last();
        lemma_doc_lines_clean(init);
        if is_doc_line(attrs.last()) {
            let t = trim(name_value_str(attrs.last())->0);
            law_trim(name_value_str(attrs.last())->0);
            let prev = doc_lines(init);
            assert(doc_lines(attrs) == prev.push(t));
            assert forall|i: int| 0 <= i < doc_lines(attrs).len() && #[trigger] doc_lines(attrs)[i].len() > 0 implies {
                &&& !is_white_space(doc_lines(attrs)[i][0])
                &&& !is_white_space(doc_lines(attrs)[i].last())
            } by {
                if i < prev.len() {
                    assert(doc_lines(attrs)[i] == prev[i]);
                    assert(prev[i].len() > 0);
                }
            }
        } else {
            assert(doc_lines(attrs) == doc_lines(init));
        }
    }
}

proof fn lemma_join_ends(lines: Seq<Seq<char>>)
    requires
        lines.len() > 0,
        forall|i: int| 0 <= i < lines.len() ==> #[trigger] lines[i].len() > 0,
    ensures
        join(lines, " "@).len() > 0,
        join(lines, " "@)[0] == lines[0][0],
        join(lines, " "@).last() == lines.last().last(),
    decreases lines.len(),
{
    if lines.len() > 1 {
        let init = lines.drop_last();
        assert forall|i: int| 0 <= i < init.len() implies #[trigger] init[i].len() > 0 by {
            assert(init[i] == lines[i]);
        }
        lemma_join_ends(init);
        assert(init[0] == lines[0]);
        assert(lines.last() == lines[lines.len() - 1]);
    }
}

/// Each further doc line is added to the doc comment after a single space:
/// where the doc lines so far are all non-empty, a line whose trimmed text
/// `t` is not empty turns the comment `c` into `c + " " + t` (and an item
/// without doc lines into `t`). No line is dropped.
pub proof fn law_doc_comment_appends_line(attrs: Seq<AttributeModel>, a: AttributeModel)
    requires
        forall|i: int| 0 <= i < doc_lines(attrs).len() ==> #[trigger] doc_lines(attrs)[i].len() > 0,
        is_doc_line(a),
        trim(name_value_str(a)->0).len() > 0,
    ensures
        doc_comment(attrs.push(a)) == Some(
            match doc_comment(attrs) {
                None => trim(name_value_str(a)->0),
                Some(c) => c + " "@ + trim(name_value_str(a)->0),
            },
        ),
{
    let t = trim(name_value_str(a)->0);
    let lines = doc_lines(attrs);
    assert(attrs.push(a).drop_last() =~= attrs);
    assert(doc_lines(attrs.push(a)) == lines.push(t));
    law_trim(name_value_str(a)->0);
    if lines.len() == 0 {
        assert(join(lines.push(t), " "@) == t);
    } else {
        lemma_doc_lines_clean(attrs);
        lemma_join_ends(lines);
        let j = join(lines, " "@);
        assert(lines.last() == lines[lines.len() - 1]);
        assert(lines[0].len() > 0);
        assert(lines[lines.len() - 1].len() > 0);
        lemma_trim_start_fixed(j);
        lemma_trim_end_fixed(j);
        assert(lines.push(t).drop_last() =~= lines);
        let k = j + " "@ + t;
        assert(join(lines.push(t), " "@) == k);
        reveal_strlit(" ");
        assert(k[0] == j[0]);
        assert(k.last() == t.last());
        lemma_trim_start_fixed(k);
        lemma_trim_end_fixed(k);
    }
}

/// A derived type is described by its whole doc comment (`None` when it
/// has none or it is empty), exactly as `#[function_call]` describes a
/// function that carries the same attributes and no description argument.
pub proof fn law_derive_description_is_doc_comment(input: DeriveInputModel, p: Seq<char>, args: MacroArgs, f: ItemFnModel)
    ensures
        derive_body(input, p) matches Ok(v) ==> {
            &&& v.description == match doc_comment(input.attrs@) {
                Some(c) => unless_empty(c),
                None => None,
            }
            &&& (args matches MacroArgs::Exprs(es) && es@.len() == 0 && f.attrs@ == input.attrs@) ==> (
                function_call_schema(args, f) matches Ok(s) && v.description == unless_empty(s.description))
        },
{
}

proof fn lemma_collected_descriptions(fields: Seq<FieldModel>)
    ensures
        collected_fields(fields) matches Ok(infos) ==> forall|j: int| 0 <= j < infos.len() ==> {
            let f = #[trigger] infos[j];
            let fld = fields[f.field];
            &&& 0 <= f.field < fields.len()
            &&& field_opts_of(fld.attrs@) matches Ok(o) && !o.skip
                && f.name == match o.rename {
                    Some(r) => r,
                    None => match fld.ident {
                        Some(id) => id@,
                        None => "_"@ + decimal(f.field as nat),
                    },
                }
                && f.description == match o.description {
                    Some(d) => d,
                    None => match doc_comment(fld.attrs@) {
                        Some(c) => c,
                        None => Seq::empty(),
                    },
                }
        },
    decreases fields.len(),
{
    if fields.len() > 0 {
        lemma_collected_descriptions(fields.drop_last());
        if let Ok(infos) = collected_fields(fields) {
            let prev = collected_fields(fields.drop_last())->Ok_0;
            assert forall|j: int| 0 <= j < infos.len() implies ({
                let f = #[trigger] infos[j];
                let fld = fields[f.field];
                &&& 0 <= f.field < fields.len()
                &&& field_opts_of(fld.attrs@) matches Ok(o) && !o.skip
                    && f.name == match o.rename {
                        Some(r) => r,
                        None => match fld.ident {
                            Some(id) => id@,
                            None => "_"@ + decimal(f.field as nat),
                        },
                    }
                    && f.description == match o.description {
                        Some(d) => d,
                        None => match doc_comment(fld.attrs@) {
                            Some(c) => c,
                            None => Seq::empty(),
                        },
                    }
            }) by {
                if j < prev.len() {
                    assert(infos[j] == prev[j]);
                    assert(fields.drop_last()[prev[j].field] == fields[prev[j].field]);
                }
            }
        }
    }
}

/// Each parameter of a struct's schema is named by the last `rename` its
/// field's `#[function_call(...)]` attributes give, else by the field's
/// identifier (`_i` for the field at position `i` of a tuple struct), and
/// is described by the last `description` they give, else by the field's
/// whole doc comment; an empty description is `None`. Its field carries no
/// `skip`.
pub proof fn law_struct_parameter_names_and_descriptions(input: DeriveInputModel, p: Seq<char>)
    requires
        input.data is Struct,
    ensures
        derive_body(input, p) matches Ok(v) ==> forall|j: int| 0 <= j < v.parameters.len() ==> {
            let q = #[trigger] v.parameters[j];
            let fld = input.data->Struct_0@[q.field];
            &&& 0 <= q.field < input.data->Struct_0@.len()
            &&& !attrs_mention(fld.attrs@, "skip"@)
            &&& q.name == match last_of(attr_values_for(fld.attrs@, "rename"@)) {
                Some(r) => r,
                None => match fld.ident {
                    Some(id) => id@,
                    None => "_"@ + decimal(q.field as nat),
                },
            }
            &&& q.description == unless_empty(
                match last_of(attr_values_for(fld.attrs@, "description"@)) {
                    Some(d) => d,
                    None => match doc_comment(fld.attrs@) {
                        Some(c) => c,
                        None => Seq::empty(),
                    },
                },
            )
        },
{
    let fields = input.data->Struct_0@;
    lemma_collected_descriptions(fields);
    if let Ok(v) = derive_body(input, p) {
        let infos = collected_fields(fields)->Ok_0;
        assert forall|j: int| 0 <= j < v.parameters.len() implies ({
            let q = #[trigger] v.parameters[j];
            let fld = input.data->Struct_0@[q.field];
            &&& 0 <= q.field < input.data->Struct_0@.len()
            &&& !attrs_mention(fld.attrs@, "skip"@)
            &&& q.name == match last_of(attr_values_for(fld.attrs@, "rename"@)) {
                Some(r) => r,
                None => match fld.ident {
                    Some(id) => id@,
                    None => "_"@ + decimal(q.field as nat),
                },
            }
            &&& q.description == unless_empty(
                match last_of(attr_values_for(fld.attrs@, "description"@)) {
                    Some(d) => d,
                    None => match doc_comment(fld.attrs@) {
                        Some(c) => c,
                        None => Seq::empty(),
                    },
                },
            )
        }) by {
            assert(v.parameters[j] == param_of(infos[j]));
            let f = infos[j];
            lemma_field_opts_accumulate(fields[f.field].attrs@);
        }
    }
}

// ---------------------------------------------------------------------------
// Where the schema's parameters come from
// ---------------------------------------------------------------------------

/// `m` is what the schema records of parameter `arg`: it is typed and bound
/// to a plain identifier, `m` carries that identifier, its type, and the
/// value of its first `#[function_call_description = "..."]` (else empty).
pub open spec fn recorded_from(m: ParamMetaView, arg: FnArgModel) -> bool {
    match arg {
        FnArgModel::Typed { attrs, pat: PatModel::Ident(n), ty } => {
            &&& m.name == n@
            &&& m.ty == ty@
            &&& m.description == match param_description(attrs@) {
                Some(d) => d,
                None => Seq::empty(),
            }
        },
        _ => false,
    }
}

/// Whether the parameter is typed and bound to a plain identifier.
pub open spec fn named_typed(arg: FnArgModel) -> bool {
    arg matches FnArgModel::Typed { pat: PatModel::Ident(_), .. }
}

proof fn lemma_param_metas_origin(inputs: Seq<FnArgModel>)
    ensures
        forall|k: int| 0 <= k < param_metas(inputs).len() ==> {
            let m = #[trigger] param_metas(inputs)[k];
            &&& 0 <= m.arg < inputs.len()
            &&& recorded_from(m, inputs[m.arg])
        },
        forall|k: int, l: int| 0 <= k < l < param_metas(inputs).len() ==> #[trigger] param_metas(inputs)[k].arg
            < #[trigger] param_metas(inputs)[l].arg,
        forall|i: int| 0 <= i < inputs.len() && named_typed(#[trigger] inputs[i]) ==> exists|k: int|
            0 <= k < param_metas(inputs).len() && #[trigger] param_metas(inputs)[k].arg == i,
    decreases inputs.len(),
{
    if inputs.len() > 0 {
        let init = inputs.drop_last();
        lemma_param_metas_origin(init);
        let prev = param_metas(init);
        let all = param_metas(inputs);
        assert forall|k: int| 0 <= k < prev.len() implies #[trigger] all[k] == prev[k] && prev[k].arg < inputs.len() - 1 by {
            assert(init[prev[k].arg] == inputs[prev[k].arg]);
        }
        assert forall|k: int| 0 <= k < all.len() implies ({
            let m = #[trigger] all[k];
            &&& 0 <= m.arg < inputs.len()
            &&& recorded_from(m, inputs[m.arg])
        }) by {
            if k < prev.len() {
                assert(all[k] == prev[k]);
                assert(init[prev[k].arg] == inputs[prev[k].arg]);
            } else {
                assert(inputs.last() == inputs[inputs.len() - 1]);
            }
        }
        assert forall|k: int, l: int| 0 <= k < l < all.len() implies #[trigger] all[k].arg < #[trigger] all[l].arg by {
            assert(all[k] == prev[k]);
            if l < prev.len() {
                assert(all[l] == prev[l]);
            }
        }
        assert forall|i: int| 0 <= i < inputs.len() && named_typed(#[trigger] inputs[i]) implies exists|k: int|
            0 <= k < all.len() && #[trigger] all[k].arg == i by {
            if i < init.len() {
                assert(init[i] == inputs[i]);
                let k = choose|k: int| 0 <= k < prev.len() && #[trigger] prev[k].arg == i;
                assert(all[k] == prev[k]);
            } else {
                assert(inputs.last() == inputs[i]);
                assert(all[all.len() - 1].arg == i);
            }
        }
    }
}

/// The schema constant lists, in signature order, one parameter for each
/// parameter of the function that is typed and bound to a plain
/// identifier, and none other; each carries that identifier, the
/// parameter's printed type, and the value of its first
/// `#[function_call_description = "..."]` (else empty).
pub proof fn law_schema_parameters_follow_signature(args: MacroArgs, f: ItemFnModel)
    ensures
        function_call_schema(args, f) matches Ok(s) ==> {
            let ms = param_metas(f.inputs@);
            &&& s.parameters.len() == ms.len()
            &&& forall|k: int| 0 <= k < ms.len() ==> {
                let m = #[trigger] ms[k];
                &&& 0 <= m.arg < f.inputs@.len()
                &&& recorded_from(m, f.inputs@[m.arg])
                &&& s.parameters[k].name == m.name
                &&& s.parameters[k].description == m.description
            }
            &&& forall|k: int, l: int| 0 <= k < l < ms.len() ==> #[trigger] ms[k].arg < #[trigger] ms[l].arg
            &&& forall|i: int| 0 <= i < f.inputs@.len() && named_typed(#[trigger] f.inputs@[i]) ==> exists|k: int|
                0 <= k < ms.len() && #[trigger] ms[k].arg == i
        },
{
    lemma_param_metas_origin(f.inputs@);
    if let Ok(s) = function_call_schema(args, f) {
        let ms = param_metas(f.inputs@);
        assert forall|k: int| 0 <= k < ms.len() implies ({
            let m = #[trigger] ms[k];
            &&& 0 <= m.arg < f.inputs@.len()
            &&& recorded_from(m, f.inputs@[m.arg])
            &&& s.parameters[k].name == m.name
            &&& s.parameters[k].description == m.description
        }) by {
            assert(s.parameters[k] == crate::function::raw_of(ms[k]));
        }
    }
}

} // verus!
