use open_ai_rust_fn_call_extension::function::{function_call, tool, FunctionCallExpansion, ToolExpansion};
use open_ai_rust_fn_call_extension::model::{
    AttributeModel, NestedList, ExprModel, FnArgModel, ItemFnModel, MacroArgs, MacroOutput, MetaModel, PatModel,
    ReturnModel, TypeModel,
};

/// The arguments of an attribute without `(...)`, read as a list.
fn no_list() -> NestedList {
    NestedList { items: vec![], syntax_error: Some("expected parentheses".to_string()) }
}

fn path_ty(tokens: &str, last: &str) -> TypeModel {
    TypeModel { tokens: tokens.to_string(), last_segment: Some(last.to_string()) }
}

fn doc(text: &str) -> AttributeModel {
    AttributeModel {
        name: Some("doc".to_string()),
        meta: MetaModel::NameValue(ExprModel::Str(text.to_string())),
        args: no_list(),
        tag: 0,
    }
}

fn param_desc(text: &str) -> AttributeModel {
    AttributeModel {
        name: Some("function_call_description".to_string()),
        meta: MetaModel::NameValue(ExprModel::Str(text.to_string())),
        args: no_list(),
        tag: 1,
    }
}

fn arg(name: &str, ty: TypeModel, attrs: Vec<AttributeModel>) -> FnArgModel {
    FnArgModel::Typed { attrs, pat: PatModel::Ident(name.to_string()), ty }
}

fn item(name: &str, is_async: bool, attrs: Vec<AttributeModel>, inputs: Vec<FnArgModel>, output: ReturnModel) -> ItemFnModel {
    ItemFnModel { name: name.to_string(), is_async, attrs, inputs, output }
}

fn args(list: Vec<ExprModel>) -> MacroArgs {
    MacroArgs::Exprs(list)
}

fn s(text: &str) -> ExprModel {
    ExprModel::Str(text.to_string())
}

fn expand(a: MacroArgs, f: ItemFnModel) -> FunctionCallExpansion {
    match function_call(&a, f) {
        MacroOutput::Expanded(x) => x,
        MacroOutput::CompileError { message: m, .. } => panic!("unexpected compile error: {m}"),
    }
}

fn expand_tool(a: MacroArgs, f: ItemFnModel) -> ToolExpansion {
    match tool(&a, f, false) {
        MacroOutput::Expanded(x) => x,
        MacroOutput::CompileError { message: m, .. } => panic!("unexpected compile error: {m}"),
    }
}

fn change_light() -> ItemFnModel {
    item(
        "change_light",
        false,
        vec![],
        vec![
            arg("on", path_ty("bool", "bool"), vec![]),
            arg("brightness", path_ty("u8", "u8"), vec![param_desc("brightness 0-100")]),
        ],
        ReturnModel::Default,
    )
}

#[test]
fn const_emitted_for_sync_fn() {
    let x = expand(args(vec![s("Toggle a light")]), change_light());
    let c = &x.schema;
    assert_eq!(c.const_name, "CHANGE_LIGHT");
    assert_eq!(c.name, "change_light");
    assert_eq!(c.description, "Toggle a light");
    assert_eq!(c.parameters.len(), 2);
    assert_eq!(
        (c.parameters[0].name.as_str(), c.parameters[0].ty.as_str(), c.parameters[0].description.as_str()),
        ("on", "bool", "")
    );
    assert_eq!(
        (c.parameters[1].name.as_str(), c.parameters[1].ty.as_str(), c.parameters[1].description.as_str()),
        ("brightness", "u8", "brightness 0-100")
    );
}

#[test]
fn const_emitted_for_async_fn() {
    let f = item(
        "fetch_thing",
        true,
        vec![doc(" Async tools must round-trip through the macro.")],
        vec![arg("url", path_ty("String", "String"), vec![])],
        ReturnModel::Type(path_ty("String", "String")),
    );
    let x = expand(args(vec![s("Fetch a remote thing")]), f);
    assert_eq!(x.schema.name, "fetch_thing");
    assert_eq!(x.schema.description, "Fetch a remote thing");
    assert_eq!(
        (x.schema.parameters[0].name.as_str(), x.schema.parameters[0].ty.as_str(), x.schema.parameters[0].description.as_str()),
        ("url", "String", "")
    );
    // The original async function is passed through untouched.
    assert_eq!(x.item.name, "fetch_thing");
    assert!(x.item.is_async);
    assert_eq!(x.item.inputs.len(), 1);
}

#[test]
fn non_string_attr_arg_is_skipped() {
    let f = item(
        "ignores_non_string_args",
        false,
        vec![],
        vec![arg("x", path_ty("i64", "i64"), vec![])],
        ReturnModel::Default,
    );
    let x = expand(args(vec![ExprModel::Other, s("actually used")]), f);
    assert_eq!(x.schema.description, "actually used");
}

#[test]
fn anonymous_param_skipped_in_schema() {
    let f = item(
        "with_anon_param",
        false,
        vec![],
        vec![
            FnArgModel::Typed { attrs: vec![], pat: PatModel::Other, ty: path_ty("i64", "i64") },
            arg("named", path_ty("i64", "i64"), vec![]),
        ],
        ReturnModel::Default,
    );
    let x = expand(args(vec![s("Wildcard param")]), f);
    assert_eq!(x.schema.parameters.len(), 1);
    assert_eq!(x.schema.parameters[0].name, "named");
}

#[test]
fn doc_comment_fallback_for_fn_description() {
    let f = item(
        "no_attr_arg",
        false,
        vec![doc(" Doc-comment fallback when no attribute string is provided.")],
        vec![arg("value", path_ty("i64", "i64"), vec![])],
        ReturnModel::Default,
    );
    let x = expand(args(vec![]), f);
    assert_eq!(x.schema.description, "Doc-comment fallback when no attribute string is provided.");
}

fn add_fn() -> ItemFnModel {
    item(
        "add",
        false,
        vec![doc(" Add two integers.")],
        vec![arg("a", path_ty("i64", "i64"), vec![]), arg("b", path_ty("i64", "i64"), vec![])],
        ReturnModel::Type(path_ty("i64", "i64")),
    )
}

#[test]
fn function_call_smoke_tool_emits_schema_const() {
    let x = expand_tool(args(vec![s("Add two integers")]), add_fn());
    assert_eq!(x.schema.name, "add");
    assert_eq!(x.schema.description, "Add two integers");
    assert_eq!(x.schema.parameters.len(), 2);
    assert_eq!(x.schema.parameters[0].name, "a");
    assert_eq!(x.schema.parameters[0].ty, "i64");
    assert_eq!(x.schema.parameters[1].name, "b");
}

#[test]
fn helper_attribute_is_stripped_from_reemitted_fn() {
    let x = expand(args(vec![s("Toggle a light")]), change_light());
    match &x.item.inputs[1] {
        FnArgModel::Typed { attrs, .. } => assert!(attrs.is_empty()),
        FnArgModel::Receiver => panic!("expected a typed parameter"),
    }
}

#[test]
fn helper_attribute_strip_keeps_other_attributes_in_order() {
    let keep = |tag: usize| AttributeModel { name: Some("allow".to_string()), meta: MetaModel::Path, args: no_list(), tag };
    let f = item(
        "f",
        false,
        vec![],
        vec![arg("v", path_ty("u8", "u8"), vec![keep(5), param_desc("d"), keep(7)])],
        ReturnModel::Default,
    );
    let x = expand(args(vec![]), f);
    match &x.item.inputs[0] {
        FnArgModel::Typed { attrs, .. } => {
            let tags: Vec<usize> = attrs.iter().map(|a| a.tag).collect();
            assert_eq!(tags, vec![5, 7]);
        }
        FnArgModel::Receiver => panic!("expected a typed parameter"),
    }
    assert_eq!(x.schema.parameters[0].description, "d");
}

#[test]
fn receiver_is_skipped_and_generic_type_is_printed_compactly() {
    let f = item(
        "m",
        false,
        vec![],
        vec![
            FnArgModel::Receiver,
            arg("items", path_ty("Vec < Option < String > >", "Vec"), vec![]),
            arg("map", path_ty("std :: collections :: HashMap < String , i64 >", "HashMap"), vec![]),
        ],
        ReturnModel::Default,
    );
    let x = expand(args(vec![]), f);
    assert_eq!(x.schema.parameters.len(), 2);
    assert_eq!(x.schema.parameters[0].ty, "Vec<Option<String>>");
    assert_eq!(x.schema.parameters[1].ty, "std::collections::HashMap<String, i64>");
    assert_eq!(x.schema.description, "");
}

#[test]
fn malformed_macro_arguments_are_a_compile_error() {
    let out = function_call(&MacroArgs::Malformed("expected an expression".to_string()), change_light());
    match out {
        MacroOutput::CompileError { message: m, .. } => assert_eq!(m, "expected an expression"),
        MacroOutput::Expanded(_) => panic!("expected a compile error"),
    }
}

#[test]
fn multi_line_doc_comment_is_joined_and_trimmed() {
    let f = item(
        "f",
        false,
        vec![doc(" First line. "), doc("   Second\tline.\t"), doc("")],
        vec![],
        ReturnModel::Default,
    );
    let x = expand(args(vec![]), f);
    assert_eq!(x.schema.description, "First line. Second\tline.");
}

#[test]
fn function_call_on_non_fn() {
    // `#[function_call(;)]`: the arguments are not expressions.
    match function_call(&MacroArgs::Malformed("expected an expression".to_string()), change_light()) {
        MacroOutput::CompileError { message, error } => {
            assert_eq!(message, "expected an expression");
            assert!(matches!(error.kind, open_ai_rust_fn_call_extension::model::ErrorKind::Syntax(_)));
        }
        MacroOutput::Expanded(_) => panic!("expected a compile error"),
    }
}
