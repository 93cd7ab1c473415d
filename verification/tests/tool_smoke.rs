use open_ai_rust_fn_call_extension::function::{tool, ToolExpansion};
use open_ai_rust_fn_call_extension::model::{
    AttributeModel, NestedList, ExprModel, FnArgModel, ItemFnModel, MacroArgs, MacroOutput, MetaModel, PatModel,
    ReturnModel, TypeModel,
};

/// The arguments of an attribute without `(...)`, read as a list.
fn no_list() -> NestedList {
    NestedList { items: vec![], syntax_error: Some("expected parentheses".to_string()) }
}

fn path_ty(tokens: &str, last: &str) -> TypeModel {
    TypeModel { tokens: tokens.to_string(), last_segment: Some(last.to_string()) }
}

fn arg(name: &str, ty: TypeModel) -> FnArgModel {
    FnArgModel::Typed { attrs: vec![], pat: PatModel::Ident(name.to_string()), ty }
}

fn doc(text: &str) -> AttributeModel {
    AttributeModel {
        name: Some("doc".to_string()),
        meta: MetaModel::NameValue(ExprModel::Str(text.to_string())),
        args: no_list(),
        tag: 0,
    }
}

fn expand(description: Option<&str>, f: ItemFnModel) -> ToolExpansion {
    let a = MacroArgs::Exprs(description.map(|d| vec![ExprModel::Str(d.to_string())]).unwrap_or_default());
    match tool(&a, f, false) {
        MacroOutput::Expanded(x) => x,
        MacroOutput::CompileError { message: m, .. } => panic!("unexpected compile error: {m}"),
    }
}

fn add_fn() -> ItemFnModel {
    ItemFnModel {
        name: "add".to_string(),
        is_async: false,
        attrs: vec![],
        inputs: vec![arg("a", path_ty("i64", "i64")), arg("b", path_ty("i64", "i64"))],
        output: ReturnModel::Type(path_ty("i64", "i64")),
    }
}

#[test]
fn tool_smoke_tool_emits_schema_const() {
    let x = expand(Some("Add two integers"), add_fn());
    assert_eq!(x.schema.name, "add");
    assert_eq!(x.schema.description, "Add two integers");
    assert_eq!(x.schema.parameters.len(), 2);
    assert_eq!(x.schema.parameters[0].name, "a");
    assert_eq!(x.schema.parameters[1].name, "b");
}

#[test]
fn tool_dispatch_plan_for_sync_fn() {
    let x = expand(Some("Add two integers"), add_fn());
    assert_eq!(x.dispatch_name, "add_dispatch");
    assert!(!x.awaits);
    assert!(!x.unwraps_result);
    let names: Vec<&str> = x.arguments.iter().map(|p| p.name.as_str()).collect();
    assert_eq!(names, vec!["a", "b"]);
    assert!(x.registry.is_none());
}

#[test]
fn tool_dispatch_doc_comment_description() {
    let f = ItemFnModel {
        name: "echo".to_string(),
        is_async: false,
        attrs: vec![doc(" Echo a string back to the caller.")],
        inputs: vec![arg("message", path_ty("String", "String"))],
        output: ReturnModel::Type(path_ty("String", "String")),
    };
    let x = expand(None, f);
    assert_eq!(x.schema.description, "Echo a string back to the caller.");
    assert_eq!(x.schema.const_name, "ECHO");
}

#[test]
fn tool_dispatch_plan_for_async_fn() {
    let f = ItemFnModel {
        name: "greet".to_string(),
        is_async: true,
        attrs: vec![],
        inputs: vec![arg("name", path_ty("String", "String"))],
        output: ReturnModel::Type(path_ty("String", "String")),
    };
    let x = expand(Some("Async greet"), f);
    assert!(x.awaits);
    assert_eq!(x.dispatch_name, "greet_dispatch");
}

#[test]
fn tool_dispatch_plan_unwraps_result_only() {
    let result_fn = ItemFnModel {
        name: "safe_divide".to_string(),
        is_async: false,
        attrs: vec![],
        inputs: vec![arg("numerator", path_ty("i64", "i64")), arg("denominator", path_ty("i64", "i64"))],
        output: ReturnModel::Type(path_ty("Result < i64 , String >", "Result")),
    };
    assert!(expand(Some("Safe divide"), result_fn).unwraps_result);

    let unit_fn = ItemFnModel {
        name: "log_event".to_string(),
        is_async: false,
        attrs: vec![],
        inputs: vec![arg("message", path_ty("String", "String"))],
        output: ReturnModel::Default,
    };
    assert!(!expand(Some("Side effect only"), unit_fn).unwraps_result);

    let tuple_fn = ItemFnModel {
        name: "split".to_string(),
        is_async: false,
        attrs: vec![],
        inputs: vec![arg("value", path_ty("String", "String"))],
        output: ReturnModel::Type(TypeModel { tokens: "(String , String)".to_string(), last_segment: None }),
    };
    assert!(!expand(Some("Returns a (x, y) tuple"), tuple_fn).unwraps_result);
}
