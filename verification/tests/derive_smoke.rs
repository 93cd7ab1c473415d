use open_ai_rust_fn_call_extension::derive::{turn_type_to_function_call, DeriveExpansion, SchemaType};
use open_ai_rust_fn_call_extension::model::{
    AttributeModel, DataModel, DeriveInputModel, ExprModel, FieldModel, MacroOutput, MetaModel,
    NestedItem, NestedList, TypeModel, VariantModel,
};

/// The arguments of an attribute without `(...)`, read as a list.
fn no_list() -> NestedList {
    NestedList { items: vec![], syntax_error: Some("expected parentheses".to_string()) }
}

fn path_ty(tokens: &str, last: &str) -> TypeModel {
    TypeModel { tokens: tokens.to_string(), last_segment: Some(last.to_string()) }
}

fn doc(text: &str) -> AttributeModel {
    AttributeModel {
        name: Some("doc".to_string()),
        meta: MetaModel::NameValue(ExprModel::Str(text.to_string())),
        args: no_list(),
        tag: 0,
    }
}

fn function_call_attr(items: Vec<NestedItem>) -> AttributeModel {
    AttributeModel {
        name: Some("function_call".to_string()),
        meta: MetaModel::List,
        args: NestedList { items, syntax_error: None },
        tag: 1,
    }
}

fn flag(key: &str) -> NestedItem {
    NestedItem {
        key: Some(key.to_string()),
        as_flag: Ok(()),
        as_string: Err("expected `=`".to_string()),
    }
}

fn assign(key: &str, value: &str) -> NestedItem {
    NestedItem {
        key: Some(key.to_string()),
        as_flag: Err("expected `,`".to_string()),
        as_string: Ok(value.to_string()),
    }
}

fn crate_mock() -> AttributeModel {
    function_call_attr(vec![assign("crate", "crate::mock")])
}

fn field(name: Option<&str>, attrs: Vec<AttributeModel>, ty: TypeModel) -> FieldModel {
    FieldModel { ident: name.map(|n| n.to_string()), attrs, ty }
}

fn derive(input: DeriveInputModel) -> DeriveExpansion {
    match turn_type_to_function_call(&input) {
        MacroOutput::Expanded(x) => x,
        MacroOutput::CompileError { message: m, .. } => panic!("unexpected compile error: {m}"),
    }
}

fn widget() -> DeriveInputModel {
    DeriveInputModel {
        ident: "Widget".to_string(),
        attrs: vec![doc(" A widget."), crate_mock()],
        data: DataModel::Struct(vec![
            field(Some("on"), vec![doc(" whether it is on")], path_ty("bool", "bool")),
            field(Some("quantity"), vec![function_call_attr(vec![assign("rename", "qty")])], path_ty("i64", "i64")),
            field(Some("label"), vec![doc(" optional label")], path_ty("Option < String >", "Option")),
            field(Some("internal"), vec![function_call_attr(vec![flag("skip")])], path_ty("String", "String")),
        ]),
    }
}

#[test]
fn widget_fn_schema() {
    let fc = derive(widget());
    assert_eq!(fc.name, "Widget");
    assert_eq!(fc.description.as_deref(), Some("A widget."));
    assert_eq!(fc.trait_path, "crate::mock");
    // 3 fields (internal skipped)
    assert_eq!(fc.parameters.len(), 3);

    assert_eq!(fc.parameters[0].name, "on");
    assert_eq!(fc.parameters[0].description.as_deref(), Some("whether it is on"));
    assert_eq!(fc.parameters[0].ty.tokens, "bool");
    assert!(fc.parameters[0].required);

    assert_eq!(fc.parameters[1].name, "qty");
    assert_eq!(fc.parameters[1].ty.tokens, "i64");
    assert!(fc.parameters[1].required);

    // Option<String> -> required: false
    assert_eq!(fc.parameters[2].name, "label");
    assert!(!fc.parameters[2].required);
}

#[test]
fn widget_schema_type_static() {
    let SchemaType::Object(params) = derive(widget()).schema_type else {
        panic!("expected Object")
    };
    assert_eq!(params.len(), 3);
    assert_eq!(params[0].name, "on");
    assert_eq!(params[1].name, "qty");
    assert_eq!(params[2].name, "label");
    assert!(!params[2].required);
}

fn mode() -> DeriveInputModel {
    DeriveInputModel {
        ident: "Mode".to_string(),
        attrs: vec![doc(" Light mode."), crate_mock()],
        data: DataModel::Enum(vec![
            VariantModel { ident: "On".to_string(), is_unit: true },
            VariantModel { ident: "Off".to_string(), is_unit: true },
        ]),
    }
}

#[test]
fn unit_enum_schema_type_static() {
    let SchemaType::StringEnum(variants) = derive(mode()).schema_type else {
        panic!("expected Enum(String(...))")
    };
    assert_eq!(variants, vec!["On", "Off"]);
}

#[test]
fn unit_enum_fn_schema() {
    let fc = derive(mode());
    assert_eq!(fc.name, "Mode");
    assert_eq!(fc.description.as_deref(), Some("Light mode."));
    assert_eq!(fc.parameters.len(), 0);
}

#[test]
fn tuple_struct_default_names() {
    let pair = DeriveInputModel {
        ident: "Pair".to_string(),
        attrs: vec![crate_mock()],
        data: DataModel::Struct(vec![
            field(None, vec![], path_ty("i64", "i64")),
            field(None, vec![], path_ty("bool", "bool")),
        ]),
    };
    let fc = derive(pair);
    assert_eq!(fc.parameters[0].name, "_0");
    assert_eq!(fc.parameters[1].name, "_1");
    assert!(fc.parameters[0].required);
}

#[test]
fn tuple_struct_names_count_skipped_fields() {
    let fields: Vec<FieldModel> = (0..12)
        .map(|i| {
            let attrs = if i == 1 { vec![function_call_attr(vec![flag("skip")])] } else { vec![] };
            field(None, attrs, path_ty("u8", "u8"))
        })
        .collect();
    let fc = derive(DeriveInputModel { ident: "Many".to_string(), attrs: vec![], data: DataModel::Struct(fields) });
    let names: Vec<&str> = fc.parameters.iter().map(|p| p.name.as_str()).collect();
    assert_eq!(names, vec!["_0", "_2", "_3", "_4", "_5", "_6", "_7", "_8", "_9", "_10", "_11"]);
    let positions: Vec<usize> = fc.parameters.iter().map(|p| p.field).collect();
    assert_eq!(positions, vec![0, 2, 3, 4, 5, 6, 7, 8, 9, 10, 11]);
    assert_eq!(fc.trait_path, "::open_ai_rust::logoi::input::tool::raw_macro");
}
