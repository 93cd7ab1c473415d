use open_ai_rust_fn_call_extension::derive::{turn_type_to_function_call, DeriveExpansion, SchemaType};
use open_ai_rust_fn_call_extension::model::{
    AttributeModel, DataModel, DeriveInputModel, ErrorKind, ExprModel, FieldModel, MacroError,
    MacroOutput, MetaModel, NestedItem, NestedList, TypeModel, VariantModel,
};

/// The arguments of an attribute without `(...)`, read as a list.
fn no_list() -> NestedList {
    NestedList { items: vec![], syntax_error: Some("expected parentheses".to_string()) }
}

fn path_ty(tokens: &str, last: &str) -> TypeModel {
    TypeModel { tokens: tokens.to_string(), last_segment: Some(last.to_string()) }
}

fn doc(text: &str) -> AttributeModel {
    AttributeModel {
        name: Some("doc".to_string()),
        meta: MetaModel::NameValue(ExprModel::Str(text.to_string())),
        args: no_list(),
        tag: 0,
    }
}

fn function_call_attr(items: Vec<NestedItem>) -> AttributeModel {
    AttributeModel {
        name: Some("function_call".to_string()),
        meta: MetaModel::List,
        args: NestedList { items, syntax_error: None },
        tag: 1,
    }
}

/// An item with what the parser answers when it reads it as a lone key and
/// as `key = "value"`.
fn item(key: &str, as_flag: Result<(), &str>, as_string: Result<&str, &str>) -> NestedItem {
    NestedItem {
        key: Some(key.to_string()),
        as_flag: as_flag.map_err(|m| m.to_string()),
        as_string: as_string.map(|v| v.to_string()).map_err(|m| m.to_string()),
    }
}

/// `key`, alone.
fn flag(key: &str) -> NestedItem {
    item(key, Ok(()), Err("expected `=`"))
}

/// `key = "value"`.
fn assign(key: &str, value: &str) -> NestedItem {
    item(key, Err("expected `,`"), Ok(value))
}

/// The arguments of a `#[function_call]` attribute that the parser could not
/// read, with its message.
fn unreadable(message: &str) -> NestedList {
    NestedList { items: vec![], syntax_error: Some(message.to_string()) }
}

fn crate_mock() -> AttributeModel {
    function_call_attr(vec![assign("crate", "crate::mock")])
}

fn one_field(ident: &str, field_attrs: Vec<AttributeModel>, ty: TypeModel) -> DeriveInputModel {
    DeriveInputModel {
        ident: ident.to_string(),
        attrs: vec![crate_mock()],
        data: DataModel::Struct(vec![FieldModel { ident: Some("field".to_string()), attrs: field_attrs, ty }]),
    }
}

fn derive(input: DeriveInputModel) -> DeriveExpansion {
    match turn_type_to_function_call(&input) {
        MacroOutput::Expanded(x) => x,
        MacroOutput::CompileError { message: m, .. } => panic!("unexpected compile error: {m}"),
    }
}

fn refused(input: DeriveInputModel) -> String {
    match turn_type_to_function_call(&input) {
        MacroOutput::Expanded(_) => panic!("expected a compile error"),
        MacroOutput::CompileError { message: m, .. } => m,
    }
}

#[test]
fn description_attr_wins_over_doc_comment() {
    let fc = derive(one_field(
        "WithDescriptionAttr",
        vec![
            doc(" this doc-comment should be overridden"),
            function_call_attr(vec![assign("description", "explicit description override")]),
        ],
        path_ty("bool", "bool"),
    ));
    assert_eq!(fc.parameters[0].description.as_deref(), Some("explicit description override"));
}

#[test]
fn reference_field_type_works() {
    let fc = derive(one_field(
        "WithReference",
        vec![],
        TypeModel { tokens: "& 'static str".to_string(), last_segment: None },
    ));
    assert_eq!(fc.parameters.len(), 1);
    assert!(fc.parameters[0].required);
}

#[test]
fn generic_struct_compiles_and_works() {
    let input = DeriveInputModel {
        ident: "Generic".to_string(),
        attrs: vec![crate_mock()],
        data: DataModel::Struct(vec![FieldModel {
            ident: Some("value".to_string()),
            attrs: vec![],
            ty: path_ty("T", "T"),
        }]),
    };
    let fc = derive(input);
    assert_eq!(fc.parameters[0].name, "value");
    assert_eq!(fc.parameters[0].ty.tokens, "T");
}

fn marker() -> DeriveInputModel {
    DeriveInputModel { ident: "Marker".to_string(), attrs: vec![crate_mock()], data: DataModel::Struct(vec![]) }
}

#[test]
fn unit_struct_emits_empty_object() {
    let fc = derive(marker());
    assert_eq!(fc.parameters.len(), 0);
    assert!(matches!(fc.schema_type, SchemaType::Object(ref v) if v.is_empty()));
}

#[test]
fn unit_struct_static_methods() {
    let fc = derive(marker());
    assert_eq!(fc.name, "Marker");
    assert_eq!(fc.parameters.len(), 0);
}

#[test]
fn missing_description_is_none() {
    let fc = derive(one_field("NoDesc", vec![], path_ty("bool", "bool")));
    assert!(fc.parameters[0].description.is_none());
    assert!(fc.description.is_none());
}

#[test]
fn data_variant_enum_is_refused() {
    let input = DeriveInputModel {
        ident: "Bad".to_string(),
        attrs: vec![],
        data: DataModel::Enum(vec![
            VariantModel { ident: "A".to_string(), is_unit: true },
            VariantModel { ident: "B".to_string(), is_unit: false },
        ]),
    };
    assert_eq!(
        refused(input),
        "FunctionCall derive currently only supports unit enum variants; data-variant enums (oneOf) are planned for a future release"
    );
}

#[test]
fn union_is_refused() {
    let input = DeriveInputModel { ident: "Bad".to_string(), attrs: vec![], data: DataModel::Union };
    assert_eq!(refused(input), "FunctionCall derive does not support unions");
}

#[test]
fn unknown_container_attribute_is_refused() {
    let input = DeriveInputModel {
        ident: "Bad".to_string(),
        attrs: vec![function_call_attr(vec![flag("bogus_container_attr")])],
        data: DataModel::Struct(vec![]),
    };
    assert_eq!(refused(input), "unknown function_call container attribute (expected: crate)");
}

#[test]
fn unknown_field_attribute_is_refused() {
    let input = one_field("Bad", vec![function_call_attr(vec![flag("bogus")])], path_ty("u32", "u32"));
    assert_eq!(refused(input), "unknown function_call attribute (expected: skip, rename, description)");
}

#[test]
fn malformed_option_values_are_refused() {
    let no_value = one_field("Bad", vec![function_call_attr(vec![flag("rename")])], path_ty("u32", "u32"));
    assert_eq!(refused(no_value), "expected `=`");
    let not_a_string = one_field(
        "Bad",
        vec![function_call_attr(vec![item("description", Err("expected `,`"), Err("expected string literal"))])],
        path_ty("u32", "u32"),
    );
    assert_eq!(refused(not_a_string), "expected string literal");
    let flag_with_value = one_field("Bad", vec![function_call_attr(vec![assign("skip", "yes")])], path_ty("u32", "u32"));
    assert_eq!(refused(flag_with_value), "expected `,`");
    let bare = one_field(
        "Bad",
        vec![AttributeModel {
            name: Some("function_call".to_string()),
            meta: MetaModel::Path,
            args: unreadable("expected attribute arguments in parentheses: #[function_call(...)]"),
            tag: 3,
        }],
        path_ty("u32", "u32"),
    );
    assert_eq!(refused(bare), "expected attribute arguments in parentheses: #[function_call(...)]");
    let name_value = one_field(
        "Bad",
        vec![AttributeModel {
            name: Some("function_call".to_string()),
            meta: MetaModel::NameValue(ExprModel::Str("x".to_string())),
            args: unreadable("expected parentheses: #[function_call(...)]"),
            tag: 3,
        }],
        path_ty("u32", "u32"),
    );
    assert_eq!(refused(name_value), "expected parentheses: #[function_call(...)]");
    let syntax = one_field(
        "Bad",
        vec![AttributeModel {
            name: Some("function_call".to_string()),
            meta: MetaModel::List,
            args: unreadable("expected nested attribute"),
            tag: 3,
        }],
        path_ty("u32", "u32"),
    );
    assert_eq!(refused(syntax), "expected nested attribute");
}

#[test]
fn invalid_crate_path_is_refused() {
    let input = DeriveInputModel {
        ident: "Bad".to_string(),
        attrs: vec![function_call_attr(vec![assign("crate", "not a path")])],
        data: DataModel::Struct(vec![]),
    };
    assert!(!refused(input).is_empty());
    let good = DeriveInputModel {
        ident: "Good".to_string(),
        attrs: vec![function_call_attr(vec![assign("crate", "::some::module")])],
        data: DataModel::Struct(vec![]),
    };
    assert_eq!(derive(good).trait_path, "::some::module");
}

#[test]
fn last_rename_wins_and_other_attributes_are_ignored() {
    let input = one_field(
        "R",
        vec![
            function_call_attr(vec![assign("rename", "first")]),
            AttributeModel { name: Some("serde".to_string()), meta: MetaModel::Path, args: no_list(), tag: 9 },
            function_call_attr(vec![assign("rename", "second")]),
        ],
        path_ty("u8", "u8"),
    );
    assert_eq!(derive(input).parameters[0].name, "second");
}

fn refusal(input: DeriveInputModel) -> (String, MacroError) {
    match turn_type_to_function_call(&input) {
        MacroOutput::Expanded(_) => panic!("expected a compile error"),
        MacroOutput::CompileError { message, error } => (message, error),
    }
}

#[test]
fn derive_enum_with_data() {
    let input = DeriveInputModel {
        ident: "Bad".to_string(),
        attrs: vec![],
        data: DataModel::Enum(vec![
            VariantModel { ident: "A".to_string(), is_unit: true },
            VariantModel { ident: "B".to_string(), is_unit: false },
            VariantModel { ident: "C".to_string(), is_unit: false },
        ]),
    };
    let (message, error) = refusal(input);
    assert_eq!(
        message,
        "FunctionCall derive currently only supports unit enum variants; data-variant enums (oneOf) are planned for a future release"
    );
    assert!(matches!(error.kind, ErrorKind::DataVariantEnum));
    assert_eq!(error.site.variant, Some(1));
    assert_eq!((error.site.field, error.site.attr, error.site.item), (None, None, None));
}

#[test]
fn derive_union() {
    let (message, error) = refusal(DeriveInputModel { ident: "Bad".to_string(), attrs: vec![], data: DataModel::Union });
    assert_eq!(message, "FunctionCall derive does not support unions");
    assert!(matches!(error.kind, ErrorKind::Union));
}

#[test]
fn derive_unknown_container_attr() {
    let input = DeriveInputModel {
        ident: "Bad".to_string(),
        attrs: vec![doc(" A type."), function_call_attr(vec![flag("bogus_container_attr")])],
        data: DataModel::Struct(vec![]),
    };
    let (message, error) = refusal(input);
    assert_eq!(message, "unknown function_call container attribute (expected: crate)");
    assert_eq!((error.site.field, error.site.attr, error.site.item), (None, Some(1), Some(0)));
}

#[test]
fn field_attr_unknown() {
    let input = DeriveInputModel {
        ident: "Bad".to_string(),
        attrs: vec![],
        data: DataModel::Struct(vec![
            FieldModel { ident: Some("ok".to_string()), attrs: vec![], ty: path_ty("u32", "u32") },
            FieldModel {
                ident: Some("a".to_string()),
                attrs: vec![function_call_attr(vec![flag("skip"), flag("bogus")])],
                ty: path_ty("u32", "u32"),
            },
        ]),
    };
    let (message, error) = refusal(input);
    assert_eq!(message, "unknown function_call attribute (expected: skip, rename, description)");
    assert_eq!((error.site.field, error.site.attr, error.site.item), (Some(1), Some(0), Some(1)));
}

#[test]
fn string_value_followed_by_more_tokens_expects_comma() {
    let input = one_field(
        "Bad",
        vec![function_call_attr(vec![item("rename", Err("expected `,`"), Err("expected `,`"))])],
        path_ty("u32", "u32"),
    );
    let (message, error) = refusal(input);
    assert_eq!(message, "expected `,`");
    assert_eq!((error.site.field, error.site.attr, error.site.item), (Some(0), Some(0), Some(0)));
}

#[test]
fn attribute_level_errors_have_no_item() {
    let input = one_field(
        "Bad",
        vec![doc(" d"), AttributeModel { name: Some("function_call".to_string()), meta: MetaModel::Path, args: no_list(), tag: 3 }],
        path_ty("u32", "u32"),
    );
    let (_, error) = refusal(input);
    assert_eq!((error.site.field, error.site.attr, error.site.item), (Some(0), Some(1), None));
}

#[test]
fn empty_or_keyword_crate_path_is_refused() {
    let with_path = |path: &str| DeriveInputModel {
        ident: "T".to_string(),
        attrs: vec![function_call_attr(vec![assign("crate", path)])],
        data: DataModel::Struct(vec![]),
    };
    let (message, error) = refusal(with_path(""));
    assert!(!message.is_empty());
    assert!(matches!(error.kind, ErrorKind::InvalidCratePath(_)));
    let (_, error) = refusal(with_path("a::fn"));
    assert!(matches!(error.kind, ErrorKind::InvalidCratePath(_)));
    assert_eq!(derive(with_path("a::b_c::D9")).trait_path, "a::b_c::D9");
}

#[test]
fn keyword_headed_crate_paths_are_accepted() {
    let with_path = |path: &str| DeriveInputModel {
        ident: "T".to_string(),
        attrs: vec![function_call_attr(vec![assign("crate", path)])],
        data: DataModel::Struct(vec![]),
    };
    for path in ["crate::mock", "self::x", "super", "Self::Thing", "crate"] {
        assert_eq!(derive(with_path(path)).trait_path, path);
    }
}
