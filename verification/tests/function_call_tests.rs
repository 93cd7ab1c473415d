use open_ai_rust_fn_call_extension::function::function_call;
use open_ai_rust_fn_call_extension::model::{
    ExprModel, FnArgModel, ItemFnModel, MacroArgs, MacroOutput, PatModel, ReturnModel, TypeModel,
};

fn arg(name: &str, tokens: &str) -> FnArgModel {
    FnArgModel::Typed {
        attrs: vec![],
        pat: PatModel::Ident(name.to_string()),
        ty: TypeModel { tokens: tokens.to_string(), last_segment: Some(tokens.to_string()) },
    }
}

#[test]
fn test_function_call_attribute_macro() {
    let f = ItemFnModel {
        name: "change_light".to_string(),
        is_async: false,
        attrs: vec![],
        inputs: vec![arg("on", "bool"), arg("extra_data", "Arg")],
        output: ReturnModel::Default,
    };
    let a = MacroArgs::Exprs(vec![ExprModel::Str("This function changes the light state.".to_string())]);
    let x = match function_call(&a, f) {
        MacroOutput::Expanded(x) => x,
        MacroOutput::CompileError { message: m, .. } => panic!("unexpected compile error: {m}"),
    };

    let mut parameters = [""; 100];
    parameters[0] = "on: bool";
    parameters[1] = "extra_data: Arg";

    let rendered: Vec<String> = x.schema.parameters.iter().map(|p| format!("{}: {}", p.name, p.ty)).collect();
    let mut emitted = [""; 100];
    for (i, r) in rendered.iter().enumerate() {
        emitted[i] = r.as_str();
    }
    println!("FUNCTION_CALL {:?}", rendered);

    assert_eq!(
        (x.schema.name.as_str(), x.schema.description.as_str(), emitted),
        ("change_light", "This function changes the light state.", parameters)
    );
}
