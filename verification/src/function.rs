//! `#[function_call]` and `#[tool]`: the schema constant emitted next to a
//! free function, and the JSON dispatch wrapper of a tool.
use vstd::prelude::*;
use crate::describe::{
    attr_description, extract_parameter_description, is_named, is_option_type, is_result_type,
    named, nonempty, optional_static_str, optional_string, or_else, outer_is, param_description,
    parse_attr_description, result_view, type_text, type_token_string,
};
use crate::external::{to_uppercase, uppercase};
use crate::model::{
    refusal, error_message, opt_view, AttributeModel, FnArgModel, ItemFnModel, MacroArgs, MacroError,
    MacroOutput, PatModel, ReturnModel, TypeModel, TypeView,
};

verus! {

/// What the schema records of one function parameter.
#[derive(Debug)]
pub struct ParamMeta {
    /// The position of the parameter in the signature.
    pub arg: usize,
    /// The schema-facing name (the binding's identifier).
    pub name: String,
    /// The parameter's type.
    pub ty: TypeModel,
    /// The printed type (generic arguments included).
    pub ty_string: String,
    /// The `#[function_call_description = "..."]` value, else empty.
    pub description: String,
}

/// The mathematical value of a [`ParamMeta`].
pub struct ParamMetaView {
    pub arg: int,
    pub name: Seq<char>,
    pub ty: TypeView,
    pub ty_string: Seq<char>,
    pub description: Seq<char>,
}

impl View for ParamMeta {
    type V = ParamMetaView;

    open spec fn view(&self) -> ParamMetaView {
        ParamMetaView {
            arg: self.arg as int,
            name: self.name@,
            ty: self.ty@,
            ty_string: self.ty_string@,
            description: self.description@,
        }
    }
}

pub open spec fn metas_view(ps: Seq<ParamMeta>) -> Seq<ParamMetaView> {
    ps.map_values(|p: ParamMeta| p@)
}

/// What the schema records of the parameters `inputs`: one entry per typed
/// parameter bound to a plain identifier, in order; receivers and other
/// patterns (`_`, tuples) are left out.
pub open spec fn param_metas(inputs: Seq<FnArgModel>) -> Seq<ParamMetaView>
    decreases inputs.len(),
{
    if inputs.len() == 0 {
        Seq::empty()
    } else {
        let prev = param_metas(inputs.drop_last());
        match inputs.last() {
            FnArgModel::Typed { attrs, pat: PatModel::Ident(n), ty } => prev.push(
                ParamMetaView {
                    arg: inputs.len() - 1,
                    name: n@,
                    ty: ty@,
                    ty_string: type_text(ty.tokens@),
                    description: or_else(param_description(attrs@), Seq::empty()),
                },
            ),
            _ => prev,
        }
    }
}

/// Whether the attribute is the parameter-description helper that the
/// macros consume.
pub open spec fn is_helper_attr(a: AttributeModel) -> bool {
    named(a, "function_call_description"@)
}

/// `attrs` without the helper attributes, order kept.
pub open spec fn without_helper_attrs(attrs: Seq<AttributeModel>) -> Seq<AttributeModel>
    decreases attrs.len(),
{
    if attrs.len() == 0 {
        Seq::empty()
    } else if is_helper_attr(attrs.last()) {
        without_helper_attrs(attrs.drop_last())
    } else {
        without_helper_attrs(attrs.drop_last()).push(attrs.last())
    }
}

/// `after` is parameter `before` with its helper attributes removed.
pub open spec fn arg_stripped(before: FnArgModel, after: FnArgModel) -> bool {
    match before {
        FnArgModel::Receiver => after is Receiver,
        FnArgModel::Typed { attrs, pat, ty } => match after {
            FnArgModel::Typed { attrs: a2, pat: p2, ty: t2 } => a2@ == without_helper_attrs(attrs@) && p2 == pat && t2
                == ty,
            FnArgModel::Receiver => false,
        },
    }
}

/// `after` is function `before` with the helper attributes removed from
/// every parameter, and nothing else changed.
pub open spec fn fn_stripped(before: ItemFnModel, after: ItemFnModel) -> bool {
    &&& after.name == before.name
    &&& after.is_async == before.is_async
    &&& after.attrs == before.attrs
    &&& after.output == before.output
    &&& after.inputs@.len() == before.inputs@.len()
    &&& forall|k: int| 0 <= k < before.inputs@.len() ==> arg_stripped(#[trigger] before.inputs@[k], after.inputs@[k])
}

/// One parameter of the schema constant (`FunctionParamRaw`).
#[derive(Debug)]
pub struct ParamRaw {
    pub name: String,
    pub ty: String,
    pub description: String,
}

/// The mathematical value of a [`ParamRaw`].
pub struct ParamRawView {
    pub name: Seq<char>,
    pub ty: Seq<char>,
    pub description: Seq<char>,
}

impl View for ParamRaw {
    type V = ParamRawView;

    open spec fn view(&self) -> ParamRawView {
        ParamRawView { name: self.name@, ty: self.ty@, description: self.description@ }
    }
}

/// `const NAME: FunctionCallRaw<'static> = FunctionCallRaw { .. };`
#[derive(Debug)]
pub struct SchemaConst {
    /// The constant's identifier: the function's name in upper case.
    pub const_name: String,
    /// `FunctionCallRaw::name`: the function's name.
    pub name: String,
    /// `FunctionCallRaw::description`.
    pub description: String,
    /// `FunctionCallRaw::parameters`.
    pub parameters: Vec<ParamRaw>,
}

/// The mathematical value of a [`SchemaConst`].
pub struct SchemaConstView {
    pub const_name: Seq<char>,
    pub name: Seq<char>,
    pub description: Seq<char>,
    pub parameters: Seq<ParamRawView>,
}

impl View for SchemaConst {
    type V = SchemaConstView;

    open spec fn view(&self) -> SchemaConstView {
        SchemaConstView {
            const_name: self.const_name@,
            name: self.name@,
            description: self.description@,
            parameters: self.parameters@.map_values(|p: ParamRaw| p@),
        }
    }
}

/// The raw parameter of a parameter's metadata.
pub open spec fn raw_of(p: ParamMetaView) -> ParamRawView {
    ParamRawView { name: p.name, ty: p.ty_string, description: p.description }
}

/// The schema constant of function `fn_name` with the given description and
/// parameters, its identifier being `const_name`.
pub open spec fn schema_const(
    const_name: Seq<char>,
    fn_name: Seq<char>,
    description: Seq<char>,
    params: Seq<ParamMetaView>,
) -> SchemaConstView {
    SchemaConstView {
        const_name,
        name: fn_name,
        description,
        parameters: params.map_values(|p: ParamMetaView| raw_of(p)),
    }
}

/// What `#[function_call]` emits: the schema constant, and the function
/// itself with the helper attributes removed.
#[derive(Debug)]
pub struct FunctionCallExpansion {
    pub schema: SchemaConst,
    pub item: ItemFnModel,
}

/// One `FunctionParameter` of a registered tool's schema.
#[derive(Debug)]
pub struct RegistryParam {
    /// The position of the parameter in the signature.
    pub arg: usize,
    pub name: String,
    pub ty: TypeModel,
    pub description: Option<String>,
    /// `false` exactly when the parameter's outermost type is `Option<_>`.
    pub required: bool,
}

/// The mathematical value of a [`RegistryParam`].
pub struct RegistryParamView {
    pub arg: int,
    pub name: Seq<char>,
    pub ty: TypeView,
    pub description: Option<Seq<char>>,
    pub required: bool,
}

impl View for RegistryParam {
    type V = RegistryParamView;

    open spec fn view(&self) -> RegistryParamView {
        RegistryParamView {
            arg: self.arg as int,
            name: self.name@,
            ty: self.ty@,
            description: opt_view(self.description),
            required: self.required,
        }
    }
}

/// The registry parameter of a parameter's metadata.
pub open spec fn registry_param_of(p: ParamMetaView) -> RegistryParamView {
    RegistryParamView {
        arg: p.arg,
        name: p.name,
        ty: p.ty,
        description: nonempty(p.description),
        required: !(p.ty.last_segment == Some("Option"@)),
    }
}

/// The items a tool adds to the global tool registry.
#[derive(Debug)]
pub struct RegistryEntry {
    /// The function that builds the tool's `FunctionCall` schema.
    pub schema_helper: String,
    /// The function pointer stored as the entry's dispatcher.
    pub dispatch_helper: String,
    /// The registered `static ToolEntry`.
    pub static_name: String,
    /// `ToolEntry::description`.
    pub entry_description: Option<String>,
    /// `FunctionCall::description` of the schema.
    pub schema_description: Option<String>,
    /// `FunctionCall::parameters` of the schema.
    pub parameters: Vec<RegistryParam>,
}

/// The mathematical value of a [`RegistryEntry`].
pub struct RegistryEntryView {
    pub schema_helper: Seq<char>,
    pub dispatch_helper: Seq<char>,
    pub static_name: Seq<char>,
    pub entry_description: Option<Seq<char>>,
    pub schema_description: Option<Seq<char>>,
    pub parameters: Seq<RegistryParamView>,
}

impl View for RegistryEntry {
    type V = RegistryEntryView;

    open spec fn view(&self) -> RegistryEntryView {
        RegistryEntryView {
            schema_helper: self.schema_helper@,
            dispatch_helper: self.dispatch_helper@,
            static_name: self.static_name@,
            entry_description: opt_view(self.entry_description),
            schema_description: opt_view(self.schema_description),
            parameters: self.parameters@.map_values(|p: RegistryParam| p@),
        }
    }
}

/// What `#[tool]` emits.
#[derive(Debug)]
pub struct ToolExpansion {
    /// The schema constant, as `#[function_call]` emits it.
    pub schema: SchemaConst,
    /// The dispatch wrapper's name: `<fn>_dispatch`.
    pub dispatch_name: String,
    /// The parameters the wrapper reads from the JSON arguments by name and
    /// passes on, in order.
    pub arguments: Vec<ParamMeta>,
    /// Whether the wrapper awaits the call (the function is `async`).
    pub awaits: bool,
    /// Whether the wrapper unwraps a `Result` before serialising, turning
    /// `Err(e)` into the error text.
    pub unwraps_result: bool,
    /// The registry entry, when registration is on.
    pub registry: Option<RegistryEntry>,
    /// The function itself, with the helper attributes removed.
    pub item: ItemFnModel,
}

/// Whether a function with return type `output` returns `Result<_, _>`.
pub open spec fn returns_result(output: ReturnModel) -> bool {
    match output {
        ReturnModel::Type(t) => outer_is(t, "Result"@),
        ReturnModel::Default => false,
    }
}

/// The registry entry of tool `fn_name`, whose name in upper case is
/// `upper`.
pub open spec fn registry_entry(
    fn_name: Seq<char>,
    upper: Seq<char>,
    description: Seq<char>,
    params: Seq<ParamMetaView>,
) -> RegistryEntryView {
    RegistryEntryView {
        schema_helper: "__oa_tool_schema_"@ + fn_name,
        dispatch_helper: "__oa_tool_dispatch_"@ + fn_name,
        static_name: "__OA_TOOL_"@ + upper,
        entry_description: nonempty(description),
        schema_description: nonempty(description),
        parameters: params.map_values(|p: ParamMetaView| registry_param_of(p)),
    }
}

proof fn lemma_param_metas_skip(inputs: Seq<FnArgModel>, k: int)
    requires
        0 <= k < inputs.len(),
    ensures
        param_metas(inputs.take(k + 1)) == match inputs[k] {
            FnArgModel::Typed { attrs, pat: PatModel::Ident(n), ty } => param_metas(inputs.take(k)).push(
                ParamMetaView {
                    arg: k,
                    name: n@,
                    ty: ty@,
                    ty_string: type_text(ty.tokens@),
                    description: or_else(param_description(attrs@), Seq::empty()),
                },
            ),
            _ => param_metas(inputs.take(k)),
        },
{
    assert(inputs.take(k + 1).drop_last() =~= inputs.take(k));
    assert(inputs.take(k + 1).last() == inputs[k]);
}

/// What the schema records of each named parameter, in order; receivers and
/// non-identifier patterns are left out.
pub fn extract_param_metadata(input: &ItemFnModel) -> (r: Vec<ParamMeta>)
    ensures
        metas_view(r@) == param_metas(input.inputs@),
{
    let mut out: Vec<ParamMeta> = Vec::new();
    let mut i: usize = 0;
    assert(metas_view(out@) =~= param_metas(input.inputs@.take(0)));
    while i < input.inputs.len()
        invariant
            i <= input.inputs@.len(),
            out@.len() == metas_view(out@).len(),
            metas_view(out@) == param_metas(input.inputs@.take(i as int)),
        decreases input.inputs@.len() - i,
    {
        proof {
            lemma_param_metas_skip(input.inputs@, i as int);
        }
        match &input.inputs[i] {
            FnArgModel::Typed { attrs, pat: PatModel::Ident(n), ty } => {
                let ghost before = out@;
                let description = match extract_parameter_description(attrs) {
                    Some(d) => d,
                    None => String::new(),
                };
                let meta = ParamMeta {
                    arg: i,
                    name: n.clone(),
                    ty: ty.copy(),
                    ty_string: type_token_string(ty),
                    description,
                };
                out.push(meta);
                assert(out@ =~= before.push(out@.last()));
                assert(metas_view(out@) =~= metas_view(before).push(out@.last()@));
            },
            _ => {},
        }
        i = i + 1;
    }
    assert(input.inputs@.take(input.inputs@.len() as int) =~= input.inputs@);
    out
}

/// `attrs` without the helper attributes, order kept.
fn strip_attrs(attrs: Vec<AttributeModel>) -> (r: Vec<AttributeModel>)
    ensures
        r@ == without_helper_attrs(attrs@),
{
    let mut rest = attrs;
    let mut kept: Vec<AttributeModel> = Vec::new();
    let ghost all = rest@;
    assert(all.len() == rest.len());
    let mut i: usize = 0;
    while rest.len() > 0
        invariant
            i + rest@.len() == all.len(),
            all.len() <= usize::MAX,
            rest@ == all.skip(i as int),
            kept@ == without_helper_attrs(all.take(i as int)),
        decreases rest@.len(),
    {
        let a = rest.remove(0);
        assert(all.take(i + 1).drop_last() =~= all.take(i as int));
        assert(all.take(i + 1).last() == all[i as int]);
        assert(all.skip(i + 1) =~= rest@);
        if !is_named(&a, "function_call_description") {
            kept.push(a);
        }
        i = i + 1;
    }
    assert(all.take(i as int) =~= all);
    kept
}

/// Removes the parameter-description helper attributes from every
/// parameter; they are consumed by the macro, and the compiler rejects them
/// on parameters.
pub fn strip_helper_attrs(input: &mut ItemFnModel)
    ensures
        fn_stripped(*old(input), *final(input)),
{
    let mut args: Vec<FnArgModel> = Vec::new();
    std::mem::swap(&mut args, &mut input.inputs);
    let ghost all = args@;
    assert(all.len() == args.len());
    let mut out: Vec<FnArgModel> = Vec::new();
    let mut i: usize = 0;
    while args.len() > 0
        invariant
            i + args@.len() == all.len(),
            all.len() <= usize::MAX,
            args@ == all.skip(i as int),
            out@.len() == i,
            forall|k: int| 0 <= k < i ==> arg_stripped(#[trigger] all[k], out@[k]),
        decreases args@.len(),
    {
        let arg = args.remove(0);
        assert(arg == all[i as int]);
        assert(all.skip(i + 1) =~= args@);
        let new_arg = match arg {
            FnArgModel::Receiver => FnArgModel::Receiver,
            FnArgModel::Typed { attrs, pat, ty } => FnArgModel::Typed { attrs: strip_attrs(attrs), pat, ty },
        };
        out.push(new_arg);
        i = i + 1;
    }
    input.inputs = out;
}

/// The schema constant of function `fn_name`, whose name in upper case is
/// `const_name`.
pub fn schema_const_named(const_name: String, fn_name: &str, description: &str, params: &Vec<ParamMeta>) -> (r: SchemaConst)
    ensures
        r@ == schema_const(const_name@, fn_name@, description@, metas_view(params@)),
{
    let mut parameters: Vec<ParamRaw> = Vec::new();
    let mut i: usize = 0;
    while i < params.len()
        invariant
            i <= params@.len(),
            parameters@.len() == i,
            forall|k: int| 0 <= k < i ==> #[trigger] parameters@[k]@ == raw_of(params@[k]@),
        decreases params@.len() - i,
    {
        let p = &params[i];
        parameters.push(ParamRaw { name: p.name.clone(), ty: p.ty_string.clone(), description: p.description.clone() });
        i = i + 1;
    }
    let r = SchemaConst {
        const_name,
        name: fn_name.to_owned(),
        description: description.to_owned(),
        parameters,
    };
    assert(r@.parameters =~= metas_view(params@).map_values(|p: ParamMetaView| raw_of(p)));
    r
}

/// The `const FN_NAME: FunctionCallRaw<'static>` schema of function
/// `fn_name`: its identifier is the name in upper case.
pub fn build_schema_const(fn_name: &str, description: &str, params: &Vec<ParamMeta>) -> (r: SchemaConst)
    ensures
        r@ == schema_const(uppercase(fn_name@), fn_name@, description@, metas_view(params@)),
{
    schema_const_named(to_uppercase(fn_name), fn_name, description, params)
}

/// The schema constant `#[function_call]` emits for `f`, or the error that
/// refuses the macro's arguments.
pub open spec fn function_call_schema(args: MacroArgs, f: ItemFnModel) -> Result<SchemaConstView, MacroError> {
    match attr_description(args, f.attrs@) {
        Err(e) => Err(e),
        Ok(d) => Ok(schema_const(uppercase(f.name@), f.name@, d, param_metas(f.inputs@))),
    }
}

/// The schema constant and the stripped function `#[function_call]` emits.
pub fn function_call_impl(attr: &MacroArgs, input: ItemFnModel) -> (r: Result<FunctionCallExpansion, MacroError>)
    ensures
        match r {
            Ok(x) => function_call_schema(*attr, input) == Ok::<SchemaConstView, MacroError>(x.schema@)
                && fn_stripped(input, x.item),
            Err(e) => function_call_schema(*attr, input) == Err::<SchemaConstView, MacroError>(e),
        },
{
    let mut input = input;
    let fn_name = input.name.clone();
    let description = parse_attr_description(attr, &input.attrs)?;
    let params = extract_param_metadata(&input);
    strip_helper_attrs(&mut input);
    let schema = build_schema_const(fn_name.as_str(), description.as_str(), &params);
    Ok(FunctionCallExpansion { schema, item: input })
}

/// `#[function_call("...")]`: the schema constant next to the function, or
/// the compile error that refuses the macro's arguments.
pub fn function_call(attr: &MacroArgs, item: ItemFnModel) -> (r: MacroOutput<FunctionCallExpansion>)
    ensures
        match function_call_schema(*attr, item) {
            Ok(v) => r matches MacroOutput::Expanded(x) && x.schema@ == v && fn_stripped(item, x.item),
            Err(e) => r matches MacroOutput::CompileError { message, error } && message@ == error_message(e) && error == e,
        },
{
    match function_call_impl(attr, item) {
        Ok(x) => MacroOutput::Expanded(x),
        Err(e) => refusal(e),
    }
}

/// The mathematical value of a [`ToolExpansion`] (the function itself
/// aside).
pub struct ToolView {
    pub schema: SchemaConstView,
    pub dispatch_name: Seq<char>,
    pub arguments: Seq<ParamMetaView>,
    pub awaits: bool,
    pub unwraps_result: bool,
    pub registry: Option<RegistryEntryView>,
}

impl View for ToolExpansion {
    type V = ToolView;

    open spec fn view(&self) -> ToolView {
        ToolView {
            schema: self.schema@,
            dispatch_name: self.dispatch_name@,
            arguments: metas_view(self.arguments@),
            awaits: self.awaits,
            unwraps_result: self.unwraps_result,
            registry: match self.registry {
                Some(e) => Some(e@),
                None => None,
            },
        }
    }
}

/// What `#[tool]` emits for `f`, with or without the registry entry, or the
/// error that refuses the macro's arguments.
pub open spec fn tool_result(args: MacroArgs, f: ItemFnModel, with_registry: bool) -> Result<ToolView, MacroError> {
    match attr_description(args, f.attrs@) {
        Err(e) => Err(e),
        Ok(d) => {
            let params = param_metas(f.inputs@);
            let upper = uppercase(f.name@);
            Ok(
                ToolView {
                    schema: schema_const(upper, f.name@, d, params),
                    dispatch_name: f.name@ + "_dispatch"@,
                    arguments: params,
                    awaits: f.is_async,
                    unwraps_result: returns_result(f.output),
                    registry: if with_registry {
                        Some(registry_entry(f.name@, upper, d, params))
                    } else {
                        None
                    },
                },
            )
        },
    }
}

/// `a` followed by `b`.
fn concat(a: &str, b: &str) -> (r: String)
    ensures
        r@ == a@ + b@,
{
    let mut r = String::new();
    r.append(a);
    r.append(b);
    assert(r@ =~= a@ + b@);
    r
}

/// The registry entry of tool `fn_name`.
fn build_registry_entry(fn_name: &str, description: &str, params: &Vec<ParamMeta>) -> (r: RegistryEntry)
    ensures
        r@ == registry_entry(fn_name@, uppercase(fn_name@), description@, metas_view(params@)),
{
    let mut parameters: Vec<RegistryParam> = Vec::new();
    let mut i: usize = 0;
    while i < params.len()
        invariant
            i <= params@.len(),
            parameters@.len() == i,
            forall|k: int| 0 <= k < i ==> #[trigger] parameters@[k]@ == registry_param_of(params@[k]@),
        decreases params@.len() - i,
    {
        let p = &params[i];
        parameters.push(
            RegistryParam {
                arg: p.arg,
                name: p.name.clone(),
                ty: p.ty.copy(),
                description: optional_string(p.description.as_str()),
                required: !is_option_type(&p.ty),
            },
        );
        i = i + 1;
    }
    let upper = to_uppercase(fn_name);
    let r = RegistryEntry {
        schema_helper: concat("__oa_tool_schema_", fn_name),
        dispatch_helper: concat("__oa_tool_dispatch_", fn_name),
        static_name: concat("__OA_TOOL_", upper.as_str()),
        entry_description: optional_static_str(description),
        schema_description: optional_string(description),
        parameters,
    };
    assert(r@.parameters =~= metas_view(params@).map_values(|p: ParamMetaView| registry_param_of(p)));
    r
}

/// The schema constant, dispatch wrapper, optional registry entry and
/// stripped function `#[tool]` emits.
pub fn tool_impl(attr: &MacroArgs, input: ItemFnModel, with_registry: bool) -> (r: Result<ToolExpansion, MacroError>)
    ensures
        match r {
            Ok(x) => tool_result(*attr, input, with_registry) == Ok::<ToolView, MacroError>(x@) && fn_stripped(input, x.item),
            Err(e) => tool_result(*attr, input, with_registry) == Err::<ToolView, MacroError>(e),
        },
{
    let mut input = input;
    let fn_name = input.name.clone();
    let description = parse_attr_description(attr, &input.attrs)?;
    let params = extract_param_metadata(&input);
    strip_helper_attrs(&mut input);
    let schema = build_schema_const(fn_name.as_str(), description.as_str(), &params);
    let awaits = input.is_async;
    let dispatch_name = concat(fn_name.as_str(), "_dispatch");
    let unwraps_result = match &input.output {
        ReturnModel::Type(ty) => is_result_type(ty),
        ReturnModel::Default => false,
    };
    let registry = if with_registry {
        Some(build_registry_entry(fn_name.as_str(), description.as_str(), &params))
    } else {
        None
    };
    Ok(ToolExpansion { schema, dispatch_name, arguments: params, awaits, unwraps_result, registry, item: input })
}

/// `#[tool("...")]`: the schema constant, the JSON dispatch wrapper and,
/// with `with_registry`, the registry entry; or the compile error that
/// refuses the macro's arguments.
pub fn tool(attr: &MacroArgs, item: ItemFnModel, with_registry: bool) -> (r: MacroOutput<ToolExpansion>)
    ensures
        match tool_result(*attr, item, with_registry) {
            Ok(v) => r matches MacroOutput::Expanded(x) && x@ == v && fn_stripped(item, x.item),
            Err(e) => r matches MacroOutput::CompileError { message, error } && message@ == error_message(e) && error == e,
        },
{
    match tool_impl(attr, item, with_registry) {
        Ok(x) => MacroOutput::Expanded(x),
        Err(e) => refusal(e),
    }
}

} // verus!
