//! `#[derive(FunctionCall)]`: the schema a struct or unit-variant enum is
//! described by.
use vstd::prelude::*;
use crate::describe::{collect_doc_comment, doc_comment, is_option_type, nonempty, optional_string, or_else, outer_is};
use crate::external::{check_path, keyword_head_path, plain_path};
use crate::model::{
    at_variant, bare, bare_error, error_message, field_error, in_field, opt_view, variant_error,
    refusal, no_site, DataModel, ErrorKind, DeriveInputModel, FieldModel, MacroError,
    MacroOutput, TypeModel,
    TypeView, VariantModel,
};
use crate::opts::{container_path_of, field_opts_of, parse_container_opts, parse_field_opts, ContainerOpts, FieldOptsView};
use crate::text::{decimal, with_decimal_suffix};

verus! {

/// What the schema says of one struct field.
#[derive(Debug)]
pub struct FieldInfo {
    /// The position of the field in the struct.
    pub field: usize,
    /// The field's type.
    pub ty: TypeModel,
    /// The name the schema uses (after `rename`).
    pub name_out: String,
    /// The description (attribute, else doc comment, else empty).
    pub description: String,
    /// `false` exactly when the field's outermost type is `Option<_>`.
    pub required: bool,
}

/// The mathematical value of a [`FieldInfo`].
pub struct FieldInfoView {
    pub field: int,
    pub ty: TypeView,
    pub name: Seq<char>,
    pub description: Seq<char>,
    pub required: bool,
}

impl View for FieldInfo {
    type V = FieldInfoView;

    open spec fn view(&self) -> FieldInfoView {
        FieldInfoView {
            field: self.field as int,
            ty: self.ty@,
            name: self.name_out@,
            description: self.description@,
            required: self.required,
        }
    }
}

/// One `FunctionParameter` of the emitted schema; its `_type` is the
/// `schema_type()` of the field's type.
#[derive(Debug)]
pub struct ParamSpec {
    /// The position of the field it describes.
    pub field: usize,
    pub ty: TypeModel,
    pub name: String,
    pub description: Option<String>,
    pub required: bool,
}

/// The mathematical value of a [`ParamSpec`].
pub struct ParamSpecView {
    pub field: int,
    pub ty: TypeView,
    pub name: Seq<char>,
    pub description: Option<Seq<char>>,
    pub required: bool,
}

impl View for ParamSpec {
    type V = ParamSpecView;

    open spec fn view(&self) -> ParamSpecView {
        ParamSpecView {
            field: self.field as int,
            ty: self.ty@,
            name: self.name@,
            description: opt_view(self.description),
            required: self.required,
        }
    }
}

/// The body of the emitted `schema_type()`.
#[derive(Debug)]
pub enum SchemaType {
    /// `FunctionType::Object(vec![...])`
    Object(Vec<ParamSpec>),
    /// `FunctionType::Enum(EnumValues::String(vec![...]))`
    StringEnum(Vec<String>),
}

/// The mathematical value of a [`SchemaType`].
pub enum SchemaTypeView {
    Object(Seq<ParamSpecView>),
    StringEnum(Seq<Seq<char>>),
}

/// The `FunctionCallable` impl emitted for a type.
#[derive(Debug)]
pub struct DeriveExpansion {
    /// The module path of the `FunctionCallable` trait.
    pub trait_path: String,
    /// The type's name (`FunctionCall::name`).
    pub name: String,
    /// `FunctionCall::description`.
    pub description: Option<String>,
    /// What `schema_type()` returns.
    pub schema_type: SchemaType,
    /// `FunctionCall::parameters` of `fn_schema()`.
    pub parameters: Vec<ParamSpec>,
}

/// The mathematical value of a [`DeriveExpansion`].
pub struct DeriveView {
    pub trait_path: Seq<char>,
    pub name: Seq<char>,
    pub description: Option<Seq<char>>,
    pub schema_type: SchemaTypeView,
    pub parameters: Seq<ParamSpecView>,
}

pub open spec fn params_view(ps: Seq<ParamSpec>) -> Seq<ParamSpecView> {
    ps.map_values(|p: ParamSpec| p@)
}

pub open spec fn strings_view(ss: Seq<String>) -> Seq<Seq<char>> {
    ss.map_values(|s: String| s@)
}

impl View for DeriveExpansion {
    type V = DeriveView;

    open spec fn view(&self) -> DeriveView {
        DeriveView {
            trait_path: self.trait_path@,
            name: self.name@,
            description: opt_view(self.description),
            schema_type: match self.schema_type {
                SchemaType::Object(ps) => SchemaTypeView::Object(params_view(ps@)),
                SchemaType::StringEnum(vs) => SchemaTypeView::StringEnum(strings_view(vs@)),
            },
            parameters: params_view(self.parameters@),
        }
    }
}

/// The name a field has when it is not renamed: its identifier, or `_i`
/// for the field at position `i` of a tuple struct.
pub open spec fn default_field_name(f: FieldModel, i: int) -> Seq<char> {
    match f.ident {
        Some(id) => id@,
        None => "_"@ + decimal(i as nat),
    }
}

/// What the schema says of field `f` at position `i` with options `o`.
pub open spec fn field_info(f: FieldModel, i: int, o: FieldOptsView) -> FieldInfoView {
    FieldInfoView {
        field: i,
        ty: f.ty@,
        name: match o.rename {
            Some(r) => r,
            None => default_field_name(f, i),
        },
        description: match o.description {
            Some(d) => d,
            None => or_else(doc_comment(f.attrs@), Seq::empty()),
        },
        required: !outer_is(f.ty, "Option"@),
    }
}

/// The schema entries of `fields`, in order, skipped fields left out; the
/// first field whose options are refused decides the error, placed at that
/// field.
pub open spec fn collected_fields(fields: Seq<FieldModel>) -> Result<Seq<FieldInfoView>, MacroError>
    decreases fields.len(),
{
    if fields.len() == 0 {
        Ok(Seq::empty())
    } else {
        match collected_fields(fields.drop_last()) {
            Err(e) => Err(e),
            Ok(acc) => match field_opts_of(fields.last().attrs@) {
                Err(e) => Err(in_field(e, fields.len() - 1)),
                Ok(o) => if o.skip {
                    Ok(acc)
                } else {
                    Ok(acc.push(field_info(fields.last(), fields.len() - 1, o)))
                },
            },
        }
    }
}

/// The schema parameter of a field entry.
pub open spec fn param_of(f: FieldInfoView) -> ParamSpecView {
    ParamSpecView {
        field: f.field,
        ty: f.ty,
        name: f.name,
        description: nonempty(f.description),
        required: f.required,
    }
}

/// The names of the variants, in order.
pub open spec fn variant_names(vs: Seq<VariantModel>) -> Seq<Seq<char>> {
    vs.map_values(|v: VariantModel| v.ident@)
}

/// The position of the first variant that carries data.
pub open spec fn first_data_variant(vs: Seq<VariantModel>) -> int
    decreases vs.len(),
{
    if vs.len() == 0 || !vs[0].is_unit {
        0
    } else {
        1 + first_data_variant(vs.drop_first())
    }
}

/// Whether every variant is a unit variant.
pub open spec fn all_unit(vs: Seq<VariantModel>) -> bool {
    forall|i: int| 0 <= i < vs.len() ==> #[trigger] vs[i].is_unit
}

/// The impl emitted for `input` once its crate path `p` is accepted.
pub open spec fn derive_body(input: DeriveInputModel, p: Seq<char>) -> Result<DeriveView, MacroError> {
    let description = nonempty(or_else(doc_comment(input.attrs@), Seq::empty()));
    match input.data {
        DataModel::Struct(fields) => match collected_fields(fields@) {
            Err(e) => Err(e),
            Ok(infos) => {
                let params = infos.map_values(|f: FieldInfoView| param_of(f));
                Ok(
                    DeriveView {
                        trait_path: p,
                        name: input.ident@,
                        description,
                        schema_type: SchemaTypeView::Object(params),
                        parameters: params,
                    },
                )
            },
        },
        DataModel::Enum(vs) => if all_unit(vs@) {
            Ok(
                DeriveView {
                    trait_path: p,
                    name: input.ident@,
                    description,
                    schema_type: SchemaTypeView::StringEnum(variant_names(vs@)),
                    parameters: Seq::empty(),
                },
            )
        } else {
            Err(at_variant(ErrorKind::DataVariantEnum, first_data_variant(vs@)))
        },
        DataModel::Union => Err(bare(ErrorKind::Union)),
    }
}

/// The impl emitted for `input`, given what parsing its crate path as a
/// Rust path gave: `None` when it parsed, else the parser's message.
pub open spec fn derive_result(input: DeriveInputModel, path_error: Option<String>) -> Result<DeriveView, MacroError> {
    match container_path_of(input.attrs@) {
        Err(e) => Err(e),
        Ok(p) => match path_error {
            Some(m) => Err(bare(ErrorKind::InvalidCratePath(m))),
            None => derive_body(input, p),
        },
    }
}

/// The character view of a derive outcome.
pub open spec fn derive_outcome(r: Result<DeriveExpansion, MacroError>) -> Result<DeriveView, MacroError> {
    match r {
        Ok(x) => Ok(x@),
        Err(e) => Err(e),
    }
}

proof fn lemma_collected_err(fields: Seq<FieldModel>, k: int, e: MacroError)
    requires
        0 <= k <= fields.len(),
        collected_fields(fields.take(k)) == Err::<Seq<FieldInfoView>, MacroError>(e),
    ensures
        collected_fields(fields) == Err::<Seq<FieldInfoView>, MacroError>(e),
    decreases fields.len(),
{
    if k == fields.len() {
        assert(fields.take(k) =~= fields);
    } else {
        assert(fields.drop_last().take(k) =~= fields.take(k));
        lemma_collected_err(fields.drop_last(), k, e);
    }
}

/// The schema entries of the struct's fields, in order, skipped fields left
/// out.
pub fn collect_fields(fields: &Vec<FieldModel>) -> (r: Result<Vec<FieldInfo>, MacroError>)
    ensures
        match r {
            Ok(v) => collected_fields(fields@) == Ok::<Seq<FieldInfoView>, MacroError>(v@.map_values(|f: FieldInfo| f@)),
            Err(e) => collected_fields(fields@) == Err::<Seq<FieldInfoView>, MacroError>(e),
        },
{
    let mut out: Vec<FieldInfo> = Vec::new();
    let mut i: usize = 0;
    assert(fields@.take(0) =~= Seq::<FieldModel>::empty());
    assert(out@.map_values(|f: FieldInfo| f@) =~= Seq::<FieldInfoView>::empty());
    while i < fields.len()
        invariant
            i <= fields@.len(),
            collected_fields(fields@.take(i as int)) == Ok::<Seq<FieldInfoView>, MacroError>(out@.map_values(|f: FieldInfo| f@)),
        decreases fields@.len() - i,
    {
        assert(fields@.take(i + 1).drop_last() =~= fields@.take(i as int));
        assert(fields@.take(i + 1).last() == fields@[i as int]);
        let f = &fields[i];
        let opts = match parse_field_opts(&f.attrs) {
            Ok(o) => o,
            Err(e) => {
                let e = field_error(e, i);
                proof {
                    lemma_collected_err(fields@, i + 1, e);
                }
                return Err(e);
            },
        };
        if !opts.skip {
            let default_name = match &f.ident {
                Some(id) => id.clone(),
                None => with_decimal_suffix("_", i),
            };
            let name_out = match opts.rename {
                Some(r) => r,
                None => default_name,
            };
            let description = match opts.description {
                Some(d) => d,
                None => match collect_doc_comment(&f.attrs) {
                    Some(d) => d,
                    None => String::new(),
                },
            };
            let required = !is_option_type(&f.ty);
            let ghost before = out@.map_values(|f: FieldInfo| f@);
            out.push(FieldInfo { field: i, ty: f.ty.copy(), name_out, description, required });
            assert(out@.map_values(|f: FieldInfo| f@) =~= before.push(field_info(fields@[i as int], i as int, field_opts_of(fields@[i as int].attrs@)->Ok_0)));
        }
        i = i + 1;
    }
    assert(fields@.take(fields@.len() as int) =~= fields@);
    Ok(out)
}

/// The schema parameters of the field entries, in order.
pub fn emit_param_vec(fields: &Vec<FieldInfo>) -> (r: Vec<ParamSpec>)
    ensures
        params_view(r@) == fields@.map_values(|f: FieldInfo| param_of(f@)),
{
    let mut out: Vec<ParamSpec> = Vec::new();
    let mut i: usize = 0;
    while i < fields.len()
        invariant
            i <= fields@.len(),
            params_view(out@) == fields@.take(i as int).map_values(|f: FieldInfo| param_of(f@)),
        decreases fields@.len() - i,
    {
        let f = &fields[i];
        let ghost before = params_view(out@);
        out.push(
            ParamSpec {
                field: f.field,
                ty: f.ty.copy(),
                name: f.name_out.clone(),
                description: optional_string(f.description.as_str()),
                required: f.required,
            },
        );
        assert(params_view(out@) =~= before.push(param_of(fields@[i as int]@)));
        assert(fields@.take(i + 1).map_values(|f: FieldInfo| param_of(f@)) =~= fields@.take(i as int).map_values(|f: FieldInfo| param_of(f@)).push(param_of(fields@[i as int]@)));
        i = i + 1;
    }
    assert(fields@.take(fields@.len() as int) =~= fields@);
    out
}

/// A copy of the parameter list.
fn copy_params(ps: &Vec<ParamSpec>) -> (r: Vec<ParamSpec>)
    ensures
        params_view(r@) == params_view(ps@),
{
    let mut out: Vec<ParamSpec> = Vec::new();
    let mut i: usize = 0;
    while i < ps.len()
        invariant
            i <= ps@.len(),
            out@.len() == i,
            params_view(out@) == params_view(ps@.take(i as int)),
        decreases ps@.len() - i,
    {
        let p = &ps[i];
        let ghost before = out@;
        assert(ps@.take(i + 1) =~= ps@.take(i as int).push(ps@[i as int]));
        out.push(
            ParamSpec {
                field: p.field,
                ty: p.ty.copy(),
                name: p.name.clone(),
                description: crate::model::copy_opt(&p.description),
                required: p.required,
            },
        );
        assert forall|j: int| 0 <= j < i + 1 implies #[trigger] params_view(out@)[j] == params_view(ps@.take(i + 1))[j] by {
            if j < i {
                assert(out@[j] == before[j]);
                assert(params_view(before)[j] == params_view(ps@.take(i as int))[j]);
            }
        }
        assert(params_view(out@) =~= params_view(ps@.take(i + 1)));
        i = i + 1;
    }
    assert(ps@.take(ps@.len() as int) =~= ps@);
    out
}

proof fn lemma_first_data_variant(vs: Seq<VariantModel>, i: int)
    requires
        0 <= i < vs.len(),
        !vs[i].is_unit,
        forall|j: int| 0 <= j < i ==> #[trigger] vs[j].is_unit,
    ensures
        first_data_variant(vs) == i,
    decreases i,
{
    if i > 0 {
        assert(vs[0].is_unit);
        assert forall|j: int| 0 <= j < i - 1 implies #[trigger] vs.drop_first()[j].is_unit by {
            assert(vs.drop_first()[j] == vs[j + 1]);
        }
        lemma_first_data_variant(vs.drop_first(), i - 1);
    }
}

/// The variant names of a unit-variant enum, or the refusal of an enum
/// with a data variant.
fn unit_variant_names(vs: &Vec<VariantModel>) -> (r: Result<Vec<String>, MacroError>)
    ensures
        match r {
            Ok(names) => all_unit(vs@) && strings_view(names@) == variant_names(vs@),
            Err(e) => !all_unit(vs@) && e == at_variant(ErrorKind::DataVariantEnum, first_data_variant(vs@)),
        },
{
    let mut names: Vec<String> = Vec::new();
    let mut i: usize = 0;
    while i < vs.len()
        invariant
            i <= vs@.len(),
            names@.len() == i,
            all_unit(vs@.take(i as int)),
            strings_view(names@) == variant_names(vs@.take(i as int)),
        decreases vs@.len() - i,
    {
        if !vs[i].is_unit {
            proof {
                assert forall|j: int| 0 <= j < i implies #[trigger] vs@[j].is_unit by {
                    assert(vs@.take(i as int)[j] == vs@[j]);
                }
                lemma_first_data_variant(vs@, i as int);
            }
            return Err(variant_error(ErrorKind::DataVariantEnum, i));
        }
        let ghost before = names@;
        assert(vs@.take(i + 1) =~= vs@.take(i as int).push(vs@[i as int]));
        names.push(vs[i].ident.clone());
        assert forall|j: int| 0 <= j < i + 1 implies #[trigger] strings_view(names@)[j] == variant_names(vs@.take(i + 1))[j] by {
            if j < i {
                assert(names@[j] == before[j]);
                assert(strings_view(before)[j] == variant_names(vs@.take(i as int))[j]);
            }
        }
        assert(strings_view(names@) =~= variant_names(vs@.take(i + 1)));
        i = i + 1;
        assert(all_unit(vs@.take(i as int))) by {
            assert forall|j: int| 0 <= j < i implies #[trigger] vs@.take(i as int)[j].is_unit by {
                if j < i - 1 {
                    assert(vs@.take(i as int)[j] == vs@.take(i - 1)[j]);
                }
            }
        }
    }
    assert(vs@.take(vs@.len() as int) =~= vs@);
    Ok(names)
}

/// The impl emitted for `input` with container options `container`, given
/// what parsing the crate path as a Rust path gave.
fn derive_with(input: &DeriveInputModel, container: ContainerOpts, path_error: Option<String>) -> (r: Result<DeriveExpansion, MacroError>)
    requires
        container_path_of(input.attrs@) == Ok::<Seq<char>, MacroError>(container.crate_path@),
    ensures
        derive_outcome(r) == derive_result(*input, path_error),
{
    if let Some(m) = path_error {
        return Err(bare_error(ErrorKind::InvalidCratePath(m)));
    }
    let description = match collect_doc_comment(&input.attrs) {
        Some(d) => optional_string(d.as_str()),
        None => None,
    };
    match &input.data {
        DataModel::Struct(fields) => {
            let infos = collect_fields(fields)?;
            let params = emit_param_vec(&infos);
            let params2 = copy_params(&params);
            let ghost infos_view = infos@.map_values(|f: FieldInfo| f@);
            assert(infos@.map_values(|f: FieldInfo| param_of(f@)) =~= infos_view.map_values(|f: FieldInfoView| param_of(f)));
            Ok(
                DeriveExpansion {
                    trait_path: container.crate_path,
                    name: input.ident.clone(),
                    description,
                    schema_type: SchemaType::Object(params),
                    parameters: params2,
                },
            )
        },
        DataModel::Enum(vs) => {
            let names = unit_variant_names(vs)?;
            let ghost empty: Seq<ParamSpec> = Seq::empty();
            assert(params_view(empty) =~= Seq::<ParamSpecView>::empty());
            Ok(
                DeriveExpansion {
                    trait_path: container.crate_path,
                    name: input.ident.clone(),
                    description,
                    schema_type: SchemaType::StringEnum(names),
                    parameters: Vec::new(),
                },
            )
        },
        DataModel::Union => Err(bare_error(ErrorKind::Union)),
    }
}

/// The impl emitted for `input`, given what parsing its crate path as a
/// Rust path gave (`None` when it parsed, else the parser's message).
pub fn derive_expansion(input: &DeriveInputModel, path_error: Option<String>) -> (r: Result<DeriveExpansion, MacroError>)
    ensures
        derive_outcome(r) == derive_result(*input, path_error),
{
    let container = parse_container_opts(&input.attrs)?;
    derive_with(input, container, path_error)
}

/// The impl emitted for `input`: reads the crate path, checks that it parses
/// as a Rust path, and builds the impl. A plain path (such as the default
/// one) or one headed by `crate`, `self`, `super` or `Self` (such as
/// `crate::mock`) is accepted and an empty one refused; for other texts the
/// outcome of the check is not known here.
pub fn derive_impl(input: &DeriveInputModel) -> (r: Result<DeriveExpansion, MacroError>)
    ensures
        match container_path_of(input.attrs@) {
            Err(e) => r == Err::<DeriveExpansion, MacroError>(e),
            Ok(p) => {
                &&& {
                    ||| r matches Err(e) && e.kind is InvalidCratePath && e.site == no_site()
                    ||| derive_outcome(r) == derive_body(*input, p)
                }
                &&& (plain_path(p) || keyword_head_path(p)) ==> derive_outcome(r) == derive_body(*input, p)
                &&& p.len() == 0 ==> (r matches Err(e) && e.kind is InvalidCratePath && e.site == no_site())
            },
        },
{
    let container = parse_container_opts(&input.attrs)?;
    let path_error = check_path(container.crate_path.as_str());
    derive_with(input, container, path_error)
}

/// `r` is what the compiler is handed for the derive outcome `d`.
pub open spec fn derive_answer(r: MacroOutput<DeriveExpansion>, d: Result<DeriveView, MacroError>) -> bool {
    match d {
        Ok(v) => r matches MacroOutput::Expanded(x) && x@ == v,
        Err(e) => r matches MacroOutput::CompileError { message, error } && message@ == error_message(e) && error == e,
    }
}

/// `#[derive(FunctionCall)]`: the `FunctionCallable` impl for `input`, or
/// the compile error that refuses it.
pub fn turn_type_to_function_call(input: &DeriveInputModel) -> (r: MacroOutput<DeriveExpansion>)
    ensures
        match container_path_of(input.attrs@) {
            Err(e) => r matches MacroOutput::CompileError { message, error } && message@ == error_message(e) && error == e,
            Ok(p) => {
                &&& {
                    ||| r matches MacroOutput::CompileError { error, .. } && error.kind is InvalidCratePath
                        && error.site == no_site()
                    ||| derive_answer(r, derive_body(*input, p))
                }
                &&& (plain_path(p) || keyword_head_path(p)) ==> derive_answer(r, derive_body(*input, p))
                &&& p.len() == 0 ==> (r matches MacroOutput::CompileError { error, .. } && error.kind
                    is InvalidCratePath && error.site == no_site())
            },
        },
{
    match derive_impl(input) {
        Ok(x) => MacroOutput::Expanded(x),
        Err(e) => refusal(e),
    }
}

} // verus!
