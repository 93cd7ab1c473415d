//! A plain-value model of the Rust items that the three macros read.
//!
//! Each type holds exactly what schema generation looks at: attribute names
//! and their string arguments, the rendered text of types, identifiers and
//! the shape of the item. Everything else of the source item stays with the
//! caller, which can find it again through the `tag` of an attribute and the
//! positions of arguments and fields.
use vstd::prelude::*;

verus! {

/// An expression, as far as schema generation distinguishes expressions.
#[derive(Debug)]
pub enum ExprModel {
    /// Exactly one string literal; holds its value (escapes resolved).
    Str(String),
    /// Any other expression.
    Other,
}

/// One comma-separated item of a `#[name(...)]` attribute, with what the
/// parser answers when it reads the item in each of the two shapes that an
/// option takes.
#[derive(Debug)]
pub struct NestedItem {
    /// The key when it is a single plain identifier (rendered as written),
    /// `None` for a multi-segment or `::`-rooted path.
    pub key: Option<String>,
    /// The item read as a lone key: `Ok` when the key is followed by `,` or
    /// by the end of the list, else the parser's message.
    pub as_flag: Result<(), String>,
    /// The item read as `key = "value"`: the literal's value (escapes
    /// resolved) when `=` and one string literal follow the key, and then
    /// `,` or the end of the list; else the parser's message.
    pub as_string: Result<String, String>,
}

/// An attribute's arguments read as comma-separated items
/// `(key, key = value, ...)`, as far as the parser went.
#[derive(Debug)]
pub struct NestedList {
    /// The items that could be read, in order.
    pub items: Vec<NestedItem>,
    /// `Some(message)` when the parser stopped before the end of the
    /// arguments (message: the parser's description); an attribute without
    /// `(...)` has no item and the parser's message.
    pub syntax_error: Option<String>,
}

/// The three forms of an attribute's arguments.
#[derive(Debug)]
pub enum MetaModel {
    /// `#[name]`
    Path,
    /// `#[name(...)]`
    List,
    /// `#[name = <expr>]`; a `///` doc comment is `#[doc = "..."]`.
    NameValue(ExprModel),
}

/// An outer attribute.
#[derive(Debug)]
pub struct AttributeModel {
    /// The attribute's path when it is a single plain identifier.
    pub name: Option<String>,
    pub meta: MetaModel,
    /// The arguments read as `(key, key = value, ...)`; the library reads
    /// them for `function_call` attributes only.
    pub args: NestedList,
    /// An opaque label chosen by the caller to find the attribute again.
    pub tag: usize,
}

/// A type, as far as schema generation reads it.
#[derive(Debug)]
pub struct TypeModel {
    /// The type's token stream rendered as text (tokens separated by spaces).
    pub tokens: String,
    /// For a path type, the identifier of its last segment; `None` for any
    /// other kind of type (reference, tuple, slice, ...).
    pub last_segment: Option<String>,
}

/// A field of a struct.
#[derive(Debug)]
pub struct FieldModel {
    /// The field's name; `None` for a tuple-struct field.
    pub ident: Option<String>,
    pub attrs: Vec<AttributeModel>,
    pub ty: TypeModel,
}

/// A variant of an enum.
#[derive(Debug)]
pub struct VariantModel {
    pub ident: String,
    /// Whether the variant has no fields.
    pub is_unit: bool,
}

/// The body of a type definition.
#[derive(Debug)]
pub enum DataModel {
    Struct(Vec<FieldModel>),
    Enum(Vec<VariantModel>),
    Union,
}

/// A struct, enum or union definition given to `#[derive(FunctionCall)]`.
#[derive(Debug)]
pub struct DeriveInputModel {
    pub ident: String,
    pub attrs: Vec<AttributeModel>,
    pub data: DataModel,
}

/// The pattern of a function parameter.
#[derive(Debug)]
pub enum PatModel {
    /// A plain binding `name` (possibly `mut name`).
    Ident(String),
    /// `_`, a tuple pattern, or any other pattern.
    Other,
}

/// A function parameter.
#[derive(Debug)]
pub enum FnArgModel {
    /// `self`, `&self`, `&mut self`, ...
    Receiver,
    Typed { attrs: Vec<AttributeModel>, pat: PatModel, ty: TypeModel },
}

/// The return type of a function.
#[derive(Debug)]
pub enum ReturnModel {
    /// No `-> T`.
    Default,
    Type(TypeModel),
}

/// A free function given to `#[function_call]` or `#[tool]`.
#[derive(Debug)]
pub struct ItemFnModel {
    pub name: String,
    pub is_async: bool,
    pub attrs: Vec<AttributeModel>,
    pub inputs: Vec<FnArgModel>,
    pub output: ReturnModel,
}

/// The arguments written inside `#[function_call(...)]` / `#[tool(...)]`.
#[derive(Debug)]
pub enum MacroArgs {
    /// Comma-separated expressions.
    Exprs(Vec<ExprModel>),
    /// The arguments are not comma-separated expressions (message: the
    /// parser's description).
    Malformed(String),
}

/// Why a macro expansion is refused.
#[derive(Debug)]
pub enum ErrorKind {
    /// An unknown key in the container-level `#[function_call(...)]`.
    UnknownContainerAttribute,
    /// An unknown key in a field-level `#[function_call(...)]`.
    UnknownFieldAttribute,
    /// The arguments of an attribute, or one option among them, do not have
    /// the shape they need (message from the parser).
    Syntax(String),
    /// The `crate = "..."` value is not a Rust path (message from the parser).
    InvalidCratePath(String),
    /// An enum with a variant that carries data.
    DataVariantEnum,
    /// A union.
    Union,
}

/// Where a refused input lies; `None` where a level does not apply.
#[derive(Debug)]
pub struct Site {
    /// The struct field whose attribute is refused.
    pub field: Option<usize>,
    /// The enum variant that is refused.
    pub variant: Option<usize>,
    /// The position of the refused attribute among the container's or the
    /// field's attributes.
    pub attr: Option<usize>,
    /// The position of the refused item inside that attribute's `(...)`.
    pub item: Option<usize>,
}

/// Why a macro expansion is refused, and where; rendered as a compile error
/// placed at the site.
#[derive(Debug)]
pub struct MacroError {
    pub kind: ErrorKind,
    pub site: Site,
}

/// No position: the error concerns the item as a whole.
pub open spec fn no_site() -> Site {
    Site { field: None, variant: None, attr: None, item: None }
}

/// An error that concerns the item as a whole.
pub open spec fn bare(kind: ErrorKind) -> MacroError {
    MacroError { kind, site: no_site() }
}

/// An error in the item at position `j` of an attribute's `(...)`.
pub open spec fn at_item(kind: ErrorKind, j: int) -> MacroError {
    MacroError { kind, site: Site { item: Some(j as usize), ..no_site() } }
}

/// `e`, found in the attribute at position `i`.
pub open spec fn in_attr(e: MacroError, i: int) -> MacroError {
    MacroError { site: Site { attr: Some(i as usize), ..e.site }, ..e }
}

/// `e`, found in the struct field at position `i`.
pub open spec fn in_field(e: MacroError, i: int) -> MacroError {
    MacroError { site: Site { field: Some(i as usize), ..e.site }, ..e }
}

/// An error about the enum variant at position `i`.
pub open spec fn at_variant(kind: ErrorKind, i: int) -> MacroError {
    MacroError { kind, site: Site { variant: Some(i as usize), ..no_site() } }
}

/// An error that concerns the item as a whole.
pub fn bare_error(kind: ErrorKind) -> (r: MacroError)
    ensures
        r == bare(kind),
{
    MacroError { kind, site: Site { field: None, variant: None, attr: None, item: None } }
}

/// An error in the item at position `j` of an attribute's `(...)`.
pub fn item_error(kind: ErrorKind, j: usize) -> (r: MacroError)
    ensures
        r == at_item(kind, j as int),
{
    MacroError { kind, site: Site { field: None, variant: None, attr: None, item: Some(j) } }
}

/// `e`, found in the attribute at position `i`.
pub fn attr_error(e: MacroError, i: usize) -> (r: MacroError)
    ensures
        r == in_attr(e, i as int),
{
    let mut e = e;
    e.site.attr = Some(i);
    e
}

/// `e`, found in the struct field at position `i`.
pub fn field_error(e: MacroError, i: usize) -> (r: MacroError)
    ensures
        r == in_field(e, i as int),
{
    let mut e = e;
    e.site.field = Some(i);
    e
}

/// An error about the enum variant at position `i`.
pub fn variant_error(kind: ErrorKind, i: usize) -> (r: MacroError)
    ensures
        r == at_variant(kind, i as int),
{
    MacroError { kind, site: Site { field: None, variant: Some(i), attr: None, item: None } }
}

/// The text of the compile error that reports an error of kind `k`.
pub open spec fn kind_message(k: ErrorKind) -> Seq<char> {
    match k {
        ErrorKind::UnknownContainerAttribute => "unknown function_call container attribute (expected: crate)"@,
        ErrorKind::UnknownFieldAttribute => "unknown function_call attribute (expected: skip, rename, description)"@,
        ErrorKind::Syntax(m) => m@,
        ErrorKind::InvalidCratePath(m) => m@,
        ErrorKind::DataVariantEnum => "FunctionCall derive currently only supports unit enum variants; data-variant enums (oneOf) are planned for a future release"@,
        ErrorKind::Union => "FunctionCall derive does not support unions"@,
    }
}

/// The text of the compile error that reports `e`.
pub open spec fn error_message(e: MacroError) -> Seq<char> {
    kind_message(e.kind)
}

impl MacroError {
    /// The text of the compile error that reports this error.
    pub fn message(&self) -> (r: String)
        ensures
            r@ == error_message(*self),
    {
        match &self.kind {
            ErrorKind::UnknownContainerAttribute => String::from_str("unknown function_call container attribute (expected: crate)"),
            ErrorKind::UnknownFieldAttribute => String::from_str("unknown function_call attribute (expected: skip, rename, description)"),
            ErrorKind::Syntax(m) => m.clone(),
            ErrorKind::InvalidCratePath(m) => m.clone(),
            ErrorKind::DataVariantEnum => String::from_str("FunctionCall derive currently only supports unit enum variants; data-variant enums (oneOf) are planned for a future release"),
            ErrorKind::Union => String::from_str("FunctionCall derive does not support unions"),
        }
    }
}

/// What a macro hands back to the compiler: the expansion, or a compile
/// error with its message and the refusal it reports.
#[derive(Debug)]
pub enum MacroOutput<T> {
    Expanded(T),
    CompileError { message: String, error: MacroError },
}

/// The compile error that reports `e`.
pub fn refusal<T>(e: MacroError) -> (r: MacroOutput<T>)
    ensures
        r matches MacroOutput::CompileError { message, error } && message@ == error_message(e) && error == e,
{
    let message = e.message();
    MacroOutput::CompileError { message, error: e }
}

/// The character view of an optional string.
pub open spec fn opt_view(o: Option<String>) -> Option<Seq<char>> {
    match o {
        Some(s) => Some(s@),
        None => None,
    }
}

/// The mathematical value of a [`TypeModel`].
pub struct TypeView {
    pub tokens: Seq<char>,
    pub last_segment: Option<Seq<char>>,
}

impl View for TypeModel {
    type V = TypeView;

    open spec fn view(&self) -> TypeView {
        TypeView { tokens: self.tokens@, last_segment: opt_view(self.last_segment) }
    }
}

/// A copy of an optional string.
pub fn copy_opt(o: &Option<String>) -> (r: Option<String>)
    ensures
        opt_view(r) == opt_view(*o),
{
    match o {
        Some(s) => Some(s.clone()),
        None => None,
    }
}

impl TypeModel {
    /// A copy of this type.
    pub fn copy(&self) -> (r: TypeModel)
        ensures
            r@ == self@,
    {
        TypeModel { tokens: self.tokens.clone(), last_segment: copy_opt(&self.last_segment) }
    }
}

/// Whether `a` and `b` hold the same characters.
pub fn same_text(a: &str, b: &str) -> (r: bool)
    ensures
        r == (a@ == b@),
{
    let n = a.unicode_len();
    if n != b.unicode_len() {
        return false;
    }
    let mut i: usize = 0;
    while i < n
        invariant
            n == a@.len() == b@.len(),
            i <= n,
            forall|j: int| 0 <= j < i ==> a@[j] == b@[j],
        decreases n - i,
    {
        if a.get_char(i) != b.get_char(i) {
            return false;
        }
        i = i + 1;
    }
    assert(a@ =~= b@);
    true
}

} // verus!
