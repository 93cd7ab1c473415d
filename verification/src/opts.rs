//! The options written in `#[function_call(...)]` on a derive target:
//! `crate = "..."` on the type, `skip`, `rename = "..."` and
//! `description = "..."` on its fields.
use vstd::prelude::*;
use crate::describe::named;
use crate::describe::is_named;
use crate::model::{
    at_item, attr_error, bare, bare_error, in_attr, item_error, opt_view, same_text, AttributeModel,
    ErrorKind, MacroError, NestedItem,
};

verus! {

/// Field-level options.
#[derive(Debug)]
pub struct FieldOpts {
    /// `#[function_call(skip)]`: leave the field out of the schema.
    pub skip: bool,
    /// `#[function_call(rename = "...")]`: the name the schema uses.
    pub rename: Option<String>,
    /// `#[function_call(description = "...")]`: the description, overriding
    /// the doc comment.
    pub description: Option<String>,
}

/// The mathematical value of [`FieldOpts`].
pub struct FieldOptsView {
    pub skip: bool,
    pub rename: Option<Seq<char>>,
    pub description: Option<Seq<char>>,
}

impl View for FieldOpts {
    type V = FieldOptsView;

    open spec fn view(&self) -> FieldOptsView {
        FieldOptsView { skip: self.skip, rename: opt_view(self.rename), description: opt_view(self.description) }
    }
}

/// Container-level options.
#[derive(Debug)]
pub struct ContainerOpts {
    /// `#[function_call(crate = "...")]`: the module path that holds the
    /// `FunctionCallable` trait and the schema types.
    pub crate_path: String,
}

/// The module path used when no `crate = "..."` is given.
pub open spec fn default_crate_path() -> Seq<char> {
    "::open_ai_rust::logoi::input::tool::raw_macro"@
}

/// Field options when no attribute sets any.
pub open spec fn no_field_opts() -> FieldOptsView {
    FieldOptsView { skip: false, rename: None, description: None }
}

impl Default for FieldOpts {
    fn default() -> (r: FieldOpts)
        ensures
            r@ == no_field_opts(),
    {
        FieldOpts { skip: false, rename: None, description: None }
    }
}

impl Default for ContainerOpts {
    fn default() -> (r: ContainerOpts)
        ensures
            r.crate_path@ == default_crate_path(),
    {
        ContainerOpts { crate_path: String::from_str("::open_ai_rust::logoi::input::tool::raw_macro") }
    }
}

/// Whether the item's key is the single identifier `key`.
pub open spec fn key_is(item: NestedItem, key: Seq<char>) -> bool {
    match item.key {
        Some(k) => k@ == key,
        None => false,
    }
}

/// The string a key that takes a value is given, or why there is none.
pub open spec fn string_value(item: NestedItem) -> Result<Seq<char>, ErrorKind> {
    match item.as_string {
        Ok(s) => Ok(s@),
        Err(m) => Err(ErrorKind::Syntax(m)),
    }
}

/// Field options after one item of a field's `#[function_call(...)]`.
pub open spec fn field_item(o: FieldOptsView, item: NestedItem) -> Result<FieldOptsView, ErrorKind> {
    if key_is(item, "skip"@) {
        match item.as_flag {
            Ok(_) => Ok(FieldOptsView { skip: true, ..o }),
            Err(m) => Err(ErrorKind::Syntax(m)),
        }
    } else if key_is(item, "rename"@) {
        match string_value(item) {
            Ok(s) => Ok(FieldOptsView { rename: Some(s), ..o }),
            Err(e) => Err(e),
        }
    } else if key_is(item, "description"@) {
        match string_value(item) {
            Ok(s) => Ok(FieldOptsView { description: Some(s), ..o }),
            Err(e) => Err(e),
        }
    } else {
        Err(ErrorKind::UnknownFieldAttribute)
    }
}

/// Field options after the items, in order; the first refused item decides
/// the error, placed at that item.
pub open spec fn field_items(o: FieldOptsView, items: Seq<NestedItem>) -> Result<FieldOptsView, MacroError>
    decreases items.len(),
{
    if items.len() == 0 {
        Ok(o)
    } else {
        match field_items(o, items.drop_last()) {
            Ok(p) => match field_item(p, items.last()) {
                Ok(q) => Ok(q),
                Err(k) => Err(at_item(k, items.len() - 1)),
            },
            Err(e) => Err(e),
        }
    }
}

/// Field options after one attribute of the field: only `function_call`
/// attributes count.
pub open spec fn field_attr(o: FieldOptsView, a: AttributeModel) -> Result<FieldOptsView, MacroError> {
    if !named(a, "function_call"@) {
        Ok(o)
    } else {
        match field_items(o, a.args.items@) {
            Ok(p) => match a.args.syntax_error {
                Some(m) => Err(bare(ErrorKind::Syntax(m))),
                None => Ok(p),
            },
            Err(e) => Err(e),
        }
    }
}

/// The options of a field with attributes `attrs`; an error is placed at
/// the attribute that holds it.
pub open spec fn field_opts_of(attrs: Seq<AttributeModel>) -> Result<FieldOptsView, MacroError>
    decreases attrs.len(),
{
    if attrs.len() == 0 {
        Ok(no_field_opts())
    } else {
        match field_opts_of(attrs.drop_last()) {
            Ok(p) => match field_attr(p, attrs.last()) {
                Ok(q) => Ok(q),
                Err(e) => Err(in_attr(e, attrs.len() - 1)),
            },
            Err(e) => Err(e),
        }
    }
}

/// The crate path after one item of the container's `#[function_call(...)]`.
pub open spec fn container_item(path: Seq<char>, item: NestedItem) -> Result<Seq<char>, ErrorKind> {
    if key_is(item, "crate"@) {
        string_value(item)
    } else {
        Err(ErrorKind::UnknownContainerAttribute)
    }
}

/// The crate path after the items, in order.
pub open spec fn container_items(path: Seq<char>, items: Seq<NestedItem>) -> Result<Seq<char>, MacroError>
    decreases items.len(),
{
    if items.len() == 0 {
        Ok(path)
    } else {
        match container_items(path, items.drop_last()) {
            Ok(p) => match container_item(p, items.last()) {
                Ok(q) => Ok(q),
                Err(k) => Err(at_item(k, items.len() - 1)),
            },
            Err(e) => Err(e),
        }
    }
}

/// The crate path after one attribute of the container.
pub open spec fn container_attr(path: Seq<char>, a: AttributeModel) -> Result<Seq<char>, MacroError> {
    if !named(a, "function_call"@) {
        Ok(path)
    } else {
        match container_items(path, a.args.items@) {
            Ok(p) => match a.args.syntax_error {
                Some(m) => Err(bare(ErrorKind::Syntax(m))),
                None => Ok(p),
            },
            Err(e) => Err(e),
        }
    }
}

/// The crate path of a container with attributes `attrs`; an error is
/// placed at the attribute that holds it.
pub open spec fn container_path_of(attrs: Seq<AttributeModel>) -> Result<Seq<char>, MacroError>
    decreases attrs.len(),
{
    if attrs.len() == 0 {
        Ok(default_crate_path())
    } else {
        match container_path_of(attrs.drop_last()) {
            Ok(p) => match container_attr(p, attrs.last()) {
                Ok(q) => Ok(q),
                Err(e) => Err(in_attr(e, attrs.len() - 1)),
            },
            Err(e) => Err(e),
        }
    }
}

/// The string a key that takes a value is given.
fn item_string(item: &NestedItem) -> (r: Result<String, ErrorKind>)
    ensures
        match r {
            Ok(s) => string_value(*item) == Ok::<Seq<char>, ErrorKind>(s@),
            Err(e) => string_value(*item) == Err::<Seq<char>, ErrorKind>(e),
        },
{
    match &item.as_string {
        Ok(s) => Ok(s.clone()),
        Err(m) => Err(ErrorKind::Syntax(m.clone())),
    }
}

/// Whether the item's key is the single identifier `key`.
fn item_key_is(item: &NestedItem, key: &str) -> (r: bool)
    ensures
        r == key_is(*item, key@),
{
    match &item.key {
        Some(k) => same_text(k.as_str(), key),
        None => false,
    }
}

/// Applies one field-level item to `opts`.
fn apply_field_item(opts: &mut FieldOpts, item: &NestedItem) -> (r: Result<(), ErrorKind>)
    ensures
        match r {
            Ok(_) => field_item(old(opts)@, *item) == Ok::<FieldOptsView, ErrorKind>(final(opts)@),
            Err(e) => field_item(old(opts)@, *item) == Err::<FieldOptsView, ErrorKind>(e),
        },
{
    if item_key_is(item, "skip") {
        match &item.as_flag {
            Ok(_) => {
                opts.skip = true;
                Ok(())
            },
            Err(m) => Err(ErrorKind::Syntax(m.clone())),
        }
    } else if item_key_is(item, "rename") {
        let s = item_string(item)?;
        opts.rename = Some(s);
        Ok(())
    } else if item_key_is(item, "description") {
        let s = item_string(item)?;
        opts.description = Some(s);
        Ok(())
    } else {
        Err(ErrorKind::UnknownFieldAttribute)
    }
}

proof fn lemma_field_items_err(o: FieldOptsView, items: Seq<NestedItem>, k: int, e: MacroError)
    requires
        0 <= k <= items.len(),
        field_items(o, items.take(k)) == Err::<FieldOptsView, MacroError>(e),
    ensures
        field_items(o, items) == Err::<FieldOptsView, MacroError>(e),
    decreases items.len(),
{
    if k == items.len() {
        assert(items.take(k) =~= items);
    } else {
        assert(items.drop_last().take(k) =~= items.take(k));
        lemma_field_items_err(o, items.drop_last(), k, e);
    }
}

proof fn lemma_field_opts_err(attrs: Seq<AttributeModel>, k: int, e: MacroError)
    requires
        0 <= k <= attrs.len(),
        field_opts_of(attrs.take(k)) == Err::<FieldOptsView, MacroError>(e),
    ensures
        field_opts_of(attrs) == Err::<FieldOptsView, MacroError>(e),
    decreases attrs.len(),
{
    if k == attrs.len() {
        assert(attrs.take(k) =~= attrs);
    } else {
        assert(attrs.drop_last().take(k) =~= attrs.take(k));
        lemma_field_opts_err(attrs.drop_last(), k, e);
    }
}

proof fn lemma_container_items_err(p: Seq<char>, items: Seq<NestedItem>, k: int, e: MacroError)
    requires
        0 <= k <= items.len(),
        container_items(p, items.take(k)) == Err::<Seq<char>, MacroError>(e),
    ensures
        container_items(p, items) == Err::<Seq<char>, MacroError>(e),
    decreases items.len(),
{
    if k == items.len() {
        assert(items.take(k) =~= items);
    } else {
        assert(items.drop_last().take(k) =~= items.take(k));
        lemma_container_items_err(p, items.drop_last(), k, e);
    }
}

proof fn lemma_container_path_err(attrs: Seq<AttributeModel>, k: int, e: MacroError)
    requires
        0 <= k <= attrs.len(),
        container_path_of(attrs.take(k)) == Err::<Seq<char>, MacroError>(e),
    ensures
        container_path_of(attrs) == Err::<Seq<char>, MacroError>(e),
    decreases attrs.len(),
{
    if k == attrs.len() {
        assert(attrs.take(k) =~= attrs);
    } else {
        assert(attrs.drop_last().take(k) =~= attrs.take(k));
        lemma_container_path_err(attrs.drop_last(), k, e);
    }
}

/// Applies one attribute of a field to `opts`.
#[verifier::loop_isolation(false)]
fn apply_field_attr(opts: &mut FieldOpts, a: &AttributeModel) -> (r: Result<(), MacroError>)
    ensures
        match r {
            Ok(_) => field_attr(old(opts)@, *a) == Ok::<FieldOptsView, MacroError>(final(opts)@),
            Err(e) => field_attr(old(opts)@, *a) == Err::<FieldOptsView, MacroError>(e),
        },
{
    if !is_named(a, "function_call") {
        return Ok(());
    }
    let l = &a.args;
    let ghost start = opts@;
    let mut j: usize = 0;
    while j < l.items.len()
        invariant
            j <= l.items@.len(),
            field_items(start, l.items@.take(j as int)) == Ok::<FieldOptsView, MacroError>(opts@),
        decreases l.items@.len() - j,
    {
        assert(l.items@.take(j + 1).drop_last() =~= l.items@.take(j as int));
        let step = apply_field_item(opts, &l.items[j]);
        if let Err(k) = step {
            let e = item_error(k, j);
            proof {
                lemma_field_items_err(start, l.items@, j + 1, e);
            }
            return Err(e);
        }
        j = j + 1;
    }
    assert(l.items@.take(l.items@.len() as int) =~= l.items@);
    match &l.syntax_error {
        Some(m) => Err(bare_error(ErrorKind::Syntax(m.clone()))),
        None => Ok(()),
    }
}

/// The options a field's `#[function_call(...)]` attributes set.
pub fn parse_field_opts(attrs: &Vec<AttributeModel>) -> (r: Result<FieldOpts, MacroError>)
    ensures
        match r {
            Ok(o) => field_opts_of(attrs@) == Ok::<FieldOptsView, MacroError>(o@),
            Err(e) => field_opts_of(attrs@) == Err::<FieldOptsView, MacroError>(e),
        },
{
    let mut opts = FieldOpts::default();
    let mut i: usize = 0;
    while i < attrs.len()
        invariant
            i <= attrs@.len(),
            field_opts_of(attrs@.take(i as int)) == Ok::<FieldOptsView, MacroError>(opts@),
        decreases attrs@.len() - i,
    {
        assert(attrs@.take(i + 1).drop_last() =~= attrs@.take(i as int));
        let step = apply_field_attr(&mut opts, &attrs[i]);
        if let Err(e) = step {
            let e = attr_error(e, i);
            proof {
                lemma_field_opts_err(attrs@, i + 1, e);
            }
            return Err(e);
        }
        i = i + 1;
    }
    assert(attrs@.take(attrs@.len() as int) =~= attrs@);
    Ok(opts)
}

/// Applies one attribute of the container to `opts`.
#[verifier::loop_isolation(false)]
fn apply_container_attr(opts: &mut ContainerOpts, a: &AttributeModel) -> (r: Result<(), MacroError>)
    ensures
        match r {
            Ok(_) => container_attr(old(opts).crate_path@, *a) == Ok::<Seq<char>, MacroError>(final(opts).crate_path@),
            Err(e) => container_attr(old(opts).crate_path@, *a) == Err::<Seq<char>, MacroError>(e),
        },
{
    if !is_named(a, "function_call") {
        return Ok(());
    }
    let l = &a.args;
    let ghost start = opts.crate_path@;
    let mut j: usize = 0;
    while j < l.items.len()
        invariant
            j <= l.items@.len(),
            container_items(start, l.items@.take(j as int)) == Ok::<Seq<char>, MacroError>(opts.crate_path@),
        decreases l.items@.len() - j,
    {
        assert(l.items@.take(j + 1).drop_last() =~= l.items@.take(j as int));
        let item = &l.items[j];
        if item_key_is(item, "crate") {
            match item_string(item) {
                Ok(p) => {
                    opts.crate_path = p;
                },
                Err(k) => {
                    let e = item_error(k, j);
                    proof {
                        lemma_container_items_err(start, l.items@, j + 1, e);
                    }
                    return Err(e);
                },
            }
        } else {
            let e = item_error(ErrorKind::UnknownContainerAttribute, j);
            proof {
                lemma_container_items_err(start, l.items@, j + 1, e);
            }
            return Err(e);
        }
        j = j + 1;
    }
    assert(l.items@.take(l.items@.len() as int) =~= l.items@);
    match &l.syntax_error {
        Some(m) => Err(bare_error(ErrorKind::Syntax(m.clone()))),
        None => Ok(()),
    }
}

/// The options the container's `#[function_call(...)]` attributes set.
pub fn parse_container_opts(attrs: &Vec<AttributeModel>) -> (r: Result<ContainerOpts, MacroError>)
    ensures
        match r {
            Ok(o) => container_path_of(attrs@) == Ok::<Seq<char>, MacroError>(o.crate_path@),
            Err(e) => container_path_of(attrs@) == Err::<Seq<char>, MacroError>(e),
        },
{
    let mut opts = ContainerOpts::default();
    let mut i: usize = 0;
    while i < attrs.len()
        invariant
            i <= attrs@.len(),
            container_path_of(attrs@.take(i as int)) == Ok::<Seq<char>, MacroError>(opts.crate_path@),
        decreases attrs@.len() - i,
    {
        assert(attrs@.take(i + 1).drop_last() =~= attrs@.take(i as int));
        let step = apply_container_attr(&mut opts, &attrs[i]);
        if let Err(e) = step {
            let e = attr_error(e, i);
            proof {
                lemma_container_path_err(attrs@, i + 1, e);
            }
            return Err(e);
        }
        i = i + 1;
    }
    assert(attrs@.take(attrs@.len() as int) =~= attrs@);
    Ok(opts)
}

} // verus!
