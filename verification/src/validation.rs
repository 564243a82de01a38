//! Validation failures as a tree, and their flattening into a list of error
//! items that is sent to the client.
//!
//! The tree holds what the flattening reads of a validator's report: for each
//! field (in the order the report is walked) either the field's own errors,
//! the report of a nested struct, or the reports of the elements of a list,
//! by index.

use vstd::prelude::*;
use crate::error::{ValidationErrorItem, ItemSpec, item_views};
use crate::text::{decimal, string_views, push_decimal};

verus! {

/// One failed check of a field.
pub struct FieldError {
    pub code: String,
    pub message: Option<String>,
}

/// The failures recorded under one field.
pub enum ValidationErrorsKind {
    /// A nested struct that failed validation.
    Struct(Box<ValidationErrors>),
    /// Elements of a list that failed validation, by index.
    List(Vec<(usize, ValidationErrors)>),
    /// Failed checks of the field itself.
    Field(Vec<FieldError>),
}

/// A validation report: the failures of each field. A report made by a
/// validator is well formed (see [`tree_well_formed`]): each field appears
/// once, and list elements appear once each, by increasing index.
pub struct ValidationErrors {
    pub entries: Vec<(String, ValidationErrorsKind)>,
}

/// Whether a report is well formed: its field names are distinct, the
/// element indices of each list increase strictly, and so on throughout.
pub open spec fn tree_well_formed(t: ValidationErrors) -> bool
    decreases t,
{
    entries_well_formed(t.entries@)
}

/// Whether the fields `es` have distinct names and well formed failures.
pub open spec fn entries_well_formed(es: Seq<(String, ValidationErrorsKind)>) -> bool
    decreases es,
{
    if es.len() == 0 {
        true
    } else {
        &&& entries_well_formed(es.subrange(0, es.len() - 1))
        &&& kind_well_formed(es[es.len() - 1].1)
        &&& forall|k: int| 0 <= k < es.len() - 1 ==> (#[trigger] es[k]).0@ != es[es.len() - 1].0@
    }
}

/// Whether the failures recorded under one field are well formed.
pub open spec fn kind_well_formed(k: ValidationErrorsKind) -> bool
    decreases k,
{
    match k {
        ValidationErrorsKind::Field(_) => true,
        ValidationErrorsKind::Struct(b) => tree_well_formed(*b),
        ValidationErrorsKind::List(l) => list_well_formed(l@),
    }
}

/// Whether the list elements `ls` come by strictly increasing index and are
/// well formed.
pub open spec fn list_well_formed(ls: Seq<(usize, ValidationErrors)>) -> bool
    decreases ls,
{
    if ls.len() == 0 {
        true
    } else {
        &&& list_well_formed(ls.subrange(0, ls.len() - 1))
        &&& tree_well_formed(ls[ls.len() - 1].1)
        &&& (ls.len() > 1 ==> ls[ls.len() - 2].0 < ls[ls.len() - 1].0)
    }
}

/// The message of an item made from a field error.
pub open spec fn field_message(e: FieldError) -> Seq<char> {
    match e.message {
        Some(m) => m@,
        None => "Validation error"@,
    }
}

/// The item type of every field error.
pub open spec fn field_error_type() -> Seq<char> {
    "value_error"@
}

/// The location segment naming element `k` of a list: `[k]`.
pub open spec fn index_segment(k: nat) -> Seq<char> {
    seq!['['] + decimal(k) + seq![']']
}

/// The items of the field errors `errs`, all located at `loc`.
pub open spec fn field_items(loc: Seq<Seq<char>>, errs: Seq<FieldError>) -> Seq<ItemSpec> {
    errs.map_values(|e: FieldError| ItemSpec { loc: loc, msg: field_message(e), ty: field_error_type() })
}

/// The items of a report whose fields are located under `path`.
pub open spec fn tree_items(path: Seq<Seq<char>>, t: ValidationErrors) -> Seq<ItemSpec>
    decreases t,
{
    entries_items(path, t.entries@)
}

/// The items of the fields `es`, one field after the other.
pub open spec fn entries_items(path: Seq<Seq<char>>, es: Seq<(String, ValidationErrorsKind)>) -> Seq<ItemSpec>
    decreases es,
{
    if es.len() == 0 {
        Seq::empty()
    } else {
        entries_items(path, es.subrange(0, es.len() - 1))
            + kind_items(path.push(es[es.len() - 1].0@), es[es.len() - 1].1)
    }
}

/// The items of the failures recorded under one field located at `loc`.
pub open spec fn kind_items(loc: Seq<Seq<char>>, k: ValidationErrorsKind) -> Seq<ItemSpec>
    decreases k,
{
    match k {
        ValidationErrorsKind::Field(v) => field_items(loc, v@),
        ValidationErrorsKind::Struct(b) => tree_items(loc, *b),
        ValidationErrorsKind::List(l) => list_items(loc, l@),
    }
}

/// The items of the failed list elements `ls` of the list located at `loc`.
pub open spec fn list_items(loc: Seq<Seq<char>>, ls: Seq<(usize, ValidationErrors)>) -> Seq<ItemSpec>
    decreases ls,
{
    if ls.len() == 0 {
        Seq::empty()
    } else {
        list_items(loc, ls.subrange(0, ls.len() - 1))
            + tree_items(loc.push(index_segment(ls[ls.len() - 1].0 as nat)), ls[ls.len() - 1].1)
    }
}

/// The number of failed field checks in a report.
pub open spec fn tree_count(t: ValidationErrors) -> nat
    decreases t,
{
    entries_count(t.entries@)
}

/// The number of failed field checks under the fields `es`.
pub open spec fn entries_count(es: Seq<(String, ValidationErrorsKind)>) -> nat
    decreases es,
{
    if es.len() == 0 {
        0
    } else {
        entries_count(es.subrange(0, es.len() - 1)) + kind_count(es[es.len() - 1].1)
    }
}

/// The number of failed field checks recorded under one field.
pub open spec fn kind_count(k: ValidationErrorsKind) -> nat
    decreases k,
{
    match k {
        ValidationErrorsKind::Field(v) => v@.len(),
        ValidationErrorsKind::Struct(b) => tree_count(*b),
        ValidationErrorsKind::List(l) => list_count(l@),
    }
}

/// The number of failed field checks in the failed list elements `ls`.
pub open spec fn list_count(ls: Seq<(usize, ValidationErrors)>) -> nat
    decreases ls,
{
    if ls.len() == 0 {
        0
    } else {
        list_count(ls.subrange(0, ls.len() - 1)) + tree_count(ls[ls.len() - 1].1)
    }
}

/// Every item is located at `path` or below it, and is a field error item.
pub open spec fn located_within(path: Seq<Seq<char>>, items: Seq<ItemSpec>) -> bool {
    forall|k: int| 0 <= k < items.len() ==> {
        &&& path.len() <= #[trigger] items[k].loc.len()
        &&& items[k].loc.subrange(0, path.len() as int) == path
        &&& items[k].ty == field_error_type()
    }
}

/// Every item is located strictly below `path`, and is a field error item.
pub open spec fn located_below(path: Seq<Seq<char>>, items: Seq<ItemSpec>) -> bool {
    forall|k: int| 0 <= k < items.len() ==> {
        &&& path.len() < #[trigger] items[k].loc.len()
        &&& items[k].loc.subrange(0, path.len() as int) == path
        &&& items[k].ty == field_error_type()
    }
}

proof fn lemma_within_push_below(path: Seq<Seq<char>>, seg: Seq<char>, items: Seq<ItemSpec>)
    requires
        located_within(path.push(seg), items),
    ensures
        located_below(path, items),
{
    assert forall|k: int| 0 <= k < items.len() implies {
        &&& path.len() < #[trigger] items[k].loc.len()
        &&& items[k].loc.subrange(0, path.len() as int) == path
        &&& items[k].ty == field_error_type()
    } by {
        let l = items[k].loc;
        assert(l.subrange(0, path.len() + 1 as int) == path.push(seg));
        assert(l.subrange(0, path.len() as int) =~= path.push(seg).subrange(0, path.len() as int));
        assert(path.push(seg).subrange(0, path.len() as int) =~= path);
    }
}

proof fn lemma_below_within(path: Seq<Seq<char>>, items: Seq<ItemSpec>)
    requires
        located_below(path, items),
    ensures
        located_within(path, items),
{
}

proof fn lemma_concat_below(path: Seq<Seq<char>>, a: Seq<ItemSpec>, b: Seq<ItemSpec>)
    requires
        located_below(path, a),
        located_below(path, b),
    ensures
        located_below(path, a + b),
{
    assert forall|k: int| 0 <= k < (a + b).len() implies {
        &&& path.len() < #[trigger] (a + b)[k].loc.len()
        &&& (a + b)[k].loc.subrange(0, path.len() as int) == path
        &&& (a + b)[k].ty == field_error_type()
    } by {
        if k < a.len() {
            assert((a + b)[k] == a[k]);
        } else {
            assert((a + b)[k] == b[k - a.len()]);
        }
    }
}

proof fn lemma_tree_shape(path: Seq<Seq<char>>, t: ValidationErrors)
    ensures
        located_below(path, tree_items(path, t)),
        tree_items(path, t).len() == tree_count(t),
    decreases t,
{
    lemma_entries_shape(path, t.entries@);
}

proof fn lemma_entries_shape(path: Seq<Seq<char>>, es: Seq<(String, ValidationErrorsKind)>)
    ensures
        located_below(path, entries_items(path, es)),
        entries_items(path, es).len() == entries_count(es),
    decreases es,
{
    if es.len() > 0 {
        let rest = es.subrange(0, es.len() - 1);
        let last = es[es.len() - 1];
        lemma_entries_shape(path, rest);
        lemma_kind_shape(path.push(last.0@), last.1);
        lemma_within_push_below(path, last.0@, kind_items(path.push(last.0@), last.1));
        lemma_concat_below(path, entries_items(path, rest), kind_items(path.push(last.0@), last.1));
    }
}

proof fn lemma_kind_shape(loc: Seq<Seq<char>>, k: ValidationErrorsKind)
    ensures
        located_within(loc, kind_items(loc, k)),
        kind_items(loc, k).len() == kind_count(k),
    decreases k,
{
    match k {
        ValidationErrorsKind::Field(v) => {
            let items = field_items(loc, v@);
            assert forall|j: int| 0 <= j < items.len() implies {
                &&& loc.len() <= #[trigger] items[j].loc.len()
                &&& items[j].loc.subrange(0, loc.len() as int) == loc
                &&& items[j].ty == field_error_type()
            } by {
                assert(items[j].loc == loc);
                assert(loc.subrange(0, loc.len() as int) =~= loc);
            }
        },
        ValidationErrorsKind::Struct(b) => {
            lemma_tree_shape(loc, *b);
        },
        ValidationErrorsKind::List(l) => {
            lemma_list_shape(loc, l@);
        },
    }
}

proof fn lemma_list_shape(loc: Seq<Seq<char>>, ls: Seq<(usize, ValidationErrors)>)
    ensures
        located_below(loc, list_items(loc, ls)),
        list_items(loc, ls).len() == list_count(ls),
    decreases ls,
{
    if ls.len() > 0 {
        let rest = ls.subrange(0, ls.len() - 1);
        let last = ls[ls.len() - 1];
        let seg = index_segment(last.0 as nat);
        lemma_list_shape(loc, rest);
        lemma_tree_shape(loc.push(seg), last.1);
        lemma_below_within(loc.push(seg), tree_items(loc.push(seg), last.1));
        lemma_within_push_below(loc, seg, tree_items(loc.push(seg), last.1));
        lemma_concat_below(loc, list_items(loc, rest), tree_items(loc.push(seg), last.1));
    }
}

/// Flattening keeps every failed check and places each under the path it
/// started from: there is one item per failed field check in the report,
/// each item's location extends `acc_path` by at least the field's name, and
/// each item has the field error type.
pub proof fn lemma_flatten_shape(acc_path: Seq<Seq<char>>, err: ValidationErrors)
    ensures
        tree_items(acc_path, err).len() == tree_count(err),
        located_below(acc_path, tree_items(acc_path, err)),
{
    lemma_tree_shape(acc_path, err);
}

fn clone_strings(v: &Vec<String>) -> (r: Vec<String>)
    ensures
        r@ == v@,
{
    let mut r: Vec<String> = Vec::new();
    let mut i: usize = 0;
    while i < v.len()
        invariant
            i <= v.len(),
            r@ == v@.take(i as int),
        decreases v.len() - i,
    {
        r.push(v[i].clone());
        i = i + 1;
        assert(r@ =~= v@.take(i as int));
    }
    assert(v@.take(v.len() as int) =~= v@);
    r
}

fn index_label(k: usize) -> (s: String)
    ensures
        s@ == index_segment(k as nat),
{
    let mut s = String::from_str("[");
    push_decimal(&mut s, k);
    s.append("]");
    proof {
        reveal_strlit("[");
        reveal_strlit("]");
    }
    s
}

fn field_error_item(loc: &Vec<String>, e: &FieldError) -> (item: ValidationErrorItem)
    ensures
        item@ == (ItemSpec { loc: string_views(loc@), msg: field_message(*e), ty: field_error_type() }),
{
    let msg = match &e.message {
        Some(m) => m.clone(),
        None => String::from_str("Validation error"),
    };
    ValidationErrorItem { loc: clone_strings(loc), msg, ty: String::from_str("value_error") }
}

fn push_field_items(loc: &Vec<String>, errs: &Vec<FieldError>, out: &mut Vec<ValidationErrorItem>)
    ensures
        item_views(final(out)@) == item_views(old(out)@) + field_items(string_views(loc@), errs@),
{
    let ghost start = item_views(out@);
    let mut j: usize = 0;
    while j < errs.len()
        invariant
            j <= errs.len(),
            item_views(out@) == start + field_items(string_views(loc@), errs@.take(j as int)),
        decreases errs.len() - j,
    {
        let item = field_error_item(loc, &errs[j]);
        let ghost before = out@;
        out.push(item);
        assert(item_views(out@) =~= item_views(before).push(item@));
        assert(field_items(string_views(loc@), errs@.take(j as int + 1))
            =~= field_items(string_views(loc@), errs@.take(j as int)).push(item@));
        j = j + 1;
    }
    assert(errs@.take(errs.len() as int) =~= errs@);
}

fn collect_items(path: &Vec<String>, err: &ValidationErrors, out: &mut Vec<ValidationErrorItem>)
    ensures
        item_views(final(out)@) == item_views(old(out)@) + tree_items(string_views(path@), *err),
    decreases *err,
{
    let ghost start = item_views(out@);
    let ghost p = string_views(path@);
    let n = err.entries.len();
    let mut i: usize = 0;
    while i < n
        invariant
            n == err.entries@.len(),
            i <= n,
            p == string_views(path@),
            item_views(out@) == start + entries_items(p, err.entries@.take(i as int)),
        decreases n - i,
    {
        let entry = &err.entries[i];
        let mut loc = clone_strings(path);
        let key = entry.0.clone();
        assert(key@ == err.entries@[i as int].0@);
        loc.push(key);
        assert(loc@ == path@.push(key));
        assert(string_views(loc@) =~= p.push(err.entries@[i as int].0@));
        let ghost mid = item_views(out@);
        match &entry.1 {
            ValidationErrorsKind::Field(v) => {
                push_field_items(&loc, v, out);
            },
            ValidationErrorsKind::Struct(b) => {
                collect_items(&loc, b, out);
            },
            ValidationErrorsKind::List(l) => {
                let m = l.len();
                let mut j: usize = 0;
                while j < m
                    invariant
                        m == l@.len(),
                        j <= m,
                        i < n,
                        n == err.entries@.len(),
                        err.entries@[i as int].1 == ValidationErrorsKind::List(*l),
                        item_views(out@) == mid + list_items(string_views(loc@), l@.take(j as int)),
                    decreases m - j,
                {
                    let element = &l[j];
                    proof {
                        let k = err.entries@[i as int].1;
                        assert(decreases_to!(k => k->List_0));
                        assert(k->List_0 == *l);
                        assert(decreases_to!(*l => l@));
                        assert(decreases_to!(l@ => l@[j as int]));
                        assert(decreases_to!(l@[j as int] => l@[j as int].1));
                        assert(decreases_to!(k => l@[j as int].1));
                        assert(decreases_to!(*err => err.entries@[i as int].1));
                    }
                    let mut element_loc = clone_strings(&loc);
                    element_loc.push(index_label(element.0));
                    assert(string_views(element_loc@) =~= string_views(loc@).push(index_segment(element.0 as nat)));
                    collect_items(&element_loc, &element.1, out);
                    assert(l@.take(j as int + 1).subrange(0, j as int) =~= l@.take(j as int));
                    j = j + 1;
                }
                assert(l@.take(m as int) =~= l@);
            },
        }
        assert(item_views(out@) == mid + kind_items(string_views(loc@), err.entries@[i as int].1));
        assert(err.entries@.take(i as int + 1).subrange(0, i as int) =~= err.entries@.take(i as int));
        i = i + 1;
    }
    assert(err.entries@.take(n as int) =~= err.entries@);
}

/// Recursively searches a validation report and flattens it into a linear
/// list of errors to be sent to the user, each located under `acc_path`.
pub fn validation_errors(acc_path: Vec<String>, err: ValidationErrors) -> (items: Vec<ValidationErrorItem>)
    ensures
        item_views(items@) == tree_items(string_views(acc_path@), err),
{
    let mut out: Vec<ValidationErrorItem> = Vec::new();
    collect_items(&acc_path, &err, &mut out);
    assert(item_views(out@) =~= Seq::<ItemSpec>::empty() + tree_items(string_views(acc_path@), err));
    out
}

} // verus!
