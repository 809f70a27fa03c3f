//! Per-scope symbol tables: an insertion-ordered registry from original
//! variable names to their definitions, plus a transformed-name index used to
//! detect collisions in the namespace that generated code will actually live
//! in. Used identically for globals, fields and locals.

use vstd::prelude::*;
use linked_hash_map::LinkedHashMap;
use crate::ast::{Literal, LiteralV, VarLocation, VariableDef, VariableDefV, view_literal, view_vardef, view_vardefs};
use crate::error::{SymbolError, SymbolErrorV, view_symbol_error};
use crate::text::str_eq;

verus! {

/// The pluggable renaming policy: transforms an identifier or rejects it.
/// An implementation must describe itself with `spec_transform`, so that the
/// resolver's contracts can speak about what it returns.
pub trait NameTransformer {
    /// What the transform returns for any name, as a mathematical function.
    spec fn spec_transform(&self, name: Seq<char>) -> Option<Seq<char>>;

    /// Transforms an identifier, or rejects it.
    fn transform(&self, name: &str) -> (r: Result<String, ()>)
        ensures
            match r {
                Result::Ok(t) => self.spec_transform(name@) == Option::Some(t@),
                Result::Err(_) => self.spec_transform(name@) is None,
            },
    ;
}

/// The transform as a spec-level function value.
pub open spec fn tf_of<T: NameTransformer>(t: T) -> spec_fn(Seq<char>) -> Option<Seq<char>> {
    |n: Seq<char>| t.spec_transform(n)
}

/// The default policy: every name is kept as it is.
#[derive(Debug, Clone, Copy, PartialEq, Eq, Structural)]
pub struct IdentityTransform;

impl NameTransformer for IdentityTransform {
    open spec fn spec_transform(&self, name: Seq<char>) -> Option<Seq<char>> {
        Option::Some(name)
    }

    fn transform(&self, name: &str) -> (r: Result<String, ()>) {
        Result::Ok(name.to_owned())
    }
}

/// The `linked_hash_map` crate's insertion-ordered hash map, used here for
/// both indexes of a symbol table.
#[verifier::external_type_specification]
#[verifier::external_body]
#[verifier::reject_recursive_types(K)]
#[verifier::reject_recursive_types(V)]
#[verifier::reject_recursive_types(S)]
pub struct ExLinkedHashMap<K, V, S>(LinkedHashMap<K, V, S>);

/// What the name-to-definition map holds: its entries as (key, definition
/// view) pairs, in insertion order.
pub uninterp spec fn def_entries(m: LinkedHashMap<String, VariableDef>) -> Seq<
    (Seq<char>, VariableDefV),
>;

/// What the transformed-name index holds: transformed name to original name.
pub uninterp spec fn name_entries(m: LinkedHashMap<String, String>) -> Map<Seq<char>, Seq<char>>;

/// Relies on `LinkedHashMap::new`: the new map is empty.
#[verifier::external_body]
fn dm_new() -> (m: LinkedHashMap<String, VariableDef>)
    ensures
        def_entries(m) == Seq::<(Seq<char>, VariableDefV)>::empty(),
{
    LinkedHashMap::new()
}

/// Relies on `LinkedHashMap::get`: returns the value stored under an equal
/// key, and nothing when no key is equal.
#[verifier::external_body]
fn dm_get<'a>(m: &'a LinkedHashMap<String, VariableDef>, k: &str) -> (r: Option<&'a VariableDef>)
    ensures
        match r {
            Option::Some(v) => exists|i: int|
                0 <= i < def_entries(*m).len() && def_entries(*m)[i].0 == k@ && view_vardef(*v)
                    == def_entries(*m)[i].1,
            Option::None => forall|i: int|
                0 <= i < def_entries(*m).len() ==> def_entries(*m)[i].0 != k@,
        },
{
    m.get(k)
}

/// Relies on `LinkedHashMap::insert`: a key that is not yet present is
/// appended at the back of the iteration order.
#[verifier::external_body]
fn dm_insert_absent(m: &mut LinkedHashMap<String, VariableDef>, k: String, v: VariableDef)
    requires
        forall|i: int| 0 <= i < def_entries(*old(m)).len() ==> def_entries(*old(m))[i].0 != k@,
    ensures
        def_entries(*final(m)) == def_entries(*old(m)).push((k@, view_vardef(v))),
{
    let _ = m.insert(k, v);
}

/// Relies on `LinkedHashMap::get_mut`: replaces the value stored under an
/// equal key in place, keeping the entry's position in the iteration order;
/// returns the value that was replaced.
#[verifier::external_body]
fn dm_replace(m: &mut LinkedHashMap<String, VariableDef>, k: &str, v: VariableDef) -> (prev: VariableDef)
    requires
        exists|i: int|
            0 <= i < def_entries(*old(m)).len() && def_entries(*old(m))[i].0 == k@,
    ensures
        exists|i: int|
            0 <= i < def_entries(*old(m)).len() && def_entries(*old(m))[i].0 == k@ && view_vardef(
                prev,
            ) == def_entries(*old(m))[i].1 && def_entries(*final(m)) == def_entries(
                *old(m),
            ).update(i, (k@, view_vardef(v))),
{
    match m.get_mut(k) {
        Some(slot) => core::mem::replace(slot, v),
        None => v,
    }
}

/// Relies on `LinkedHashMap`'s owning iterator: yields the entries in
/// insertion order; each is mapped to its value.
#[verifier::external_body]
fn dm_into_defs(m: LinkedHashMap<String, VariableDef>) -> (r: Vec<VariableDef>)
    ensures
        r@.len() == def_entries(m).len(),
        forall|i: int| 0 <= i < r@.len() ==> view_vardef(r@[i]) == def_entries(m)[i].1,
{
    m.into_iter().map(|p| p.1).collect()
}

/// The empty transformed-name index.
pub open spec fn empty_name_map() -> Map<Seq<char>, Seq<char>> {
    Map::empty()
}

/// Relies on `LinkedHashMap::new`: the new map is empty.
#[verifier::external_body]
fn nm_new() -> (m: LinkedHashMap<String, String>)
    ensures
        name_entries(m) == empty_name_map(),
{
    LinkedHashMap::new()
}

/// Relies on `LinkedHashMap::get`: returns the value stored under an equal
/// key, and nothing when no key is equal.
#[verifier::external_body]
fn nm_get<'a>(m: &'a LinkedHashMap<String, String>, k: &str) -> (r: Option<&'a String>)
    ensures
        match r {
            Option::Some(v) => name_entries(*m).contains_key(k@) && name_entries(*m)[k@] == v@,
            Option::None => !name_entries(*m).contains_key(k@),
        },
{
    m.get(k)
}

/// Relies on `LinkedHashMap::insert`: afterwards the key holds exactly the
/// given value.
#[verifier::external_body]
fn nm_insert(m: &mut LinkedHashMap<String, String>, k: String, v: String)
    ensures
        name_entries(*final(m)) == name_entries(*old(m)).insert(k@, v@),
{
    let _ = m.insert(k, v);
}

// --- the specification of a symbol table ---

/// No two definitions share an original name.
pub open spec fn names_unique(defs: Seq<VariableDefV>) -> bool {
    forall|i: int, j: int|
        0 <= i < defs.len() && 0 <= j < defs.len() && defs[i].name == defs[j].name ==> i == j
}

/// No two definitions share a transformed name.
pub open spec fn trans_unique(defs: Seq<VariableDefV>) -> bool {
    forall|i: int, j: int|
        0 <= i < defs.len() && 0 <= j < defs.len() && defs[i].trans_name == defs[j].trans_name
            ==> i == j
}

/// Every definition's transformed name is what the transform gives for its
/// original name.
pub open spec fn trans_consistent(
    defs: Seq<VariableDefV>,
    tf: spec_fn(Seq<char>) -> Option<Seq<char>>,
) -> bool {
    forall|i: int|
        0 <= i < defs.len() ==> tf(#[trigger] defs[i].name) == Option::Some(defs[i].trans_name)
}

/// A well-formed definition sequence under a given transform.
pub open spec fn defs_wf(
    defs: Seq<VariableDefV>,
    tf: spec_fn(Seq<char>) -> Option<Seq<char>>,
) -> bool {
    names_unique(defs) && trans_unique(defs) && trans_consistent(defs, tf)
}

/// Defining a symbol, as a mathematical operation on the definition sequence.
/// Fails when the transform rejects the name, or when the transformed name
/// already denotes a different original name; redefining the same original
/// name replaces the definition in place and hands the old one back.
pub open spec fn spec_define(
    defs: Seq<VariableDefV>,
    tf: spec_fn(Seq<char>) -> Option<Seq<char>>,
    name: Seq<char>,
    value: LiteralV,
) -> Result<(Seq<VariableDefV>, Option<VariableDefV>), SymbolErrorV> {
    match tf(name) {
        Option::None => Result::Err(SymbolErrorV::NameTransformError { name }),
        Option::Some(trans) => {
            let nd = VariableDefV { name, trans_name: trans, value };
            if exists|i: int|
                0 <= i < defs.len() && defs[i].trans_name == trans && defs[i].name != name {
                let i = choose|i: int|
                    0 <= i < defs.len() && defs[i].trans_name == trans && defs[i].name != name;
                Result::Err(
                    SymbolErrorV::ConflictingTrans { trans_name: trans, names: (defs[i].name, name) },
                )
            } else if exists|i: int| 0 <= i < defs.len() && defs[i].name == name {
                let i = choose|i: int| 0 <= i < defs.len() && defs[i].name == name;
                Result::Ok((defs.update(i, nd), Option::Some(defs[i])))
            } else {
                Result::Ok((defs.push(nd), Option::None))
            }
        },
    }
}

/// Exact lookup by original name: the first (and, in a well-formed table,
/// only) definition with that name.
pub open spec fn st_lookup(defs: Seq<VariableDefV>, name: Seq<char>) -> Option<VariableDefV>
    decreases defs.len(),
{
    if defs.len() == 0 {
        Option::None
    } else if defs[0].name == name {
        Option::Some(defs[0])
    } else {
        st_lookup(defs.drop_first(), name)
    }
}

/// First-match characterization of `st_lookup`.
pub proof fn lemma_st_lookup(defs: Seq<VariableDefV>, name: Seq<char>)
    ensures
        st_lookup(defs, name) is None <==> (forall|i: int|
            0 <= i < defs.len() ==> defs[i].name != name),
        st_lookup(defs, name) matches Option::Some(d) ==> exists|i: int|
            0 <= i < defs.len() && defs[i] == d && defs[i].name == name,
    decreases defs.len(),
{
    if defs.len() > 0 && defs[0].name != name {
        lemma_st_lookup(defs.drop_first(), name);
        if st_lookup(defs, name) is None {
            assert forall|i: int| 0 <= i < defs.len() implies defs[i].name != name by {
                if i > 0 {
                    assert(defs.drop_first()[i - 1] == defs[i]);
                }
            }
        } else {
            let d = st_lookup(defs.drop_first(), name)->Some_0;
            let i = choose|i: int|
                0 <= i < defs.drop_first().len() && defs.drop_first()[i] == d
                    && defs.drop_first()[i].name == name;
            assert(defs[i + 1] == defs.drop_first()[i]);
        }
    }
}

/// In a table with unique names, any matching definition is the lookup
/// result.
pub proof fn lemma_st_lookup_unique(defs: Seq<VariableDefV>, name: Seq<char>, i: int)
    requires
        names_unique(defs),
        0 <= i < defs.len(),
        defs[i].name == name,
    ensures
        st_lookup(defs, name) == Option::Some(defs[i]),
{
    lemma_st_lookup(defs, name);
    if st_lookup(defs, name) is None {
        assert(defs[i].name != name);
    } else {
        let d = st_lookup(defs, name)->Some_0;
        let j = choose|j: int| 0 <= j < defs.len() && defs[j] == d && defs[j].name == name;
        assert(j == i);
    }
}

// --- laws of symbol definition ---

/// With no transform configured (the identity transform), a resolved
/// declaration keeps its original name: defining `name` always succeeds and
/// the binding it creates has `trans_name` equal to `name`.
pub proof fn lemma_identity_transform_keeps_name(
    defs: Seq<VariableDefV>,
    name: Seq<char>,
    value: LiteralV,
)
    requires
        !(exists|i: int|
            0 <= i < defs.len() && defs[i].trans_name == name && defs[i].name != name),
    ensures
        ({
            let tf = |n: Seq<char>| Option::Some(n);
            match spec_define(defs, tf, name, value) {
                Result::Ok(p) => exists|i: int|
                    0 <= i < p.0.len() && p.0[i] == (VariableDefV {
                        name,
                        trans_name: name,
                        value,
                    }),
                Result::Err(_) => false,
            }
        }),
{
    let tf = |n: Seq<char>| Option::Some::<Seq<char>>(n);
    let nd = VariableDefV { name, trans_name: name, value };
    match spec_define(defs, tf, name, value) {
        Result::Ok(p) => {
            if exists|i: int| 0 <= i < defs.len() && defs[i].name == name {
                let i = choose|i: int| 0 <= i < defs.len() && defs[i].name == name;
                assert(p.0 == defs.update(i, nd));
                assert(p.0[i] == nd);
            } else {
                assert(p.0 == defs.push(nd));
                assert(p.0[defs.len() as int] == nd);
            }
        },
        Result::Err(_) => {
            assert(false);
        },
    }
}

/// When the configured transform maps two distinct original names to the
/// same output, resolving the second declaration fails with a collision
/// error that names both of them, the earlier one first.
pub proof fn lemma_transform_collision(
    defs: Seq<VariableDefV>,
    tf: spec_fn(Seq<char>) -> Option<Seq<char>>,
    n1: Seq<char>,
    n2: Seq<char>,
    v1: LiteralV,
    v2: LiteralV,
)
    requires
        defs_wf(defs, tf),
        n1 != n2,
        tf(n1) == tf(n2),
        tf(n1) is Some,
        spec_define(defs, tf, n1, v1) is Ok,
    ensures
        ({
            let after = spec_define(defs, tf, n1, v1)->Ok_0.0;
            spec_define(after, tf, n2, v2) == Result::<
                (Seq<VariableDefV>, Option<VariableDefV>),
                SymbolErrorV,
            >::Err(
                SymbolErrorV::ConflictingTrans { trans_name: tf(n1)->Some_0, names: (n1, n2) },
            )
        }),
{
    let trans = tf(n1)->Some_0;
    let nd = VariableDefV { name: n1, trans_name: trans, value: v1 };
    let after = spec_define(defs, tf, n1, v1)->Ok_0.0;
    lemma_define_preserves_wf(defs, tf, n1, v1);
    // After the first definition some entry holds n1 with the shared
    // transformed name.
    let k: int = if exists|i: int| 0 <= i < defs.len() && defs[i].name == n1 {
        choose|i: int| 0 <= i < defs.len() && defs[i].name == n1
    } else {
        defs.len() as int
    };
    assert(after[k] == nd);
    assert(0 <= k < after.len());
    // So defining n2 hits the collision branch.
    assert(after[k].trans_name == trans && after[k].name != n2);
    let j = choose|i: int|
        0 <= i < after.len() && after[i].trans_name == trans && after[i].name != n2;
    assert(after[j].trans_name == after[k].trans_name);
    assert(j == k);
}

/// Defining preserves well-formedness, and a successful definition binds the
/// given name: afterwards it looks up to the new definition (shadowing any
/// earlier one), while every other name keeps its binding.
pub proof fn lemma_define_preserves_wf(
    defs: Seq<VariableDefV>,
    tf: spec_fn(Seq<char>) -> Option<Seq<char>>,
    name: Seq<char>,
    value: LiteralV,
)
    requires
        defs_wf(defs, tf),
    ensures
        ({
            match spec_define(defs, tf, name, value) {
                Result::Ok(p) => {
                    &&& defs_wf(p.0, tf)
                    &&& st_lookup(p.0, name) == Option::Some(
                        VariableDefV { name, trans_name: tf(name)->Some_0, value },
                    )
                    &&& forall|other: Seq<char>|
                        other != name ==> st_lookup(p.0, other) == st_lookup(defs, other)
                },
                Result::Err(_) => true,
            }
        }),
{
    match spec_define(defs, tf, name, value) {
        Result::Ok(p) => {
            let trans = tf(name)->Some_0;
            let nd = VariableDefV { name, trans_name: trans, value };
            if exists|i: int| 0 <= i < defs.len() && defs[i].name == name {
                let i = choose|i: int| 0 <= i < defs.len() && defs[i].name == name;
                assert(p.0 == defs.update(i, nd));
                assert(defs[i].trans_name == trans);
                assert forall|a: int, b: int|
                    0 <= a < p.0.len() && 0 <= b < p.0.len() && p.0[a].trans_name
                        == p.0[b].trans_name implies a == b by {
                    if a != i && b != i {
                        assert(p.0[a] == defs[a] && p.0[b] == defs[b]);
                    } else if a == i && b != i {
                        assert(p.0[b] == defs[b]);
                        assert(defs[b].trans_name == defs[i].trans_name);
                    } else if a != i && b == i {
                        assert(p.0[a] == defs[a]);
                        assert(defs[a].trans_name == defs[i].trans_name);
                    }
                }
                lemma_st_lookup_unique(p.0, name, i);
                assert forall|other: Seq<char>| other != name implies st_lookup(p.0, other)
                    == st_lookup(defs, other) by {
                    lemma_lookup_after_update(defs, i, nd, other);
                }
            } else {
                assert(p.0 == defs.push(nd));
                assert forall|a: int, b: int|
                    0 <= a < p.0.len() && 0 <= b < p.0.len() && p.0[a].trans_name
                        == p.0[b].trans_name implies a == b by {
                    if a < defs.len() && b < defs.len() {
                        assert(p.0[a] == defs[a] && p.0[b] == defs[b]);
                    } else if a < defs.len() && b == defs.len() {
                        assert(p.0[a] == defs[a]);
                        assert(defs[a].trans_name == trans);
                        assert(defs[a].name != name);
                    } else if b < defs.len() && a == defs.len() {
                        assert(p.0[b] == defs[b]);
                        assert(defs[b].trans_name == trans);
                        assert(defs[b].name != name);
                    }
                }
                lemma_st_lookup_unique(p.0, name, defs.len() as int);
                assert forall|other: Seq<char>| other != name implies st_lookup(p.0, other)
                    == st_lookup(defs, other) by {
                    lemma_lookup_after_push(defs, nd, other);
                }
            }
        },
        Result::Err(_) => {},
    }
}

/// Updating one entry leaves every lookup of a different name unchanged.
proof fn lemma_lookup_after_update(
    defs: Seq<VariableDefV>,
    i: int,
    nd: VariableDefV,
    other: Seq<char>,
)
    requires
        0 <= i < defs.len(),
        defs[i].name == nd.name,
        other != nd.name,
    ensures
        st_lookup(defs.update(i, nd), other) == st_lookup(defs, other),
    decreases defs.len(),
{
    if defs.len() > 0 {
        if i == 0 {
            assert(defs.update(i, nd).drop_first() =~= defs.drop_first());
        } else {
            assert(defs.update(i, nd)[0] == defs[0]);
            if defs[0].name != other {
                assert(defs.update(i, nd).drop_first() =~= defs.drop_first().update(i - 1, nd));
                lemma_lookup_after_update(defs.drop_first(), i - 1, nd, other);
            }
        }
    }
}

/// Appending an entry leaves every lookup of a different name unchanged.
proof fn lemma_lookup_after_push(defs: Seq<VariableDefV>, nd: VariableDefV, other: Seq<char>)
    requires
        other != nd.name,
    ensures
        st_lookup(defs.push(nd), other) == st_lookup(defs, other),
    decreases defs.len(),
{
    if defs.len() == 0 {
        assert(defs.push(nd)[0] == nd);
        assert(defs.push(nd).drop_first() =~= Seq::<VariableDefV>::empty());
    } else {
        assert(defs.push(nd)[0] == defs[0]);
        if defs[0].name != other {
            assert(defs.push(nd).drop_first() =~= defs.drop_first().push(nd));
            lemma_lookup_after_push(defs.drop_first(), nd, other);
        }
    }
}

/// Redeclaring a name in the same table succeeds, hands back the earlier
/// definition, and shadows it: afterwards the name looks up to the later
/// definition. (Scopes that must reject duplicates do so by inspecting the
/// handed-back definition.)
pub proof fn lemma_redeclare_shadows(
    defs: Seq<VariableDefV>,
    tf: spec_fn(Seq<char>) -> Option<Seq<char>>,
    name: Seq<char>,
    v1: LiteralV,
    v2: LiteralV,
)
    requires
        defs_wf(defs, tf),
        spec_define(defs, tf, name, v1) is Ok,
    ensures
        ({
            let after = spec_define(defs, tf, name, v1)->Ok_0.0;
            match spec_define(after, tf, name, v2) {
                Result::Ok(p) => {
                    &&& p.1 == Option::Some(
                        VariableDefV { name, trans_name: tf(name)->Some_0, value: v1 },
                    )
                    &&& st_lookup(p.0, name) == Option::Some(
                        VariableDefV { name, trans_name: tf(name)->Some_0, value: v2 },
                    )
                },
                Result::Err(_) => false,
            }
        }),
{
    let trans = tf(name)->Some_0;
    let nd1 = VariableDefV { name, trans_name: trans, value: v1 };
    let after = spec_define(defs, tf, name, v1)->Ok_0.0;
    lemma_define_preserves_wf(defs, tf, name, v1);
    lemma_st_lookup(after, name);
    // The second definition cannot collide: the only entry with this
    // transformed name is the one holding `name` itself.
    assert forall|i: int|
        0 <= i < after.len() && after[i].trans_name == trans implies after[i].name == name by {
        let j = choose|j: int| 0 <= j < after.len() && after[j] == nd1 && after[j].name == name;
        assert(after[i].trans_name == after[j].trans_name);
    }
    match spec_define(after, tf, name, v2) {
        Result::Ok(p) => {
            let i = choose|i: int| 0 <= i < after.len() && after[i].name == name;
            assert(after[i] == nd1) by {
                let j = choose|j: int|
                    0 <= j < after.len() && after[j] == nd1 && after[j].name == name;
                assert(i == j);
            }
            lemma_define_preserves_wf(after, tf, name, v2);
        },
        Result::Err(e) => {
            let j = choose|j: int| 0 <= j < after.len() && after[j] == nd1 && after[j].name == name;
            assert(false);
        },
    }
}

// --- the executable symbol table ---

/// The view of an optional previous definition.
pub open spec fn opt_vardef_view(o: Option<VariableDef>) -> Option<VariableDefV> {
    match o {
        Option::Some(d) => Option::Some(view_vardef(d)),
        Option::None => Option::None,
    }
}

/// What `define` must have done, relating the table before and after the
/// call and its result to the mathematical definition operation.
pub open spec fn define_matches(
    olddefs: Seq<VariableDefV>,
    newdefs: Seq<VariableDefV>,
    tf: spec_fn(Seq<char>) -> Option<Seq<char>>,
    name: Seq<char>,
    value: LiteralV,
    r: Result<Option<VariableDef>, SymbolError>,
) -> bool {
    match spec_define(olddefs, tf, name, value) {
        Result::Ok(p) => {
            &&& newdefs == p.0
            &&& match r {
                Result::Ok(prev) => opt_vardef_view(prev) == p.1,
                Result::Err(_) => false,
            }
        },
        Result::Err(ev) => {
            &&& newdefs == olddefs
            &&& match r {
                Result::Err(e) => view_symbol_error(e) == ev,
                Result::Ok(_) => false,
            }
        },
    }
}

/// A per-scope symbol table: definitions by original name, in insertion
/// order, plus the transformed-name index that collisions are found in.
pub struct SymbolTable {
    pub orig_to_def: LinkedHashMap<String, VariableDef>,
    pub trans_to_orig: LinkedHashMap<String, String>,
}

impl SymbolTable {
    /// The definitions, in insertion order, as the contracts see them.
    pub open spec fn defs(self) -> Seq<VariableDefV> {
        def_entries(self.orig_to_def).map_values(|p: (Seq<char>, VariableDefV)| p.1)
    }

    /// Every entry is keyed by its definition's original name.
    pub open spec fn keyed_by_name(self) -> bool {
        let es = def_entries(self.orig_to_def);
        forall|i: int| 0 <= i < es.len() ==> (#[trigger] es[i]).0 == es[i].1.name
    }

    /// The transformed-name index holds exactly the transformed names of the
    /// definitions, each mapped to its original name.
    pub open spec fn index_in_sync(self) -> bool {
        let es = def_entries(self.orig_to_def);
        let nm = name_entries(self.trans_to_orig);
        &&& forall|i: int|
            0 <= i < es.len() ==> nm.contains_key((#[trigger] es[i]).1.trans_name)
                && nm[es[i].1.trans_name] == es[i].1.name
        &&& forall|k: Seq<char>|
            #[trigger] nm.contains_key(k) ==> exists|i: int|
                0 <= i < es.len() && (#[trigger] es[i]).1.trans_name == k && es[i].1.name == nm[k]
    }

    /// Well-formedness under a given transform.
    pub open spec fn wf(self, tf: spec_fn(Seq<char>) -> Option<Seq<char>>) -> bool {
        &&& self.keyed_by_name()
        &&& defs_wf(self.defs(), tf)
        &&& self.index_in_sync()
    }

    /// Builds an empty table, well formed under every transform.
    pub fn new() -> (r: SymbolTable)
        ensures
            r.defs() == Seq::<VariableDefV>::empty(),
            forall|tf: spec_fn(Seq<char>) -> Option<Seq<char>>| r.wf(tf),
    {
        let r = SymbolTable { orig_to_def: dm_new(), trans_to_orig: nm_new() };
        proof {
            assert(r.defs() =~= Seq::<VariableDefV>::empty());
            assert forall|tf: spec_fn(Seq<char>) -> Option<Seq<char>>| r.wf(tf) by {
                assert(def_entries(r.orig_to_def).len() == 0);
                assert(r.defs().len() == 0);
            }
        }
        r
    }

    /// Defines a new symbol or replaces an existing definition of the same
    /// original name in place. Fails when the transform rejects the name, or
    /// when the transformed name already denotes a different original name;
    /// on success returns the previous definition, if one existed. On
    /// failure the table is not modified.
    pub fn define<T: NameTransformer>(&mut self, t: &T, name: String, value: Literal) -> (r: Result<Option<VariableDef>, SymbolError>)
        requires
            old(self).wf(tf_of(*t)),
        ensures
            final(self).wf(tf_of(*t)),
            define_matches(
                old(self).defs(),
                final(self).defs(),
                tf_of(*t),
                name@,
                view_literal(value),
                r,
            ),
    {
        let ghost tf = tf_of(*t);
        let ghost olddefs = self.defs();
        let ghost oldes = def_entries(self.orig_to_def);
        let ghost oldnm = name_entries(self.trans_to_orig);
        let ghost vv = view_literal(value);
        let trans = match t.transform(name.as_str()) {
            Result::Ok(v) => v,
            Result::Err(_) => {
                return Result::Err(SymbolError::NameTransformError { name });
            },
        };
        assert(tf(name@) == Option::Some(trans@));
        let ghost nd = VariableDefV { name: name@, trans_name: trans@, value: vv };
        let prev_orig = nm_get(&self.trans_to_orig, trans.as_str());
        match prev_orig {
            Option::Some(orig) => {
                proof {
                    assert(oldnm.contains_key(trans@));
                }
                let ghost wi = choose|i: int|
                    0 <= i < oldes.len() && (#[trigger] oldes[i]).1.trans_name == trans@
                        && oldes[i].1.name == oldnm[trans@];
                assert(olddefs[wi] == oldes[wi].1);
                if !str_eq(orig.as_str(), name.as_str()) {
                    proof {
                        // The transformed name already denotes `orig`.
                        assert(olddefs[wi].trans_name == trans@ && olddefs[wi].name != name@);
                        let j = choose|i: int|
                            0 <= i < olddefs.len() && olddefs[i].trans_name == trans@
                                && olddefs[i].name != name@;
                        assert(olddefs[j].trans_name == olddefs[wi].trans_name);
                        assert(j == wi);
                    }
                    let orig_c = orig.clone();
                    return Result::Err(
                        SymbolError::ConflictingTrans { trans_name: trans, names: (orig_c, name) },
                    );
                }
                //

                // Redefinition of the same original name: replace in place.
                proof {
                    assert(olddefs[wi].name == name@);
                    // No different name shares this transformed name.
                    assert forall|i: int|
                        0 <= i < olddefs.len() && olddefs[i].trans_name == trans@ implies olddefs[
                        i
                    ].name == name@ by {
                        assert(olddefs[i].trans_name == olddefs[wi].trans_name);
                        assert(i == wi);
                    }
                    assert(oldes[wi].0 == name@);
                }
                let entry = VariableDef { name: name.clone(), trans_name: trans, value };
                assert(view_vardef(entry) == nd);
                let prev = dm_replace(&mut self.orig_to_def, name.as_str(), entry);
                proof {
                    let es = def_entries(self.orig_to_def);
                    let j = choose|i: int|
                        0 <= i < oldes.len() && (#[trigger] oldes[i]).0 == name@ && view_vardef(
                            prev,
                        ) == oldes[i].1 && es == oldes.update(i, (name@, nd));
                    assert(oldes[j].0 == oldes[j].1.name && oldes[wi].0 == oldes[wi].1.name);
                    assert(olddefs[j] == oldes[j].1);
                    assert(olddefs[j].name == olddefs[wi].name);
                    assert(j == wi);
                    assert(self.defs() =~= olddefs.update(wi as int, nd));
                    // This matches the mathematical definition.
                    let si = choose|i: int| 0 <= i < olddefs.len() && olddefs[i].name == name@;
                    assert(olddefs[si].name == olddefs[wi].name);
                    assert(si == wi);
                    assert(spec_define(olddefs, tf, name@, vv) == Result::<
                        (Seq<VariableDefV>, Option<VariableDefV>),
                        SymbolErrorV,
                    >::Ok((olddefs.update(wi as int, nd), Option::Some(olddefs[wi]))));
                    // Well-formedness is preserved.
                    lemma_define_preserves_wf(olddefs, tf, name@, vv);
                    assert(self.keyed_by_name()) by {
                        assert forall|i: int| 0 <= i < es.len() implies (#[trigger] es[i]).0
                            == es[i].1.name by {
                            if i != wi {
                                assert(es[i] == oldes[i]);
                            }
                        }
                    }
                    assert(self.index_in_sync()) by {
                        assert(name_entries(self.trans_to_orig) == oldnm);
                        assert forall|i: int| 0 <= i < es.len() implies oldnm.contains_key(
                            (#[trigger] es[i]).1.trans_name,
                        ) && oldnm[es[i].1.trans_name] == es[i].1.name by {
                            if i != wi {
                                assert(es[i] == oldes[i]);
                            } else {
                                assert(es[i].1 == nd);
                                assert(oldnm[trans@] == name@);
                            }
                        }
                        assert forall|k: Seq<char>| #[trigger]
                            oldnm.contains_key(k) implies exists|i: int|
                            0 <= i < es.len() && (#[trigger] es[i]).1.trans_name == k && es[i].1.name
                                == oldnm[k] by {
                            let i0 = choose|i: int|
                                0 <= i < oldes.len() && (#[trigger] oldes[i]).1.trans_name == k
                                    && oldes[i].1.name == oldnm[k];
                            if i0 != wi {
                                assert(es[i0] == oldes[i0]);
                            } else {
                                assert(oldes[wi].1.trans_name == trans@);
                                assert(es[wi].1.trans_name == trans@ && es[wi].1.name == name@);
                                assert(oldnm[k] == oldes[wi].1.name);
                            }
                        }
                    }
                }
                Result::Ok(Option::Some(prev))
            },
            Option::None => {
                proof {
                    // No definition carries this transformed name, so the
                    // name itself is new as well.
                    assert forall|i: int| 0 <= i < olddefs.len() implies olddefs[i].trans_name
                        != trans@ by {
                        assert(olddefs[i] == oldes[i].1);
                        if olddefs[i].trans_name == trans@ {
                            assert(oldnm.contains_key(trans@));
                        }
                    }
                    assert forall|i: int| 0 <= i < olddefs.len() implies olddefs[i].name != name@
                        by {
                        if olddefs[i].name == name@ {
                            assert(tf(olddefs[i].name) == Option::Some(olddefs[i].trans_name));
                        }
                    }
                    assert forall|i: int| 0 <= i < oldes.len() implies (#[trigger] oldes[i]).0
                        != name@ by {
                        assert(oldes[i].0 == oldes[i].1.name);
                        assert(olddefs[i] == oldes[i].1);
                    }
                    assert(spec_define(olddefs, tf, name@, vv) == Result::<
                        (Seq<VariableDefV>, Option<VariableDefV>),
                        SymbolErrorV,
                    >::Ok((olddefs.push(nd), Option::None)));
                }
                let entry = VariableDef { name: name.clone(), trans_name: trans.clone(), value };
                assert(view_vardef(entry) == nd);
                nm_insert(&mut self.trans_to_orig, trans, name.clone());
                dm_insert_absent(&mut self.orig_to_def, name, entry);
                proof {
                    let es = def_entries(self.orig_to_def);
                    let nm = name_entries(self.trans_to_orig);
                    assert(es == oldes.push((name@, nd)));
                    assert(nm == oldnm.insert(trans@, name@));
                    assert(self.defs() =~= olddefs.push(nd));
                    lemma_define_preserves_wf(olddefs, tf, name@, vv);
                    assert(self.keyed_by_name()) by {
                        assert forall|i: int| 0 <= i < es.len() implies (#[trigger] es[i]).0
                            == es[i].1.name by {
                            if i < oldes.len() {
                                assert(es[i] == oldes[i]);
                            } else {
                                assert(es[i] == (name@, nd));
                            }
                        }
                    }
                    assert(self.index_in_sync()) by {
                        assert forall|i: int| 0 <= i < es.len() implies nm.contains_key(
                            (#[trigger] es[i]).1.trans_name,
                        ) && nm[es[i].1.trans_name] == es[i].1.name by {
                            if i < oldes.len() {
                                assert(es[i] == oldes[i]);
                                assert(oldnm.contains_key(oldes[i].1.trans_name));
                                assert(oldes[i].1.trans_name != trans@) by {
                                    assert(olddefs[i] == oldes[i].1);
                                }
                            } else {
                                assert(es[i] == (name@, nd));
                            }
                        }
                        assert forall|k: Seq<char>| #[trigger] nm.contains_key(k) implies exists|
                            i: int,
                        |
                            0 <= i < es.len() && (#[trigger] es[i]).1.trans_name == k && es[i].1.name
                                == nm[k] by {
                            if k == trans@ {
                                assert(es[oldes.len() as int] == (name@, nd));
                                assert(es[oldes.len() as int].1.trans_name == k);
                            } else {
                                assert(oldnm.contains_key(k));
                                let i0 = choose|i: int|
                                    0 <= i < oldes.len() && (#[trigger] oldes[i]).1.trans_name == k
                                        && oldes[i].1.name == oldnm[k];
                                assert(es[i0] == oldes[i0]);
                            }
                        }
                    }
                }
                Result::Ok(Option::None)
            },
        }
    }

    /// Exact lookup by original name only; transformed names are never used
    /// for lookup.
    pub fn get<'a>(&'a self, name: &str) -> (r: Option<&'a VariableDef>)
        requires
            self.keyed_by_name(),
            names_unique(self.defs()),
        ensures
            match r {
                Option::Some(d) => st_lookup(self.defs(), name@) == Option::Some(view_vardef(*d)),
                Option::None => st_lookup(self.defs(), name@) is None,
            },
    {
        let ghost es = def_entries(self.orig_to_def);
        let r = dm_get(&self.orig_to_def, name);
        proof {
            lemma_st_lookup(self.defs(), name@);
            match r {
                Option::Some(d) => {
                    let i = choose|i: int|
                        0 <= i < es.len() && (#[trigger] es[i]).0 == name@ && view_vardef(*d)
                            == es[i].1;
                    assert(self.defs()[i] == es[i].1);
                    assert(self.defs()[i].name == name@);
                    lemma_st_lookup_unique(self.defs(), name@, i);
                },
                Option::None => {
                    assert forall|i: int| 0 <= i < self.defs().len() implies self.defs()[i].name
                        != name@ by {
                        assert(self.defs()[i] == es[i].1);
                        assert(es[i].0 == es[i].1.name);
                    }
                },
            }
        }
        r
    }

    /// Drains the table into its insertion-ordered definition sequence.
    pub fn into_defs(self) -> (r: Vec<VariableDef>)
        ensures
            view_vardefs(r@) == self.defs(),
    {
        let ghost es = def_entries(self.orig_to_def);
        let r = dm_into_defs(self.orig_to_def);
        proof {
            assert(view_vardefs(r@) =~= self.defs()) by {
                assert(forall|i: int|
                    0 <= i < r@.len() ==> view_vardefs(r@)[i] == view_vardef(r@[i]));
                assert(forall|i: int| 0 <= i < es.len() ==> self.defs()[i] == es[i].1);
            }
        }
        r
    }
}

/// Resolution of a variable reference: the fixed precedence Local, then
/// Field, then Global.
pub open spec fn spec_reference_var(
    locals: Seq<VariableDefV>,
    fields: Seq<VariableDefV>,
    globals: Seq<VariableDefV>,
    name: Seq<char>,
) -> Option<(VariableDefV, VarLocation)> {
    if st_lookup(locals, name) is Some {
        Option::Some((st_lookup(locals, name)->Some_0, VarLocation::Local))
    } else if st_lookup(fields, name) is Some {
        Option::Some((st_lookup(fields, name)->Some_0, VarLocation::Field))
    } else if st_lookup(globals, name) is Some {
        Option::Some((st_lookup(globals, name)->Some_0, VarLocation::Global))
    } else {
        Option::None
    }
}

/// Resolution precedence: a local binding wins over a field or global of the
/// same name, a field over a global, and resolution fails exactly when no
/// enclosing scope binds the name.
pub proof fn lemma_resolution_precedence(
    locals: Seq<VariableDefV>,
    fields: Seq<VariableDefV>,
    globals: Seq<VariableDefV>,
    name: Seq<char>,
)
    ensures
        st_lookup(locals, name) matches Option::Some(d) ==> spec_reference_var(
            locals,
            fields,
            globals,
            name,
        ) == Option::Some((d, VarLocation::Local)),
        st_lookup(locals, name) is None ==> (st_lookup(fields, name) matches Option::Some(d)
            ==> spec_reference_var(locals, fields, globals, name) == Option::Some(
            (d, VarLocation::Field),
        )),
        st_lookup(locals, name) is None && st_lookup(fields, name) is None ==> (st_lookup(
            globals,
            name,
        ) matches Option::Some(d) ==> spec_reference_var(locals, fields, globals, name)
            == Option::Some((d, VarLocation::Global))),
        spec_reference_var(locals, fields, globals, name) is None <==> (st_lookup(locals, name)
            is None && st_lookup(fields, name) is None && st_lookup(globals, name) is None),
{
}

} // verus!
