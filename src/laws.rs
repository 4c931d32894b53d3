//! What canonicalization guarantees, stated over the model of types.
use vstd::prelude::*;
use crate::canonical::{
    canon, canonical_form, collect, extract, identity_slots, probe_map, slot_of,
    solution_canon, var_count,
};
use crate::subst::leaf_maps_inv;
use crate::unify::{resolve, VarSlot};
use crate::ty_def::{is_var, leaf_var, rekey, rename, vars_in, Ty};

verus! {

/// `m2` agrees with `m1` wherever `m1` is defined.
pub open spec fn agrees(m1: Map<Ty, Ty>, m2: Map<Ty, Ty>) -> bool {
    forall|k: Ty| #[trigger] m1.contains_key(k) ==> m2.contains_key(k) && m2[k] == m1[k]
}

/// The key of a variable leaf.
pub open spec fn key_of(t: Ty) -> nat {
    leaf_var(t).key.0 as nat
}

/// `rho` renames variables consistently: each variable to a variable that
/// differs from it only in its key, and no two to the same one.
pub open spec fn is_renaming(rho: Map<Ty, Ty>) -> bool {
    &&& forall|l: Ty| #[trigger]
        rho.contains_key(l) ==> is_var(l) && rho[l] == rekey(l, key_of(rho[l]))
    &&& forall|l1: Ty, l2: Ty|
        rho.contains_key(l1) && rho.contains_key(l2) && #[trigger] rho[l1] == #[trigger] rho[l2]
            ==> l1 == l2
}

pub proof fn lemma_rename_agrees(t: Ty, m1: Map<Ty, Ty>, m2: Map<Ty, Ty>)
    requires
        vars_in(t, m1),
        agrees(m1, m2),
    ensures
        vars_in(t, m2),
        rename(t, m2) == rename(t, m1),
    decreases t,
{
    if let Ty::App(f, a) = t {
        lemma_rename_agrees(*f, m1, m2);
        lemma_rename_agrees(*a, m1, m2);
    }
}

/// Canonicalizing only adds to the map, and the result is the input
/// renamed by the final map.
pub proof fn lemma_canon_renames(t: Ty, m: Map<Ty, Ty>, n: nat)
    ensures
        agrees(m, canon(t, m, n).1),
        vars_in(t, canon(t, m, n).1),
        canon(t, m, n).0 == rename(t, canon(t, m, n).1),
    decreases t,
{
    if let Ty::App(f, a) = t {
        lemma_canon_renames(*f, m, n);
        let (f2, m1, n1) = canon(*f, m, n);
        lemma_canon_renames(*a, m1, n1);
        let (a2, m2, n2) = canon(*a, m1, n1);
        lemma_rename_agrees(*f, m1, m2);
    }
}

/// The relation between the maps of two canonicalizations, one of `t` and
/// one of `t` renamed by `rho`.
pub open spec fn maps_related(m1: Map<Ty, Ty>, m2: Map<Ty, Ty>, rho: Map<Ty, Ty>) -> bool {
    forall|l: Ty| #[trigger]
        rho.contains_key(l) ==> (m1.contains_key(l) <==> m2.contains_key(rho[l])) && (
        m1.contains_key(l) ==> m1[l] == m2[rho[l]])
}

proof fn lemma_canon_related(t: Ty, m1: Map<Ty, Ty>, m2: Map<Ty, Ty>, n: nat, rho: Map<Ty, Ty>)
    requires
        is_renaming(rho),
        vars_in(t, rho),
        maps_related(m1, m2, rho),
    ensures
        canon(rename(t, rho), m2, n).0 == canon(t, m1, n).0,
        canon(rename(t, rho), m2, n).2 == canon(t, m1, n).2,
        maps_related(canon(t, m1, n).1, canon(rename(t, rho), m2, n).1, rho),
    decreases t,
{
    match t {
        Ty::App(f, a) => {
            lemma_canon_related(*f, m1, m2, n, rho);
            let (_, m1f, n1) = canon(*f, m1, n);
            let (_, m2f, _) = canon(rename(*f, rho), m2, n);
            lemma_canon_related(*a, m1f, m2f, n1, rho);
        },
        _ => {
            if is_var(t) {
                let u = rho[t];
                assert(rekey(u, n) == rekey(t, n));
                if !m1.contains_key(t) {
                    let c = rekey(t, n);
                    let m1b = m1.insert(t, c);
                    let m2b = m2.insert(u, c);
                    assert forall|l: Ty| #[trigger] rho.contains_key(l) implies (m1b.contains_key(l)
                        <==> m2b.contains_key(rho[l])) && (m1b.contains_key(l) ==> m1b[l]
                        == m2b[rho[l]]) by {
                        if l != t {
                            assert(rho[l] != u);
                        }
                    };
                }
            }
        },
    }
}

/// Canonical determinism: two types equal up to a consistent renaming of
/// their variables have the same canonical form.
pub proof fn lemma_canonical_determinism(t: Ty, rho: Map<Ty, Ty>)
    requires
        is_renaming(rho),
        vars_in(t, rho),
    ensures
        canonical_form(rename(t, rho)) == canonical_form(t),
{
    lemma_canon_related(t, Map::empty(), Map::empty(), 0, rho);
}

/// What the map of a canonicalization starting from nothing looks like
/// after `n` variables: `acc` lists the canonical variables by key.
pub open spec fn numbering(m: Map<Ty, Ty>, n: nat, acc: Seq<Ty>) -> bool {
    &&& acc.len() == n
    &&& forall|i: int| 0 <= i < n ==> is_var(#[trigger] acc[i]) && key_of(acc[i]) == i
    &&& forall|l: Ty| #[trigger]
        m.contains_key(l) ==> is_var(l) && is_var(m[l]) && key_of(m[l]) < n && acc[key_of(
            m[l],
        ) as int] == m[l] && m[l] == rekey(l, key_of(m[l]))
    &&& forall|l1: Ty, l2: Ty|
        m.contains_key(l1) && m.contains_key(l2) && #[trigger] m[l1] == #[trigger] m[l2] ==> l1
            == l2
}

proof fn lemma_canon_numbering(t: Ty, m: Map<Ty, Ty>, n: nat, acc: Seq<Ty>)
    requires
        numbering(m, n, acc),
        canon(t, m, n).2 <= usize::MAX,
    ensures
        numbering(canon(t, m, n).1, canon(t, m, n).2, collect(canon(t, m, n).0, acc)),
    decreases t,
{
    match t {
        Ty::App(f, a) => {
            let (_, m1, n1) = canon(*f, m, n);
            crate::canonical::lemma_canon_next(*a, m1, n1);
            lemma_canon_numbering(*f, m, n, acc);
            let (f2, _, _) = canon(*f, m, n);
            lemma_canon_numbering(*a, m1, n1, collect(f2, acc));
        },
        _ => {
            if is_var(t) {
                if m.contains_key(t) {
                    let c = m[t];
                    assert(acc[key_of(c) as int] == c);
                    assert(acc.contains(c));
                } else {
                    let c = rekey(t, n);
                    assert(key_of(c) == n);
                    if acc.contains(c) {
                        let i = choose|i: int| 0 <= i < acc.len() && acc[i] == c;
                        assert(key_of(acc[i]) == i);
                    }
                    let m2 = m.insert(t, c);
                    let acc2 = acc.push(c);
                    assert forall|l: Ty| #[trigger] m2.contains_key(l) implies is_var(l) && is_var(
                        m2[l],
                    ) && key_of(m2[l]) < n + 1 && acc2[key_of(m2[l]) as int] == m2[l] && m2[l]
                        == rekey(l, key_of(m2[l])) by {
                        if l != t {
                            assert(m.contains_key(l));
                        }
                    };
                    assert forall|l1: Ty, l2: Ty|
                        m2.contains_key(l1) && m2.contains_key(l2) && #[trigger] m2[l1]
                            == #[trigger] m2[l2] implies l1 == l2 by {
                        if l1 != t && l2 != t {
                            assert(m[l1] == m[l2]);
                        } else if l1 != t {
                            assert(key_of(m[l1]) < n);
                        } else if l2 != t {
                            assert(key_of(m[l2]) < n);
                        }
                    };
                }
            }
        },
    }
}

/// Round trip through identity extraction: the canonical form of `t`, which
/// `extract_identity` returns, is `t` with each variable replaced by one of
/// the same sort and kind (only the key differs), distinct variables by
/// distinct ones, and the key of each is a slot that extraction allocates,
/// unbound, with that sort and kind.
pub proof fn lemma_identity_round_trip(t: Ty)
    requires
        var_count(t) <= usize::MAX,
    ensures
        ({
            let (c, m, n) = canon(t, Map::empty(), 0);
            &&& vars_in(t, m)
            &&& c == rename(t, m)
            &&& is_renaming(m)
            &&& identity_slots(c).len() == n
            &&& forall|l: Ty| #[trigger]
                m.contains_key(l) ==> key_of(m[l]) < n && identity_slots(c)[key_of(m[l]) as int]
                    == slot_of(l)
        }),
{
    let (c, m, n) = canon(t, Map::empty(), 0);
    lemma_canon_renames(t, Map::empty(), 0);
    lemma_canon_numbering(t, Map::empty(), 0, Seq::empty());
}

/// The variables of a type in canonical form are numbered by their first
/// occurrence: the `i`-th distinct one has key `i`.
pub proof fn lemma_canon_numbering_of(t: Ty)
    requires
        canonical_form(t) == t,
        var_count(t) <= usize::MAX,
    ensures
        forall|i: int|
            0 <= i < collect(t, Seq::empty()).len() ==> is_var(#[trigger] collect(t, Seq::empty())[i])
                && leaf_var(collect(t, Seq::empty())[i]).key.0 == i,
{
    lemma_canon_numbering(t, Map::empty(), 0, Seq::empty());
}

/// Extraction only adds to the map, and the result is the solution renamed
/// by the final map.
pub proof fn lemma_extract_renames(t: Ty, e: Map<Ty, Ty>, slots: Seq<VarSlot>)
    ensures
        agrees(e, extract(t, e, slots).1),
        vars_in(t, extract(t, e, slots).1),
        extract(t, e, slots).0 == rename(t, extract(t, e, slots).1),
    decreases t,
{
    if let Ty::App(f, a) = t {
        lemma_extract_renames(*f, e, slots);
        let (_, e1, s1) = extract(*f, e, slots);
        lemma_extract_renames(*a, e1, s1);
        lemma_rename_agrees(*f, e1, extract(*a, e1, s1).1);
    }
}

/// Solution back-mapping: for a query `q` canonicalized with the
/// substitution `back`, extracting a solution yields the solution with its
/// variables renamed, where every occurrence of the canonical variable of
/// one of `q`'s variables is exactly that variable of `q` itself.
pub proof fn lemma_solution_back_mapping(q: Ty, back: Map<Ty, Ty>, sol: Ty, slots: Seq<VarSlot>)
    requires
        leaf_maps_inv(canon(q, Map::empty(), 0).1, back, var_count(q)),
    ensures
        ({
            let m = canon(q, Map::empty(), 0).1;
            let (r, e, _) = extract(sol, back, slots);
            &&& vars_in(sol, e)
            &&& r == rename(sol, e)
            &&& forall|l: Ty| #[trigger] m.contains_key(l) ==> e.contains_key(m[l]) && e[m[l]] == l
        }),
{
    reveal(leaf_maps_inv);
    lemma_extract_renames(sol, back, slots);
}

proof fn lemma_probe_map(b: Map<nat, Ty>, fuel: nat, vs: Seq<Ty>)
    ensures
        forall|p: Ty| #[trigger]
            probe_map(b, fuel, vs).contains_key(p) ==> is_var(p) && vs.contains(
                probe_map(b, fuel, vs)[p],
            ) && resolve(b, probe_map(b, fuel, vs)[p], fuel) == p,
    decreases vs.len(),
{
    if vs.len() > 0 {
        let vs0 = vs.drop_last();
        lemma_probe_map(b, fuel, vs0);
        let m0 = probe_map(b, fuel, vs0);
        assert forall|p: Ty| #[trigger] probe_map(b, fuel, vs).contains_key(p) implies is_var(p)
            && vs.contains(probe_map(b, fuel, vs)[p]) && resolve(
            b,
            probe_map(b, fuel, vs)[p],
            fuel,
        ) == p by {
            if m0.contains_key(p) && probe_map(b, fuel, vs)[p] == m0[p] {
                let j = choose|j: int| 0 <= j < vs0.len() && vs0[j] == m0[p];
                assert(vs[j] == vs0[j]);
            } else {
                assert(vs[vs.len() - 1] == vs.last());
            }
        };
    }
}

/// A canonicalized solution is the resolved solution with its variables
/// renamed, and every variable that a query variable resolves to, that is
/// every variable unifiable with a query variable, is renamed to such a
/// query variable.
pub proof fn lemma_solution_canonical(b: Map<nat, Ty>, fuel: nat, query: Ty, sol: Ty)
    ensures
        ({
            let vs = collect(query, Seq::empty());
            let m0 = probe_map(b, fuel, vs);
            let (c, m, _) = solution_canon(b, fuel, query, sol);
            &&& c == rename(resolve(b, sol, fuel), m)
            &&& agrees(m0, m)
            &&& forall|p: Ty| #[trigger]
                m0.contains_key(p) ==> is_var(p) && vs.contains(m[p]) && resolve(b, m[p], fuel)
                    == p
        }),
{
    let vs = collect(query, Seq::empty());
    lemma_probe_map(b, fuel, vs);
    lemma_canon_renames(resolve(b, sol, fuel), probe_map(b, fuel, vs), vs.len());
}

} // verus!
