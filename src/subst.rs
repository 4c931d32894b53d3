//! Substitutions held as hash maps from handle to handle, and how they
//! stand for maps between the types behind the handles.
use vstd::prelude::*;
use rustc_hash::{FxBuildHasher, FxHashMap};
use crate::store::{extends, lemma_tree_injective, lemma_tree_stable, nodes_wf, tree, valid};
use crate::ty_def::{is_var, leaf_var, rekey, Ty, TyData, TyId};

verus! {

/// rustc_hash's hasher builder, which the substitution maps carry in their
/// type; nothing inside it is read.
#[verifier::external_type_specification]
#[verifier::external_body]
pub struct ExFxBuildHasher(FxBuildHasher);

/// Relies on `std::collections::HashMap::get` under rustc_hash's
/// `FxBuildHasher`, a deterministic hasher that gives equal keys equal
/// hashes: the lookup finds exactly the keys of the map.
#[verifier::external_body]
pub(crate) fn subst_get(m: &FxHashMap<TyId, TyId>, k: TyId) -> (r: Option<TyId>)
    ensures
        r == (if m@.contains_key(k) {
            Some(m@[k])
        } else {
            None::<TyId>
        }),
{
    m.get(&k).copied()
}

/// Relies on `std::collections::HashMap::insert` under rustc_hash's
/// `FxBuildHasher`, a deterministic hasher that gives equal keys equal
/// hashes: the map afterwards is the old one with `k` mapped to `v`.
#[verifier::external_body]
pub(crate) fn subst_insert(m: &mut FxHashMap<TyId, TyId>, k: TyId, v: TyId)
    ensures
        final(m)@ == old(m)@.insert(k, v),
{
    m.insert(k, v);
}

/// `h` maps handles as `m` maps the types behind them.
#[verifier::opaque]
pub open spec fn handle_map_inv(s: Seq<TyData>, h: Map<TyId, TyId>, m: Map<Ty, Ty>) -> bool {
    &&& forall|k: TyId| #[trigger]
        h.contains_key(k) ==> valid(s, k) && valid(s, h[k]) && m.contains_key(tree(s, k))
            && m[tree(s, k)] == tree(s, h[k])
    &&& forall|t: Ty| #[trigger]
        m.contains_key(t) ==> exists|k: TyId| #[trigger] h.contains_key(k) && tree(s, k) == t
}

pub(crate) proof fn lemma_handle_map_stable(
    s1: Seq<TyData>,
    s2: Seq<TyData>,
    h: Map<TyId, TyId>,
    m: Map<Ty, Ty>,
)
    requires
        extends(s1, s2),
        handle_map_inv(s1, h, m),
    ensures
        handle_map_inv(s2, h, m),
{
    reveal(handle_map_inv);
    assert forall|k: TyId| #[trigger] h.contains_key(k) implies valid(s2, k) && valid(s2, h[k])
        && m.contains_key(tree(s2, k)) && m[tree(s2, k)] == tree(s2, h[k]) by {
        lemma_tree_stable(s1, s2, k);
        lemma_tree_stable(s1, s2, h[k]);
    };
    assert forall|t: Ty| #[trigger] m.contains_key(t) implies exists|k: TyId| #[trigger]
        h.contains_key(k) && tree(s2, k) == t by {
        let k = choose|k: TyId| #[trigger] h.contains_key(k) && tree(s1, k) == t;
        lemma_tree_stable(s1, s2, k);
    };
}

pub(crate) proof fn lemma_handle_map_lookup(s: Seq<TyData>, h: Map<TyId, TyId>, m: Map<Ty, Ty>, k: TyId)
    requires
        nodes_wf(s),
        handle_map_inv(s, h, m),
        valid(s, k),
    ensures
        h.contains_key(k) <==> m.contains_key(tree(s, k)),
        h.contains_key(k) ==> valid(s, h[k]) && m[tree(s, k)] == tree(s, h[k]),
{
    reveal(handle_map_inv);
    if m.contains_key(tree(s, k)) {
        let k2 = choose|k2: TyId| #[trigger] h.contains_key(k2) && tree(s, k2) == tree(s, k);
        lemma_tree_injective(s, k, k2);
    }
}

pub(crate) proof fn lemma_handle_map_insert(
    s: Seq<TyData>,
    h: Map<TyId, TyId>,
    m: Map<Ty, Ty>,
    k: TyId,
    v: TyId,
)
    requires
        nodes_wf(s),
        handle_map_inv(s, h, m),
        valid(s, k),
        valid(s, v),
        !h.contains_key(k),
    ensures
        handle_map_inv(s, h.insert(k, v), m.insert(tree(s, k), tree(s, v))),
{
    reveal(handle_map_inv);
    let h2 = h.insert(k, v);
    let m2 = m.insert(tree(s, k), tree(s, v));
    assert forall|k2: TyId| #[trigger] h2.contains_key(k2) implies valid(s, k2) && valid(s, h2[k2])
        && m2.contains_key(tree(s, k2)) && m2[tree(s, k2)] == tree(s, h2[k2]) by {
        if k2 != k {
            if tree(s, k2) == tree(s, k) {
                lemma_tree_injective(s, k, k2);
            }
        }
    };
    assert forall|t: Ty| #[trigger] m2.contains_key(t) implies exists|k2: TyId| #[trigger]
        h2.contains_key(k2) && tree(s, k2) == t by {
        if t == tree(s, k) {
            assert(h2.contains_key(k));
        } else {
            let k2 = choose|k2: TyId| #[trigger] h.contains_key(k2) && tree(s, k2) == t;
            assert(h2.contains_key(k2));
        }
    };
}

/// `m` maps variables to canonical variables with keys below `next`, and
/// `b` is its inverse.
#[verifier::opaque]
pub open spec fn leaf_maps_inv(m: Map<Ty, Ty>, b: Map<Ty, Ty>, next: nat) -> bool {
    &&& forall|l: Ty| #[trigger]
        m.contains_key(l) ==> is_var(m[l]) && (leaf_var(m[l]).key.0 as nat) < next
            && b.contains_key(m[l]) && b[m[l]] == l
    &&& forall|c: Ty| #[trigger] b.contains_key(c) ==> m.contains_key(b[c]) && m[b[c]] == c
}

pub(crate) proof fn lemma_leaf_maps_insert(m: Map<Ty, Ty>, b: Map<Ty, Ty>, next: nat, t: Ty)
    requires
        leaf_maps_inv(m, b, next),
        is_var(t),
        !m.contains_key(t),
        next <= usize::MAX,
    ensures
        !b.contains_key(rekey(t, next)),
        leaf_maps_inv(m.insert(t, rekey(t, next)), b.insert(rekey(t, next), t), next + 1),
{
    reveal(leaf_maps_inv);
    let c = rekey(t, next);
    let m2 = m.insert(t, c);
    let b2 = b.insert(c, t);
    assert forall|l: Ty| #[trigger] m2.contains_key(l) implies is_var(m2[l]) && (leaf_var(
        m2[l],
    ).key.0 as nat) < next + 1 && b2.contains_key(m2[l]) && b2[m2[l]] == l by {
        if l != t {
            assert(m.contains_key(l));
        }
    };
    assert forall|c2: Ty| #[trigger] b2.contains_key(c2) implies m2.contains_key(b2[c2])
        && m2[b2[c2]] == c2 by {
        if c2 != c {
            assert(b.contains_key(c2));
            assert(b2[c2] != t);
        }
    };
}

pub(crate) proof fn lemma_leaf_maps_add(m: Map<Ty, Ty>, b: Map<Ty, Ty>, next: nat, l: Ty, c: Ty)
    requires
        leaf_maps_inv(m, b, next),
        is_var(c),
        (leaf_var(c).key.0 as nat) < next,
        !m.contains_key(l),
        !b.contains_key(c),
    ensures
        leaf_maps_inv(m.insert(l, c), b.insert(c, l), next),
{
    reveal(leaf_maps_inv);
    let m2 = m.insert(l, c);
    let b2 = b.insert(c, l);
    assert forall|l2: Ty| #[trigger] m2.contains_key(l2) implies is_var(m2[l2]) && (leaf_var(
        m2[l2],
    ).key.0 as nat) < next && b2.contains_key(m2[l2]) && b2[m2[l2]] == l2 by {
        if l2 != l {
            assert(m.contains_key(l2));
        }
    };
    assert forall|c2: Ty| #[trigger] b2.contains_key(c2) implies m2.contains_key(b2[c2])
        && m2[b2[c2]] == c2 by {
        if c2 != c {
            assert(b.contains_key(c2));
            assert(b2[c2] != l);
        }
    };
}

} // verus!
