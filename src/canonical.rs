//! Canonicalization: renumbering the variables of a type so that it can
//! serve as a cache key independent of any unification store, and mapping
//! solutions of canonical queries back into the context that asked.
use vstd::prelude::*;
use rustc_hash::FxHashMap;
use crate::store::{
    children_below, extends, lemma_tree_injective, lemma_tree_stable, nodes_wf, tree, valid,
    TyStore,
};
use crate::subst::{
    handle_map_inv, leaf_maps_inv, lemma_handle_map_insert, lemma_handle_map_lookup,
    lemma_handle_map_stable, lemma_leaf_maps_add, lemma_leaf_maps_insert, subst_get, subst_insert,
};
use crate::fold::{fold_ok, fold_spec, fold_ty, TyFolder};
use crate::unify::{bindings, lemma_bindings_stable, resolve, slots_wf, UnificationTable, VarSlot};
use crate::ty_def::{is_var, leaf_var, rekey, ConstTyData, InferenceKey, Ty, TyData, TyId, TyVar};

verus! {

/// Renumbers the variables of `t` in the order of their first occurrence,
/// left to right. `m` maps the variable leaves seen so far to their
/// canonical leaves and `next` is the next key to hand out. A variable keeps
/// its sort and its kind (and a const-type variable the type of its
/// constant); only its key changes.
pub open spec fn canon(t: Ty, m: Map<Ty, Ty>, next: nat) -> (Ty, Map<Ty, Ty>, nat)
    decreases t,
{
    match t {
        Ty::App(f, a) => {
            let (f2, m1, n1) = canon(*f, m, next);
            let (a2, m2, n2) = canon(*a, m1, n1);
            (Ty::App(Box::new(f2), Box::new(a2)), m2, n2)
        },
        _ => if is_var(t) {
            if m.contains_key(t) {
                (m[t], m, next)
            } else {
                (rekey(t, next), m.insert(t, rekey(t, next)), next + 1)
            }
        } else {
            (t, m, next)
        },
    }
}

/// The canonical form of `t`: its variables renumbered from 0 in the order
/// of their first occurrence.
pub open spec fn canonical_form(t: Ty) -> Ty {
    canon(t, Map::empty(), 0).0
}

/// The number of distinct variables of `t`.
pub open spec fn var_count(t: Ty) -> nat {
    canon(t, Map::empty(), 0).2
}

pub proof fn lemma_canon_next(t: Ty, m: Map<Ty, Ty>, next: nat)
    ensures
        canon(t, m, next).2 >= next,
    decreases t,
{
    if let Ty::App(f, a) = t {
        lemma_canon_next(*f, m, next);
        let (_, m1, n1) = canon(*f, m, next);
        lemma_canon_next(*a, m1, n1);
    }
}

/// The map from what the query's canonical variables `vs` resolve to back
/// to those variables: each one that resolves to a variable, the first one
/// where two resolve to the same.
pub open spec fn probe_map(b: Map<nat, Ty>, fuel: nat, vs: Seq<Ty>) -> Map<Ty, Ty>
    decreases vs.len(),
{
    if vs.len() == 0 {
        Map::empty()
    } else {
        let m = probe_map(b, fuel, vs.drop_last());
        let p = resolve(b, vs.last(), fuel);
        if is_var(p) && !m.contains_key(p) {
            m.insert(p, vs.last())
        } else {
            m
        }
    }
}

/// A solution found under the bindings `b`, canonicalized against the
/// canonical query `query`: resolved through `b`, each variable that a
/// query variable resolves to expressed as that query variable, and the
/// other variables numbered after the query's.
pub open spec fn solution_canon(b: Map<nat, Ty>, fuel: nat, query: Ty, sol: Ty) -> (Ty, Map<Ty, Ty>, nat) {
    let vs = collect(query, Seq::empty());
    canon(resolve(b, sol, fuel), probe_map(b, fuel, vs), vs.len())
}

/// Renumbers variables as it meets them, recording the substitution from
/// the variables met to canonical ones and back.
struct Canonicalizer {
    subst: FxHashMap<TyId, TyId>,
    rev: FxHashMap<TyId, TyId>,
    next: usize,
    m: Ghost<Map<Ty, Ty>>,
    b: Ghost<Map<Ty, Ty>>,
}

/// The rule of canonicalization on one variable leaf.
pub open spec fn canon_leaf(st: (Map<Ty, Ty>, nat), t: Ty) -> (Ty, (Map<Ty, Ty>, nat)) {
    if st.0.contains_key(t) {
        (st.0[t], st)
    } else {
        (rekey(t, st.1), (st.0.insert(t, rekey(t, st.1)), st.1 + 1))
    }
}

proof fn lemma_canon_fold(t: Ty, m: Map<Ty, Ty>, n: nat)
    ensures
        fold_spec::<Canonicalizer>((m, n), t) == (canon(t, m, n).0, (canon(t, m, n).1, canon(t, m, n).2)),
        canon(t, m, n).2 <= usize::MAX ==> fold_ok::<Canonicalizer>((m, n), t),
    decreases t,
{
    if let Ty::App(a, b) = t {
        lemma_canon_fold(*a, m, n);
        let (_, m1, n1) = canon(*a, m, n);
        lemma_canon_fold(*b, m1, n1);
        lemma_canon_next(*b, m1, n1);
    }
}

impl TyFolder for Canonicalizer {
    type State = (Map<Ty, Ty>, nat);

    closed spec fn state(&self) -> (Map<Ty, Ty>, nat) {
        (self.m@, self.next as nat)
    }

    closed spec fn inv(&self, s: Seq<TyData>) -> bool {
        &&& handle_map_inv(s, self.subst@, self.m@)
        &&& handle_map_inv(s, self.rev@, self.b@)
        &&& leaf_maps_inv(self.m@, self.b@, self.next as nat)
    }

    open spec fn leaf(st: (Map<Ty, Ty>, nat), t: Ty) -> (Ty, (Map<Ty, Ty>, nat)) {
        canon_leaf(st, t)
    }

    open spec fn leaf_ok(st: (Map<Ty, Ty>, nat), t: Ty) -> bool {
        st.0.contains_key(t) || st.1 < usize::MAX
    }

    proof fn lemma_inv_stable(&self, s1: Seq<TyData>, s2: Seq<TyData>) {
        lemma_handle_map_stable(s1, s2, self.subst@, self.m@);
        lemma_handle_map_stable(s1, s2, self.rev@, self.b@);
    }

    fn fold_var(&mut self, db: &mut TyStore, ty: TyId) -> (r: TyId) {
        let ghost s0 = db@;
        proof {
            lemma_handle_map_lookup(s0, self.subst@, self.m@, ty);
        }
        if let Some(c) = subst_get(&self.subst, ty) {
            return c;
        }
        let var = match db.data(ty) {
            TyData::ConstTy(ConstTyData::TyVar(v, _)) => v,
            TyData::TyVar(v) => v,
            _ => {
                return ty;
            },
        };
        self.fresh(db, ty, var)
    }
}

impl Canonicalizer {
    /// Gives the variable leaf `ty`, met for the first time, the next key.
    fn fresh(&mut self, db: &mut TyStore, ty: TyId, var: TyVar) -> (r: TyId)
        requires
            nodes_wf(old(db)@),
            valid(old(db)@, ty),
            old(self).inv(old(db)@),
            is_var(tree(old(db)@, ty)),
            leaf_var(tree(old(db)@, ty)) == var,
            !old(self).m@.contains_key(tree(old(db)@, ty)),
            old(self).next < usize::MAX,
        ensures
            nodes_wf(final(db)@),
            extends(old(db)@, final(db)@),
            valid(final(db)@, r),
            final(self).inv(final(db)@),
            tree(final(db)@, r) == rekey(tree(old(db)@, ty), old(self).next as nat),
            final(self).m@ == old(self).m@.insert(
                tree(old(db)@, ty),
                rekey(tree(old(db)@, ty), old(self).next as nat),
            ),
            final(self).next == old(self).next + 1,
    {
        let ghost s0 = db@;
        let ghost t = tree(s0, ty);
        proof {
            assert(children_below(s0[ty.0 as int], ty.0 as nat));
        }
        let cv = TyVar { sort: var.sort, kind: var.kind, key: InferenceKey(self.next) };
        let c = match db.data(ty) {
            TyData::ConstTy(ConstTyData::TyVar(_, cty)) => db.const_var(cv, cty),
            _ => db.var(cv),
        };
        let ghost s1 = db@;
        proof {
            self.lemma_inv_stable(s0, s1);
            lemma_tree_stable(s0, s1, ty);
            assert(tree(s1, c) == rekey(t, self.next as nat));
            lemma_leaf_maps_insert(self.m@, self.b@, self.next as nat, t);
            lemma_handle_map_lookup(s1, self.rev@, self.b@, c);
            lemma_handle_map_lookup(s1, self.subst@, self.m@, ty);
            lemma_handle_map_insert(s1, self.subst@, self.m@, ty, c);
            lemma_handle_map_insert(s1, self.rev@, self.b@, c, ty);
        }
        subst_insert(&mut self.subst, ty, c);
        subst_insert(&mut self.rev, c, ty);
        self.m = Ghost(self.m@.insert(t, tree(s1, c)));
        self.b = Ghost(self.b@.insert(tree(s1, c), t));
        self.next = self.next + 1;
        c
    }
}

/// The distinct variable leaves of `t` in the order of their first
/// occurrence, after those of `acc`.
pub open spec fn collect(t: Ty, acc: Seq<Ty>) -> Seq<Ty>
    decreases t,
{
    match t {
        Ty::App(f, a) => collect(*a, collect(*f, acc)),
        _ => if is_var(t) && !acc.contains(t) {
            acc.push(t)
        } else {
            acc
        },
    }
}

/// The unbound slot of a fresh variable like the leaf `l`.
pub open spec fn slot_of(l: Ty) -> VarSlot {
    VarSlot::Unbound(leaf_var(l).kind, leaf_var(l).sort)
}

/// The slots that extracting the identity of `t` allocates: one per
/// distinct variable, in the order of first occurrence.
pub open spec fn identity_slots(t: Ty) -> Seq<VarSlot> {
    collect(t, Seq::empty()).map_values(|l: Ty| slot_of(l))
}

/// Everything `collect` adds is a variable leaf.
pub proof fn lemma_collect_vars(t: Ty, acc: Seq<Ty>)
    ensures
        forall|i: int| acc.len() <= i < collect(t, acc).len() ==> is_var(#[trigger] collect(t, acc)[i]),
        acc.len() <= collect(t, acc).len(),
        forall|i: int| 0 <= i < acc.len() ==> collect(t, acc)[i] == acc[i],
    decreases t,
{
    if let Ty::App(f, a) = t {
        lemma_collect_vars(*f, acc);
        let c1 = collect(*f, acc);
        lemma_collect_vars(*a, c1);
        let c2 = collect(*a, c1);
        assert forall|i: int| acc.len() <= i < c2.len() implies is_var(#[trigger] c2[i]) by {
            if i < c1.len() {
                assert(c2[i] == c1[i]);
            }
        };
    } else if is_var(t) && !acc.contains(t) {
        assert(collect(t, acc) == acc.push(t));
    }
}

/// The types behind a sequence of handles.
pub open spec fn trees(s: Seq<TyData>, hs: Seq<TyId>) -> Seq<Ty> {
    hs.map_values(|h: TyId| tree(s, h))
}

/// Appends to `acc` the variable leaves of `ty` that it does not hold yet.
fn collect_vars(db: &TyStore, ty: TyId, acc: &mut Vec<TyId>)
    requires
        nodes_wf(db@),
        valid(db@, ty),
        forall|i: int| 0 <= i < old(acc)@.len() ==> valid(db@, #[trigger] old(acc)@[i]),
    ensures
        forall|i: int| 0 <= i < final(acc)@.len() ==> valid(db@, #[trigger] final(acc)@[i]),
        trees(db@, final(acc)@) == collect(tree(db@, ty), trees(db@, old(acc)@)),
    decreases ty.0,
{
    let ghost s = db@;
    proof {
        assert(children_below(s[ty.0 as int], ty.0 as nat));
    }
    let is_leaf = match db.data(ty) {
        TyData::TyApp(f, a) => {
            collect_vars(db, f, acc);
            collect_vars(db, a, acc);
            return ;
        },
        TyData::TyVar(_) => true,
        TyData::ConstTy(ConstTyData::TyVar(_, _)) => true,
        _ => false,
    };
    if !is_leaf {
        return ;
    }
    proof {
        assert(is_var(tree(s, ty)));
    }
    let mut i: usize = 0;
    while i < acc.len()
        invariant
            s == db@,
            valid(s, ty),
            is_var(tree(s, ty)),
            forall|j: int| 0 <= j < old(acc)@.len() ==> valid(s, #[trigger] old(acc)@[j]),
            acc@ == old(acc)@,
            i <= acc@.len(),
            forall|j: int| 0 <= j < i ==> acc@[j] != ty,
        decreases acc@.len() - i,
    {
        if acc[i] == ty {
            proof {
                assert(trees(s, acc@)[i as int] == tree(s, ty));
            }
            return ;
        }
        i = i + 1;
    }
    proof {
        if trees(s, acc@).contains(tree(s, ty)) {
            let j = choose|j: int| 0 <= j < acc@.len() && trees(s, acc@)[j] == tree(s, ty);
            lemma_tree_injective(s, acc@[j], ty);
        }
    }
    acc.push(ty);
    proof {
        assert(trees(s, acc@) =~= trees(s, old(acc)@).push(tree(s, ty)));
    }
}

/// A value whose variables are numbered from 0 in the order of their first
/// occurrence, independent of the store that allocated them.
#[derive(Debug, Clone, Copy, PartialEq, Eq, Hash)]
pub struct Canonical {
    pub value: TyId,
}

/// The solution of a canonical query, canonicalized in the query's space:
/// a variable unifiable with a query variable is that canonical variable,
/// and the others are numbered after the query's.
#[derive(Debug, Clone, Copy, PartialEq, Eq, PartialOrd, Ord, Hash)]
pub struct Solution {
    pub value: TyId,
}

impl Canonical {
    pub fn new(db: &mut TyStore, value: TyId) -> (r: Canonical)
        requires
            nodes_wf(old(db)@),
            valid(old(db)@, value),
            var_count(tree(old(db)@, value)) <= usize::MAX,
        ensures
            nodes_wf(final(db)@),
            extends(old(db)@, final(db)@),
            valid(final(db)@, r.value),
            tree(final(db)@, r.value) == canonical_form(tree(old(db)@, value)),
    {
        let mut c = Canonicalizer {
            subst: FxHashMap::default(),
            rev: FxHashMap::default(),
            next: 0,
            m: Ghost(Map::empty()),
            b: Ghost(Map::empty()),
        };
        proof {
            reveal(handle_map_inv);
            reveal(leaf_maps_inv);
        }
        proof {
            lemma_canon_fold(tree(db@, value), c.m@, c.next as nat);
        }
        let value = fold_ty(&mut c, db, value);
        Canonical { value }
    }

    /// Allocates in `table`, which must be empty, one fresh variable for
    /// each distinct variable of the canonical value, with its sort and
    /// kind and in the order of first occurrence, and returns the value:
    /// canonical key `i` is then key `i` of the table.
    pub fn extract_identity(&self, db: &TyStore, table: &mut UnificationTable) -> (r: TyId)
        requires
            nodes_wf(db@),
            valid(db@, self.value),
            old(table)@.len() == 0,
        ensures
            r == self.value,
            final(table)@ == identity_slots(tree(db@, self.value)),
    {
        let ghost s = db@;
        let mut vars: Vec<TyId> = Vec::new();
        proof {
            assert(trees(s, vars@) =~= Seq::<Ty>::empty());
        }
        collect_vars(db, self.value, &mut vars);
        let ghost ls = trees(s, vars@);
        let mut i: usize = 0;
        while i < vars.len()
            invariant
                s == db@,
                i <= vars@.len(),
                ls == trees(s, vars@),
                ls == collect(tree(s, self.value), Seq::empty()),
                forall|j: int| 0 <= j < vars@.len() ==> valid(s, #[trigger] vars@[j]),
                table@ == ls.take(i as int).map_values(|l: Ty| slot_of(l)),
            decreases vars@.len() - i,
        {
            let h = vars[i];
            proof {
                lemma_collect_vars(tree(s, self.value), Seq::empty());
                assert(ls[i as int] == tree(s, h));
            }
            let var = match db.data(h) {
                TyData::TyVar(v) => v,
                TyData::ConstTy(ConstTyData::TyVar(v, _)) => v,
                _ => {
                    proof {
                        assert(is_var(ls[i as int]));
                    }
                    return self.value;
                },
            };
            table.new_key(&var.kind, var.sort);
            proof {
                assert(table@ =~= ls.take(i + 1).map_values(|l: Ty| slot_of(l)));
            }
            i = i + 1;
        }
        proof {
            assert(ls.take(i as int) =~= ls);
        }
        self.value
    }

    /// Like `extract_identity`, but fails instead when `table` is not empty,
    /// leaving it as it was.
    pub fn try_extract_identity(&self, db: &TyStore, table: &mut UnificationTable) -> (r: Option<
        TyId,
    >)
        requires
            nodes_wf(db@),
            valid(db@, self.value),
        ensures
            old(table)@.len() != 0 ==> r is None && final(table)@ == old(table)@,
            old(table)@.len() == 0 ==> r == Some(self.value) && final(table)@ == identity_slots(
                tree(db@, self.value),
            ),
    {
        if table.is_empty() {
            Some(self.extract_identity(db, table))
        } else {
            None
        }
    }

    /// Canonicalizes `solution`, found with `table` for this query, back
    /// into the query's canonical space.
    pub fn canonicalize_solution(&self, db: &mut TyStore, table: &UnificationTable, solution: TyId) -> (r: Solution)
        requires
            nodes_wf(old(db)@),
            valid(old(db)@, self.value),
            valid(old(db)@, solution),
            slots_wf(old(db)@, table@),
            canonical_form(tree(old(db)@, self.value)) == tree(old(db)@, self.value),
            var_count(tree(old(db)@, self.value)) <= usize::MAX,
            solution_canon(
                bindings(old(db)@, table@),
                table@.len(),
                tree(old(db)@, self.value),
                tree(old(db)@, solution),
            ).2 <= usize::MAX,
        ensures
            nodes_wf(final(db)@),
            extends(old(db)@, final(db)@),
            valid(final(db)@, r.value),
            tree(final(db)@, r.value) == solution_canon(
                bindings(old(db)@, table@),
                table@.len(),
                tree(old(db)@, self.value),
                tree(old(db)@, solution),
            ).0,
    {
        let ghost s0 = db@;
        let ghost bnd = bindings(s0, table@);
        let ghost fuel = table@.len();
        let ghost q = tree(s0, self.value);
        let resolved = table.resolve_ty(db, solution);
        let ghost s1 = db@;
        proof {
            lemma_bindings_stable(s0, s1, table@);
            lemma_tree_stable(s0, s1, self.value);
            crate::laws::lemma_canon_numbering_of(q);
        }
        let mut vars: Vec<TyId> = Vec::new();
        proof {
            assert(trees(s1, vars@) =~= Seq::<Ty>::empty());
        }
        collect_vars(db, self.value, &mut vars);
        let ghost ls = trees(s1, vars@);
        let mut c = Canonicalizer {
            subst: FxHashMap::default(),
            rev: FxHashMap::default(),
            next: vars.len(),
            m: Ghost(Map::empty()),
            b: Ghost(Map::empty()),
        };
        proof {
            reveal(handle_map_inv);
            reveal(leaf_maps_inv);
            lemma_collect_vars(q, Seq::empty());
        }
        let mut i: usize = 0;
        while i < vars.len()
            invariant
                nodes_wf(db@),
                extends(s1, db@),
                valid(s1, resolved),
                bindings(db@, table@) == bnd,
                slots_wf(db@, table@),
                fuel == table@.len(),
                ls == trees(s1, vars@),
                ls == collect(q, Seq::empty()),
                c.next == vars@.len(),
                i <= vars@.len(),
                forall|j: int| 0 <= j < vars@.len() ==> valid(s1, #[trigger] vars@[j]),
                forall|j: int| 0 <= j < ls.len() ==> is_var(#[trigger] ls[j]) && leaf_var(ls[j]).key.0 == j,
                c.inv(db@),
                c.m@ == probe_map(bnd, fuel, ls.take(i as int)),
                forall|k: Ty| #[trigger] c.b@.contains_key(k) ==> (leaf_var(k).key.0 as nat) < i,
            decreases vars@.len() - i,
        {
            let h = vars[i];
            let ghost sk = db@;
            proof {
                lemma_tree_stable(s1, sk, h);
                assert(ls[i as int] == tree(sk, h));
            }
            let p = table.resolve_ty(db, h);
            let ghost sk2 = db@;
            proof {
                lemma_bindings_stable(sk, sk2, table@);
                c.lemma_inv_stable(sk, sk2);
                lemma_tree_stable(sk, sk2, h);
                assert(children_below(sk2[p.0 as int], p.0 as nat));
                assert(ls.take(i + 1).drop_last() =~= ls.take(i as int));
                lemma_handle_map_lookup(sk2, c.subst@, c.m@, p);
                lemma_handle_map_lookup(sk2, c.rev@, c.b@, h);
            }
            let p_is_var = match db.data(p) {
                TyData::TyVar(_) => true,
                TyData::ConstTy(ConstTyData::TyVar(_, _)) => true,
                _ => false,
            };
            if p_is_var && subst_get(&c.subst, p).is_none() {
                proof {
                    lemma_handle_map_insert(sk2, c.subst@, c.m@, p, h);
                    lemma_handle_map_insert(sk2, c.rev@, c.b@, h, p);
                    lemma_leaf_maps_add(c.m@, c.b@, c.next as nat, tree(sk2, p), tree(sk2, h));
                }
                subst_insert(&mut c.subst, p, h);
                subst_insert(&mut c.rev, h, p);
                c.m = Ghost(c.m@.insert(tree(sk2, p), tree(sk2, h)));
                c.b = Ghost(c.b@.insert(tree(sk2, h), tree(sk2, p)));
            }
            i = i + 1;
        }
        let ghost s2 = db@;
        proof {
            assert(ls.take(i as int) =~= ls);
            lemma_tree_stable(s1, s2, resolved);
        }
        proof {
            lemma_canon_fold(tree(db@, resolved), c.m@, c.next as nat);
        }
        let value = fold_ty(&mut c, db, resolved);
        Solution { value }
    }
}

/// How a solution is pulled back into the context that asked: a variable
/// that `e` maps (at first the canonical query variables, mapped to the
/// asker's own) becomes its image; any other becomes a fresh variable of
/// the same sort and kind, allocated in the table whose slots are `slots`,
/// the same each time it occurs.
pub open spec fn extract(t: Ty, e: Map<Ty, Ty>, slots: Seq<VarSlot>) -> (Ty, Map<Ty, Ty>, Seq<VarSlot>)
    decreases t,
{
    match t {
        Ty::App(f, a) => {
            let (f2, e1, s1) = extract(*f, e, slots);
            let (a2, e2, s2) = extract(*a, e1, s1);
            (Ty::App(Box::new(f2), Box::new(a2)), e2, s2)
        },
        _ => if is_var(t) {
            if e.contains_key(t) {
                (e[t], e, slots)
            } else {
                (
                    rekey(t, slots.len()),
                    e.insert(t, rekey(t, slots.len())),
                    slots.push(slot_of(t)),
                )
            }
        } else {
            (t, e, slots)
        },
    }
}

/// The rule of extraction on one variable leaf.
pub open spec fn extract_leaf(st: (Map<Ty, Ty>, Seq<VarSlot>), t: Ty) -> (Ty, (Map<Ty, Ty>, Seq<VarSlot>)) {
    if st.0.contains_key(t) {
        (st.0[t], st)
    } else {
        (rekey(t, st.1.len()), (st.0.insert(t, rekey(t, st.1.len())), st.1.push(slot_of(t))))
    }
}

/// Pulls a solution back into the asker's context, allocating fresh
/// variables in the asker's table.
struct SolutionExtractor {
    table: UnificationTable,
    subst: FxHashMap<TyId, TyId>,
    e: Ghost<Map<Ty, Ty>>,
}

impl TyFolder for SolutionExtractor {
    type State = (Map<Ty, Ty>, Seq<VarSlot>);

    closed spec fn state(&self) -> (Map<Ty, Ty>, Seq<VarSlot>) {
        (self.e@, self.table@)
    }

    closed spec fn inv(&self, s: Seq<TyData>) -> bool {
        handle_map_inv(s, self.subst@, self.e@)
    }

    open spec fn leaf(st: (Map<Ty, Ty>, Seq<VarSlot>), t: Ty) -> (Ty, (Map<Ty, Ty>, Seq<VarSlot>)) {
        extract_leaf(st, t)
    }

    open spec fn leaf_ok(st: (Map<Ty, Ty>, Seq<VarSlot>), t: Ty) -> bool {
        true
    }

    proof fn lemma_inv_stable(&self, s1: Seq<TyData>, s2: Seq<TyData>) {
        lemma_handle_map_stable(s1, s2, self.subst@, self.e@);
    }

    fn fold_var(&mut self, db: &mut TyStore, ty: TyId) -> (r: TyId) {
        let ghost s0 = db@;
        proof {
            lemma_handle_map_lookup(s0, self.subst@, self.e@, ty);
            assert(children_below(s0[ty.0 as int], ty.0 as nat));
        }
        if let Some(c) = subst_get(&self.subst, ty) {
            return c;
        }
        let ghost t = tree(s0, ty);
        let len = self.table.len();
        let c = match db.data(ty) {
            TyData::ConstTy(ConstTyData::TyVar(var, cty)) => {
                let key = self.table.new_key(&var.kind, var.sort);
                db.const_var(TyVar { sort: var.sort, kind: var.kind, key }, cty)
            },
            TyData::TyVar(var) => self.table.new_var(db, var.sort, &var.kind),
            _ => {
                return ty;
            },
        };
        let ghost s1 = db@;
        proof {
            lemma_handle_map_stable(s0, s1, self.subst@, self.e@);
            lemma_tree_stable(s0, s1, ty);
            assert(tree(s1, c) == rekey(t, len as nat));
            lemma_handle_map_insert(s1, self.subst@, self.e@, ty, c);
        }
        subst_insert(&mut self.subst, ty, c);
        self.e = Ghost(self.e@.insert(t, tree(s1, c)));
        c
    }
}

proof fn lemma_extract_fold(t: Ty, e: Map<Ty, Ty>, slots: Seq<VarSlot>)
    ensures
        fold_spec::<SolutionExtractor>((e, slots), t) == (
            extract(t, e, slots).0,
            (extract(t, e, slots).1, extract(t, e, slots).2),
        ),
        fold_ok::<SolutionExtractor>((e, slots), t),
    decreases t,
{
    if let Ty::App(a, b) = t {
        lemma_extract_fold(*a, e, slots);
        let (_, e1, s1) = extract(*a, e, slots);
        lemma_extract_fold(*b, e1, s1);
    }
}

/// A canonical query together with the substitution from its canonical
/// variables back to the asker's variables.
pub struct Canonicalized {
    pub value: Canonical,
    subst: FxHashMap<TyId, TyId>,
    back: Ghost<Map<Ty, Ty>>,
}

impl Canonicalized {
    /// The handle of the canonical query.
    pub closed spec fn query(&self) -> TyId {
        self.value.value
    }

    /// The substitution from canonical variables to the asker's ones.
    pub closed spec fn back_map(&self) -> Map<Ty, Ty> {
        self.back@
    }

    /// The substitution is held in handles of the store `s`.
    pub closed spec fn wf(&self, s: Seq<TyData>) -> bool {
        handle_map_inv(s, self.subst@, self.back@)
    }

    pub proof fn lemma_wf_stable(&self, s1: Seq<TyData>, s2: Seq<TyData>)
        requires
            extends(s1, s2),
            self.wf(s1),
        ensures
            self.wf(s2),
    {
        lemma_handle_map_stable(s1, s2, self.subst@, self.back@);
    }

    /// Canonicalizes `value` and keeps the way back: the substitution is
    /// the inverse of the renumbering.
    pub fn new(db: &mut TyStore, value: TyId) -> (r: Canonicalized)
        requires
            nodes_wf(old(db)@),
            valid(old(db)@, value),
            var_count(tree(old(db)@, value)) <= usize::MAX,
        ensures
            nodes_wf(final(db)@),
            extends(old(db)@, final(db)@),
            valid(final(db)@, r.query()),
            tree(final(db)@, r.query()) == canonical_form(tree(old(db)@, value)),
            r.wf(final(db)@),
            leaf_maps_inv(
                canon(tree(old(db)@, value), Map::empty(), 0).1,
                r.back_map(),
                var_count(tree(old(db)@, value)),
            ),
    {
        let mut c = Canonicalizer {
            subst: FxHashMap::default(),
            rev: FxHashMap::default(),
            next: 0,
            m: Ghost(Map::empty()),
            b: Ghost(Map::empty()),
        };
        proof {
            reveal(handle_map_inv);
            reveal(leaf_maps_inv);
        }
        proof {
            lemma_canon_fold(tree(db@, value), c.m@, c.next as nat);
        }
        let v = fold_ty(&mut c, db, value);
        Canonicalized { value: Canonical { value: v }, subst: c.rev, back: c.b }
    }

    /// Pulls `solution` back into the context of the asker, whose table is
    /// `table`: each canonical query variable becomes the asker's own
    /// variable, and each other variable a fresh variable of `table`.
    pub fn extract_solution(&self, db: &mut TyStore, table: &mut UnificationTable, solution: Solution) -> (r: TyId)
        requires
            nodes_wf(old(db)@),
            valid(old(db)@, solution.value),
            self.wf(old(db)@),
        ensures
            nodes_wf(final(db)@),
            extends(old(db)@, final(db)@),
            valid(final(db)@, r),
            tree(final(db)@, r) == extract(
                tree(old(db)@, solution.value),
                self.back_map(),
                old(table)@,
            ).0,
            final(table)@ == extract(tree(old(db)@, solution.value), self.back_map(), old(table)@).2,
    {
        let mut own = UnificationTable::new();
        std::mem::swap(table, &mut own);
        let mut extractor = SolutionExtractor { table: own, subst: self.subst.clone(), e: self.back };
        proof {
            lemma_extract_fold(tree(db@, solution.value), self.back@, extractor.table@);
        }
        let r = fold_ty(&mut extractor, db, solution.value);
        std::mem::swap(table, &mut extractor.table);
        r
    }
}

} // verus!
