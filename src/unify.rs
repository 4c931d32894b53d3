//! The unification store: an arena of inference-variable slots, each
//! unbound (with the variable's kind and sort) or bound to a type.
use vstd::prelude::*;
use crate::store::{extends, lemma_tree_stable, nodes_wf, tree, valid, TyStore};
use crate::ty_def::{ConstTyData, InferenceKey, Kind, Ty, TyData, TyId, TyVar, TyVarSort};

verus! {

/// The state of one inference variable.
#[derive(Debug)]
pub enum VarSlot {
    Unbound(Kind, TyVarSort),
    Bound(TyId),
}

/// Every binding of the table is a handle of the store.
pub open spec fn slots_wf(nodes: Seq<TyData>, slots: Seq<VarSlot>) -> bool {
    forall|k: int| 0 <= k < slots.len() && (#[trigger] slots[k]) is Bound ==> valid(
        nodes,
        slots[k]->Bound_0,
    )
}

/// The type each bound key stands for.
pub open spec fn bindings(nodes: Seq<TyData>, slots: Seq<VarSlot>) -> Map<nat, Ty> {
    Map::new(
        |k: nat| k < slots.len() && slots[k as int] is Bound,
        |k: nat| tree(nodes, slots[k as int]->Bound_0),
    )
}

/// `t` with its bound variables replaced by what they are bound to,
/// transitively, following at most `fuel` bindings along any path.
pub open spec fn resolve(b: Map<nat, Ty>, t: Ty, fuel: nat) -> Ty
    decreases fuel, t,
{
    match t {
        Ty::Var(v) => if fuel > 0 && b.contains_key(v.key.0 as nat) {
            resolve(b, b[v.key.0 as nat], (fuel - 1) as nat)
        } else {
            t
        },
        Ty::ConstVar(v, _) => if fuel > 0 && b.contains_key(v.key.0 as nat) {
            resolve(b, b[v.key.0 as nat], (fuel - 1) as nat)
        } else {
            t
        },
        Ty::App(f, a) => Ty::App(Box::new(resolve(b, *f, fuel)), Box::new(resolve(b, *a, fuel))),
        _ => t,
    }
}

/// The bindings of a table do not change when the store grows.
pub proof fn lemma_bindings_stable(s1: Seq<TyData>, s2: Seq<TyData>, slots: Seq<VarSlot>)
    requires
        extends(s1, s2),
        slots_wf(s1, slots),
    ensures
        bindings(s2, slots) == bindings(s1, slots),
{
    assert forall|k: nat| #[trigger]
        bindings(s1, slots).contains_key(k) implies bindings(s2, slots)[k] == bindings(
        s1,
        slots,
    )[k] by {
        lemma_tree_stable(s1, s2, slots[k as int]->Bound_0);
    };
    assert(bindings(s2, slots) =~= bindings(s1, slots));
}

/// The inference variables of one type-checking session.
pub struct UnificationTable {
    slots: Vec<VarSlot>,
}

impl View for UnificationTable {
    type V = Seq<VarSlot>;

    closed spec fn view(&self) -> Seq<VarSlot> {
        self.slots@
    }
}

impl UnificationTable {
    pub fn new() -> (r: UnificationTable)
        ensures
            r@ == Seq::<VarSlot>::empty(),
    {
        UnificationTable { slots: Vec::new() }
    }

    pub fn is_empty(&self) -> (r: bool)
        ensures
            r == (self@.len() == 0),
    {
        self.slots.len() == 0
    }

    pub fn len(&self) -> (r: usize)
        ensures
            r == self@.len(),
    {
        self.slots.len()
    }

    /// Allocates a fresh unbound key.
    pub fn new_key(&mut self, kind: &Kind, sort: TyVarSort) -> (r: InferenceKey)
        ensures
            r.0 == old(self)@.len(),
            final(self)@ == old(self)@.push(VarSlot::Unbound(*kind, sort)),
    {
        let r = InferenceKey(self.slots.len());
        self.slots.push(VarSlot::Unbound(kind.clone_kind(), sort));
        r
    }

    /// Allocates a fresh unbound type variable and interns it.
    pub fn new_var(&mut self, db: &mut TyStore, sort: TyVarSort, kind: &Kind) -> (r: TyId)
        requires
            nodes_wf(old(db)@),
        ensures
            final(self)@ == old(self)@.push(VarSlot::Unbound(*kind, sort)),
            nodes_wf(final(db)@),
            extends(old(db)@, final(db)@),
            valid(final(db)@, r),
            tree(final(db)@, r) == Ty::Var(
                TyVar { sort, kind: *kind, key: InferenceKey(old(self)@.len() as usize) },
            ),
    {
        let key = self.new_key(kind, sort);
        db.var(TyVar { sort, kind: kind.clone_kind(), key })
    }

    /// Binds an unbound key. A key is bound at most once.
    pub fn bind(&mut self, key: InferenceKey, ty: TyId)
        requires
            key.0 < old(self)@.len(),
            old(self)@[key.0 as int] is Unbound,
        ensures
            final(self)@ == old(self)@.update(key.0 as int, VarSlot::Bound(ty)),
    {
        self.slots.set(key.0, VarSlot::Bound(ty));
    }

    /// What a key is bound to, if it is bound.
    pub fn probe(&self, key: InferenceKey) -> (r: Option<TyId>)
        ensures
            r == (if key.0 < self@.len() && self@[key.0 as int] is Bound {
                Some(self@[key.0 as int]->Bound_0)
            } else {
                None::<TyId>
            }),
    {
        if key.0 < self.slots.len() {
            match &self.slots[key.0] {
                VarSlot::Bound(t) => Some(*t),
                VarSlot::Unbound(_, _) => None,
            }
        } else {
            None
        }
    }

    /// Folds `ty` through the table: every bound variable is replaced by
    /// what it is bound to, transitively. A chain of bindings is followed at
    /// most as many times as the table has keys, which is the whole chain in
    /// a table without cycles. Since the rule on a bound variable folds
    /// again, this is its own recursion rather than a leaf rule of a
    /// `TyFolder`.
    pub fn resolve_ty(&self, db: &mut TyStore, ty: TyId) -> (r: TyId)
        requires
            nodes_wf(old(db)@),
            valid(old(db)@, ty),
            slots_wf(old(db)@, self@),
        ensures
            nodes_wf(final(db)@),
            extends(old(db)@, final(db)@),
            valid(final(db)@, r),
            tree(final(db)@, r) == resolve(
                bindings(old(db)@, self@),
                tree(old(db)@, ty),
                self@.len(),
            ),
    {
        self.resolve_fuel(db, ty, self.slots.len())
    }

    fn resolve_fuel(&self, db: &mut TyStore, ty: TyId, fuel: usize) -> (r: TyId)
        requires
            nodes_wf(old(db)@),
            valid(old(db)@, ty),
            slots_wf(old(db)@, self@),
        ensures
            nodes_wf(final(db)@),
            extends(old(db)@, final(db)@),
            valid(final(db)@, r),
            tree(final(db)@, r) == resolve(
                bindings(old(db)@, self@),
                tree(old(db)@, ty),
                fuel as nat,
            ),
        decreases fuel, ty.0,
    {
        let ghost s0 = db@;
        let ghost b = bindings(s0, self@);
        proof {
            assert(crate::store::children_below(s0[ty.0 as int], ty.0 as nat));
        }
        let key = match db.data(ty) {
            TyData::TyVar(v) => Some(v.key),
            TyData::ConstTy(ConstTyData::TyVar(v, _)) => Some(v.key),
            TyData::TyApp(f, a) => {
                let f2 = self.resolve_fuel(db, f, fuel);
                let ghost s1 = db@;
                proof {
                    lemma_tree_stable(s0, s1, a);
                    lemma_bindings_stable(s0, s1, self@);
                }
                let a2 = self.resolve_fuel(db, a, fuel);
                let ghost s2 = db@;
                proof {
                    lemma_tree_stable(s1, s2, f2);
                }
                return db.app(f2, a2);
            },
            _ => None,
        };
        match key {
            Some(k) => {
                if fuel > 0 && k.0 < self.slots.len() {
                    match &self.slots[k.0] {
                        VarSlot::Bound(t) => {
                            proof {
                                assert(b.contains_key(k.0 as nat));
                            }
                            self.resolve_fuel(db, *t, fuel - 1)
                        },
                        VarSlot::Unbound(_, _) => ty,
                    }
                } else {
                    ty
                }
            },
            None => ty,
        }
    }
}

} // verus!
