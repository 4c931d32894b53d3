//! The type store: an append-only, structurally deduplicating arena of type
//! nodes. A handle is the index of its node.
use vstd::prelude::*;
use crate::ty_def::{kind_of, ConstTyData, Kind, Ty, TyData, TyId, TyVar};

verus! {

/// The handles that `d` refers to are all below `n`.
pub open spec fn children_below(d: TyData, n: nat) -> bool {
    match d {
        TyData::TyApp(f, a) => f.0 < n && a.0 < n,
        TyData::ConstTy(ConstTyData::Evaluated(_, t)) => t.0 < n,
        TyData::ConstTy(ConstTyData::TyVar(_, t)) => t.0 < n,
        _ => true,
    }
}

/// A node refers only to earlier nodes, and no node occurs twice.
pub open spec fn nodes_wf(s: Seq<TyData>) -> bool {
    &&& forall|i: int| 0 <= i < s.len() ==> children_below(#[trigger] s[i], i as nat)
    &&& forall|i: int, j: int| 0 <= i < j < s.len() ==> s[i] != s[j]
}

/// `s2` keeps every node of `s1` under the same handle.
pub open spec fn extends(s1: Seq<TyData>, s2: Seq<TyData>) -> bool {
    &&& s1.len() <= s2.len()
    &&& forall|i: int| 0 <= i < s1.len() ==> s2[i] == s1[i]
}

/// The handle is in the store.
pub open spec fn valid(s: Seq<TyData>, id: TyId) -> bool {
    id.0 < s.len()
}

/// The type that a handle stands for.
pub open spec fn tree(s: Seq<TyData>, id: TyId) -> Ty
    decreases id.0,
{
    if id.0 < s.len() {
        match s[id.0 as int] {
            TyData::TyVar(v) => Ty::Var(v),
            TyData::TyBase(b, k) => Ty::Base(b, k),
            TyData::TyApp(f, a) => if f.0 < id.0 && a.0 < id.0 {
                Ty::App(Box::new(tree(s, f)), Box::new(tree(s, a)))
            } else {
                Ty::Invalid
            },
            TyData::ConstTy(ConstTyData::Evaluated(x, t)) => if t.0 < id.0 {
                Ty::ConstVal(x, Box::new(tree(s, t)))
            } else {
                Ty::Invalid
            },
            TyData::ConstTy(ConstTyData::TyVar(v, t)) => if t.0 < id.0 {
                Ty::ConstVar(v, Box::new(tree(s, t)))
            } else {
                Ty::Invalid
            },
            TyData::Invalid => Ty::Invalid,
        }
    } else {
        Ty::Invalid
    }
}

/// The store after interning `d`, and the handle of `d` in it.
pub open spec fn interned(s: Seq<TyData>, d: TyData) -> (Seq<TyData>, TyId) {
    if exists|i: int| 0 <= i < s.len() && s[i] == d {
        (s, TyId((choose|i: int| 0 <= i < s.len() && s[i] == d) as usize))
    } else {
        (s.push(d), TyId(s.len() as usize))
    }
}

/// A handle keeps its type when the store grows.
pub proof fn lemma_tree_stable(s1: Seq<TyData>, s2: Seq<TyData>, id: TyId)
    requires
        extends(s1, s2),
        valid(s1, id),
    ensures
        tree(s2, id) == tree(s1, id),
    decreases id.0,
{
    match s1[id.0 as int] {
        TyData::TyApp(f, a) => {
            if f.0 < id.0 && a.0 < id.0 {
                lemma_tree_stable(s1, s2, f);
                lemma_tree_stable(s1, s2, a);
            }
        },
        TyData::ConstTy(ConstTyData::Evaluated(_, t)) => {
            if t.0 < id.0 {
                lemma_tree_stable(s1, s2, t);
            }
        },
        TyData::ConstTy(ConstTyData::TyVar(_, t)) => {
            if t.0 < id.0 {
                lemma_tree_stable(s1, s2, t);
            }
        },
        _ => {},
    }
}

/// In a well-formed store, two handles with the same type are the same
/// handle.
pub proof fn lemma_tree_injective(s: Seq<TyData>, a: TyId, b: TyId)
    requires
        nodes_wf(s),
        valid(s, a),
        valid(s, b),
        tree(s, a) == tree(s, b),
    ensures
        a == b,
    decreases a.0 + b.0,
{
    let da = s[a.0 as int];
    let db = s[b.0 as int];
    assert(children_below(da, a.0 as nat));
    assert(children_below(db, b.0 as nat));
    match (da, db) {
        (TyData::TyApp(f1, a1), TyData::TyApp(f2, a2)) => {
            lemma_tree_injective(s, f1, f2);
            lemma_tree_injective(s, a1, a2);
        },
        (
            TyData::ConstTy(ConstTyData::Evaluated(_, t1)),
            TyData::ConstTy(ConstTyData::Evaluated(_, t2)),
        ) => {
            lemma_tree_injective(s, t1, t2);
        },
        (TyData::ConstTy(ConstTyData::TyVar(_, t1)), TyData::ConstTy(ConstTyData::TyVar(_, t2))) => {
            lemma_tree_injective(s, t1, t2);
        },
        _ => {},
    }
    if a.0 != b.0 {
        if a.0 < b.0 {
            assert(s[a.0 as int] != s[b.0 as int]);
        } else {
            assert(s[b.0 as int] != s[a.0 as int]);
        }
    }
}

/// What interning a node into a well-formed store gives.
pub proof fn lemma_interned(s: Seq<TyData>, d: TyData)
    requires
        nodes_wf(s),
        children_below(d, s.len()),
        s.len() < usize::MAX,
    ensures
        nodes_wf(interned(s, d).0),
        extends(s, interned(s, d).0),
        valid(interned(s, d).0, interned(s, d).1),
        interned(s, d).0[interned(s, d).1.0 as int] == d,
{
    if exists|i: int| 0 <= i < s.len() && s[i] == d {
    } else {
        let s2 = s.push(d);
        assert forall|k: int| 0 <= k < s2.len() implies children_below(#[trigger] s2[k], k as nat) by {
            if k < s.len() {
                assert(s2[k] == s[k]);
            }
        };
    }
}

/// Interning is deduplicating: interning a node a second time changes
/// nothing and gives the same handle, and two nodes interned one after the
/// other share a handle exactly when they are equal.
pub proof fn lemma_intern_dedup(s: Seq<TyData>, d1: TyData, d2: TyData)
    requires
        nodes_wf(s),
        children_below(d1, s.len()),
        children_below(d2, s.len()),
        s.len() + 1 < usize::MAX,
    ensures
        interned(interned(s, d1).0, d1) == interned(s, d1),
        (interned(interned(s, d1).0, d2).1 == interned(s, d1).1) <==> (d1 == d2),
{
    let (s1, h1) = interned(s, d1);
    lemma_interned(s, d1);
    let c = choose|i: int| 0 <= i < s1.len() && s1[i] == d1;
    assert(s1[h1.0 as int] == d1);
    if c != h1.0 as int {
        if c < h1.0 as int {
            assert(s1[c] != s1[h1.0 as int]);
        } else {
            assert(s1[h1.0 as int] != s1[c]);
        }
    }
    lemma_interned(s1, d2);
    let (s2, h2) = interned(s1, d2);
    assert(s2[h1.0 as int] == d1);
}

/// The arena of interned types.
pub struct TyStore {
    nodes: Vec<TyData>,
}

impl View for TyStore {
    type V = Seq<TyData>;

    closed spec fn view(&self) -> Seq<TyData> {
        self.nodes@
    }
}

impl TyStore {
    pub fn new() -> (r: TyStore)
        ensures
            r@ == Seq::<TyData>::empty(),
    {
        TyStore { nodes: Vec::new() }
    }

    pub fn len(&self) -> (r: usize)
        ensures
            r == self@.len(),
    {
        self.nodes.len()
    }

    /// The node behind a handle.
    pub fn data(&self, id: TyId) -> (r: TyData)
        requires
            valid(self@, id),
        ensures
            r == self@[id.0 as int],
    {
        self.nodes[id.0].clone_data()
    }

    /// Interns a node: a node already in the store keeps its handle, a new
    /// one is appended.
    pub fn intern(&mut self, data: TyData) -> (r: TyId)
        requires
            nodes_wf(old(self)@),
            children_below(data, old(self)@.len()),
        ensures
            (final(self)@, r) == interned(old(self)@, data),
            nodes_wf(final(self)@),
            extends(old(self)@, final(self)@),
            valid(final(self)@, r),
            final(self)@[r.0 as int] == data,
    {
        let mut i: usize = 0;
        while i < self.nodes.len()
            invariant
                self.nodes@ == old(self)@,
                nodes_wf(self.nodes@),
                i <= self.nodes@.len(),
                forall|j: int| 0 <= j < i ==> self.nodes@[j] != data,
            decreases self.nodes@.len() - i,
        {
            if self.nodes[i].same_as(&data) {
                let ghost s = self.nodes@;
                proof {
                    let c = choose|k: int| 0 <= k < s.len() && s[k] == data;
                    if c != i as int {
                        if c < i {
                            assert(s[c] != s[i as int]);
                        } else {
                            assert(s[i as int] != s[c]);
                        }
                    }
                }
                return TyId(i);
            }
            i = i + 1;
        }
        let r = TyId(self.nodes.len());
        self.nodes.push(data);
        proof {
            let s = self.nodes@;
            assert(forall|k: int| 0 <= k < s.len() - 1 ==> s[k] == old(self)@[k]);
            assert(nodes_wf(s)) by {
                assert forall|k: int| 0 <= k < s.len() implies children_below(
                    #[trigger] s[k],
                    k as nat,
                ) by {
                    if k < s.len() - 1 {
                        assert(s[k] == old(self)@[k]);
                    }
                };
            };
        }
        r
    }

    /// Interns the application of `f` to `a`.
    pub fn app(&mut self, f: TyId, a: TyId) -> (r: TyId)
        requires
            nodes_wf(old(self)@),
            valid(old(self)@, f),
            valid(old(self)@, a),
        ensures
            nodes_wf(final(self)@),
            extends(old(self)@, final(self)@),
            valid(final(self)@, r),
            tree(final(self)@, r) == Ty::App(
                Box::new(tree(old(self)@, f)),
                Box::new(tree(old(self)@, a)),
            ),
    {
        let r = self.intern(TyData::TyApp(f, a));
        proof {
            let s = self@;
            assert(children_below(s[r.0 as int], r.0 as nat));
            lemma_tree_stable(old(self)@, s, f);
            lemma_tree_stable(old(self)@, s, a);
        }
        r
    }

    /// Interns a type variable.
    pub fn var(&mut self, v: TyVar) -> (r: TyId)
        requires
            nodes_wf(old(self)@),
        ensures
            nodes_wf(final(self)@),
            extends(old(self)@, final(self)@),
            valid(final(self)@, r),
            tree(final(self)@, r) == Ty::Var(v),
    {
        self.intern(TyData::TyVar(v))
    }

    /// Interns a const-type variable whose constant has type `ty`.
    pub fn const_var(&mut self, v: TyVar, ty: TyId) -> (r: TyId)
        requires
            nodes_wf(old(self)@),
            valid(old(self)@, ty),
        ensures
            nodes_wf(final(self)@),
            extends(old(self)@, final(self)@),
            valid(final(self)@, r),
            tree(final(self)@, r) == Ty::ConstVar(v, Box::new(tree(old(self)@, ty))),
    {
        let r = self.intern(TyData::ConstTy(ConstTyData::TyVar(v, ty)));
        proof {
            let s = self@;
            assert(children_below(s[r.0 as int], r.0 as nat));
            lemma_tree_stable(old(self)@, s, ty);
        }
        r
    }

    /// Interns a base type of kind `kind`.
    pub fn base(&mut self, id: u32, kind: Kind) -> (r: TyId)
        requires
            nodes_wf(old(self)@),
        ensures
            nodes_wf(final(self)@),
            extends(old(self)@, final(self)@),
            valid(final(self)@, r),
            tree(final(self)@, r) == Ty::Base(id, kind),
    {
        self.intern(TyData::TyBase(id, kind))
    }

    /// Interns an evaluated constant of type `ty`.
    pub fn const_value(&mut self, value: u64, ty: TyId) -> (r: TyId)
        requires
            nodes_wf(old(self)@),
            valid(old(self)@, ty),
        ensures
            nodes_wf(final(self)@),
            extends(old(self)@, final(self)@),
            valid(final(self)@, r),
            tree(final(self)@, r) == Ty::ConstVal(value, Box::new(tree(old(self)@, ty))),
    {
        let r = self.intern(TyData::ConstTy(ConstTyData::Evaluated(value, ty)));
        proof {
            let s = self@;
            assert(children_below(s[r.0 as int], r.0 as nat));
            lemma_tree_stable(old(self)@, s, ty);
        }
        r
    }

    /// Interns the marker of an ill-formed type.
    pub fn invalid(&mut self) -> (r: TyId)
        requires
            nodes_wf(old(self)@),
        ensures
            nodes_wf(final(self)@),
            extends(old(self)@, final(self)@),
            valid(final(self)@, r),
            tree(final(self)@, r) == Ty::Invalid,
    {
        self.intern(TyData::Invalid)
    }

    /// The kind of the type behind `id`.
    pub fn kind(&self, id: TyId) -> (r: Kind)
        requires
            nodes_wf(self@),
            valid(self@, id),
        ensures
            r == kind_of(tree(self@, id)),
        decreases id.0,
    {
        proof {
            assert(children_below(self@[id.0 as int], id.0 as nat));
        }
        match &self.nodes[id.0] {
            TyData::TyVar(v) => v.kind.clone_kind(),
            TyData::TyBase(_, k) => k.clone_kind(),
            TyData::TyApp(f, _) => match self.kind(*f) {
                Kind::Abs(_, r) => *r,
                _ => Kind::Any,
            },
            TyData::ConstTy(_) => Kind::Star,
            TyData::Invalid => Kind::Any,
        }
    }
}

} // verus!
