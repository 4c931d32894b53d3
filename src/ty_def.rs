//! Type handles, type variables, kinds and the mathematical model of a type.
use vstd::prelude::*;

verus! {

/// The "type of a type": `*`, `k1 -> k2`, or a kind that matches anything.
#[derive(Debug)]
pub enum Kind {
    Star,
    Abs(Box<Kind>, Box<Kind>),
    Any,
}

impl Kind {
    pub fn clone_kind(&self) -> (r: Kind)
        ensures
            r == *self,
        decreases self,
    {
        match self {
            Kind::Star => Kind::Star,
            Kind::Abs(a, b) => Kind::Abs(Box::new(a.clone_kind()), Box::new(b.clone_kind())),
            Kind::Any => Kind::Any,
        }
    }

    pub fn same_as(&self, other: &Kind) -> (r: bool)
        ensures
            r == (*self == *other),
        decreases self,
    {
        match (self, other) {
            (Kind::Star, Kind::Star) => true,
            (Kind::Abs(a1, b1), Kind::Abs(a2, b2)) => a1.same_as(a2) && b1.same_as(b2),
            (Kind::Any, Kind::Any) => true,
            _ => false,
        }
    }
}

/// The class of a type variable.
#[derive(Debug, Clone, Copy, PartialEq, Eq, Hash, Structural)]
pub enum TyVarSort {
    /// Any type.
    General,
    /// An integral type.
    Integral,
    /// A string type of at least the given length.
    String(usize),
}

/// A densely allocated key, unique only within the unification store that
/// allocated it.
#[derive(Debug, Clone, Copy, PartialEq, Eq, Hash, Structural)]
pub struct InferenceKey(pub usize);

/// A type variable.
#[derive(Debug)]
pub struct TyVar {
    pub sort: TyVarSort,
    pub kind: Kind,
    pub key: InferenceKey,
}

impl TyVar {
    pub fn clone_var(&self) -> (r: TyVar)
        ensures
            r == *self,
    {
        TyVar { sort: self.sort, kind: self.kind.clone_kind(), key: self.key }
    }

    pub fn same_as(&self, other: &TyVar) -> (r: bool)
        ensures
            r == (*self == *other),
    {
        self.sort == other.sort && self.key == other.key && self.kind.same_as(&other.kind)
    }

    /// The same variable under another key.
    pub open spec fn with_key(self, key: nat) -> TyVar {
        TyVar { sort: self.sort, kind: self.kind, key: InferenceKey(key as usize) }
    }
}

/// A handle into the type store.
#[derive(Debug, Clone, Copy, PartialEq, Eq, PartialOrd, Ord, Hash, Structural)]
pub struct TyId(pub usize);

/// A constant used as a type argument: a value, or a variable, each with
/// the type of the constant.
#[derive(Debug)]
pub enum ConstTyData {
    Evaluated(u64, TyId),
    TyVar(TyVar, TyId),
}

/// One node of a type, whose sub-types are handles.
#[derive(Debug)]
pub enum TyData {
    TyVar(TyVar),
    /// A type constructor (a primitive, an ADT, the function type), by id,
    /// with its kind.
    TyBase(u32, Kind),
    /// The application of a type to an argument.
    TyApp(TyId, TyId),
    ConstTy(ConstTyData),
    /// The marker of an ill-formed type.
    Invalid,
}

impl TyData {
    pub fn clone_data(&self) -> (r: TyData)
        ensures
            r == *self,
    {
        match self {
            TyData::TyVar(v) => TyData::TyVar(v.clone_var()),
            TyData::TyBase(b, k) => TyData::TyBase(*b, k.clone_kind()),
            TyData::TyApp(f, a) => TyData::TyApp(*f, *a),
            TyData::ConstTy(ConstTyData::Evaluated(x, t)) => TyData::ConstTy(
                ConstTyData::Evaluated(*x, *t),
            ),
            TyData::ConstTy(ConstTyData::TyVar(v, t)) => TyData::ConstTy(
                ConstTyData::TyVar(v.clone_var(), *t),
            ),
            TyData::Invalid => TyData::Invalid,
        }
    }

    pub fn same_as(&self, other: &TyData) -> (r: bool)
        ensures
            r == (*self == *other),
    {
        match (self, other) {
            (TyData::TyVar(v1), TyData::TyVar(v2)) => v1.same_as(v2),
            (TyData::TyBase(b1, k1), TyData::TyBase(b2, k2)) => *b1 == *b2 && k1.same_as(k2),
            (TyData::TyApp(f1, a1), TyData::TyApp(f2, a2)) => *f1 == *f2 && *a1 == *a2,
            (
                TyData::ConstTy(ConstTyData::Evaluated(x1, t1)),
                TyData::ConstTy(ConstTyData::Evaluated(x2, t2)),
            ) => *x1 == *x2 && *t1 == *t2,
            (
                TyData::ConstTy(ConstTyData::TyVar(v1, t1)),
                TyData::ConstTy(ConstTyData::TyVar(v2, t2)),
            ) => *t1 == *t2 && v1.same_as(v2),
            (TyData::Invalid, TyData::Invalid) => true,
            _ => false,
        }
    }
}

/// The mathematical model of a type: the whole tree behind a handle.
pub enum Ty {
    Var(TyVar),
    Base(u32, Kind),
    App(Box<Ty>, Box<Ty>),
    ConstVal(u64, Box<Ty>),
    ConstVar(TyVar, Box<Ty>),
    Invalid,
}

/// The kind of a type: a variable's own, a constructor's own, what
/// applying a constructor of kind `k1 -> k2` leaves (`k2`), `*` for a
/// constant; `Any` where nothing better is known.
pub open spec fn kind_of(t: Ty) -> Kind
    decreases t,
{
    match t {
        Ty::Var(v) => v.kind,
        Ty::Base(_, k) => k,
        Ty::App(f, _) => match kind_of(*f) {
            Kind::Abs(_, r) => *r,
            _ => Kind::Any,
        },
        Ty::ConstVal(_, _) => Kind::Star,
        Ty::ConstVar(_, _) => Kind::Star,
        Ty::Invalid => Kind::Any,
    }
}

/// A type variable or a const-type variable.
pub open spec fn is_var(t: Ty) -> bool {
    t is Var || t is ConstVar
}

/// The variable that a variable leaf carries.
pub open spec fn leaf_var(t: Ty) -> TyVar
    recommends
        is_var(t),
{
    match t {
        Ty::Var(v) => v,
        Ty::ConstVar(v, _) => v,
        _ => arbitrary(),
    }
}

/// The variable leaf `t` with its key replaced.
pub open spec fn rekey(t: Ty, key: nat) -> Ty {
    match t {
        Ty::Var(v) => Ty::Var(v.with_key(key)),
        Ty::ConstVar(v, ty) => Ty::ConstVar(v.with_key(key), ty),
        _ => t,
    }
}

/// `t` with every variable leaf that `m` maps replaced by its image.
pub open spec fn rename(t: Ty, m: Map<Ty, Ty>) -> Ty
    decreases t,
{
    if is_var(t) && m.contains_key(t) {
        m[t]
    } else {
        match t {
            Ty::App(f, a) => Ty::App(Box::new(rename(*f, m)), Box::new(rename(*a, m))),
            _ => t,
        }
    }
}

/// Every variable leaf of `t` is in the domain of `m`.
pub open spec fn vars_in(t: Ty, m: Map<Ty, Ty>) -> bool
    decreases t,
{
    match t {
        Ty::Var(_) => m.contains_key(t),
        Ty::ConstVar(_, _) => m.contains_key(t),
        Ty::App(f, a) => vars_in(*f, m) && vars_in(*a, m),
        _ => true,
    }
}

} // verus!
