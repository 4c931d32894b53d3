use hir_analysis::canonical::{Canonical, Canonicalized};
use hir_analysis::store::TyStore;
use hir_analysis::ty_def::{ConstTyData, InferenceKey, Kind, TyData, TyId, TyVar, TyVarSort};
use hir_analysis::unify::UnificationTable;

const PAIR: u32 = 1;
const I32: u32 = 2;
const OPTION: u32 = 3;

/// `* -> ... -> *` with `n` arrows.
fn arrows(n: usize) -> Kind {
    if n == 0 {
        Kind::Star
    } else {
        Kind::Abs(Box::new(Kind::Star), Box::new(arrows(n - 1)))
    }
}

fn var(db: &mut TyStore, key: usize) -> TyId {
    db.var(TyVar { sort: TyVarSort::General, kind: Kind::Star, key: InferenceKey(key) })
}

fn const_var(db: &mut TyStore, key: usize, ty: TyId) -> TyId {
    db.const_var(TyVar { sort: TyVarSort::General, kind: Kind::Star, key: InferenceKey(key) }, ty)
}

fn pair(db: &mut TyStore, a: TyId, b: TyId) -> TyId {
    let p = db.base(PAIR, arrows(2));
    let pa = db.app(p, a);
    db.app(pa, b)
}

/// The two arguments of `Pair<a, b>`.
fn pair_args(db: &TyStore, t: TyId) -> (TyId, TyId) {
    match db.data(t) {
        TyData::TyApp(pa, b) => match db.data(pa) {
            TyData::TyApp(_, a) => (a, b),
            other => panic!("not a pair: {:?}", other),
        },
        other => panic!("not a pair: {:?}", other),
    }
}

fn var_key(db: &TyStore, t: TyId) -> usize {
    match db.data(t) {
        TyData::TyVar(v) => v.key.0,
        TyData::ConstTy(ConstTyData::TyVar(v, _)) => v.key.0,
        other => panic!("not a variable: {:?}", other),
    }
}

#[test]
fn interning_is_idempotent_and_structural() {
    let mut db = TyStore::new();
    let a = db.base(I32, Kind::Star);
    let b = db.base(I32, Kind::Star);
    assert_eq!(a, b);
    let o = db.base(OPTION, arrows(1));
    assert_ne!(a, o);
    assert_ne!(o, db.base(OPTION, Kind::Star));
    let oa = db.app(o, a);
    let oa2 = db.app(o, b);
    assert_eq!(oa, oa2);
    let v0 = var(&mut db, 0);
    let ov = db.app(o, v0);
    assert_ne!(oa, ov);
    assert_eq!(db.len(), 6);
    assert!(db.kind(oa).same_as(&Kind::Star));
    assert!(db.kind(o).same_as(&arrows(1)));
    let pr = pair(&mut db, a, o);
    assert!(db.kind(pr).same_as(&Kind::Star));
    assert!(db.kind(a).same_as(&Kind::Star));
}

#[test]
fn same_variable_twice_gets_one_canonical_key() {
    let mut db = TyStore::new();
    let t0 = var(&mut db, 4);
    let p = pair(&mut db, t0, t0);
    let c = Canonical::new(&mut db, p);
    let (a, b) = pair_args(&db, c.value);
    assert_eq!(a, b);
    assert_eq!(var_key(&db, a), 0);
    let mut table = UnificationTable::new();
    assert_eq!(c.extract_identity(&db, &mut table), c.value);
    assert_eq!(table.len(), 1);
}

#[test]
fn same_shape_gives_same_canonical_value() {
    let mut db = TyStore::new();
    let t0 = var(&mut db, 0);
    let t1 = var(&mut db, 1);
    let t5 = var(&mut db, 5);
    let t9 = var(&mut db, 9);
    let p01 = pair(&mut db, t0, t1);
    let p59 = pair(&mut db, t5, t9);
    let c1 = Canonical::new(&mut db, p01);
    let c2 = Canonical::new(&mut db, p59);
    assert_eq!(c1.value, c2.value);
    let (a, b) = pair_args(&db, c2.value);
    assert_eq!(var_key(&db, a), 0);
    assert_eq!(var_key(&db, b), 1);
}

#[test]
fn renumbering_follows_first_occurrence() {
    let mut db = TyStore::new();
    let t9 = var(&mut db, 9);
    let t2 = var(&mut db, 2);
    let p = pair(&mut db, t9, t2);
    let c = Canonical::new(&mut db, p);
    let (a, b) = pair_args(&db, c.value);
    assert_eq!(var_key(&db, a), 0);
    assert_eq!(var_key(&db, b), 1);
}

#[test]
fn const_variables_are_canonicalized_like_type_variables() {
    let mut db = TyStore::new();
    let int = db.base(I32, Kind::Star);
    let k3 = const_var(&mut db, 3, int);
    let k8 = const_var(&mut db, 8, int);
    let t6 = var(&mut db, 6);
    let p1 = pair(&mut db, k3, k3);
    let p2 = pair(&mut db, k8, k8);
    let c1 = Canonical::new(&mut db, p1);
    let c2 = Canonical::new(&mut db, p2);
    assert_eq!(c1.value, c2.value);
    let (a, b) = pair_args(&db, c1.value);
    assert_eq!(a, b);
    assert_eq!(var_key(&db, a), 0);
    match db.data(a) {
        TyData::ConstTy(ConstTyData::TyVar(_, ty)) => assert_eq!(ty, int),
        other => panic!("not a const variable: {:?}", other),
    }
    let mixed = pair(&mut db, k3, t6);
    let c3 = Canonical::new(&mut db, mixed);
    let (a, b) = pair_args(&db, c3.value);
    assert_eq!(var_key(&db, a), 0);
    assert_eq!(var_key(&db, b), 1);
}

#[test]
fn evaluated_constants_are_left_as_they_are() {
    let mut db = TyStore::new();
    let int = db.base(I32, Kind::Star);
    let three = db.const_value(3, int);
    let t4 = var(&mut db, 4);
    let p = pair(&mut db, three, t4);
    let c = Canonical::new(&mut db, p);
    let (a, b) = pair_args(&db, c.value);
    assert_eq!(a, three);
    assert_eq!(var_key(&db, b), 0);
    match db.data(three) {
        TyData::ConstTy(ConstTyData::Evaluated(3, ty)) => assert_eq!(ty, int),
        other => panic!("unexpected {:?}", other),
    }
}

#[test]
fn identity_extraction_allocates_fresh_variables_of_same_sort_and_kind() {
    let mut db = TyStore::new();
    let arrow = Kind::Abs(Box::new(Kind::Star), Box::new(Kind::Star));
    let f = db.var(TyVar { sort: TyVarSort::General, kind: arrow, key: InferenceKey(7) });
    let n = db.var(TyVar { sort: TyVarSort::Integral, kind: Kind::Star, key: InferenceKey(3) });
    let p = pair(&mut db, f, n);
    let c = Canonical::new(&mut db, p);
    let mut t1 = UnificationTable::new();
    let v1 = c.extract_identity(&db, &mut t1);
    let mut t2 = UnificationTable::new();
    let v2 = c.extract_identity(&db, &mut t2);
    assert_eq!(v1, v2);
    assert_eq!(t1.len(), 2);
    assert_eq!(t2.len(), 2);
    assert!(t1.probe(InferenceKey(0)).is_none());
    assert!(t1.probe(InferenceKey(1)).is_none());
    let (a, b) = pair_args(&db, v1);
    match db.data(a) {
        TyData::TyVar(v) => {
            assert_eq!(v.key, InferenceKey(0));
            assert!(v.kind.same_as(&Kind::Abs(Box::new(Kind::Star), Box::new(Kind::Star))));
        }
        other => panic!("not a variable: {:?}", other),
    }
    match db.data(b) {
        TyData::TyVar(v) => {
            assert_eq!(v.key, InferenceKey(1));
            assert_eq!(v.sort, TyVarSort::Integral);
        }
        other => panic!("not a variable: {:?}", other),
    }
}

#[test]
fn identity_extraction_refuses_a_non_empty_table() {
    let mut db = TyStore::new();
    let t0 = var(&mut db, 0);
    let c = Canonical::new(&mut db, t0);
    let mut table = UnificationTable::new();
    table.new_key(&Kind::Star, TyVarSort::General);
    assert_eq!(c.try_extract_identity(&db, &mut table), None);
    assert_eq!(table.len(), 1);
    let mut empty = UnificationTable::new();
    assert_eq!(c.try_extract_identity(&db, &mut empty), Some(c.value));
    assert_eq!(empty.len(), 1);
}

#[test]
fn resolution_chases_bindings() {
    let mut db = TyStore::new();
    let mut table = UnificationTable::new();
    let a = table.new_var(&mut db, TyVarSort::General, &Kind::Star);
    let b = table.new_var(&mut db, TyVarSort::General, &Kind::Star);
    let int = db.base(I32, Kind::Star);
    table.bind(InferenceKey(0), b);
    table.bind(InferenceKey(1), int);
    let p = pair(&mut db, a, b);
    let r = table.resolve_ty(&mut db, p);
    let expected = pair(&mut db, int, int);
    assert_eq!(r, expected);
    assert_eq!(table.probe(InferenceKey(0)), Some(b));
}

#[test]
fn solution_maps_back_to_the_asking_variables() {
    let mut db = TyStore::new();
    // The asker's context: its own variables 0..=7.
    let mut asker = UnificationTable::new();
    let mut vars = Vec::new();
    for _ in 0..8 {
        vars.push(asker.new_var(&mut db, TyVarSort::General, &Kind::Star));
    }
    let (t3, t7) = (vars[3], vars[7]);
    let query = pair(&mut db, t3, t7);
    let cq = Canonicalized::new(&mut db, query);

    // Solve in a fresh table materialized from the canonical query.
    let mut solver = UnificationTable::new();
    let q = cq.value.extract_identity(&db, &mut solver);
    let (c0, c1) = pair_args(&db, q);
    let int = db.base(I32, Kind::Star);
    // The second query variable is bound to a fresh variable, which is bound
    // to i32; the solver also introduces a variable of its own.
    let fresh = solver.new_var(&mut db, TyVarSort::General, &Kind::Star);
    let extra = solver.new_var(&mut db, TyVarSort::General, &Kind::Star);
    solver.bind(InferenceKey(1), fresh);
    solver.bind(InferenceKey(2), int);
    let o = db.base(OPTION, arrows(1));
    let o_extra = db.app(o, extra);
    let inner = pair(&mut db, c1, o_extra);
    let raw = pair(&mut db, c0, inner);
    let sol = cq.value.canonicalize_solution(&mut db, &solver, raw);

    // In canonical space: Pair<C0, Pair<i32, Option<C2>>>.
    let (s0, s_inner) = pair_args(&db, sol.value);
    assert_eq!(s0, c0);
    let (s1, s_opt) = pair_args(&db, s_inner);
    assert_eq!(s1, int);
    match db.data(s_opt) {
        TyData::TyApp(_, x) => assert_eq!(var_key(&db, x), 2),
        other => panic!("unexpected {:?}", other),
    }

    // Back in the asker's context: Pair<T3, Pair<i32, Option<T8>>>.
    let before = asker.len();
    let back = cq.extract_solution(&mut db, &mut asker, sol);
    let (b0, b_inner) = pair_args(&db, back);
    assert_eq!(b0, t3);
    let (b1, b_opt) = pair_args(&db, b_inner);
    assert_eq!(b1, int);
    assert_eq!(asker.len(), before + 1);
    match db.data(b_opt) {
        TyData::TyApp(_, x) => assert_eq!(var_key(&db, x), before),
        other => panic!("unexpected {:?}", other),
    }
}

#[test]
fn unified_query_variables_map_to_the_first() {
    let mut db = TyStore::new();
    let mut asker = UnificationTable::new();
    let a = asker.new_var(&mut db, TyVarSort::General, &Kind::Star);
    let b = asker.new_var(&mut db, TyVarSort::General, &Kind::Star);
    let query = pair(&mut db, a, b);
    let cq = Canonicalized::new(&mut db, query);
    let mut solver = UnificationTable::new();
    let q = cq.value.extract_identity(&db, &mut solver);
    let (c0, c1) = pair_args(&db, q);
    // The solver unifies the two query variables.
    solver.bind(InferenceKey(0), c1);
    let raw = pair(&mut db, c0, c1);
    let sol = cq.value.canonicalize_solution(&mut db, &solver, raw);
    let (s0, s1) = pair_args(&db, sol.value);
    assert_eq!(s0, s1);
    assert_eq!(s0, c0);
    let back = cq.extract_solution(&mut db, &mut asker, sol);
    assert_eq!(back, pair(&mut db, a, a));
    assert_eq!(solver.probe(InferenceKey(0)), Some(c1));
    assert_eq!(solver.probe(InferenceKey(1)), None);
}
