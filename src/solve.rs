//! Checking trait bounds against implementation rules, with every check
//! that comes back to a goal still in progress reported instead of
//! followed, so that checking always terminates.
use vstd::prelude::*;
use crate::diag::DynLazySpan;
use crate::trait_diagnostics::TraitConstraintDiag;
use crate::ty_def::TyId;

verus! {

/// "`ty` implements the trait `trait_id`", over canonical types.
#[derive(Debug, Clone, Copy, PartialEq, Eq, Hash, Structural)]
pub struct Goal {
    pub ty: TyId,
    pub trait_id: u32,
}

/// An implementation: `head` holds when every goal of `requires` holds.
#[derive(Debug)]
pub struct ImplRule {
    pub head: Goal,
    pub requires: Vec<Goal>,
}

/// The outcome of checking a goal.
#[derive(Debug, Clone, Copy, PartialEq, Eq, Hash, Structural)]
pub enum BoundCheck {
    Satisfied,
    /// No rule gives this goal.
    NotSatisfied(Goal),
    /// Checking this goal came back to it without settling it.
    InfiniteRecursion(Goal),
}

/// The number of rules not in progress.
pub open spec fn n_free(busy: Seq<bool>) -> nat
    decreases busy.len(),
{
    if busy.len() == 0 {
        0
    } else {
        n_free(busy.drop_last()) + if busy.last() {
            0nat
        } else {
            1nat
        }
    }
}

pub proof fn lemma_n_free_mark(busy: Seq<bool>, i: int)
    requires
        0 <= i < busy.len(),
        !busy[i],
    ensures
        n_free(busy.update(i, true)) + 1 == n_free(busy),
    decreases busy.len(),
{
    let b2 = busy.update(i, true);
    if i < busy.len() - 1 {
        lemma_n_free_mark(busy.drop_last(), i);
        assert(b2.drop_last() =~= busy.drop_last().update(i, true));
    } else {
        assert(b2.drop_last() =~= busy.drop_last());
    }
}

/// The index of the first rule whose head is `g`.
pub open spec fn first_rule(rules: Seq<ImplRule>, g: Goal) -> Option<int>
    decreases rules.len(),
{
    if rules.len() == 0 {
        None
    } else {
        match first_rule(rules.drop_last(), g) {
            Some(i) => Some(i),
            None => if rules.last().head == g {
                Some(rules.len() - 1)
            } else {
                None
            },
        }
    }
}

pub proof fn lemma_first_rule(rules: Seq<ImplRule>, g: Goal)
    ensures
        match first_rule(rules, g) {
            Some(i) => 0 <= i < rules.len() && rules[i].head == g && forall|j: int|
                0 <= j < i ==> #[trigger] rules[j].head != g,
            None => forall|j: int| 0 <= j < rules.len() ==> #[trigger] rules[j].head != g,
        },
    decreases rules.len(),
{
    if rules.len() > 0 {
        lemma_first_rule(rules.drop_last(), g);
        assert forall|j: int| 0 <= j < rules.len() - 1 implies rules[j] == rules.drop_last()[j] by {};
    }
}

/// The outcome of checking `g`, when the rules marked in `busy` are in
/// progress: the first rule for `g` gives it; if that rule is in progress
/// the check has come back to `g`.
pub open spec fn check(rules: Seq<ImplRule>, g: Goal, busy: Seq<bool>) -> BoundCheck
    decreases n_free(busy), 0nat,
{
    match first_rule(rules, g) {
        None => BoundCheck::NotSatisfied(g),
        Some(i) => if busy.len() != rules.len() || busy[i] {
            BoundCheck::InfiniteRecursion(g)
        } else {
            proof {
                lemma_first_rule(rules, g);
                lemma_n_free_mark(busy, i);
            }
            check_all(rules, rules[i].requires@, 0, busy.update(i, true))
        },
    }
}

/// The outcome of checking the goals of `gs` from the `k`-th on, in order:
/// the first that fails, or `Satisfied`.
pub open spec fn check_all(rules: Seq<ImplRule>, gs: Seq<Goal>, k: int, busy: Seq<bool>) -> BoundCheck
    decreases n_free(busy), 1 + gs.len() - k,
{
    if k < 0 || k >= gs.len() {
        BoundCheck::Satisfied
    } else {
        match check(rules, gs[k], busy) {
            BoundCheck::Satisfied => check_all(rules, gs, k + 1, busy),
            other => other,
        }
    }
}

fn find_rule(rules: &Vec<ImplRule>, g: Goal) -> (r: Option<usize>)
    ensures
        match first_rule(rules@, g) {
            Some(i) => r is Some && r->Some_0 as int == i,
            None => r is None,
        },
{
    proof {
        lemma_first_rule(rules@, g);
    }
    let mut i: usize = 0;
    while i < rules.len()
        invariant
            i <= rules@.len(),
            forall|j: int| 0 <= j < i ==> #[trigger] rules@[j].head != g,
        decreases rules@.len() - i,
    {
        if rules[i].head == g {
            proof {
                lemma_first_rule(rules@, g);
                let f = first_rule(rules@, g)->Some_0;
                if f < i {
                    assert(rules@[f].head != g);
                }
            }
            return Some(i);
        }
        i = i + 1;
    }
    None
}

fn check_goal(rules: &Vec<ImplRule>, g: Goal, busy: &mut Vec<bool>) -> (r: BoundCheck)
    requires
        old(busy)@.len() == rules@.len(),
    ensures
        final(busy)@ == old(busy)@,
        r == check(rules@, g, old(busy)@),
    decreases n_free(old(busy)@), 0nat,
{
    proof {
        lemma_first_rule(rules@, g);
    }
    match find_rule(rules, g) {
        None => BoundCheck::NotSatisfied(g),
        Some(i) => {
            if busy[i] {
                BoundCheck::InfiniteRecursion(g)
            } else {
                let ghost b0 = busy@;
                proof {
                    lemma_n_free_mark(b0, i as int);
                }
                busy.set(i, true);
                let r = check_goals(rules, &rules[i].requires, busy);
                busy.set(i, false);
                proof {
                    assert(busy@ =~= b0);
                }
                r
            }
        },
    }
}

fn check_goals(rules: &Vec<ImplRule>, gs: &Vec<Goal>, busy: &mut Vec<bool>) -> (r: BoundCheck)
    requires
        old(busy)@.len() == rules@.len(),
    ensures
        final(busy)@ == old(busy)@,
        r == check_all(rules@, gs@, 0, old(busy)@),
    decreases n_free(old(busy)@), 1nat,
{
    let mut k: usize = 0;
    while k < gs.len()
        invariant
            busy@ == old(busy)@,
            busy@.len() == rules@.len(),
            k <= gs@.len(),
            check_all(rules@, gs@, 0, busy@) == check_all(rules@, gs@, k as int, busy@),
        decreases gs@.len() - k,
    {
        let r = check_goal(rules, gs[k], busy);
        match r {
            BoundCheck::Satisfied => {},
            _ => {
                return r;
            },
        }
        k = k + 1;
    }
    BoundCheck::Satisfied
}

/// Checks `g` against `rules`: for the first rule whose head is `g`, each
/// goal it requires in turn. A goal with no rule is not satisfied; a check
/// that comes back to a goal still in progress reports it as an infinite
/// recursion. Checking always terminates.
pub fn check_bound(rules: &Vec<ImplRule>, g: Goal) -> (r: BoundCheck)
    ensures
        r == check(rules@, g, Seq::new(rules@.len(), |_i: int| false)),
{
    let mut busy: Vec<bool> = Vec::new();
    let mut i: usize = 0;
    while i < rules.len()
        invariant
            i <= rules@.len(),
            busy@ == Seq::new(i as nat, |_i: int| false),
        decreases rules@.len() - i,
    {
        busy.push(false);
        i = i + 1;
        proof {
            assert(busy@ =~= Seq::new(i as nat, |_i: int| false));
        }
    }
    check_goal(rules, g, &mut busy)
}

/// The diagnostic that a failed check reports at `span`, where `ty` and
/// `goal` are how the failing goal's type and trait are written.
pub fn bound_diagnostic(span: DynLazySpan, outcome: BoundCheck, ty: &str, goal: &str) -> (r: Option<TraitConstraintDiag>)
    ensures
        outcome is Satisfied <==> r is None,
        outcome is NotSatisfied ==> r is Some && r->Some_0 is TraitBoundNotSat
            && r->Some_0->TraitBoundNotSat_0 == span && r->Some_0->TraitBoundNotSat_1@ == "`"@
            + ty@ + "` doesn't implement `"@ + goal@ + "`"@,
        outcome is InfiniteRecursion ==> r is Some && r->Some_0 is InfiniteBoundRecursion
            && r->Some_0->InfiniteBoundRecursion_0 == span
            && r->Some_0->InfiniteBoundRecursion_1@
            == "infinite evaluation recursion occurs when checking `"@ + ty@ + ": "@ + goal@
            + "` "@,
{
    match outcome {
        BoundCheck::Satisfied => None,
        BoundCheck::NotSatisfied(_) => Some(TraitConstraintDiag::trait_bound_not_satisfied(span, ty, goal)),
        BoundCheck::InfiniteRecursion(_) => Some(TraitConstraintDiag::infinite_bound_recursion(span, ty, goal)),
    }
}

} // verus!
