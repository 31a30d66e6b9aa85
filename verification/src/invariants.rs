//! Invariant results, the invariant trait and collections of invariants.
//!
//! An invariant is a property that must hold after any sequence of actions:
//! a state invariant holds for every snapshot in isolation, a transition invariant
//! holds across consecutive snapshots and the action that led from one to the other.

use vstd::prelude::*;
use crate::adapter::{ActionResult, ContractAdapter};
use crate::text::{render, render_pieces, Piece};
use vstd::std_specs::convert::IntoSpec;

verus! {

/// Outcome of evaluating an invariant.
#[derive(Debug, Clone, PartialEq, Eq)]
pub enum InvariantResult {
    /// The invariant holds.
    Pass,
    /// The invariant was violated, with an explanation.
    Violation { reason: String, details: Option<String> },
}

/// Mathematical model of an [`InvariantResult`]: the texts as character sequences.
pub enum Verdict {
    Pass,
    Violation { reason: Seq<char>, details: Option<Seq<char>> },
}

/// The character sequence of an optional string.
pub open spec fn opt_chars(s: Option<String>) -> Option<Seq<char>> {
    match s {
        Some(t) => Some(t@),
        None => None,
    }
}

impl View for InvariantResult {
    type V = Verdict;

    open spec fn view(&self) -> Verdict {
        match self {
            InvariantResult::Pass => Verdict::Pass,
            InvariantResult::Violation { reason, details } => Verdict::Violation {
                reason: reason@,
                details: opt_chars(*details),
            },
        }
    }
}

/// Whether an integer is representable as `i128`.
pub open spec fn fits_i128(x: int) -> bool {
    i128::MIN <= x <= i128::MAX
}

/// A violation verdict without details.
pub open spec fn fails(reason: Seq<char>) -> Verdict {
    Verdict::Violation { reason, details: None }
}

impl InvariantResult {
    /// Whether the invariant holds.
    pub fn is_pass(&self) -> (r: bool)
        ensures
            r == (self@ is Pass),
    {
        match self {
            InvariantResult::Pass => true,
            InvariantResult::Violation { .. } => false,
        }
    }

    /// Whether the invariant was violated.
    pub fn is_violation(&self) -> (r: bool)
        ensures
            r == (self@ is Violation),
    {
        match self {
            InvariantResult::Pass => false,
            InvariantResult::Violation { .. } => true,
        }
    }

    /// A violation with the given reason (converted by `Into`) and no details. The reason is
    /// what the conversion of `reason` returned.
    pub fn violation<R: Into<String>>(reason: R) -> (r: InvariantResult)
        ensures
            match r {
                InvariantResult::Violation { reason: s, details } => {
                    &&& details is None
                    &&& <R as IntoSpec<String>>::obeys_into_spec() ==> s == <R as IntoSpec<
                        String,
                    >>::into_spec(reason)
                    &&& call_ensures(R::into, (reason,), s)
                },
                InvariantResult::Pass => false,
            },
    {
        InvariantResult::Violation { reason: reason.into(), details: None }
    }

    /// A violation with the given reason and details (each converted by `Into`): what the
    /// conversions of `reason` and `details` returned.
    pub fn violation_with_details<R: Into<String>, D: Into<String>>(reason: R, details: D) -> (r:
        InvariantResult)
        ensures
            match r {
                InvariantResult::Violation { reason: s, details: d } => {
                    &&& d is Some
                    &&& <R as IntoSpec<String>>::obeys_into_spec() ==> s == <R as IntoSpec<
                        String,
                    >>::into_spec(reason)
                    &&& <D as IntoSpec<String>>::obeys_into_spec() ==> d->0 == <D as IntoSpec<
                        String,
                    >>::into_spec(details)
                    &&& call_ensures(R::into, (reason,), s)
                    &&& call_ensures(D::into, (details,), d->0)
                },
                InvariantResult::Pass => false,
            },
    {
        InvariantResult::Violation { reason: reason.into(), details: Some(details.into()) }
    }

    /// The reason of a violation; `None` when the invariant holds.
    pub fn reason(&self) -> (r: Option<&String>)
        ensures
            match self@ {
                Verdict::Pass => r is None,
                Verdict::Violation { reason, .. } => r is Some && r->0@ == reason,
            },
    {
        match self {
            InvariantResult::Pass => None,
            InvariantResult::Violation { reason, .. } => Some(reason),
        }
    }
}

/// A violation whose reason is rendered from `pieces`.
pub(crate) fn fail_with(pieces: Vec<Piece>) -> (r: InvariantResult)
    ensures
        r@ == fails(render(pieces@)),
{
    InvariantResult::Violation { reason: render_pieces(&pieces), details: None }
}

/// A violation whose reason is the given text.
pub(crate) fn fail_text(msg: &'static str) -> (r: InvariantResult)
    ensures
        r@ == fails(msg@),
{
    let mut s = String::new();
    s.append(msg);
    InvariantResult::Violation { reason: s, details: None }
}

/// The verdict of the combined check: the state verdict when it fails, else the transition verdict.
pub open spec fn combine(state_verdict: Verdict, transition_verdict: Verdict) -> Verdict {
    if state_verdict is Pass {
        transition_verdict
    } else {
        state_verdict
    }
}

/// A safety or financial invariant evaluated against the snapshots of an adapter.
pub trait Invariant<A: ContractAdapter> {
    // The specification functions below are what the contracts of `name`, `check_state`,
    // `check_transition` and `check` speak of. An implementation verified with Verus defines
    // them to match its code and is checked against them. An implementation written outside
    // Verus keeps the defaults (an empty name, verdicts that always pass), for which those
    // contracts are false, so nothing proved from them (the contracts of `InvariantSet` and of
    // the runner among them) holds for a set that holds it.

    /// The invariant's name.
    open spec fn spec_name(&self) -> Seq<char> {
        Seq::empty()
    }

    /// Verdict on a single snapshot.
    open spec fn spec_check_state(&self, state: A::State) -> Verdict {
        Verdict::Pass
    }

    /// Verdict on a transition between two snapshots.
    open spec fn spec_check_transition(
        &self,
        before: A::State,
        after: A::State,
        action: A::Action,
        result: ActionResult,
    ) -> Verdict {
        Verdict::Pass
    }

    /// Concise, descriptive name for the invariant.
    fn name(&self) -> (r: &'static str)
        ensures
            r@ == self.spec_name(),
    ;

    /// Extended description explaining what the invariant guarantees; empty unless the
    /// implementation gives one.
    fn description(&self) -> (r: &'static str)
        default_ensures
            r@ == Seq::<char>::empty(),
    {
        proof {
            reveal_strlit("");
        }
        ""
    }

    /// Evaluates a single-state condition; invoked after setup and after every step. Every
    /// implementation provides it; one without a state condition returns
    /// `InvariantResult::Pass`.
    fn check_state(&self, state: &A::State) -> (r: InvariantResult)
        ensures
            r@ == self.spec_check_state(*state),
    ;

    /// Evaluates a transition condition across consecutive states; invoked after every step.
    /// Every implementation provides it; one without a transition condition returns
    /// `InvariantResult::Pass`.
    fn check_transition(
        &self,
        before: &A::State,
        after: &A::State,
        action: &A::Action,
        result: &ActionResult,
    ) -> (r: InvariantResult)
        ensures
            r@ == self.spec_check_transition(*before, *after, *action, *result),
    ;

    /// Evaluates the state invariant on `after`, then, if it holds, the transition invariant.
    fn check(
        &self,
        before: &A::State,
        after: &A::State,
        action: &A::Action,
        result: &ActionResult,
    ) -> (r: InvariantResult)
        ensures
            r@ == combine(
                self.spec_check_state(*after),
                self.spec_check_transition(*before, *after, *action, *result),
            ),
    {
        let state_res = self.check_state(after);
        if !state_res.is_pass() {
            return state_res;
        }
        self.check_transition(before, after, action, result)
    }
}

/// A recorded invariant violation.
#[derive(Debug, Clone)]
pub struct InvariantViolation {
    pub invariant_name: &'static str,
    pub reason: String,
    pub details: Option<String>,
}

/// Mathematical model of an [`InvariantViolation`].
pub struct ViolationView {
    pub name: Seq<char>,
    pub reason: Seq<char>,
    pub details: Option<Seq<char>>,
}

impl View for InvariantViolation {
    type V = ViolationView;

    open spec fn view(&self) -> ViolationView {
        ViolationView {
            name: self.invariant_name@,
            reason: self.reason@,
            details: opt_chars(self.details),
        }
    }
}

/// The models of a sequence of violations.
pub open spec fn violation_views(vs: Seq<InvariantViolation>) -> Seq<ViolationView> {
    vs.map_values(|v: InvariantViolation| v@)
}

/// The violation recorded for an invariant named `name` with verdict `v`: none when it passes.
pub open spec fn entry(name: Seq<char>, v: Verdict) -> Seq<ViolationView> {
    match v {
        Verdict::Pass => Seq::empty(),
        Verdict::Violation { reason, details } => seq![ViolationView { name, reason, details }],
    }
}

/// Violations of the state invariants in `invs` on `state`, in registration order.
pub open spec fn initial_violations<A: ContractAdapter>(
    invs: Seq<Box<dyn Invariant<A>>>,
    state: A::State,
) -> Seq<ViolationView>
    decreases invs.len(),
{
    if invs.len() == 0 {
        Seq::empty()
    } else {
        initial_violations(invs.drop_last(), state) + entry(
            invs.last().spec_name(),
            invs.last().spec_check_state(state),
        )
    }
}

/// Violations of the combined checks of `invs` on a step, in registration order.
pub open spec fn step_violations<A: ContractAdapter>(
    invs: Seq<Box<dyn Invariant<A>>>,
    before: A::State,
    after: A::State,
    action: A::Action,
    result: ActionResult,
) -> Seq<ViolationView>
    decreases invs.len(),
{
    if invs.len() == 0 {
        Seq::empty()
    } else {
        step_violations(invs.drop_last(), before, after, action, result) + entry(
            invs.last().spec_name(),
            combine(
                invs.last().spec_check_state(after),
                invs.last().spec_check_transition(before, after, action, result),
            ),
        )
    }
}

/// An invariant as a set holds it: boxed behind the trait.
pub open spec fn boxed<A: ContractAdapter, I: Invariant<A> + 'static>(inv: I) -> Box<
    dyn Invariant<A>,
> {
    Box::new(inv)
}

/// A collection of invariants checked together against an adapter, in registration order.
#[verifier::reject_recursive_types(A)]
pub struct InvariantSet<A: ContractAdapter> {
    invariants: Vec<Box<dyn Invariant<A>>>,
}

impl<A: ContractAdapter> View for InvariantSet<A> {
    type V = Seq<Box<dyn Invariant<A>>>;

    closed spec fn view(&self) -> Seq<Box<dyn Invariant<A>>> {
        self.invariants@
    }
}

impl<A: ContractAdapter> Default for InvariantSet<A> {
    fn default() -> (r: Self)
        ensures
            r@.len() == 0,
    {
        Self::new()
    }
}

impl<A: ContractAdapter> InvariantSet<A> {
    /// An empty set.
    pub fn new() -> (r: Self)
        ensures
            r@.len() == 0,
    {
        Self { invariants: Vec::new() }
    }

    /// Registers an invariant after the ones already present.
    pub fn add<I: Invariant<A> + 'static>(&mut self, inv: I) -> (r: &mut Self)
        ensures
            r@.len() == old(self)@.len() + 1,
            forall|i: int| 0 <= i < old(self)@.len() ==> r@[i] == old(self)@[i],
            *final(self) == *final(r),
            r@[old(self)@.len() as int] == boxed::<A, I>(inv),
    {
        let b: Box<dyn Invariant<A>> = Box::new(inv);
        let ghost old_items = self.invariants@;
        self.invariants.push(b);
        proof {
            // The sequence axioms are invoked explicitly for trait-object elements.
            vstd::seq::axiom_seq_push_len(old_items, b);
            assert forall|i: int| 0 <= i < old_items.len() implies self.invariants@[i]
                == old_items[i] by {
                vstd::seq::axiom_seq_push_index_different(old_items, b, i);
            }
            vstd::seq::axiom_seq_push_index_same(old_items, b, old_items.len() as int);
        }
        self
    }

    /// Registers an invariant after the ones already present, by value.
    pub fn with<I: Invariant<A> + 'static>(self, inv: I) -> (r: Self)
        ensures
            r@.len() == self@.len() + 1,
            forall|i: int| 0 <= i < self@.len() ==> r@[i] == self@[i],
            r@[self@.len() as int] == boxed::<A, I>(inv),
    {
        let mut s = self;
        s.add(inv);
        s
    }

    /// Number of registered invariants.
    pub fn len(&self) -> (r: usize)
        ensures
            r == self@.len(),
    {
        self.invariants.len()
    }

    /// Whether no invariant is registered.
    pub fn is_empty(&self) -> (r: bool)
        ensures
            r == (self@.len() == 0),
    {
        self.invariants.len() == 0
    }

    /// Iterates over the registered invariants in registration order.
    pub fn iter(&self) -> (r: std::slice::Iter<'_, Box<dyn Invariant<A>>>)
        ensures
            vstd::std_specs::slice::into_iter_elts(r) == self@,
    {
        let sl = self.invariants.as_slice();
        let r = sl.iter();
        proof {
            vstd::std_specs::slice::axiom_spec_slice_iter(sl);
            assert(vstd::std_specs::iter::IteratorSpec::remaining(&r).unref() =~= self@);
        }
        r
    }

    /// Checks all registered state invariants against an initial state.
    pub fn check_initial(&self, state: &A::State) -> (r: Vec<InvariantViolation>)
        ensures
            violation_views(r@) == initial_violations(self@, *state),
    {
        let mut violations: Vec<InvariantViolation> = Vec::new();
        let mut i: usize = 0;
        while i < self.invariants.len()
            invariant
                i <= self@.len(),
                violation_views(violations@) == initial_violations(self@.take(i as int), *state),
            decreases self@.len() - i,
        {
            let ghost before = violations@;
            let res = self.invariants[i].check_state(state);
            match res {
                InvariantResult::Violation { reason, details } => {
                    let v = InvariantViolation {
                        invariant_name: self.invariants[i].name(),
                        reason,
                        details,
                    };
                    violations.push(v);
                    assert(violation_views(violations@) == violation_views(before) + seq![v@]);
                },
                InvariantResult::Pass => {},
            }
            assert(self@.take(i + 1).drop_last() == self@.take(i as int));
            i = i + 1;
        }
        assert(self@.take(self@.len() as int) == self@);
        violations
    }

    /// Checks all registered invariants (state, then transition) against a step.
    pub fn check_step(
        &self,
        before: &A::State,
        after: &A::State,
        action: &A::Action,
        result: &ActionResult,
    ) -> (r: Vec<InvariantViolation>)
        ensures
            violation_views(r@) == step_violations(self@, *before, *after, *action, *result),
    {
        let mut violations: Vec<InvariantViolation> = Vec::new();
        let mut i: usize = 0;
        while i < self.invariants.len()
            invariant
                i <= self@.len(),
                violation_views(violations@) == step_violations(
                    self@.take(i as int),
                    *before,
                    *after,
                    *action,
                    *result,
                ),
            decreases self@.len() - i,
        {
            let ghost prev = violations@;
            let res = self.invariants[i].check(before, after, action, result);
            match res {
                InvariantResult::Violation { reason, details } => {
                    let v = InvariantViolation {
                        invariant_name: self.invariants[i].name(),
                        reason,
                        details,
                    };
                    violations.push(v);
                    assert(violation_views(violations@) == violation_views(prev) + seq![v@]);
                },
                InvariantResult::Pass => {},
            }
            assert(self@.take(i + 1).drop_last() == self@.take(i as int));
            i = i + 1;
        }
        assert(self@.take(self@.len() as int) == self@);
        violations
    }
}

/// An invariant set reports nothing on a state exactly when every invariant's state check
/// passes, and never reports more violations than it has invariants.
pub proof fn law_initial_violations<A: ContractAdapter>(
    invs: Seq<Box<dyn Invariant<A>>>,
    state: A::State,
)
    ensures
        initial_violations(invs, state).len() <= invs.len(),
        (initial_violations(invs, state).len() == 0) <==> forall|i: int|
            0 <= i < invs.len() ==> (#[trigger] invs[i]).spec_check_state(state) is Pass,
    decreases invs.len(),
{
    if invs.len() > 0 {
        let init = invs.drop_last();
        law_initial_violations(init, state);
        assert forall|i: int| 0 <= i < init.len() implies #[trigger] init[i] == invs[i] by {
            vstd::seq::axiom_seq_subrange_index(invs, 0, invs.len() - 1, i);
        }
        vstd::seq::axiom_seq_subrange_len(invs, 0, invs.len() - 1);
        if forall|i: int| 0 <= i < invs.len() ==> (#[trigger] invs[i]).spec_check_state(state) is Pass {
            assert(invs[invs.len() - 1].spec_check_state(state) is Pass);
        }
        if initial_violations(invs, state).len() == 0 {
            assert forall|i: int| 0 <= i < invs.len() implies (#[trigger] invs[i]).spec_check_state(
                state,
            ) is Pass by {
                if i < invs.len() - 1 {
                    assert(init[i] == invs[i]);
                }
            }
        }
    }
}

/// An invariant set reports nothing on a step exactly when every invariant passes both its
/// state check on the state after and its transition check, and never reports more
/// violations than it has invariants.
pub proof fn law_step_violations<A: ContractAdapter>(
    invs: Seq<Box<dyn Invariant<A>>>,
    before: A::State,
    after: A::State,
    action: A::Action,
    result: ActionResult,
)
    ensures
        step_violations(invs, before, after, action, result).len() <= invs.len(),
        (step_violations(invs, before, after, action, result).len() == 0) <==> forall|i: int|
            0 <= i < invs.len() ==> (#[trigger] invs[i]).spec_check_state(after) is Pass
                && invs[i].spec_check_transition(before, after, action, result) is Pass,
    decreases invs.len(),
{
    if invs.len() > 0 {
        let init = invs.drop_last();
        law_step_violations(init, before, after, action, result);
        assert forall|i: int| 0 <= i < init.len() implies #[trigger] init[i] == invs[i] by {
            vstd::seq::axiom_seq_subrange_index(invs, 0, invs.len() - 1, i);
        }
        vstd::seq::axiom_seq_subrange_len(invs, 0, invs.len() - 1);
        if step_violations(invs, before, after, action, result).len() == 0 {
            assert forall|i: int| 0 <= i < invs.len() implies (#[trigger] invs[i]).spec_check_state(
                after,
            ) is Pass && invs[i].spec_check_transition(before, after, action, result) is Pass by {
                if i < invs.len() - 1 {
                    assert(init[i] == invs[i]);
                }
            }
        }
        if forall|i: int|
            0 <= i < invs.len() ==> (#[trigger] invs[i]).spec_check_state(after) is Pass
                && invs[i].spec_check_transition(before, after, action, result) is Pass {
            assert(invs[invs.len() - 1].spec_check_state(after) is Pass);
        }
    }
}

/// An invariant's check of a step reports the state check's violation first; when the state
/// check passes it reports the transition check's verdict. So the step is clean exactly
/// when both checks pass.
pub proof fn law_combine(state_verdict: Verdict, transition_verdict: Verdict)
    ensures
        (combine(state_verdict, transition_verdict) is Pass) <==> (state_verdict is Pass
            && transition_verdict is Pass),
        state_verdict is Violation ==> combine(state_verdict, transition_verdict)
            == state_verdict,
        state_verdict is Pass ==> combine(state_verdict, transition_verdict)
            == transition_verdict,
{
}

/// The first violation reported on an initial state is that of the first registered
/// invariant whose state check fails there, with its name, reason and details.
pub proof fn law_first_initial_violation<A: ContractAdapter>(
    invs: Seq<Box<dyn Invariant<A>>>,
    state: A::State,
)
    ensures
        initial_violations(invs, state).len() > 0 ==> exists|i: int|
            0 <= i < invs.len() && (forall|j: int|
                0 <= j < i ==> (#[trigger] invs[j]).spec_check_state(state) is Pass) && match (
            #[trigger] invs[i]).spec_check_state(state) {
                Verdict::Violation { reason, details } => initial_violations(invs, state)[0]
                    == (ViolationView { name: invs[i].spec_name(), reason, details }),
                Verdict::Pass => false,
            },
    decreases invs.len(),
{
    if invs.len() > 0 {
        let init = invs.drop_last();
        law_first_initial_violation(init, state);
        law_initial_violations(init, state);
        assert forall|i: int| 0 <= i < init.len() implies #[trigger] init[i] == invs[i] by {
            vstd::seq::axiom_seq_subrange_index(invs, 0, invs.len() - 1, i);
        }
        vstd::seq::axiom_seq_subrange_len(invs, 0, invs.len() - 1);
        let last = invs.len() - 1;
        assert(invs.last() == invs[last]);
        if initial_violations(init, state).len() > 0 {
            let i = choose|i: int|
                0 <= i < init.len() && (forall|j: int|
                    0 <= j < i ==> (#[trigger] init[j]).spec_check_state(state) is Pass) && match (
                #[trigger] init[i]).spec_check_state(state) {
                    Verdict::Violation { reason, details } => initial_violations(init, state)[0]
                        == (ViolationView { name: init[i].spec_name(), reason, details }),
                    Verdict::Pass => false,
                };
            assert(init[i] == invs[i]);
            assert forall|j: int| 0 <= j < i implies (#[trigger] invs[j]).spec_check_state(state)
                is Pass by {
                assert(init[j] == invs[j]);
            }
            assert(initial_violations(invs, state)[0] == initial_violations(init, state)[0]);
        } else if initial_violations(invs, state).len() > 0 {
            assert forall|j: int| 0 <= j < last implies (#[trigger] invs[j]).spec_check_state(
                state,
            ) is Pass by {
                assert(init[j] == invs[j]);
            }
            assert(initial_violations(init, state) =~= Seq::<ViolationView>::empty());
            assert(initial_violations(invs, state) =~= entry(
                invs[last].spec_name(),
                invs[last].spec_check_state(state),
            ));
        }
    }
}

/// The first violation reported on a step is that of the first registered invariant whose
/// combined check fails there (its state check on the state after, then its transition
/// check), with its name, reason and details.
pub proof fn law_first_step_violation<A: ContractAdapter>(
    invs: Seq<Box<dyn Invariant<A>>>,
    before: A::State,
    after: A::State,
    action: A::Action,
    result: ActionResult,
)
    ensures
        step_violations(invs, before, after, action, result).len() > 0 ==> exists|i: int|
            0 <= i < invs.len() && (forall|j: int|
                0 <= j < i ==> combine(
                    (#[trigger] invs[j]).spec_check_state(after),
                    invs[j].spec_check_transition(before, after, action, result),
                ) is Pass) && match combine(
                (#[trigger] invs[i]).spec_check_state(after),
                invs[i].spec_check_transition(before, after, action, result),
            ) {
                Verdict::Violation { reason, details } => step_violations(
                    invs,
                    before,
                    after,
                    action,
                    result,
                )[0] == (ViolationView { name: invs[i].spec_name(), reason, details }),
                Verdict::Pass => false,
            },
    decreases invs.len(),
{
    if invs.len() > 0 {
        let init = invs.drop_last();
        law_first_step_violation(init, before, after, action, result);
        law_step_violations(init, before, after, action, result);
        assert forall|i: int| 0 <= i < init.len() implies #[trigger] init[i] == invs[i] by {
            vstd::seq::axiom_seq_subrange_index(invs, 0, invs.len() - 1, i);
        }
        vstd::seq::axiom_seq_subrange_len(invs, 0, invs.len() - 1);
        let last = invs.len() - 1;
        assert(invs.last() == invs[last]);
        let vs_init = step_violations(init, before, after, action, result);
        let vs = step_violations(invs, before, after, action, result);
        if vs_init.len() > 0 {
            let i = choose|i: int|
                0 <= i < init.len() && (forall|j: int|
                    0 <= j < i ==> combine(
                        (#[trigger] init[j]).spec_check_state(after),
                        init[j].spec_check_transition(before, after, action, result),
                    ) is Pass) && match combine(
                    (#[trigger] init[i]).spec_check_state(after),
                    init[i].spec_check_transition(before, after, action, result),
                ) {
                    Verdict::Violation { reason, details } => vs_init[0] == (ViolationView {
                        name: init[i].spec_name(),
                        reason,
                        details,
                    }),
                    Verdict::Pass => false,
                };
            assert(init[i] == invs[i]);
            assert forall|j: int| 0 <= j < i implies combine(
                (#[trigger] invs[j]).spec_check_state(after),
                invs[j].spec_check_transition(before, after, action, result),
            ) is Pass by {
                assert(init[j] == invs[j]);
            }
            assert(vs[0] == vs_init[0]);
        } else if vs.len() > 0 {
            assert forall|j: int| 0 <= j < last implies combine(
                (#[trigger] invs[j]).spec_check_state(after),
                invs[j].spec_check_transition(before, after, action, result),
            ) is Pass by {
                assert(init[j] == invs[j]);
            }
            assert(vs_init =~= Seq::<ViolationView>::empty());
            assert(vs =~= entry(
                invs[last].spec_name(),
                combine(
                    invs[last].spec_check_state(after),
                    invs[last].spec_check_transition(before, after, action, result),
                ),
            ));
        }
    }
}

} // verus!
