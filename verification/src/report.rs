//! Diagnostic reports describing an invariant violation together with its trace.

use vstd::prelude::*;
use crate::adapter::ContractAdapter;
use crate::text::{dec_int, push_int};
use crate::transition::{step_cloned, StepRecord, Trace};

verus! {

/// Diagnostic report generated when an invariant fails.
pub struct InvariantViolationReport<A: ContractAdapter> {
    pub invariant_name: &'static str,
    pub reason: String,
    pub details: Option<String>,
    /// The failing step (numbered from 1); `None` when the initial state failed.
    pub failing_step_index: Option<usize>,
    pub trace: Trace<A>,
}

/// The printed forms of one recorded step's action, result and states.
pub struct StepText {
    pub action: String,
    pub result: String,
    pub state_before: String,
    pub state_after: String,
}

/// The rule that frames a rendered report.
pub open spec fn frame_rule() -> Seq<char> {
    "============================================================"@
}

/// The three lines that show one step of the trace.
pub open spec fn step_lines(step_index: usize, t: StepText) -> Seq<char> {
    "  [Step "@ + dec_int(step_index as int) + "] Action: "@ + t.action@ + " => Result: "@
        + t.result@ + "\n"@ + "           State Before: "@ + t.state_before@ + "\n"@
        + "           State After:  "@ + t.state_after@ + "\n"@
}

/// The lines of the first `n` steps, in order.
pub open spec fn steps_lines<A: ContractAdapter>(
    steps: Seq<StepRecord<A>>,
    texts: Seq<StepText>,
    n: nat,
) -> Seq<char>
    decreases n,
{
    if n == 0 {
        Seq::empty()
    } else {
        steps_lines(steps, texts, (n - 1) as nat) + step_lines(
            steps[n - 1].step_index,
            texts[n - 1],
        )
    }
}

/// Everything a rendered report shows before its steps: the heading, the reason, the
/// details when there are any, where the run failed, and the trace's initial state.
pub open spec fn report_heading<A: ContractAdapter>(
    r: InvariantViolationReport<A>,
    initial_state: Seq<char>,
) -> Seq<char> {
    "\n"@ + frame_rule() + "\n"@ + "  INVARIANT VIOLATION: "@ + r.invariant_name@ + "\n"@
        + frame_rule() + "\n"@ + "Reason: "@ + r.reason@ + "\n"@ + match r.details {
        Some(d) => "Details: "@ + d@ + "\n"@,
        None => Seq::empty(),
    } + match r.failing_step_index {
        Some(idx) => "Failed at step: #"@ + dec_int(idx as int) + "\n"@,
        None => "Failed at: Initial State (prior to actions)\n"@,
    } + "------------------------------------------------------------\n"@
        + "Trace (Total steps: "@ + dec_int(r.trace.steps@.len() as int) + "):\n"@
        + "  [Step 0 - Initial] State: "@ + initial_state + "\n"@
}

/// The whole rendered report, given the printed forms of the trace's values.
pub open spec fn report_text<A: ContractAdapter>(
    r: InvariantViolationReport<A>,
    initial_state: Seq<char>,
    steps: Seq<StepText>,
) -> Seq<char> {
    report_heading(r, initial_state) + steps_lines(r.trace.steps@, steps, steps.len())
        + frame_rule() + "\n\n"@
}

/// The printed lines of one step.
fn step_line_string(step_index: usize, t: &StepText) -> (out: String)
    ensures
        out@ == step_lines(step_index, *t),
{
    let mut out = String::new();
    out.append("  [Step ");
    push_int(&mut out, step_index as i128);
    out.append("] Action: ");
    out.append(t.action.as_str());
    out.append(" => Result: ");
    out.append(t.result.as_str());
    out.append("\n");
    out.append("           State Before: ");
    out.append(t.state_before.as_str());
    out.append("\n");
    out.append("           State After:  ");
    out.append(t.state_after.as_str());
    out.append("\n");
    out
}

impl<A: ContractAdapter> Clone for InvariantViolationReport<A> {
    fn clone(&self) -> (r: Self)
        ensures
            r.invariant_name == self.invariant_name,
            r.reason == self.reason,
            r.details == self.details,
            r.failing_step_index == self.failing_step_index,
            cloned(self.trace.initial_state, r.trace.initial_state),
            r.trace.steps@.len() == self.trace.steps@.len(),
            forall|i: int|
                0 <= i < self.trace.steps@.len() ==> step_cloned(
                    self.trace.steps@[i],
                    #[trigger] r.trace.steps@[i],
                ),
    {
        Self {
            invariant_name: self.invariant_name,
            reason: self.reason.clone(),
            details: self.details.clone(),
            failing_step_index: self.failing_step_index,
            trace: self.trace.clone(),
        }
    }
}

impl<A: ContractAdapter> InvariantViolationReport<A> {
    /// A report for a violation found on the initial state, before any action.
    pub fn new_initial(
        invariant_name: &'static str,
        reason: String,
        details: Option<String>,
        initial_state: A::State,
    ) -> (r: Self)
        ensures
            r.invariant_name == invariant_name,
            r.reason == reason,
            r.details == details,
            r.failing_step_index is None,
            r.trace.initial_state == initial_state,
            r.trace.steps@.len() == 0,
    {
        Self {
            invariant_name,
            reason,
            details,
            failing_step_index: None,
            trace: Trace::new(initial_state),
        }
    }

    /// A report for a violation found after step `failing_step_index` of `trace`.
    pub fn new_step(
        invariant_name: &'static str,
        reason: String,
        details: Option<String>,
        failing_step_index: usize,
        trace: Trace<A>,
    ) -> (r: Self)
        ensures
            r == (Self {
                invariant_name,
                reason,
                details,
                failing_step_index: Some(failing_step_index),
                trace,
            }),
    {
        Self {
            invariant_name,
            reason,
            details,
            failing_step_index: Some(failing_step_index),
            trace,
        }
    }

    /// Renders the report for a reader. The trace's states, actions and results appear in
    /// the printed forms given here: `initial_state` for the initial state, and one
    /// `StepText` per recorded step, in order.
    pub fn render(&self, initial_state: &str, steps: &Vec<StepText>) -> (out: String)
        requires
            steps@.len() == self.trace.steps@.len(),
        ensures
            out@ == report_text(*self, initial_state@, steps@),
    {
        let mut out = String::new();
        out.append("\n");
        out.append("============================================================");
        out.append("\n");
        out.append("  INVARIANT VIOLATION: ");
        out.append(self.invariant_name);
        out.append("\n");
        out.append("============================================================");
        out.append("\n");
        out.append("Reason: ");
        out.append(self.reason.as_str());
        out.append("\n");
        match &self.details {
            Some(d) => {
                out.append("Details: ");
                out.append(d.as_str());
                out.append("\n");
            },
            None => {},
        }
        match self.failing_step_index {
            Some(idx) => {
                out.append("Failed at step: #");
                push_int(&mut out, idx as i128);
                out.append("\n");
            },
            None => {
                out.append("Failed at: Initial State (prior to actions)\n");
            },
        }
        out.append("------------------------------------------------------------\n");
        out.append("Trace (Total steps: ");
        push_int(&mut out, self.trace.steps.len() as i128);
        out.append("):\n");
        out.append("  [Step 0 - Initial] State: ");
        out.append(initial_state);
        out.append("\n");
        let ghost heading = out@;
        assert(heading == report_heading(*self, initial_state@));
        let mut i: usize = 0;
        while i < steps.len()
            invariant
                i <= steps@.len(),
                steps@.len() == self.trace.steps@.len(),
                out@ == heading + steps_lines(self.trace.steps@, steps@, i as nat),
            decreases steps@.len() - i,
        {
            let line = step_line_string(self.trace.steps[i].step_index, &steps[i]);
            proof {
                vstd::seq_lib::lemma_concat_associative(
                    heading,
                    steps_lines(self.trace.steps@, steps@, i as nat),
                    line@,
                );
            }
            out.append(line.as_str());
            i = i + 1;
        }
        out.append("============================================================");
        out.append("\n\n");
        out
    }
}

} // verus!
