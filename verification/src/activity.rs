//! The three activity states and their wire labels.

use vstd::prelude::*;

verus! {

/// What the subject is doing during one reading.
#[derive(Clone, Copy, Debug, PartialEq, Eq, Structural)]
pub enum ActivityState {
    Active,
    Fidget,
    Sedentary,
}

/// The label under which a state is stored and sent.
pub open spec fn label_of(state: ActivityState) -> Seq<char> {
    match state {
        ActivityState::Active => "ACTIVE"@,
        ActivityState::Fidget => "FIDGET"@,
        ActivityState::Sedentary => "SEDENTARY"@,
    }
}

/// The state that a label names, if it names one.
pub open spec fn state_named(label: Seq<char>) -> Option<ActivityState> {
    if label == "ACTIVE"@ {
        Some(ActivityState::Active)
    } else if label == "FIDGET"@ {
        Some(ActivityState::Fidget)
    } else if label == "SEDENTARY"@ {
        Some(ActivityState::Sedentary)
    } else {
        None
    }
}

/// Whether two slices hold the same characters.
fn same_text(a: &str, b: &str) -> (same: bool)
    ensures
        same == (a@ == b@),
{
    a.to_owned() == b.to_owned()
}

impl ActivityState {
    /// The label of this state.
    pub fn label(&self) -> (text: &'static str)
        ensures
            text@ == label_of(*self),
    {
        match self {
            ActivityState::Active => "ACTIVE",
            ActivityState::Fidget => "FIDGET",
            ActivityState::Sedentary => "SEDENTARY",
        }
    }

    /// Reads a stored label back. Any other text names no state.
    pub fn from_label(label: &str) -> (state: Option<ActivityState>)
        ensures
            state == state_named(label@),
    {
        if same_text(label, "ACTIVE") {
            Some(ActivityState::Active)
        } else if same_text(label, "FIDGET") {
            Some(ActivityState::Fidget)
        } else if same_text(label, "SEDENTARY") {
            Some(ActivityState::Sedentary)
        } else {
            None
        }
    }
}

/// Every state is read back from its own label.
pub proof fn lemma_label_round_trip(state: ActivityState)
    ensures
        state_named(label_of(state)) == Some(state),
{
    reveal_strlit("ACTIVE");
    reveal_strlit("FIDGET");
    reveal_strlit("SEDENTARY");
    assert("ACTIVE"@.len() == 6);
    assert("FIDGET"@.len() == 6);
    assert("SEDENTARY"@.len() == 9);
    assert("ACTIVE"@[0] == 'A');
    assert("FIDGET"@[0] == 'F');
}

/// A label that names a state is that state's label.
pub proof fn lemma_named_state_has_label(label: Seq<char>)
    ensures
        state_named(label) matches Some(state) ==> label_of(state) == label,
{
}

} // verus!
