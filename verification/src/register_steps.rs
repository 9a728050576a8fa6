//! The registration form's step buttons.
use vstd::prelude::*;

verus! {

pub const REGISTER_STEPS: u8 = 3;
pub const SUBMIT_LABEL: &'static str = "提交申請";
pub const NEXT_LABEL: &'static str = "下一步";

/// The back button is off on the first step.
pub fn register_prev_disabled(step: u8) -> (b: bool)
    ensures
        b == (step == 1),
{
    step == 1
}

/// The forward button submits on the last step and moves on before it.
pub fn register_next_label(step: u8) -> (s: &'static str)
    ensures
        s@ == (if step == REGISTER_STEPS { SUBMIT_LABEL@ } else { NEXT_LABEL@ }),
{
    if step == REGISTER_STEPS {
        SUBMIT_LABEL
    } else {
        NEXT_LABEL
    }
}

} // verus!
