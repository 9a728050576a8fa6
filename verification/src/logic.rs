use vstd::prelude::*;

verus! {

/// The caption shown for a toggle in the given state.
pub open spec fn toggle_caption(toggled: bool) -> Seq<char> {
    if toggled {
        "On"@
    } else {
        "Off"@
    }
}

/// The caption of a two-state toggle.
pub fn toggle_label(toggled: bool) -> (label: &'static str)
    ensures
        label@ == toggle_caption(toggled),
{
    if toggled {
        "On"
    } else {
        "Off"
    }
}

/// The state a toggle takes when it is pressed.
pub fn next_toggled(current: bool) -> (next: bool)
    ensures
        next == !current,
{
    !current
}

/// Pressing a toggle twice brings it back to where it was, and every press
/// changes its caption.
pub proof fn lemma_toggle_press(current: bool)
    ensures
        !(!current) == current,
        toggle_caption(!current) != toggle_caption(current),
{
    reveal_strlit("On");
    reveal_strlit("Off");
    assert("On"@.len() != "Off"@.len());
}

} // verus!
