use vstd::prelude::*;

verus! {

/// How a newly clicked entity combines with the current selection.
#[derive(Clone, Copy, Debug, PartialEq, Eq, Structural)]
pub enum SelectionMode {
    /// The clicked entity becomes the whole selection.
    Replace,
    /// The clicked entity is toggled in or out of the selection.
    Add,
    /// The selection is extended up to the clicked entity.
    Extend,
}

/// The selection mode for the given modifier keys: control wins over shift,
/// shift alone extends, and no modifier replaces.
pub open spec fn mode_for(ctrl: bool, shift: bool) -> SelectionMode {
    if ctrl {
        SelectionMode::Add
    } else if shift {
        SelectionMode::Extend
    } else {
        SelectionMode::Replace
    }
}

impl SelectionMode {
    /// Classifies the modifier-key state (either control key, either shift key).
    pub fn from_ctrl_shift(ctrl: bool, shift: bool) -> (r: SelectionMode)
        ensures
            r == mode_for(ctrl, shift),
    {
        if ctrl {
            SelectionMode::Add
        } else if shift {
            SelectionMode::Extend
        } else {
            SelectionMode::Replace
        }
    }
}

/// The modifier-key truth table: none replaces, control alone adds, shift
/// alone extends, and control with shift adds.
pub proof fn lemma_mode_table(ctrl: bool, shift: bool)
    ensures
        !ctrl && !shift ==> mode_for(ctrl, shift) == SelectionMode::Replace,
        ctrl && !shift ==> mode_for(ctrl, shift) == SelectionMode::Add,
        !ctrl && shift ==> mode_for(ctrl, shift) == SelectionMode::Extend,
        ctrl && shift ==> mode_for(ctrl, shift) == SelectionMode::Add,
{
}

} // verus!
