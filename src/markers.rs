use vstd::prelude::*;

verus! {

/// The set of picking behaviours that the editor adds to scene meshes.
#[derive(Clone, Copy, Debug, PartialEq, Eq, Structural)]
pub struct EditorPickingSet;

/// Prevents the entity from being selectable in the editor window.
#[derive(Clone, Copy, Debug, Default, PartialEq, Eq, Structural)]
pub struct NoEditorPicking;

} // verus!
