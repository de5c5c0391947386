//! Entity picking for an in-engine editor overlay: which scene meshes become
//! pickable, and which pointer clicks become selection requests.
pub mod dispatch;
pub mod entity;
pub mod markers;
pub mod selection;
pub mod tagger;

pub use dispatch::{handle_events, ClickDecision, PointerButton, PointerClick, QueuedClick, SelectCall};
pub use entity::Entity;
pub use selection::SelectionMode;
pub use tagger::{auto_add_editor_picking_set, requires_add_pickable, MeshSlot, PrimitiveTopology, SceneEntity};
pub use markers::{EditorPickingSet, NoEditorPicking};
