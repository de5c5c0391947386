use editor_picking::dispatch::decide_click;
use editor_picking::{
    auto_add_editor_picking_set, handle_events, requires_add_pickable, ClickDecision, Entity,
    MeshSlot, PointerButton, PointerClick, PrimitiveTopology, QueuedClick, SceneEntity,
    SelectCall, SelectionMode,
};

fn mesh_entity(bits: u64, mesh: MeshSlot) -> SceneEntity {
    SceneEntity {
        entity: Entity::from_bits(bits),
        pickable: false,
        highlight: false,
        forwards_clicks: false,
        no_editor_picking: false,
        mesh,
    }
}

fn triangles(bits: u64) -> SceneEntity {
    mesh_entity(bits, MeshSlot::Loaded(PrimitiveTopology::TriangleList))
}

fn click(bits: u64, button: PointerButton) -> QueuedClick {
    QueuedClick {
        click: PointerClick { target: Entity::from_bits(bits), button },
        editor_active: true,
        in_viewport: true,
        wants_pointer_input: false,
        ctrl: false,
        shift: false,
    }
}

fn select(mode: SelectionMode, bits: u64) -> SelectCall {
    SelectCall { mode, entity: Entity::from_bits(bits) }
}

#[test]
fn tagging_a_triangle_mesh() {
    let mut scene = vec![triangles(7)];
    assert!(requires_add_pickable(&scene));
    let tagged = auto_add_editor_picking_set(&mut scene);
    assert_eq!(tagged, vec![Entity::from_bits(7)]);
    assert!(scene[0].pickable);
    assert!(scene[0].highlight);
    assert!(scene[0].forwards_clicks);
    assert!(!requires_add_pickable(&scene));
}

#[test]
fn second_pass_tags_nothing() {
    let mut scene = vec![
        triangles(1),
        mesh_entity(2, MeshSlot::Pending),
        triangles(3),
        mesh_entity(4, MeshSlot::Loaded(PrimitiveTopology::LineStrip)),
    ];
    let first = auto_add_editor_picking_set(&mut scene);
    assert_eq!(first, vec![Entity::from_bits(1), Entity::from_bits(3)]);
    let after_first = scene.clone();
    let second = auto_add_editor_picking_set(&mut scene);
    assert!(second.is_empty());
    assert_eq!(scene, after_first);
}

#[test]
fn opted_out_entities_stay_untagged() {
    let mut opted = triangles(5);
    opted.no_editor_picking = true;
    let mut scene = vec![opted, triangles(6)];
    let tagged = auto_add_editor_picking_set(&mut scene);
    assert_eq!(tagged, vec![Entity::from_bits(6)]);
    assert_eq!(scene[0], opted);
    assert!(!scene[0].pickable);
}

#[test]
fn gate_ignores_opted_out_and_pickable_entities() {
    let mut opted = mesh_entity(1, MeshSlot::NoMesh);
    opted.no_editor_picking = true;
    let mut done = triangles(2);
    done.pickable = true;
    assert!(!requires_add_pickable(&vec![opted, done]));
    assert!(requires_add_pickable(&vec![opted, mesh_entity(3, MeshSlot::NoMesh)]));
    assert!(!requires_add_pickable(&Vec::new()));
}

#[test]
fn non_triangle_meshes_stay_untagged() {
    let topologies = [
        PrimitiveTopology::PointList,
        PrimitiveTopology::LineList,
        PrimitiveTopology::LineStrip,
        PrimitiveTopology::TriangleStrip,
    ];
    for t in topologies {
        let before = mesh_entity(9, MeshSlot::Loaded(t));
        let mut scene = vec![before];
        let tagged = auto_add_editor_picking_set(&mut scene);
        assert!(tagged.is_empty());
        assert_eq!(scene[0], before);
    }
}

#[test]
fn pending_mesh_is_tagged_once_loaded() {
    let mut scene = vec![mesh_entity(4, MeshSlot::Pending), mesh_entity(5, MeshSlot::NoMesh)];
    assert!(auto_add_editor_picking_set(&mut scene).is_empty());
    assert!(requires_add_pickable(&scene));
    scene[0].mesh = MeshSlot::Loaded(PrimitiveTopology::TriangleList);
    assert_eq!(auto_add_editor_picking_set(&mut scene), vec![Entity::from_bits(4)]);
    assert!(!scene[1].pickable);
}

#[test]
fn one_primary_click_replaces_selection() {
    let mut queue = vec![click(42, PointerButton::Primary)];
    let calls = handle_events(&mut queue);
    assert_eq!(calls, vec![select(SelectionMode::Replace, 42)]);
    assert!(queue.is_empty());
}

#[test]
fn inactive_first_click_selects_nothing() {
    let mut first = click(1, PointerButton::Primary);
    first.editor_active = false;
    let mut queue = vec![first, click(2, PointerButton::Primary)];
    let calls = handle_events(&mut queue);
    assert!(calls.is_empty());
    assert!(queue.is_empty());
}

#[test]
fn inactive_click_drops_rest_of_batch() {
    let mut second = click(2, PointerButton::Primary);
    second.editor_active = false;
    let mut queue = vec![
        click(1, PointerButton::Primary),
        second,
        click(3, PointerButton::Primary),
        click(4, PointerButton::Primary),
    ];
    let calls = handle_events(&mut queue);
    assert_eq!(calls, vec![select(SelectionMode::Replace, 1)]);
    assert!(queue.is_empty());
    assert!(handle_events(&mut queue).is_empty());
}

#[test]
fn empty_queue_selects_nothing() {
    let mut queue: Vec<QueuedClick> = Vec::new();
    assert!(handle_events(&mut queue).is_empty());
}

#[test]
fn non_primary_buttons_never_select() {
    for button in [PointerButton::Secondary, PointerButton::Middle] {
        for in_viewport in [false, true] {
            for wants in [false, true] {
                let mut q = click(8, button);
                q.in_viewport = in_viewport;
                q.wants_pointer_input = wants;
                assert_eq!(decide_click(&q), ClickDecision::Skip);
            }
        }
    }
    let mut queue = vec![
        click(1, PointerButton::Secondary),
        click(2, PointerButton::Primary),
        click(3, PointerButton::Middle),
    ];
    assert_eq!(handle_events(&mut queue), vec![select(SelectionMode::Replace, 2)]);
}

#[test]
fn viewport_and_gui_gate() {
    let mut outside_captured = click(1, PointerButton::Primary);
    outside_captured.in_viewport = false;
    outside_captured.wants_pointer_input = true;
    assert_eq!(decide_click(&outside_captured), ClickDecision::Skip);

    let mut outside_free = click(2, PointerButton::Primary);
    outside_free.in_viewport = false;
    assert_eq!(
        decide_click(&outside_free),
        ClickDecision::Select(select(SelectionMode::Replace, 2))
    );

    let mut inside_captured = click(3, PointerButton::Primary);
    inside_captured.wants_pointer_input = true;
    assert_eq!(
        decide_click(&inside_captured),
        ClickDecision::Select(select(SelectionMode::Replace, 3))
    );

    let mut queue = vec![outside_captured, outside_free, inside_captured];
    assert_eq!(
        handle_events(&mut queue),
        vec![select(SelectionMode::Replace, 2), select(SelectionMode::Replace, 3)]
    );
}

#[test]
fn modifier_keys_pick_the_mode() {
    assert_eq!(SelectionMode::from_ctrl_shift(false, false), SelectionMode::Replace);
    assert_eq!(SelectionMode::from_ctrl_shift(true, false), SelectionMode::Add);
    assert_eq!(SelectionMode::from_ctrl_shift(false, true), SelectionMode::Extend);
    assert_eq!(SelectionMode::from_ctrl_shift(true, true), SelectionMode::Add);
}

#[test]
fn modifier_keys_reach_the_select_call() {
    let mut ctrl = click(1, PointerButton::Primary);
    ctrl.ctrl = true;
    let mut shift = click(2, PointerButton::Primary);
    shift.shift = true;
    let mut both = click(3, PointerButton::Primary);
    both.ctrl = true;
    both.shift = true;
    let mut queue = vec![ctrl, shift, both];
    assert_eq!(
        handle_events(&mut queue),
        vec![
            select(SelectionMode::Add, 1),
            select(SelectionMode::Extend, 2),
            select(SelectionMode::Add, 3),
        ]
    );
}

#[test]
fn inactive_editor_stops_before_other_checks() {
    let mut q = click(5, PointerButton::Secondary);
    q.editor_active = false;
    assert_eq!(decide_click(&q), ClickDecision::Stop);
}
