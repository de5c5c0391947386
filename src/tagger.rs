use vstd::prelude::*;

use crate::entity::Entity;

verus! {

/// How a mesh's vertices are assembled into primitives.
#[derive(Clone, Copy, Debug, PartialEq, Eq, Structural)]
pub enum PrimitiveTopology {
    PointList,
    LineList,
    LineStrip,
    TriangleList,
    TriangleStrip,
}

/// The mesh an entity refers to, as far as the asset store can tell.
#[derive(Clone, Copy, Debug, PartialEq, Eq, Structural)]
pub enum MeshSlot {
    /// The entity has no mesh handle.
    NoMesh,
    /// The entity has a mesh handle whose asset has not finished loading.
    Pending,
    /// The entity's mesh is loaded, with this topology.
    Loaded(PrimitiveTopology),
}

/// The components of an entity that the tagger reads or inserts.
#[derive(Clone, Copy, Debug, PartialEq, Eq, Structural)]
pub struct SceneEntity {
    pub entity: Entity,
    /// Carries the pickable marker (with the default interaction components).
    pub pickable: bool,
    /// Carries the highlight tint descriptor.
    pub highlight: bool,
    /// Carries the hook that forwards pointer clicks as click events.
    pub forwards_clicks: bool,
    /// Carries the opt-out marker.
    pub no_editor_picking: bool,
    pub mesh: MeshSlot,
}

/// An entity that the tagger's query still finds: neither pickable nor opted out.
pub open spec fn awaits_tagging(e: SceneEntity) -> bool {
    !e.pickable && !e.no_editor_picking
}

/// An entity that a pass tags: it awaits tagging and its mesh is a loaded
/// triangle list.
pub open spec fn is_taggable(e: SceneEntity) -> bool {
    awaits_tagging(e) && e.mesh == MeshSlot::Loaded(PrimitiveTopology::TriangleList)
}

/// An entity as one pass leaves it.
pub open spec fn after_pass(e: SceneEntity) -> SceneEntity {
    if is_taggable(e) {
        SceneEntity { pickable: true, highlight: true, forwards_clicks: true, ..e }
    } else {
        e
    }
}

/// A scene as one pass leaves it.
pub open spec fn tagging_pass(s: Seq<SceneEntity>) -> Seq<SceneEntity> {
    s.map_values(|e: SceneEntity| after_pass(e))
}

/// The entities that one pass tags, in scene order.
pub open spec fn tag_targets(s: Seq<SceneEntity>) -> Seq<Entity>
    decreases s.len(),
{
    if s.len() == 0 {
        Seq::empty()
    } else {
        let rest = tag_targets(s.drop_last());
        if is_taggable(s.last()) {
            rest.push(s.last().entity)
        } else {
            rest
        }
    }
}

/// Whether some entity is neither pickable nor opted out: the cheap check
/// that gates the tagging pass.
pub fn requires_add_pickable(scene: &Vec<SceneEntity>) -> (r: bool)
    ensures
        r == exists|i: int| 0 <= i < scene@.len() && awaits_tagging(#[trigger] scene@[i]),
{
    let mut i: usize = 0;
    while i < scene.len()
        invariant
            i <= scene@.len(),
            forall|j: int| 0 <= j < i ==> !awaits_tagging(#[trigger] scene@[j]),
        decreases scene@.len() - i,
    {
        if !scene[i].pickable && !scene[i].no_editor_picking {
            return true;
        }
        i = i + 1;
    }
    false
}

/// One tagging pass: every entity that is neither pickable nor opted out and
/// whose mesh is a loaded triangle list gets the pickable marker, the highlight
/// descriptor and the click hook. Other entities are left as they are; one
/// whose mesh is still loading is looked at again by a later pass. Returns the
/// entities tagged, in scene order.
pub fn auto_add_editor_picking_set(scene: &mut Vec<SceneEntity>) -> (tagged: Vec<Entity>)
    ensures
        final(scene)@ == tagging_pass(old(scene)@),
        tagged@ == tag_targets(old(scene)@),
        forall|i: int|
            0 <= i < old(scene)@.len() && (#[trigger] old(scene)@[i]).no_editor_picking
                ==> final(scene)@[i] == old(scene)@[i],
        forall|i: int|
            0 <= i < old(scene)@.len() && (#[trigger] old(scene)@[i]).mesh != MeshSlot::Loaded(
                PrimitiveTopology::TriangleList,
            ) ==> final(scene)@[i] == old(scene)@[i],
{
    let mut tagged: Vec<Entity> = Vec::new();
    let n: usize = scene.len();
    let mut i: usize = 0;
    while i < n
        invariant
            n == scene@.len(),
            n == old(scene)@.len(),
            i <= n,
            forall|j: int| 0 <= j < i ==> scene@[j] == after_pass(#[trigger] old(scene)@[j]),
            forall|j: int| i <= j < n ==> scene@[j] == #[trigger] old(scene)@[j],
            tagged@ == tag_targets(old(scene)@.subrange(0, i as int)),
        decreases n - i,
    {
        let e = scene[i];
        assert(old(scene)@.subrange(0, i + 1).drop_last() == old(scene)@.subrange(0, i as int));
        let triangles = match e.mesh {
            MeshSlot::Loaded(PrimitiveTopology::TriangleList) => true,
            _ => false,
        };
        if !e.pickable && !e.no_editor_picking && triangles {
            scene.set(i, SceneEntity { pickable: true, highlight: true, forwards_clicks: true, ..e });
            tagged.push(e.entity);
        }
        i = i + 1;
    }
    assert(old(scene)@.subrange(0, n as int) == old(scene)@);
    assert(scene@ == tagging_pass(old(scene)@));
    tagged
}

proof fn lemma_no_targets(s: Seq<SceneEntity>)
    requires
        forall|i: int| 0 <= i < s.len() ==> !is_taggable(#[trigger] s[i]),
    ensures
        tag_targets(s) == Seq::<Entity>::empty(),
    decreases s.len(),
{
    if s.len() > 0 {
        let r = s.drop_last();
        assert forall|i: int| 0 <= i < r.len() implies !is_taggable(#[trigger] r[i]) by {
            assert(r[i] == s[i]);
        }
        lemma_no_targets(r);
    }
}

/// Without an entity that awaits tagging, the scene is a fixed point of
/// the tagging pass and no entity is tagged.
pub proof fn lemma_gate_sound(s: Seq<SceneEntity>)
    requires
        !exists|i: int| 0 <= i < s.len() && awaits_tagging(#[trigger] s[i]),
    ensures
        tagging_pass(s) == s,
        tag_targets(s) == Seq::<Entity>::empty(),
{
    assert forall|i: int| 0 <= i < s.len() implies !is_taggable(#[trigger] s[i]) by {
        assert(!awaits_tagging(s[i]));
    }
    lemma_no_targets(s);
    assert(tagging_pass(s) =~= s);
}

/// A second pass over a scene that the first pass left unchanged tags no
/// entity and changes nothing.
pub proof fn lemma_tagging_idempotent(s: Seq<SceneEntity>)
    ensures
        tag_targets(tagging_pass(s)) == Seq::<Entity>::empty(),
        tagging_pass(tagging_pass(s)) == tagging_pass(s),
{
    let t = tagging_pass(s);
    assert forall|i: int| 0 <= i < t.len() implies !is_taggable(#[trigger] t[i]) by {
        assert(t[i] == after_pass(s[i]));
    }
    lemma_no_targets(t);
    assert(tagging_pass(t) =~= t);
}

/// A pass leaves an opted-out entity exactly as it was, whatever its mesh:
/// it never becomes pickable through the tagger.
pub proof fn lemma_opt_out_respected(s: Seq<SceneEntity>, i: int)
    requires
        0 <= i < s.len(),
        s[i].no_editor_picking,
    ensures
        tagging_pass(s)[i] == s[i],
        !s[i].pickable ==> !tagging_pass(s)[i].pickable,
{
}

/// A pass leaves an entity whose mesh is loaded with any topology but a
/// triangle list exactly as it was: the tagger never makes it pickable.
pub proof fn lemma_topology_filter(s: Seq<SceneEntity>, i: int, t: PrimitiveTopology)
    requires
        0 <= i < s.len(),
        s[i].mesh == MeshSlot::Loaded(t),
        t != PrimitiveTopology::TriangleList,
    ensures
        tagging_pass(s)[i] == s[i],
        !s[i].pickable ==> !tagging_pass(s)[i].pickable,
{
}

} // verus!
