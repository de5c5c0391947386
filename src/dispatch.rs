use vstd::prelude::*;

use crate::entity::Entity;
use crate::selection::{mode_for, SelectionMode};

verus! {

/// The pointer button that produced a click.
#[derive(Clone, Copy, Debug, PartialEq, Eq, Structural)]
pub enum PointerButton {
    Primary,
    Secondary,
    Middle,
}

/// A click on a pickable entity: which entity, and with which button.
#[derive(Clone, Copy, Debug, PartialEq, Eq, Structural)]
pub struct PointerClick {
    pub target: Entity,
    pub button: PointerButton,
}

/// A queued click together with what the editor and the GUI overlay reported
/// when it was handled.
#[derive(Clone, Copy, Debug, PartialEq, Eq, Structural)]
pub struct QueuedClick {
    pub click: PointerClick,
    /// Whether the editor is active.
    pub editor_active: bool,
    /// Whether the click position lies in the editor's viewport rectangle.
    pub in_viewport: bool,
    /// Whether the GUI overlay wants pointer input.
    pub wants_pointer_input: bool,
    /// Whether either control key is held.
    pub ctrl: bool,
    /// Whether either shift key is held.
    pub shift: bool,
}

/// One call of the hierarchy selection's `select`, with the clicked entity as
/// both the representative and the only entity applied.
#[derive(Clone, Copy, Debug, PartialEq, Eq, Structural)]
pub struct SelectCall {
    pub mode: SelectionMode,
    pub entity: Entity,
}

/// What handling one click amounts to.
#[derive(Clone, Copy, Debug, PartialEq, Eq, Structural)]
pub enum ClickDecision {
    /// The editor is inactive: the rest of the batch is dropped.
    Stop,
    /// This click is ignored; handling goes on with the next one.
    Skip,
    /// The selection is updated.
    Select(SelectCall),
}

pub open spec fn decision_of(q: QueuedClick) -> ClickDecision {
    if !q.editor_active {
        ClickDecision::Stop
    } else if q.click.button != PointerButton::Primary {
        ClickDecision::Skip
    } else if !q.in_viewport && q.wants_pointer_input {
        ClickDecision::Skip
    } else {
        ClickDecision::Select(SelectCall { mode: mode_for(q.ctrl, q.shift), entity: q.click.target })
    }
}

/// The selection calls that a batch of clicks yields, in order: every click
/// is decided in turn, and the first click seen while the editor is inactive
/// ends the batch.
pub open spec fn selections_of(s: Seq<QueuedClick>) -> Seq<SelectCall>
    decreases s.len(),
{
    if s.len() == 0 {
        Seq::empty()
    } else {
        match decision_of(s[0]) {
            ClickDecision::Stop => Seq::empty(),
            ClickDecision::Skip => selections_of(s.drop_first()),
            ClickDecision::Select(c) => seq![c] + selections_of(s.drop_first()),
        }
    }
}

/// Decides one click from the state observed when it is handled.
pub fn decide_click(q: &QueuedClick) -> (r: ClickDecision)
    ensures
        r == decision_of(*q),
{
    if !q.editor_active {
        return ClickDecision::Stop;
    }
    if q.click.button != PointerButton::Primary {
        return ClickDecision::Skip;
    }
    if !q.in_viewport && q.wants_pointer_input {
        return ClickDecision::Skip;
    }
    let mode = SelectionMode::from_ctrl_shift(q.ctrl, q.shift);
    ClickDecision::Select(SelectCall { mode, entity: q.click.target })
}

/// Drains the click queue and returns the selection calls to make, in order.
/// The queue is empty afterwards, also where an inactive editor cut the batch
/// short.
pub fn handle_events(queue: &mut Vec<QueuedClick>) -> (calls: Vec<SelectCall>)
    ensures
        calls@ == selections_of(old(queue)@),
        final(queue)@ == Seq::<QueuedClick>::empty(),
{
    let mut calls: Vec<SelectCall> = Vec::new();
    let n: usize = queue.len();
    let mut i: usize = 0;
    assert(queue@.subrange(0, n as int) == queue@);
    assert(calls@ + selections_of(queue@) == selections_of(queue@));
    while i < n
        invariant
            n == queue@.len(),
            i <= n,
            queue@ == old(queue)@,
            calls@ + selections_of(queue@.subrange(i as int, n as int)) == selections_of(queue@),
        decreases n - i,
    {
        let rest = Ghost(queue@.subrange(i as int, n as int));
        assert(rest@.drop_first() == queue@.subrange(i + 1, n as int));
        match decide_click(&queue[i]) {
            ClickDecision::Stop => {
                assert(calls@ + Seq::<SelectCall>::empty() == calls@);
                queue.clear();
                return calls;
            },
            ClickDecision::Skip => {},
            ClickDecision::Select(c) => {
                let tail = Ghost(selections_of(queue@.subrange(i + 1, n as int)));
                assert(calls@ + (seq![c] + tail@) == calls@.push(c) + tail@);
                calls.push(c);
            },
        }
        i = i + 1;
    }
    assert(queue@.subrange(n as int, n as int) == Seq::<QueuedClick>::empty());
    assert(calls@ + Seq::<SelectCall>::empty() == calls@);
    queue.clear();
    calls
}

/// Once a click is handled while the editor is inactive, no click at or
/// after it yields a selection call: the batch is exactly what the clicks
/// before it yield.
pub proof fn lemma_inactive_ends_batch(s: Seq<QueuedClick>, k: int)
    requires
        0 <= k < s.len(),
        !s[k].editor_active,
    ensures
        selections_of(s) == selections_of(s.subrange(0, k)),
    decreases k,
{
    if k == 0 {
        assert(s.subrange(0, 0) == Seq::<QueuedClick>::empty());
    } else {
        let p = s.subrange(0, k);
        assert(p[0] == s[0]);
        assert(p.drop_first() == s.drop_first().subrange(0, k - 1));
        lemma_inactive_ends_batch(s.drop_first(), k - 1);
    }
}

/// A click with any button but the primary one never yields a selection
/// call, whatever the viewport and the GUI overlay report.
pub proof fn lemma_non_primary_never_selects(q: QueuedClick)
    requires
        q.click.button != PointerButton::Primary,
    ensures
        !(decision_of(q) is Select),
{
}

/// While the editor is active, a click with any button but the primary one
/// has no effect on the batch: dropping it from the queue leaves the
/// selection calls as they were.
pub proof fn lemma_non_primary_ignored_in_batch(s: Seq<QueuedClick>, i: int)
    requires
        0 <= i < s.len(),
        s[i].editor_active,
        s[i].click.button != PointerButton::Primary,
    ensures
        selections_of(s) == selections_of(s.remove(i)),
    decreases i,
{
    if i == 0 {
        assert(s.remove(0) == s.drop_first());
    } else {
        let r = s.remove(i);
        assert(r[0] == s[0]);
        assert(r.drop_first() == s.drop_first().remove(i - 1));
        lemma_non_primary_ignored_in_batch(s.drop_first(), i - 1);
    }
}

/// With the editor active, a primary click yields a selection call exactly
/// when it lies in the viewport or the GUI overlay does not want pointer
/// input: inside the viewport the overlay is not asked.
pub proof fn lemma_viewport_gate(q: QueuedClick)
    requires
        q.editor_active,
        q.click.button == PointerButton::Primary,
    ensures
        q.in_viewport ==> decision_of(q) is Select,
        !q.in_viewport ==> (decision_of(q) is Select <==> !q.wants_pointer_input),
        decision_of(q) is Select ==> decision_of(q) == ClickDecision::Select(
            SelectCall { mode: mode_for(q.ctrl, q.shift), entity: q.click.target },
        ),
{
}

} // verus!
