//! The popup's controller: a queue of pending actions, filled when a watched
//! property changes and drained once layout has settled.
use vstd::prelude::*;

use crate::geometry::{coord_ok, lemma_constrained_in_range, Alignment, Rect, SizeConstraint};
use crate::popup::{
    compute_bounds, popup_bounds, resolve_target, resolved_target, target_ok, widgets_wf,
    PopupTarget, RelativePosition, WidgetGeometry,
};

verus! {

/// Whether a widget is drawn and whether it takes part in layout.
#[derive(Clone, Copy, Debug, PartialEq, Eq, Structural)]
pub enum Visibility {
    Visible,
    Hidden,
    Collapsed,
}

/// Work queued for the next settled layout.
#[derive(Clone, Copy, Debug, PartialEq, Eq, Structural)]
pub enum PopupAction {
    UpdatePosition,
    UpdateVisibility,
}

/// The popup properties whose changes the controller reacts to.
#[derive(Clone, Copy, Debug, PartialEq, Eq, Structural)]
pub enum WatchedProperty {
    RelativePosition,
    Target,
    Visibility,
    VAlign,
    HAlign,
}

/// The popup's properties as the host holds them.
#[derive(Clone, Copy, Debug, PartialEq, Eq, Structural)]
pub struct PopupProps {
    pub target: Option<PopupTarget>,
    pub bounds: Rect,
    pub constraint: SizeConstraint,
    pub relative_position: RelativePosition,
    pub h_align: Alignment,
    pub v_align: Alignment,
    pub visibility: Visibility,
}

impl PopupProps {
    /// Every value that the positioning engine reads is accepted.
    pub open spec fn wf(self) -> bool {
        &&& (self.target matches Some(t) ==> target_ok(t))
        &&& self.bounds.size_ok()
        &&& self.constraint.wf()
        &&& coord_ok(self.relative_position.distance() as int)
    }
}

/// The target is set and names a point or a widget of the arena.
pub open spec fn resolves(target: Option<PopupTarget>, widgets: Seq<WidgetGeometry>) -> bool {
    match target {
        Some(PopupTarget::Entity(e)) => (e as int) < widgets.len(),
        Some(PopupTarget::Point(_)) => true,
        None => false,
    }
}

/// The popup's new rectangle, where its target resolves.
pub open spec fn repositioned(p: PopupProps, widgets: Seq<WidgetGeometry>) -> Option<Rect> {
    match p.target {
        Some(t) => match resolved_target(t, p.bounds, widgets) {
            Some(tr) => Some(
                popup_bounds(tr, p.bounds, p.constraint, p.relative_position, p.h_align, p.v_align),
            ),
            None => None,
        },
        None => None,
    }
}

/// The properties after one action: a repositioning replaces the bounds
/// where the target resolves; a visibility update turns Hidden into
/// Collapsed and leaves any other visibility as it is.
pub open spec fn apply_action(p: PopupProps, widgets: Seq<WidgetGeometry>, a: PopupAction) -> PopupProps {
    match a {
        PopupAction::UpdatePosition => match repositioned(p, widgets) {
            Some(r) => PopupProps { bounds: r, ..p },
            None => p,
        },
        PopupAction::UpdateVisibility => if p.visibility == Visibility::Hidden {
            PopupProps { visibility: Visibility::Collapsed, ..p }
        } else {
            p
        },
    }
}

/// The properties after the actions, taken in order.
pub open spec fn apply_actions(
    p: PopupProps,
    widgets: Seq<WidgetGeometry>,
    actions: Seq<PopupAction>,
) -> PopupProps
    decreases actions.len(),
{
    if actions.len() == 0 {
        p
    } else {
        apply_action(apply_actions(p, widgets, actions.drop_last()), widgets, actions.last())
    }
}

/// What a settled layout writes back to the host: the popup's bounds, once,
/// and its visibility, each only where it is to be written.
#[derive(Clone, Copy, Debug, PartialEq, Eq, Structural)]
pub struct SettleOutcome {
    pub bounds: Option<Rect>,
    pub visibility: Option<Visibility>,
}

/// The outcome of draining `actions`: the bounds after all of them where one
/// repositions and the target resolves, and Collapsed where one updates the
/// visibility of a hidden popup.
pub open spec fn settle_outcome(
    p: PopupProps,
    widgets: Seq<WidgetGeometry>,
    actions: Seq<PopupAction>,
) -> SettleOutcome {
    SettleOutcome {
        bounds: if actions.contains(PopupAction::UpdatePosition) && resolves(p.target, widgets) {
            Some(apply_actions(p, widgets, actions).bounds)
        } else {
            None
        },
        visibility: if actions.contains(PopupAction::UpdateVisibility) && p.visibility
            == Visibility::Hidden {
            Some(Visibility::Collapsed)
        } else {
            None
        },
    }
}

/// Repositioning keeps the properties accepted and resolves as `resolves`
/// says.
pub proof fn lemma_repositioned_wf(p: PopupProps, widgets: Seq<WidgetGeometry>)
    requires
        p.wf(),
        widgets_wf(widgets),
    ensures
        repositioned(p, widgets) is Some <==> resolves(p.target, widgets),
        repositioned(p, widgets) matches Some(r) ==> r.size_ok(),
{
    if let Some(PopupTarget::Entity(e)) = p.target {
        if (e as int) < widgets.len() {
            assert(widgets[e as int].wf());
        }
    }
    lemma_constrained_in_range(p.constraint, p.bounds.width as int, p.bounds.height as int);
    match p.target {
        Some(t) => {
            match resolved_target(t, p.bounds, widgets) {
                Some(tr) => {
                    lemma_constrained_in_range(p.constraint, tr.width as int, tr.height as int);
                },
                None => {},
            }
        },
        None => {},
    }
}

/// After a run of actions the visibility is Collapsed where the popup was
/// hidden and one of them updates the visibility, and otherwise as it was.
pub proof fn lemma_visibility_after(
    p: PopupProps,
    widgets: Seq<WidgetGeometry>,
    actions: Seq<PopupAction>,
)
    ensures
        apply_actions(p, widgets, actions).visibility == (if actions.contains(
            PopupAction::UpdateVisibility,
        ) && p.visibility == Visibility::Hidden {
            Visibility::Collapsed
        } else {
            p.visibility
        }),
    decreases actions.len(),
{
    if actions.len() > 0 {
        let before = actions.drop_last();
        lemma_visibility_after(p, widgets, before);
        let a = PopupAction::UpdateVisibility;
        if actions.contains(a) && actions.last() != a {
            let j = choose|j: int| 0 <= j < actions.len() && actions[j] == a;
            assert(before[j] == a);
        }
        if before.contains(a) {
            let j = choose|j: int| 0 <= j < before.len() && before[j] == a;
            assert(actions[j] == a);
        }
        assert(actions[actions.len() - 1] == actions.last());
    }
}

/// A hidden popup whose queue holds a visibility update is Collapsed after
/// the settled layout, and that is written back; a visible one stays
/// visible, and nothing is written.
pub proof fn lemma_visibility_latch(
    p: PopupProps,
    widgets: Seq<WidgetGeometry>,
    actions: Seq<PopupAction>,
)
    requires
        actions.contains(PopupAction::UpdateVisibility),
    ensures
        p.visibility == Visibility::Hidden ==> apply_actions(p, widgets, actions).visibility
            == Visibility::Collapsed && settle_outcome(p, widgets, actions).visibility == Some(
            Visibility::Collapsed,
        ),
        p.visibility == Visibility::Visible ==> apply_actions(p, widgets, actions).visibility
            == Visibility::Visible && settle_outcome(p, widgets, actions).visibility == (None::<
            Visibility>),
{
    lemma_visibility_after(p, widgets, actions);
}

/// Three queued repositionings give one write of the popup's bounds: the
/// value after the last of them.
pub proof fn lemma_repositions_write_once(p: PopupProps, widgets: Seq<WidgetGeometry>)
    requires
        resolves(p.target, widgets),
    ensures
        ({
            let up = PopupAction::UpdatePosition;
            let last = apply_action(apply_action(apply_action(p, widgets, up), widgets, up), widgets, up);
            settle_outcome(p, widgets, seq![up, up, up]) == (SettleOutcome {
                bounds: Some(last.bounds),
                visibility: None,
            })
        }),
{
    let up = PopupAction::UpdatePosition;
    let s1 = seq![up];
    let s2 = seq![up, up];
    let s3 = seq![up, up, up];
    assert(s1.drop_last() =~= Seq::<PopupAction>::empty());
    assert(s2.drop_last() =~= s1);
    assert(s3.drop_last() =~= s2);
    assert(s1.last() == up && s2.last() == up && s3.last() == up);
    assert(apply_actions(p, widgets, Seq::<PopupAction>::empty()) == p);
    assert(apply_actions(p, widgets, s1) == apply_action(p, widgets, up));
    assert(apply_actions(p, widgets, s2) == apply_action(apply_actions(p, widgets, s1), widgets, up));
    assert(apply_actions(p, widgets, s3) == apply_action(apply_actions(p, widgets, s2), widgets, up));
    assert(s3[0] == up);
    if s3.contains(PopupAction::UpdateVisibility) {
        let j = choose|j: int| 0 <= j < s3.len() && s3[j] == PopupAction::UpdateVisibility;
        assert(s3[j] == up);
    }
}

/// The controller of one popup: the actions that wait for the next settled
/// layout, in the order they were queued.
pub struct PopupState {
    actions: Vec<PopupAction>,
}

impl View for PopupState {
    type V = Seq<PopupAction>;

    closed spec fn view(&self) -> Seq<PopupAction> {
        self.actions@
    }
}

impl Default for PopupState {
    fn default() -> (r: PopupState)
        ensures
            r@ == Seq::<PopupAction>::empty(),
    {
        PopupState::new()
    }
}

impl PopupState {
    /// A controller with nothing queued.
    pub fn new() -> (r: PopupState)
        ensures
            r@ == Seq::<PopupAction>::empty(),
    {
        PopupState { actions: Vec::new() }
    }

    /// The actions queued so far, oldest first.
    pub fn pending(&self) -> (r: &Vec<PopupAction>)
        ensures
            r@ == self@,
    {
        &self.actions
    }

    /// Queues a repositioning.
    pub fn update_position(&mut self)
        ensures
            final(self)@ == old(self)@.push(PopupAction::UpdatePosition),
    {
        self.actions.push(PopupAction::UpdatePosition);
    }

    /// Queues a visibility update.
    pub fn update_visibility(&mut self)
        ensures
            final(self)@ == old(self)@.push(PopupAction::UpdateVisibility),
    {
        self.actions.push(PopupAction::UpdateVisibility);
    }

    /// A new popup is positioned at the first settled layout.
    pub fn init(&mut self)
        ensures
            final(self)@ == old(self)@.push(PopupAction::UpdatePosition),
    {
        self.update_position();
    }

    /// Reacts to a change of a watched property: a change of visibility
    /// queues a visibility update, any other a repositioning.
    pub fn on_changed(&mut self, property: WatchedProperty)
        ensures
            final(self)@ == old(self)@.push(
                if property == WatchedProperty::Visibility {
                    PopupAction::UpdateVisibility
                } else {
                    PopupAction::UpdatePosition
                },
            ),
    {
        match property {
            WatchedProperty::Visibility => self.update_visibility(),
            _ => self.update_position(),
        }
    }

    /// The popup's new rectangle from its current properties and the
    /// arena's geometry; `None` where the target does not resolve, and the
    /// popup keeps its bounds.
    pub fn update_position_internal(popup: &PopupProps, widgets: &Vec<WidgetGeometry>) -> (r:
        Option<Rect>)
        requires
            popup.wf(),
            widgets_wf(widgets@),
        ensures
            r == repositioned(*popup, widgets@),
    {
        match &popup.target {
            Some(target) => match resolve_target(target, &popup.bounds, widgets) {
                Some(target_bounds) => Some(
                    compute_bounds(
                        &target_bounds,
                        &popup.bounds,
                        &popup.constraint,
                        popup.relative_position,
                        popup.h_align,
                        popup.v_align,
                    ),
                ),
                None => None,
            },
            None => None,
        }
    }

    /// Drains the queue once layout has settled. The actions are taken in
    /// order on a copy of the properties; the bounds that result are
    /// written back once, where an action repositions and the target
    /// resolves, and a hidden popup that an action updates becomes
    /// Collapsed.
    pub fn update_post_layout(&mut self, popup: &PopupProps, widgets: &Vec<WidgetGeometry>) -> (r:
        SettleOutcome)
        requires
            popup.wf(),
            widgets_wf(widgets@),
        ensures
            final(self)@ == Seq::<PopupAction>::empty(),
            r == settle_outcome(*popup, widgets@, old(self)@),
    {
        let mut actions: Vec<PopupAction> = Vec::new();
        std::mem::swap(&mut actions, &mut self.actions);
        let ghost queued = actions@;
        let mut cur: PopupProps = *popup;
        let mut moved = false;
        let mut collapsed = false;
        let n = actions.len();
        let mut i: usize = 0;
        while i < n
            invariant
                n == actions.len(),
                actions@ == queued,
                i <= n,
                popup.wf(),
                widgets_wf(widgets@),
                cur.wf(),
                cur.target == popup.target,
                cur.visibility == (if collapsed {
                    Visibility::Collapsed
                } else {
                    popup.visibility
                }),
                cur == apply_actions(*popup, widgets@, queued.subrange(0, i as int)),
                moved == (queued.subrange(0, i as int).contains(PopupAction::UpdatePosition)
                    && resolves(popup.target, widgets@)),
                collapsed == (queued.subrange(0, i as int).contains(PopupAction::UpdateVisibility)
                    && popup.visibility == Visibility::Hidden),
            decreases n - i,
        {
            let ghost before = queued.subrange(0, i as int);
            let ghost after = queued.subrange(0, i + 1);
            assert(after.drop_last() =~= before);
            assert(after.last() == queued[i as int]);
            assert(after.contains(queued[i as int]));
            assert forall|a: PopupAction| #[trigger] after.contains(a) <==> (before.contains(a) || a
                == queued[i as int]) by {
                if after.contains(a) && a != queued[i as int] {
                    let j = choose|j: int| 0 <= j < after.len() && after[j] == a;
                    assert(before[j] == a);
                }
                if before.contains(a) {
                    let j = choose|j: int| 0 <= j < before.len() && before[j] == a;
                    assert(after[j] == a);
                }
            }
            proof {
                lemma_repositioned_wf(cur, widgets@);
            }
            match actions[i] {
                PopupAction::UpdatePosition => {
                    match PopupState::update_position_internal(&cur, widgets) {
                        Some(bounds) => {
                            cur.bounds = bounds;
                            moved = true;
                        },
                        None => {},
                    }
                },
                PopupAction::UpdateVisibility => {
                    if cur.visibility == Visibility::Hidden {
                        cur.visibility = Visibility::Collapsed;
                        collapsed = true;
                    }
                },
            }
            i = i + 1;
        }
        assert(queued.subrange(0, n as int) =~= queued);
        SettleOutcome {
            bounds: if moved {
                Some(cur.bounds)
            } else {
                None
            },
            visibility: if collapsed {
                Some(Visibility::Collapsed)
            } else {
                None
            },
        }
    }
}

} // verus!
