//! Decisions of a view that shows, hides and re-anchors one popup.
use vstd::prelude::*;

use crate::controller::Visibility;
use crate::popup::RelativePosition;

verus! {

/// What the view does to its popup at its next update.
#[derive(Clone, Copy, Debug, PartialEq, Eq, Structural)]
pub enum ViewAction {
    Show,
    Hide,
    UpdateRelativePosition,
}

impl ViewAction {
    /// The visibility that showing or hiding gives the popup.
    pub fn popup_visibility(self) -> (r: Option<Visibility>)
        ensures
            r == (match self {
                ViewAction::Show => Some(Visibility::Visible),
                ViewAction::Hide => Some(Visibility::Hidden),
                ViewAction::UpdateRelativePosition => None::<Visibility>,
            }),
    {
        match self {
            ViewAction::Show => Some(Visibility::Visible),
            ViewAction::Hide => Some(Visibility::Hidden),
            ViewAction::UpdateRelativePosition => None,
        }
    }
}

/// The side that a selection index names, keeping the distance: 0 is
/// Bottom, 1 Top, 2 Left and 3 Right; any other index names no side.
pub open spec fn side_for_index(rp: RelativePosition, index: int) -> Option<RelativePosition> {
    let d = rp.distance();
    if index == 0 {
        Some(RelativePosition::Bottom(d))
    } else if index == 1 {
        Some(RelativePosition::Top(d))
    } else if index == 2 {
        Some(RelativePosition::Left(d))
    } else if index == 3 {
        Some(RelativePosition::Right(d))
    } else {
        None
    }
}

impl RelativePosition {
    /// Moves to the side that a selection index names, keeping the
    /// distance; `None` for an index that names no side.
    pub fn with_side_index(self, index: usize) -> (r: Option<RelativePosition>)
        ensures
            r == side_for_index(self, index as int),
    {
        match index {
            0 => Some(self.to_bottom()),
            1 => Some(self.to_top()),
            2 => Some(self.to_left()),
            3 => Some(self.to_right()),
            _ => None,
        }
    }
}

/// The view's state: the action waiting for its next update, whether the
/// popup is to be shown, and the popup's handle once it exists.
pub struct MainViewState {
    pub action: Option<ViewAction>,
    pub show_popup: bool,
    pub popup: Option<u32>,
}

impl MainViewState {
    pub fn new() -> (r: MainViewState)
        ensures
            r.action is None,
            !r.show_popup,
            r.popup is None,
    {
        MainViewState { action: None, show_popup: false, popup: None }
    }

    /// Asks to hide a shown popup or to show a hidden one, and flips the
    /// flag.
    pub fn toggle_popup(&mut self)
        ensures
            final(self).action == Some(
                if old(self).show_popup {
                    ViewAction::Hide
                } else {
                    ViewAction::Show
                },
            ),
            final(self).show_popup == !old(self).show_popup,
            final(self).popup == old(self).popup,
    {
        if self.show_popup {
            self.action = Some(ViewAction::Hide);
        } else {
            self.action = Some(ViewAction::Show);
        }
        self.show_popup = !self.show_popup;
    }

    /// Asks to move the popup to the side selected in the view.
    pub fn update_relative_position(&mut self)
        ensures
            final(self).action == Some(ViewAction::UpdateRelativePosition),
            final(self).show_popup == old(self).show_popup,
            final(self).popup == old(self).popup,
    {
        self.action = Some(ViewAction::UpdateRelativePosition);
    }

    /// Records the popup that the view created; it starts shown.
    pub fn init(&mut self, popup: u32)
        ensures
            final(self).popup == Some(popup),
            final(self).show_popup,
            final(self).action == old(self).action,
    {
        self.popup = Some(popup);
        self.show_popup = true;
    }

    /// Takes the waiting action for the update that carries it out, where
    /// the popup exists; the action is cleared either way.
    pub fn take_action(&mut self) -> (r: Option<(ViewAction, u32)>)
        ensures
            r == (match (old(self).action, old(self).popup) {
                (Some(a), Some(p)) => Some((a, p)),
                _ => None::<(ViewAction, u32)>,
            }),
            final(self).action is None,
            final(self).show_popup == old(self).show_popup,
            final(self).popup == old(self).popup,
    {
        let r = match (self.action, self.popup) {
            (Some(a), Some(p)) => Some((a, p)),
            _ => None,
        };
        self.action = None;
        r
    }
}

} // verus!
