//! Shared vocabulary for keyboard navigation: the commands every level of
//! the view hierarchy understands, and the events a level reports back to
//! its parent.

use vstd::prelude::*;

use crate::model::ItemView;
use crate::model::SpotItem;

verus! {

/// A directional navigation command, or a request to drop the cursor.
#[derive(Clone, Copy, Debug, PartialEq, Eq, Structural)]
pub enum NavCommand {
    Up,
    Down,
    Left,
    Right,
    ClearCursor,
}

/// An event reported by a child view to its parent: either the cursor
/// tried to leave the child's bounds in some direction, or the cursor
/// settled on an item.
#[derive(Debug, PartialEq)]
pub enum NavOutput {
    EscapedUp,
    EscapedDown,
    EscapedLeft,
    EscapedRight,
    CursorIsNowAt(SpotItem),
}

/// Mathematical value of a [`NavOutput`].
#[verifier::ext_equal]
pub enum NavOutputView {
    EscapedUp,
    EscapedDown,
    EscapedLeft,
    EscapedRight,
    CursorIsNowAt(ItemView),
}

impl View for NavOutput {
    type V = NavOutputView;

    open spec fn view(&self) -> NavOutputView {
        match self {
            NavOutput::EscapedUp => NavOutputView::EscapedUp,
            NavOutput::EscapedDown => NavOutputView::EscapedDown,
            NavOutput::EscapedLeft => NavOutputView::EscapedLeft,
            NavOutput::EscapedRight => NavOutputView::EscapedRight,
            NavOutput::CursorIsNowAt(it) => NavOutputView::CursorIsNowAt(it@),
        }
    }
}

impl DeepView for NavOutput {
    type V = NavOutputView;

    open spec fn deep_view(&self) -> NavOutputView {
        self.view()
    }
}

/// The outcome of a single cursor move inside one list.
///
/// `NoOp` only happens on an empty list; `Escaped*` report that the move
/// left the list's bounds, in the direction matching the sign of the move.
#[derive(Clone, Copy, Debug, PartialEq, Eq, Structural)]
pub enum MoveResult {
    NoOp,
    MovedTo(usize),
    EscapedBack,
    EscapedForward,
}

impl NavCommand {
    /// The cursor delta a directional command stands for: -1 toward the
    /// start of a list, +1 toward its end.
    pub open spec fn spec_delta(self) -> int {
        match self {
            NavCommand::Up => -1,
            NavCommand::Left => -1,
            NavCommand::Down => 1,
            NavCommand::Right => 1,
            NavCommand::ClearCursor => 0,
        }
    }

    /// Exec counterpart of [`Self::spec_delta`].
    pub fn delta(self) -> (d: i32)
        ensures
            d == self.spec_delta(),
    {
        match self {
            NavCommand::Up => -1,
            NavCommand::Left => -1,
            NavCommand::Down => 1,
            NavCommand::Right => 1,
            NavCommand::ClearCursor => 0,
        }
    }

    /// The command that undoes this command's direction. Used by the view
    /// stack to bounce an escape at the outermost page back into it.
    pub open spec fn spec_mirror(self) -> NavCommand {
        match self {
            NavCommand::Up => NavCommand::Down,
            NavCommand::Down => NavCommand::Up,
            NavCommand::Left => NavCommand::Right,
            NavCommand::Right => NavCommand::Left,
            NavCommand::ClearCursor => NavCommand::ClearCursor,
        }
    }

    /// Exec counterpart of [`Self::spec_mirror`].
    pub fn mirror(self) -> (m: NavCommand)
        ensures
            m == self.spec_mirror(),
    {
        match self {
            NavCommand::Up => NavCommand::Down,
            NavCommand::Down => NavCommand::Up,
            NavCommand::Left => NavCommand::Right,
            NavCommand::Right => NavCommand::Left,
            NavCommand::ClearCursor => NavCommand::ClearCursor,
        }
    }
}

} // verus!
