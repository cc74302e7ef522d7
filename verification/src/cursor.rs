//! Keeping the local cursor's visibility in step with remote input.

use vstd::prelude::*;

verus! {

/// A request passes when nothing was passed yet or it differs from what was.
pub open spec fn passes(shown: Option<bool>, visible: bool) -> bool {
    shown != Some(visible)
}

/// Passes a visibility request on only when it changes the state; the
/// system's show/hide call counts, so repeated requests must not reach it.
/// The first request always passes.
#[derive(Debug)]
pub struct VisibilityGate {
    /// 0: not known yet, 1: visible, 2: hidden.
    state: u8,
}

impl VisibilityGate {
    #[verifier::type_invariant]
    spec fn known_state(self) -> bool {
        self.state <= 2
    }

    /// The visibility last passed on, if any.
    pub closed spec fn shown(&self) -> Option<bool> {
        if self.state == 1 {
            Some(true)
        } else if self.state == 2 {
            Some(false)
        } else {
            None
        }
    }

    /// A gate that has passed nothing yet.
    pub fn new() -> (r: Self)
        ensures
            r.shown() is None,
    {
        VisibilityGate { state: 0 }
    }

    /// Records the request; returns whether it changes the visibility and
    /// should reach the system.
    pub fn update(&mut self, visible: bool) -> (changed: bool)
        ensures
            changed == passes(old(self).shown(), visible),
            final(self).shown() == Some(visible),
    {
        proof {
            use_type_invariant(&*self);
        }
        let next: u8 = if visible { 1 } else { 2 };
        let previous = self.state;
        self.state = next;
        previous == 0 || previous != next
    }
}

impl Default for VisibilityGate {
    fn default() -> (r: Self)
        ensures
            r.shown() is None,
    {
        VisibilityGate { state: 0 }
    }
}

/// After a request passed, repeating it does not pass, the opposite one
/// does; the very first request always passes.
pub proof fn lemma_only_changes_pass(visible: bool)
    ensures
        passes(None, visible),
        !passes(Some(visible), visible),
        passes(Some(!visible), visible),
{
}

/// Shows or hides and confines or frees the local cursor. An implementation
/// names, in `visible_request` and `clip_request`, the last visibility and
/// confinement asked of it.
pub trait CursorController {
    /// The visibility last asked for, if any.
    spec fn visible_request(&self) -> Option<bool>;

    /// The confinement last asked for, if any.
    spec fn clip_request(&self) -> Option<bool>;

    fn set_visible(&mut self, visible: bool)
        ensures
            final(self).visible_request() == Some(visible),
            final(self).clip_request() == old(self).clip_request(),
    ;

    fn set_clipped(&mut self, clipped: bool)
        ensures
            final(self).clip_request() == Some(clipped),
            final(self).visible_request() == old(self).visible_request(),
    ;
}

/// A cursor controller for platforms without cursor control: the cursor is
/// left alone; the requests are only remembered, as ghost state.
pub struct NoopCursorController {
    visible: Ghost<Option<bool>>,
    clipped: Ghost<Option<bool>>,
}

impl Default for NoopCursorController {
    fn default() -> (r: Self)
        ensures
            r.visible_request() is None,
            r.clip_request() is None,
    {
        NoopCursorController { visible: Ghost(None), clipped: Ghost(None) }
    }
}

impl CursorController for NoopCursorController {
    closed spec fn visible_request(&self) -> Option<bool> {
        self.visible@
    }

    closed spec fn clip_request(&self) -> Option<bool> {
        self.clipped@
    }

    fn set_visible(&mut self, visible: bool) {
        self.visible = Ghost(Some(visible));
    }

    fn set_clipped(&mut self, clipped: bool) {
        self.clipped = Ghost(Some(clipped));
    }
}

/// Brings the local cursor in line with remote input: hidden and confined
/// exactly while it is grabbed (see [`crate::remote::cursor_grabbed`]).
pub fn sync_cursor<C: CursorController>(
    controller: &mut C,
    active: bool,
    mode: crate::config::MouseMode,
) -> (grabbed: bool)
    ensures
        grabbed == crate::remote::cursor_grabbed(active, mode),
        final(controller).visible_request() == Some(!grabbed),
        final(controller).clip_request() == Some(grabbed),
{
    let grab = crate::remote::cursor_grab(active, mode);
    controller.set_visible(!grab);
    controller.set_clipped(grab);
    grab
}

} // verus!
