use crate::menu::Menu;
use vstd::prelude::*;

verus! {

/// An operation that the driver must perform against the operating system on
/// the library's behalf, in the order returned by the dispatch functions.
#[derive(Debug, Clone, Copy, PartialEq, Eq, Structural)]
pub enum Action {
    /// Route all pointer input to the window.
    SetCapture,
    /// Give pointer input routing back to the system.
    ReleaseCapture,
    /// Arm the one-shot timer with this identifier.
    SetTimer {
        /// The application-chosen timer identifier.
        timer_id: usize,
        /// The due time in milliseconds.
        milliseconds: u32,
    },
    /// Mark the whole client area invalid so that a paint event follows.
    RequestRedraw,
    /// Redraw the menu bar after a menu change.
    RedrawMenuBar,
    /// Copy the pixel buffer onto the window surface.
    PresentBuffer,
    /// Post the process-wide quit signal.
    Quit,
}

/// `a` is one of the actions a callback may request through the
/// window-scoped handle while a hook runs.
pub open spec fn is_request(a: Action) -> bool {
    ||| a is SetTimer
    ||| a is RequestRedraw
    ||| a is RedrawMenuBar
}

/// Every action of `s` is a hook request.
pub open spec fn requests_only(s: Seq<Action>) -> bool {
    forall|i: int| 0 <= i < s.len() ==> is_request(#[trigger] s[i])
}

/// The identifiers of the timers that the actions of `s` arm.
pub open spec fn timer_ids(s: Seq<Action>) -> Set<usize>
    decreases s.len(),
{
    if s.len() == 0 {
        Set::empty()
    } else {
        let rest = timer_ids(s.drop_last());
        match s.last() {
            Action::SetTimer { timer_id, .. } => rest.insert(timer_id),
            _ => rest,
        }
    }
}

/// The relation every hook leaves on the window-scoped handle: requests are
/// only appended, and everything appended is a hook request. The attached
/// menu is free to change, since hooks may legitimately replace it.
pub open spec fn hook_handle_post(pre: WindowHandle, post: WindowHandle) -> bool {
    &&& pre.pending().len() <= post.pending().len()
    &&& post.pending().subrange(0, pre.pending().len() as int) == pre.pending()
    &&& requests_only(post.pending().skip(pre.pending().len() as int))
    &&& pre.spec_menu() is Some ==> post.spec_menu() is Some
}

/// `hook_handle_post` composes: two hook runs in a row still only append
/// requests.
pub proof fn lemma_hook_handle_post_trans(a: WindowHandle, b: WindowHandle, c: WindowHandle)
    requires
        hook_handle_post(a, b),
        hook_handle_post(b, c),
    ensures
        hook_handle_post(a, c),
{
    let la = a.pending().len() as int;
    let lb = b.pending().len() as int;
    assert(c.pending().subrange(0, la) =~= a.pending()) by {
        assert(forall|i: int|
            0 <= i < la ==> c.pending().subrange(0, lb)[i] == #[trigger] c.pending()[i]);
    }
    assert(requests_only(c.pending().skip(la))) by {
        assert forall|i: int| 0 <= i < c.pending().skip(la).len() implies is_request(
            #[trigger] c.pending().skip(la)[i],
        ) by {
            assert(c.pending().skip(la)[i] == c.pending()[la + i]);
            if la + i < lb {
                assert(c.pending().subrange(0, lb)[la + i] == c.pending()[la + i]);
                assert(b.pending().skip(la)[i] == b.pending()[la + i]);
                assert(is_request(b.pending().skip(la)[i]));
            } else {
                assert(c.pending().skip(lb)[la + i - lb] == c.pending()[la + i]);
                assert(is_request(c.pending().skip(lb)[la + i - lb]));
            }
        }
    }
}

/// A hook that only appended one request satisfies `hook_handle_post`:
/// the lemma implementors use after a `set_timer`, `request_redraw` or
/// `redraw_menu` call.
pub proof fn lemma_hook_handle_post_push(pre: WindowHandle, post: WindowHandle, a: Action)
    requires
        post.pending() == pre.pending().push(a),
        is_request(a),
        post.spec_menu() == pre.spec_menu(),
    ensures
        hook_handle_post(pre, post),
{
    assert(post.pending().subrange(0, pre.pending().len() as int) =~= pre.pending());
    assert(post.pending().skip(pre.pending().len() as int) =~= seq![a]);
}

/// A hook that leaves the handle untouched satisfies `hook_handle_post`.
pub proof fn lemma_hook_handle_post_refl(h: WindowHandle)
    ensures
        hook_handle_post(h, h),
{
    assert(h.pending().subrange(0, h.pending().len() as int) =~= h.pending());
    assert(h.pending().skip(h.pending().len() as int) =~= Seq::<Action>::empty());
}

/// An opaque reference to the live window, exposing the narrow set of safe
/// operations a callback may use: arm a one-shot timer, request a redraw,
/// and get, replace or redraw the menu bar. Timer and redraw operations are
/// recorded as pending requests; the dispatcher drains them after the hook
/// returns and hands them to the driver as actions.
#[derive(Debug)]
pub struct WindowHandle {
    menu: Option<Menu>,
    requests: Vec<Action>,
}

impl WindowHandle {
    /// The menu attached to the window.
    pub closed spec fn spec_menu(self) -> Option<Menu> {
        self.menu
    }

    /// The hook requests recorded and not yet drained, in order.
    pub closed spec fn pending(self) -> Seq<Action> {
        self.requests@
    }

    /// A handle for a window whose menu bar is `menu`, with no pending
    /// requests.
    pub(crate) fn attach(menu: Menu) -> (h: WindowHandle)
        ensures
            h.spec_menu() == Some(menu),
            h.pending().len() == 0,
    {
        WindowHandle { menu: Some(menu), requests: Vec::new() }
    }

    /// Move the pending requests out, leaving none behind.
    pub(crate) fn take_requests(&mut self) -> (r: Vec<Action>)
        ensures
            r@ == old(self).pending(),
            final(self).pending().len() == 0,
            final(self).spec_menu() == old(self).spec_menu(),
    {
        let mut taken: Vec<Action> = Vec::new();
        core::mem::swap(&mut taken, &mut self.requests);
        taken
    }

    /// Arm the one-shot timer `timer_id` to fire once after `milliseconds`.
    /// Firing is delivered later as a timer event and does not repeat: the
    /// dispatcher cancels the native timer when it fires, so periodic
    /// behaviour requires the hook to re-arm.
    pub fn set_timer(&mut self, timer_id: usize, milliseconds: u32)
        ensures
            final(self).pending() == old(self).pending().push(
                Action::SetTimer { timer_id, milliseconds },
            ),
            final(self).spec_menu() == old(self).spec_menu(),
    {
        self.requests.push(Action::SetTimer { timer_id, milliseconds });
    }

    /// Mark the whole client area invalid, causing a future paint event;
    /// non-blocking, coalesced by the system.
    pub fn request_redraw(&mut self)
        ensures
            final(self).pending() == old(self).pending().push(Action::RequestRedraw),
            final(self).spec_menu() == old(self).spec_menu(),
    {
        self.requests.push(Action::RequestRedraw);
    }

    /// The menu attached to the window, if any.
    pub fn get_menu(&self) -> (r: Option<&Menu>)
        ensures
            r is Some <==> self.spec_menu() is Some,
            r matches Some(m) ==> self.spec_menu() == Some(*m),
    {
        self.menu.as_ref()
    }

    /// Attach `menu` to the window. The previously attached menu resource is
    /// released first — its ownership ends here — so the window always holds
    /// exactly one attached menu, never a dangling or doubled one.
    pub fn replace_menu(&mut self, menu: Menu) -> (r: Result<(), String>)
        ensures
            r is Ok,
            final(self).spec_menu() == Some(menu),
            final(self).pending() == old(self).pending(),
    {
        self.menu = Some(menu);
        Ok(())
    }

    /// Redraw the menu bar after its menu changed.
    pub fn redraw_menu(&mut self) -> (r: Result<(), String>)
        ensures
            r is Ok,
            final(self).pending() == old(self).pending().push(Action::RedrawMenuBar),
            final(self).spec_menu() == old(self).spec_menu(),
    {
        self.requests.push(Action::RedrawMenuBar);
        Ok(())
    }
}

} // verus!
