use crate::callback::SimpleWindowApp;
use crate::geometry::Rect;
use crate::handle::{requests_only, timer_ids, Action, WindowHandle};
use crate::ids::{externalize_id, APP_ID_OFFSET};
use crate::menu::Menu;
use vstd::prelude::*;

verus! {

/// One of the three mouse buttons the shell reports.
#[derive(Debug, Clone, Copy, PartialEq, Eq, Structural)]
pub enum MouseButton {
    /// The left button.
    Left,
    /// The middle button.
    Middle,
    /// The right button.
    Right,
}

/// A native window message, decoded into a typed event. Where handling a
/// message needs an answer from the operating system before any decision can
/// be made (the new client rectangle on a size change, the outcome of
/// cancelling a fired timer), the driver performs that call and hands the
/// result in with the event; everything decided from it is decided here.
#[derive(Debug, PartialEq, Eq)]
pub enum WindowEvent {
    /// The window was activated (`active`) or deactivated (`!active`).
    Activated {
        /// The decoded activation state.
        active: bool,
    },
    /// Pointer capture was taken away from the window.
    CaptureChanged,
    /// A command notification carrying the native identifier of the chosen
    /// menu item.
    Command {
        /// The identifier as the system reports it, in the reserved range
        /// for identifiers this library issued.
        native_id: u16,
    },
    /// The one-shot timer `timer_id` fired. The driver has already cancelled
    /// the native timer; `kill_error` reports a failure of that call.
    TimerFired {
        /// The application-chosen timer identifier.
        timer_id: usize,
        /// `Some` with a descriptive message when cancelling the native
        /// timer failed.
        kill_error: Option<String>,
    },
    /// The committed window size changed. The driver has queried the new
    /// client rectangle; `query` carries it, or the failure of the query.
    Resized {
        /// The freshly queried client rectangle, or a descriptive message
        /// when the query failed.
        query: Result<Rect, String>,
    },
    /// The pointer moved to the given client coordinates.
    MouseMove {
        /// The signed horizontal client coordinate.
        x: i16,
        /// The signed vertical client coordinate.
        y: i16,
    },
    /// A mouse button went down at the given client coordinates.
    MouseDown {
        /// Which button went down.
        button: MouseButton,
        /// The signed horizontal client coordinate.
        x: i16,
        /// The signed vertical client coordinate.
        y: i16,
    },
    /// A mouse button was released at the given client coordinates.
    MouseUp {
        /// Which button was released.
        button: MouseButton,
        /// The signed horizontal client coordinate.
        x: i16,
        /// The signed vertical client coordinate.
        y: i16,
    },
    /// A key went down, reported by its raw virtual key code.
    KeyDown {
        /// The raw virtual key code.
        key_code: u32,
    },
    /// A key was released, reported by its raw virtual key code.
    KeyUp {
        /// The raw virtual key code.
        key_code: u32,
    },
    /// The mouse wheel was scrolled by the given signed delta.
    Scroll {
        /// The signed wheel delta.
        distance: i16,
    },
    /// The window must be painted.
    Paint,
    /// The window is being destroyed.
    Destroyed,
}

/// The shape of the backing bitmap: the device resource whose memory the
/// pixel buffer views. It is replaced, together with the buffer, on every
/// committed resize.
#[derive(Debug, Clone, Copy, PartialEq, Eq, Structural)]
pub struct DeviceBitmap {
    /// The width in pixels; positive.
    pub width: i32,
    /// The height in pixels; positive.
    pub height: i32,
}

/// What one dispatch step asks of the driver: the actions to perform against
/// the operating system, in order, and whether the message is consumed
/// (`suppress_default`) instead of falling through to the system's default
/// handling.
#[derive(Debug)]
pub struct DispatchOutcome {
    /// The actions to perform, in order.
    pub actions: Vec<Action>,
    /// `true` only for the destroy event, which the dispatcher answers
    /// itself.
    pub suppress_default: bool,
}

/// The event is well formed: a queried rectangle has representable extents,
/// and a positive one describes a buffer whose byte length fits the machine.
/// The driver guarantees this for events it builds from system answers.
pub open spec fn event_wf(event: WindowEvent) -> bool {
    match event {
        WindowEvent::Resized { query } => match query {
            Result::Ok(rect) => {
                &&& rect.dims_in_range()
                &&& rect.is_positive() ==> rect.spec_width() * rect.spec_height() * 4 <= usize::MAX
            },
            Result::Err(_) => true,
        },
        _ => true,
    }
}

/// The session: the one mutable record behind the running window. It ties
/// together the window-scoped handle (with the attached menu), the
/// last-committed client rectangle, the backing bitmap and the pixel buffer
/// over it, the user's callback object, and the ghost account of which
/// one-shot timers are armed. Exactly one session exists per running window.
pub struct Session<A: SimpleWindowApp> {
    handle: WindowHandle,
    rect: Rect,
    surface: Option<DeviceBitmap>,
    buffer: Vec<u8>,
    user_state: A,
    armed: Ghost<Set<usize>>,
}

impl<A: SimpleWindowApp> Session<A> {
    /// The last-committed client rectangle.
    pub closed spec fn spec_rect(self) -> Rect {
        self.rect
    }

    /// The backing bitmap's shape, or `None` before the first committed
    /// resize.
    pub closed spec fn spec_bitmap(self) -> Option<DeviceBitmap> {
        self.surface
    }

    /// The bytes of the pixel buffer.
    pub closed spec fn spec_buffer(self) -> Seq<u8> {
        self.buffer@
    }

    /// The window-scoped handle.
    pub closed spec fn spec_handle(self) -> WindowHandle {
        self.handle
    }

    /// The attached menu.
    pub closed spec fn spec_menu(self) -> Option<Menu> {
        self.handle.spec_menu()
    }

    /// The identifiers of the one-shot timers that are currently armed: those
    /// whose arming the driver was asked for and whose firing has not been
    /// dispatched since.
    pub closed spec fn spec_armed(self) -> Set<usize> {
        self.armed@
    }

    /// The user's callback object.
    pub closed spec fn spec_user(self) -> A {
        self.user_state
    }

    /// The session invariant. The buffer's length always equals
    /// `width * height * 4` of the backing bitmap, which matches the
    /// committed rectangle; without a bitmap the buffer is empty. A menu is
    /// always attached, and no hook request is left undrained between
    /// dispatch steps.
    pub closed spec fn inv(self) -> bool {
        &&& self.rect.dims_in_range()
        &&& match self.surface {
            Some(b) => {
                &&& b.width > 0
                &&& b.height > 0
                &&& b.width == self.rect.spec_width()
                &&& b.height == self.rect.spec_height()
                &&& self.buffer@.len() == b.width * b.height * 4
            },
            None => self.buffer@.len() == 0,
        }
        &&& self.handle.spec_menu() is Some
        &&& self.handle.pending().len() == 0
    }

    /// A dispatch step that ran hooks: the returned actions are the
    /// dispatcher's own `lead` actions, then exactly the requests the hooks
    /// recorded, then the dispatcher's own `tail` actions. The armed-timer
    /// account loses `disarmed` and gains exactly the timers those requests
    /// arm; rectangle, bitmap and buffer length are untouched.
    pub closed spec fn hook_step(
        pre: Session<A>,
        post: Session<A>,
        acts: Seq<Action>,
        lead: Seq<Action>,
        tail: Seq<Action>,
        disarmed: Option<usize>,
    ) -> bool {
        let l = lead.len() as int;
        let t = tail.len() as int;
        let n = acts.len() as int;
        let mid = acts.subrange(l, n - t);
        &&& n >= l + t
        &&& acts.subrange(0, l) == lead
        &&& acts.subrange(n - t, n) == tail
        &&& requests_only(mid)
        &&& post.armed@ == (match disarmed {
            Some(id) => pre.armed@.remove(id),
            None => pre.armed@,
        }).union(timer_ids(mid))
        &&& post.rect == pre.rect
        &&& post.surface == pre.surface
        &&& post.buffer@.len() == pre.buffer@.len()
    }

    /// The complete specification of one dispatch step: for every event, how
    /// the session evolves and which actions come back.
    pub closed spec fn dispatch_spec(
        pre: Session<A>,
        post: Session<A>,
        event: WindowEvent,
        out: DispatchOutcome,
    ) -> bool {
        &&& out.suppress_default == (event is Destroyed)
        &&& match event {
            WindowEvent::Activated { active } => {
                &&& post == pre
                &&& out.actions@ == seq![
                    if active {
                        Action::SetCapture
                    } else {
                        Action::ReleaseCapture
                    },
                ]
            },
            WindowEvent::CaptureChanged => {
                &&& post == pre
                &&& out.actions@ == seq![Action::ReleaseCapture]
            },
            WindowEvent::Command { native_id } => {
                if native_id < APP_ID_OFFSET {
                    // Not an identifier this library issued: silently ignored.
                    &&& post == pre
                    &&& out.actions@ == Seq::<Action>::empty()
                } else {
                    Self::hook_step(pre, post, out.actions@, Seq::empty(), Seq::empty(), None)
                }
            },
            WindowEvent::TimerFired { timer_id, .. } => Self::hook_step(
                pre,
                post,
                out.actions@,
                Seq::empty(),
                Seq::empty(),
                Some(timer_id),
            ),
            WindowEvent::Resized { query } => match query {
                Result::Err(_) => Self::hook_step(
                    pre,
                    post,
                    out.actions@,
                    Seq::empty(),
                    Seq::empty(),
                    None,
                ),
                Result::Ok(rect) => {
                    if rect.is_positive() {
                        // The correctness-critical sequence: commit the
                        // rectangle, replace the bitmap, rebind the buffer to
                        // exactly the new allocation's length.
                        &&& post.rect == rect
                        &&& post.surface == Some(
                            DeviceBitmap {
                                width: rect.spec_width() as i32,
                                height: rect.spec_height() as i32,
                            },
                        )
                        &&& post.buffer@.len() == rect.spec_width() * rect.spec_height() * 4
                        &&& requests_only(out.actions@)
                        &&& post.armed@ == pre.armed@.union(timer_ids(out.actions@))
                    } else {
                        // Degenerate size (minimised window): ignored, no
                        // buffer churn, no hook, no error.
                        &&& post == pre
                        &&& out.actions@ == Seq::<Action>::empty()
                    }
                },
            },
            WindowEvent::MouseMove { .. } => Self::hook_step(
                pre,
                post,
                out.actions@,
                Seq::empty(),
                Seq::empty(),
                None,
            ),
            WindowEvent::MouseDown { .. } => Self::hook_step(
                pre,
                post,
                out.actions@,
                seq![Action::SetCapture],
                Seq::empty(),
                None,
            ),
            WindowEvent::MouseUp { .. } => Self::hook_step(
                pre,
                post,
                out.actions@,
                Seq::empty(),
                Seq::empty(),
                None,
            ),
            WindowEvent::KeyDown { .. } => Self::hook_step(
                pre,
                post,
                out.actions@,
                Seq::empty(),
                Seq::empty(),
                None,
            ),
            WindowEvent::KeyUp { .. } => Self::hook_step(
                pre,
                post,
                out.actions@,
                Seq::empty(),
                Seq::empty(),
                None,
            ),
            WindowEvent::Scroll { .. } => Self::hook_step(
                pre,
                post,
                out.actions@,
                Seq::empty(),
                Seq::empty(),
                None,
            ),
            WindowEvent::Paint => Self::hook_step(
                pre,
                post,
                out.actions@,
                Seq::empty(),
                if pre.surface is Some {
                    seq![Action::PresentBuffer]
                } else {
                    Seq::empty()
                },
                None,
            ),
            WindowEvent::Destroyed => Self::hook_step(
                pre,
                post,
                out.actions@,
                Seq::empty(),
                seq![Action::Quit],
                None,
            ),
        }
    }

    /// Create the session for a window that is about to be created: no
    /// committed rectangle yet, no bitmap, an empty pixel buffer, an empty
    /// menu bar attached, and no armed timer.
    pub fn new(user_state: A) -> (s: Session<A>)
        ensures
            s.inv(),
            s.spec_rect() == (Rect { left: 0, top: 0, right: 0, bottom: 0 }),
            s.spec_bitmap() is None,
            s.spec_buffer().len() == 0,
            s.spec_armed() == Set::<usize>::empty(),
            s.spec_menu() matches Some(m) && m.spec_entries().len() == 0,
    {
        Session {
            handle: WindowHandle::attach(Menu::empty()),
            rect: Rect::default(),
            surface: None,
            buffer: Vec::new(),
            user_state,
            armed: Ghost(Set::empty()),
        }
    }

    /// Move the requests the hooks recorded out of the handle and account
    /// the timers they arm as armed.
    fn drain_requests(&mut self) -> (r: Vec<Action>)
        ensures
            r@ == old(self).spec_handle().pending(),
            final(self).spec_handle().pending().len() == 0,
            final(self).spec_handle().spec_menu() == old(self).spec_handle().spec_menu(),
            final(self).armed@ == old(self).armed@.union(timer_ids(r@)),
            final(self).rect == old(self).rect,
            final(self).surface == old(self).surface,
            final(self).buffer == old(self).buffer,
    {
        let taken = self.handle.take_requests();
        proof {
            self.armed@ = self.armed@.union(timer_ids(taken@));
        }
        taken
    }

    /// Dispatch one decoded window message: update the session, run the
    /// callback hooks the message maps to, and return the actions the driver
    /// must perform. This is the message-to-hook translation core.
    pub fn handle_message(&mut self, event: WindowEvent) -> (out: DispatchOutcome)
        requires
            old(self).inv(),
            event_wf(event),
        ensures
            final(self).inv(),
            Self::dispatch_spec(*old(self), *final(self), event, out),
    {
        match event {
            WindowEvent::Activated { active } => {
                let mut actions: Vec<Action> = Vec::new();
                if active {
                    actions.push(Action::SetCapture);
                } else {
                    actions.push(Action::ReleaseCapture);
                }
                proof {
                    assert(actions@ =~= seq![
                        if active {
                            Action::SetCapture
                        } else {
                            Action::ReleaseCapture
                        },
                    ]);
                }
                DispatchOutcome { actions, suppress_default: false }
            },
            WindowEvent::CaptureChanged => {
                let mut actions: Vec<Action> = Vec::new();
                actions.push(Action::ReleaseCapture);
                proof {
                    assert(actions@ =~= seq![Action::ReleaseCapture]);
                }
                DispatchOutcome { actions, suppress_default: false }
            },
            WindowEvent::Command { native_id } => {
                match externalize_id(native_id) {
                    Some(command_id) => {
                        self.user_state.on_command(
                            &mut self.handle,
                            &mut self.buffer,
                            &self.rect,
                            command_id,
                        );
                        let actions = self.drain_requests();
                        proof {
                            Self::lemma_plain_actions(actions@);
                        }
                        DispatchOutcome { actions, suppress_default: false }
                    },
                    None => {
                        let actions: Vec<Action> = Vec::new();
                        proof {
                            assert(actions@ =~= Seq::<Action>::empty());
                        }
                        DispatchOutcome { actions, suppress_default: false }
                    },
                }
            },
            WindowEvent::TimerFired { timer_id, kill_error } => {
                proof {
                    self.armed@ = self.armed@.remove(timer_id);
                }
                let ghost handle_at_entry = self.handle;
                match &kill_error {
                    Some(message) => {
                        self.user_state.on_error(
                            &mut self.handle,
                            &mut self.buffer,
                            &self.rect,
                            message.as_str(),
                        );
                    },
                    None => {
                        proof {
                            crate::handle::lemma_hook_handle_post_refl(self.handle);
                        }
                    },
                }
                let ghost handle_after_report = self.handle;
                self.user_state.on_timer(&mut self.handle, &mut self.buffer, &self.rect, timer_id);
                proof {
                    crate::handle::lemma_hook_handle_post_trans(
                        handle_at_entry,
                        handle_after_report,
                        self.handle,
                    );
                }
                let actions = self.drain_requests();
                proof {
                    Self::lemma_plain_actions(actions@);
                }
                DispatchOutcome { actions, suppress_default: false }
            },
            WindowEvent::Resized { query } => {
                match query {
                    Result::Err(message) => {
                        self.user_state.on_error(
                            &mut self.handle,
                            &mut self.buffer,
                            &self.rect,
                            message.as_str(),
                        );
                        let actions = self.drain_requests();
                        proof {
                            Self::lemma_plain_actions(actions@);
                        }
                        DispatchOutcome { actions, suppress_default: false }
                    },
                    Result::Ok(rect) => {
                        let w = rect.width();
                        let h = rect.height();
                        if w > 0 && h > 0 {
                            self.rect = rect;
                            let buffer_size: usize = (w as usize) * (h as usize) * 4;
                            self.surface = Some(DeviceBitmap { width: w, height: h });
                            self.buffer = vec![0u8; buffer_size];
                            self.user_state.on_resize(&mut self.handle, &mut self.buffer, &self.rect);
                            let actions = self.drain_requests();
                            proof {
                                Self::lemma_plain_actions(actions@);
                            }
                            DispatchOutcome { actions, suppress_default: false }
                        } else {
                            let actions: Vec<Action> = Vec::new();
                            proof {
                                assert(actions@ =~= Seq::<Action>::empty());
                            }
                            DispatchOutcome { actions, suppress_default: false }
                        }
                    },
                }
            },
            WindowEvent::MouseMove { x, y } => {
                self.user_state.on_mouse_move(&mut self.handle, &mut self.buffer, &self.rect, x, y);
                let actions = self.drain_requests();
                proof {
                    Self::lemma_plain_actions(actions@);
                }
                DispatchOutcome { actions, suppress_default: false }
            },
            WindowEvent::MouseDown { button, x, y } => {
                match button {
                    MouseButton::Left => self.user_state.on_mouse_left_down(
                        &mut self.handle,
                        &mut self.buffer,
                        &self.rect,
                        x,
                        y,
                    ),
                    MouseButton::Middle => self.user_state.on_mouse_middle_down(
                        &mut self.handle,
                        &mut self.buffer,
                        &self.rect,
                        x,
                        y,
                    ),
                    MouseButton::Right => self.user_state.on_mouse_right_down(
                        &mut self.handle,
                        &mut self.buffer,
                        &self.rect,
                        x,
                        y,
                    ),
                }
                let mut hook_requests = self.drain_requests();
                let ghost requests_view = hook_requests@;
                let mut actions: Vec<Action> = Vec::new();
                actions.push(Action::SetCapture);
                actions.append(&mut hook_requests);
                proof {
                    assert(actions@ == seq![Action::SetCapture] + requests_view);
                    Self::lemma_lead_actions(actions@, Action::SetCapture, requests_view);
                }
                DispatchOutcome { actions, suppress_default: false }
            },
            WindowEvent::MouseUp { button, x, y } => {
                match button {
                    MouseButton::Left => self.user_state.on_mouse_left_up(
                        &mut self.handle,
                        &mut self.buffer,
                        &self.rect,
                        x,
                        y,
                    ),
                    MouseButton::Middle => self.user_state.on_mouse_middle_up(
                        &mut self.handle,
                        &mut self.buffer,
                        &self.rect,
                        x,
                        y,
                    ),
                    MouseButton::Right => self.user_state.on_mouse_right_up(
                        &mut self.handle,
                        &mut self.buffer,
                        &self.rect,
                        x,
                        y,
                    ),
                }
                let actions = self.drain_requests();
                proof {
                    Self::lemma_plain_actions(actions@);
                }
                DispatchOutcome { actions, suppress_default: false }
            },
            WindowEvent::KeyDown { key_code } => {
                self.user_state.on_key_down(&mut self.handle, &mut self.buffer, &self.rect, key_code);
                let actions = self.drain_requests();
                proof {
                    Self::lemma_plain_actions(actions@);
                }
                DispatchOutcome { actions, suppress_default: false }
            },
            WindowEvent::KeyUp { key_code } => {
                self.user_state.on_key_up(&mut self.handle, &mut self.buffer, &self.rect, key_code);
                let actions = self.drain_requests();
                proof {
                    Self::lemma_plain_actions(actions@);
                }
                DispatchOutcome { actions, suppress_default: false }
            },
            WindowEvent::Scroll { distance } => {
                self.user_state.on_scroll(&mut self.handle, &mut self.buffer, &self.rect, distance);
                let actions = self.drain_requests();
                proof {
                    Self::lemma_plain_actions(actions@);
                }
                DispatchOutcome { actions, suppress_default: false }
            },
            WindowEvent::Paint => {
                self.user_state.on_paint(&mut self.handle, &mut self.buffer, &self.rect);
                let mut actions = self.drain_requests();
                let ghost requests_view = actions@;
                let has_surface = self.surface.is_some();
                if has_surface {
                    actions.push(Action::PresentBuffer);
                    proof {
                        Self::lemma_tail_actions(actions@, requests_view, Action::PresentBuffer);
                    }
                } else {
                    proof {
                        Self::lemma_plain_actions(actions@);
                    }
                }
                DispatchOutcome { actions, suppress_default: false }
            },
            WindowEvent::Destroyed => {
                self.user_state.on_exit(&mut self.handle);
                let mut actions = self.drain_requests();
                let ghost requests_view = actions@;
                actions.push(Action::Quit);
                proof {
                    Self::lemma_tail_actions(actions@, requests_view, Action::Quit);
                }
                DispatchOutcome { actions, suppress_default: true }
            },
        }
    }

    /// Run the `on_init` hook — once, after the window exists and before it
    /// is shown — and return the actions it requested.
    pub fn handle_init(&mut self) -> (actions: Vec<Action>)
        requires
            old(self).inv(),
        ensures
            final(self).inv(),
            requests_only(actions@),
            final(self).spec_armed() == old(self).spec_armed().union(timer_ids(actions@)),
            final(self).spec_rect() == old(self).spec_rect(),
            final(self).spec_bitmap() == old(self).spec_bitmap(),
            final(self).spec_buffer() == old(self).spec_buffer(),
    {
        self.user_state.on_init(&mut self.handle);
        let actions = self.drain_requests();
        proof {
            assert(actions@.skip(0int) =~= actions@);
        }
        actions
    }

    /// Run the live-resize hook with the proposed rectangle; return the
    /// possibly clamped rectangle for the driver to hand back to the system,
    /// and the actions the hook requested. A sizing negotiation commits
    /// nothing: rectangle, bitmap and buffer of the session are untouched.
    pub fn handle_sizing(&mut self, proposed: Rect) -> (r: (Rect, Vec<Action>))
        requires
            old(self).inv(),
            proposed.dims_in_range(),
        ensures
            final(self).inv(),
            requests_only(r.1@),
            final(self).spec_armed() == old(self).spec_armed().union(timer_ids(r.1@)),
            final(self).spec_rect() == old(self).spec_rect(),
            final(self).spec_bitmap() == old(self).spec_bitmap(),
            final(self).spec_buffer() == old(self).spec_buffer(),
    {
        let mut rect = proposed;
        self.user_state.on_resizing(&mut self.handle, &mut rect);
        let actions = self.drain_requests();
        proof {
            assert(actions@.skip(0int) =~= actions@);
        }
        (rect, actions)
    }

    /// Report a recoverable operating-system failure the driver hit while
    /// performing actions: run `on_error` with the message and return the
    /// actions it requested in turn.
    pub fn report_error(&mut self, message: &str) -> (actions: Vec<Action>)
        requires
            old(self).inv(),
        ensures
            final(self).inv(),
            requests_only(actions@),
            final(self).spec_armed() == old(self).spec_armed().union(timer_ids(actions@)),
            final(self).spec_rect() == old(self).spec_rect(),
            final(self).spec_bitmap() == old(self).spec_bitmap(),
            final(self).spec_buffer().len() == old(self).spec_buffer().len(),
    {
        self.user_state.on_error(&mut self.handle, &mut self.buffer, &self.rect, message);
        let actions = self.drain_requests();
        proof {
            assert(actions@.skip(0int) =~= actions@);
        }
        actions
    }

    /// The last-committed client rectangle.
    pub fn client_rect(&self) -> (r: Rect)
        ensures
            r == self.spec_rect(),
    {
        self.rect
    }

    /// The backing bitmap's shape, or `None` before the first committed
    /// resize.
    pub fn bitmap(&self) -> (r: Option<DeviceBitmap>)
        ensures
            r == self.spec_bitmap(),
    {
        self.surface
    }

    /// The pixel buffer's length in bytes.
    pub fn buffer_len(&self) -> (n: usize)
        ensures
            n == self.spec_buffer().len(),
    {
        self.buffer.len()
    }

    /// The pixel buffer's bytes, row-major, top row first, four bytes per
    /// pixel; the driver copies them to the window surface when asked to
    /// present.
    pub fn pixels(&self) -> (r: &Vec<u8>)
        ensures
            r@ == self.spec_buffer(),
    {
        &self.buffer
    }

    /// The menu attached to the window.
    pub fn menu(&self) -> (r: Option<&Menu>)
        ensures
            r is Some <==> self.spec_menu() is Some,
            r matches Some(m) ==> self.spec_menu() == Some(*m),
    {
        self.handle.get_menu()
    }

    /// The user's callback object, for read-only inspection.
    pub fn user_state(&self) -> (r: &A)
        ensures
            *r == self.spec_user(),
    {
        &self.user_state
    }

    /// While a bitmap is attached, the buffer length always equals its
    /// `width * height * 4`, and the bitmap's extents are the committed
    /// rectangle's: the shape every dispatch step preserves.
    pub proof fn lemma_inv_buffer_matches_bitmap(s: Session<A>)
        requires
            s.inv(),
            s.spec_bitmap() is Some,
        ensures
            s.spec_buffer().len() == s.spec_bitmap()->Some_0.width * s.spec_bitmap()->Some_0.height
                * 4,
            s.spec_bitmap()->Some_0.width == s.spec_rect().spec_width(),
            s.spec_bitmap()->Some_0.height == s.spec_rect().spec_height(),
    {
    }

    /// A committed resize to a positive rectangle rebinds the pixel buffer:
    /// afterwards the session's bitmap matches the new rectangle and the
    /// buffer is exactly `width * height * 4` bytes of the new allocation —
    /// never a stale view of the replaced one.
    pub proof fn lemma_resize_rebinds_buffer(
        pre: Session<A>,
        post: Session<A>,
        rect: Rect,
        out: DispatchOutcome,
    )
        requires
            rect.is_positive(),
            Self::dispatch_spec(
                pre,
                post,
                WindowEvent::Resized { query: Result::Ok(rect) },
                out,
            ),
        ensures
            post.spec_rect() == rect,
            post.spec_bitmap() == Some(
                DeviceBitmap {
                    width: rect.spec_width() as i32,
                    height: rect.spec_height() as i32,
                },
            ),
            post.spec_buffer().len() == rect.spec_width() * rect.spec_height() * 4,
    {
    }

    /// A resize event with non-positive width or height leaves the whole
    /// session — rectangle, bitmap, buffer, menu, callback state — unchanged
    /// and asks nothing of the driver.
    pub proof fn lemma_degenerate_resize_is_noop(
        pre: Session<A>,
        post: Session<A>,
        rect: Rect,
        out: DispatchOutcome,
    )
        requires
            !rect.is_positive(),
            Self::dispatch_spec(
                pre,
                post,
                WindowEvent::Resized { query: Result::Ok(rect) },
                out,
            ),
        ensures
            post == pre,
            out.actions@ == Seq::<Action>::empty(),
    {
    }

    /// A one-shot timer, once fired, is no longer armed — unless the
    /// callback explicitly re-armed it during the dispatch, which shows as
    /// an arming action in the returned list.
    pub proof fn lemma_timer_one_shot(
        pre: Session<A>,
        post: Session<A>,
        timer_id: usize,
        kill_error: Option<String>,
        out: DispatchOutcome,
    )
        requires
            Self::dispatch_spec(
                pre,
                post,
                WindowEvent::TimerFired { timer_id, kill_error },
                out,
            ),
            !timer_ids(out.actions@).contains(timer_id),
        ensures
            !post.spec_armed().contains(timer_id),
    {
        assert(out.actions@.subrange(0, out.actions@.len() as int) =~= out.actions@);
    }

    /// For any sequence of committed resizes with positive extents —
    /// `sessions[0]` stepping to `sessions[j + 1]` under `rects[j]` — after
    /// each step the pixel buffer length equals that step's
    /// `width * height * 4`, and the bitmap was rebound to match.
    pub proof fn lemma_resize_sequence(
        sessions: Seq<Session<A>>,
        rects: Seq<Rect>,
        outs: Seq<DispatchOutcome>,
        i: int,
    )
        requires
            sessions.len() == rects.len() + 1,
            outs.len() == rects.len(),
            forall|j: int| 0 <= j < rects.len() ==> (#[trigger] rects[j]).is_positive(),
            forall|j: int|
                0 <= j < rects.len() ==> #[trigger] Self::dispatch_spec(
                    sessions[j],
                    sessions[j + 1],
                    WindowEvent::Resized { query: Result::Ok(rects[j]) },
                    outs[j],
                ),
            0 <= i < rects.len(),
        ensures
            sessions[i + 1].spec_buffer().len() == rects[i].spec_width() * rects[i].spec_height()
                * 4,
            sessions[i + 1].spec_bitmap() == Some(
                DeviceBitmap {
                    width: rects[i].spec_width() as i32,
                    height: rects[i].spec_height() as i32,
                },
            ),
            sessions[i + 1].spec_rect() == rects[i],
    {
        assert(Self::dispatch_spec(
            sessions[i],
            sessions[i + 1],
            WindowEvent::Resized { query: Result::Ok(rects[i]) },
            outs[i],
        ));
        Self::lemma_resize_rebinds_buffer(sessions[i], sessions[i + 1], rects[i], outs[i]);
    }

    /// Subrange facts for a dispatch step whose actions are exactly the
    /// hooks' requests.
    proof fn lemma_plain_actions(acts: Seq<Action>)
        ensures
            acts.subrange(0, 0int) == Seq::<Action>::empty(),
            acts.subrange(0, acts.len() as int) == acts,
            acts.subrange(acts.len() as int, acts.len() as int) == Seq::<Action>::empty(),
            acts.skip(0int) == acts,
    {
        assert(acts.subrange(0, 0int) =~= Seq::<Action>::empty());
        assert(acts.subrange(0, acts.len() as int) =~= acts);
        assert(acts.subrange(acts.len() as int, acts.len() as int) =~= Seq::<Action>::empty());
        assert(acts.skip(0int) =~= acts);
    }

    /// Subrange facts for a dispatch step whose actions are one leading
    /// action of the dispatcher's own, then the hooks' requests.
    proof fn lemma_lead_actions(acts: Seq<Action>, lead: Action, rest: Seq<Action>)
        requires
            acts == seq![lead] + rest,
        ensures
            acts.len() == 1 + rest.len(),
            acts.subrange(0, 1int) == seq![lead],
            acts.subrange(1int, acts.len() as int) == rest,
            acts.subrange(acts.len() as int, acts.len() as int) == Seq::<Action>::empty(),
            rest.skip(0int) == rest,
    {
        assert(acts.subrange(0, 1int) =~= seq![lead]);
        assert(acts.subrange(1int, acts.len() as int) =~= rest);
        assert(acts.subrange(acts.len() as int, acts.len() as int) =~= Seq::<Action>::empty());
        assert(rest.skip(0int) =~= rest);
    }

    /// Subrange facts for a dispatch step whose actions are the hooks'
    /// requests, then one trailing action of the dispatcher's own.
    proof fn lemma_tail_actions(acts: Seq<Action>, rest: Seq<Action>, tail: Action)
        requires
            acts == rest.push(tail),
        ensures
            acts.len() == rest.len() + 1,
            acts.subrange(0, 0int) == Seq::<Action>::empty(),
            acts.subrange(0, acts.len() - 1) == rest,
            acts.subrange(acts.len() - 1, acts.len() as int) == seq![tail],
            rest.skip(0int) == rest,
    {
        assert(acts.subrange(0, 0int) =~= Seq::<Action>::empty());
        assert(acts.subrange(0, acts.len() - 1) =~= rest);
        assert(acts.subrange(acts.len() - 1, acts.len() as int) =~= seq![tail]);
        assert(rest.skip(0int) =~= rest);
    }
}

} // verus!
