use crate::session::{MouseButton, WindowEvent};
use vstd::prelude::*;

verus! {

/// The native message numbers this dispatcher owns. Every other message
/// falls through to the system's default handling.
pub const WM_DESTROY: u32 = 0x0002;

/// Committed size change.
pub const WM_SIZE: u32 = 0x0005;

/// Activation change.
pub const WM_ACTIVATE: u32 = 0x0006;

/// Paint request.
pub const WM_PAINT: u32 = 0x000F;

/// Non-client activation change.
pub const WM_NCACTIVATE: u32 = 0x0086;

/// Key went down.
pub const WM_KEYDOWN: u32 = 0x0100;

/// Key released.
pub const WM_KEYUP: u32 = 0x0101;

/// Menu command notification.
pub const WM_COMMAND: u32 = 0x0111;

/// Timer fired.
pub const WM_TIMER: u32 = 0x0113;

/// Pointer moved.
pub const WM_MOUSEMOVE: u32 = 0x0200;

/// Left button down.
pub const WM_LBUTTONDOWN: u32 = 0x0201;

/// Left button released.
pub const WM_LBUTTONUP: u32 = 0x0202;

/// Right button down.
pub const WM_RBUTTONDOWN: u32 = 0x0204;

/// Right button released.
pub const WM_RBUTTONUP: u32 = 0x0205;

/// Middle button down.
pub const WM_MBUTTONDOWN: u32 = 0x0207;

/// Middle button released.
pub const WM_MBUTTONUP: u32 = 0x0208;

/// Wheel scrolled.
pub const WM_MOUSEWHEEL: u32 = 0x020A;

/// Live resize drag in progress.
pub const WM_SIZING: u32 = 0x0214;

/// Pointer capture changed.
pub const WM_CAPTURECHANGED: u32 = 0x0215;

/// What the driver must do with one raw message before or instead of a
/// dispatch. Messages whose handling needs an answer from the operating
/// system first (the new client rectangle, the outcome of cancelling the
/// fired timer, the in-progress resize rectangle) name that step; the rest
/// are decoded to an event on the spot or passed through.
#[derive(Debug, PartialEq, Eq)]
pub enum Step {
    /// The message is fully decoded: dispatch this event.
    Dispatch(WindowEvent),
    /// Query the client rectangle, then dispatch a resize event carrying
    /// the result.
    QueryClientRect,
    /// Cancel the native one-shot timer with this identifier, then dispatch
    /// a timer event carrying the outcome.
    CancelTimer {
        /// The application-chosen timer identifier.
        timer_id: usize,
    },
    /// Read the in-progress resize rectangle, negotiate it through
    /// `Session::handle_sizing`, and write the result back.
    NegotiateSizing,
    /// Not a message this dispatcher owns: let the system's default handling
    /// run.
    PassThrough,
}

/// The message-to-event table: how each owned message number and its packed
/// parameters decode. Coordinates are the signed 16-bit halves of the packed
/// pointer parameter; the wheel delta is the high 16 bits of the packed
/// parameter; a command carries the low 16 bits; activation state is decoded
/// from the low word (or, for the non-client form, the whole word).
pub open spec fn spec_classify(message: u32, wparam: usize, lparam: isize) -> Step {
    if message == WM_ACTIVATE {
        Step::Dispatch(WindowEvent::Activated { active: (wparam & 0xFFFF) != 0 })
    } else if message == WM_NCACTIVATE {
        Step::Dispatch(WindowEvent::Activated { active: (wparam as u32) != 0 })
    } else if message == WM_CAPTURECHANGED {
        Step::Dispatch(WindowEvent::CaptureChanged)
    } else if message == WM_COMMAND {
        Step::Dispatch(WindowEvent::Command { native_id: wparam as u16 })
    } else if message == WM_TIMER {
        Step::CancelTimer { timer_id: wparam }
    } else if message == WM_SIZE {
        Step::QueryClientRect
    } else if message == WM_SIZING {
        Step::NegotiateSizing
    } else if message == WM_MOUSEMOVE {
        Step::Dispatch(
            WindowEvent::MouseMove { x: lparam as i16, y: (lparam >> 16) as i16 },
        )
    } else if message == WM_LBUTTONDOWN {
        Step::Dispatch(
            WindowEvent::MouseDown {
                button: MouseButton::Left,
                x: lparam as i16,
                y: (lparam >> 16) as i16,
            },
        )
    } else if message == WM_LBUTTONUP {
        Step::Dispatch(
            WindowEvent::MouseUp {
                button: MouseButton::Left,
                x: lparam as i16,
                y: (lparam >> 16) as i16,
            },
        )
    } else if message == WM_MBUTTONDOWN {
        Step::Dispatch(
            WindowEvent::MouseDown {
                button: MouseButton::Middle,
                x: lparam as i16,
                y: (lparam >> 16) as i16,
            },
        )
    } else if message == WM_MBUTTONUP {
        Step::Dispatch(
            WindowEvent::MouseUp {
                button: MouseButton::Middle,
                x: lparam as i16,
                y: (lparam >> 16) as i16,
            },
        )
    } else if message == WM_RBUTTONDOWN {
        Step::Dispatch(
            WindowEvent::MouseDown {
                button: MouseButton::Right,
                x: lparam as i16,
                y: (lparam >> 16) as i16,
            },
        )
    } else if message == WM_RBUTTONUP {
        Step::Dispatch(
            WindowEvent::MouseUp {
                button: MouseButton::Right,
                x: lparam as i16,
                y: (lparam >> 16) as i16,
            },
        )
    } else if message == WM_KEYDOWN {
        Step::Dispatch(WindowEvent::KeyDown { key_code: wparam as u32 })
    } else if message == WM_KEYUP {
        Step::Dispatch(WindowEvent::KeyUp { key_code: wparam as u32 })
    } else if message == WM_MOUSEWHEEL {
        Step::Dispatch(WindowEvent::Scroll { distance: (wparam >> 16) as i16 })
    } else if message == WM_PAINT {
        Step::Dispatch(WindowEvent::Paint)
    } else if message == WM_DESTROY {
        Step::Dispatch(WindowEvent::Destroyed)
    } else {
        Step::PassThrough
    }
}

/// Classify one raw native message: decode its packed parameters and say
/// what the driver must do with it, exactly as `spec_classify` lays down.
pub fn classify_message(message: u32, wparam: usize, lparam: isize) -> (step: Step)
    ensures
        step == spec_classify(message, wparam, lparam),
{
    if message == WM_ACTIVATE {
        Step::Dispatch(WindowEvent::Activated { active: (wparam & 0xFFFF) != 0 })
    } else if message == WM_NCACTIVATE {
        Step::Dispatch(
            WindowEvent::Activated { active: (#[verifier::truncate] (wparam as u32)) != 0 },
        )
    } else if message == WM_CAPTURECHANGED {
        Step::Dispatch(WindowEvent::CaptureChanged)
    } else if message == WM_COMMAND {
        Step::Dispatch(WindowEvent::Command { native_id: #[verifier::truncate] (wparam as u16) })
    } else if message == WM_TIMER {
        Step::CancelTimer { timer_id: wparam }
    } else if message == WM_SIZE {
        Step::QueryClientRect
    } else if message == WM_SIZING {
        Step::NegotiateSizing
    } else if message == WM_MOUSEMOVE {
        let (x, y) = decode_point(lparam);
        Step::Dispatch(WindowEvent::MouseMove { x, y })
    } else if message == WM_LBUTTONDOWN {
        let (x, y) = decode_point(lparam);
        Step::Dispatch(WindowEvent::MouseDown { button: MouseButton::Left, x, y })
    } else if message == WM_LBUTTONUP {
        let (x, y) = decode_point(lparam);
        Step::Dispatch(WindowEvent::MouseUp { button: MouseButton::Left, x, y })
    } else if message == WM_MBUTTONDOWN {
        let (x, y) = decode_point(lparam);
        Step::Dispatch(WindowEvent::MouseDown { button: MouseButton::Middle, x, y })
    } else if message == WM_MBUTTONUP {
        let (x, y) = decode_point(lparam);
        Step::Dispatch(WindowEvent::MouseUp { button: MouseButton::Middle, x, y })
    } else if message == WM_RBUTTONDOWN {
        let (x, y) = decode_point(lparam);
        Step::Dispatch(WindowEvent::MouseDown { button: MouseButton::Right, x, y })
    } else if message == WM_RBUTTONUP {
        let (x, y) = decode_point(lparam);
        Step::Dispatch(WindowEvent::MouseUp { button: MouseButton::Right, x, y })
    } else if message == WM_KEYDOWN {
        Step::Dispatch(WindowEvent::KeyDown { key_code: #[verifier::truncate] (wparam as u32) })
    } else if message == WM_KEYUP {
        Step::Dispatch(WindowEvent::KeyUp { key_code: #[verifier::truncate] (wparam as u32) })
    } else if message == WM_MOUSEWHEEL {
        Step::Dispatch(
            WindowEvent::Scroll { distance: #[verifier::truncate] ((wparam >> 16) as i16) },
        )
    } else if message == WM_PAINT {
        Step::Dispatch(WindowEvent::Paint)
    } else if message == WM_DESTROY {
        Step::Dispatch(WindowEvent::Destroyed)
    } else {
        Step::PassThrough
    }
}

/// Decode the signed 16-bit x/y pair packed into a pointer-message
/// parameter: x is the low word, y the high word, both read as signed.
pub fn decode_point(lparam: isize) -> (r: (i16, i16))
    ensures
        r.0 == lparam as i16,
        r.1 == (lparam >> 16) as i16,
{
    (#[verifier::truncate] (lparam as i16), #[verifier::truncate] ((lparam >> 16) as i16))
}

} // verus!
