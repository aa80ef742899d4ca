use crate::geometry::Rect;
use crate::handle::{hook_handle_post, lemma_hook_handle_post_refl, WindowHandle};
use vstd::prelude::*;

verus! {

/// The capability-style callback interface: the single extension point of the
/// shell. The application supplies one implementation; every hook has a safe
/// no-op default, so implementors override only what they need.
///
/// Each hook runs synchronously on the thread that owns the message loop and
/// receives the window-scoped handle, a mutable view of the current pixel
/// buffer (valid only for the duration of the call), and the last-committed
/// client rectangle, plus hook-specific parameters. The pixel buffer is
/// row-major, top row first, four bytes per pixel, and its length is exactly
/// `width * height * 4`; a hook may rewrite its bytes but not change its
/// length. Through the handle a hook may only record requests (arm a timer,
/// ask for a redraw) and work with the menu; that is what the hook contracts
/// below state.
///
/// `on_error` is the single channel for recoverable operating-system call
/// failures during dispatch; it never stops the dispatcher.
#[allow(unused_variables)]
pub trait SimpleWindowApp {
    /// Called once, after the window exists and before it is shown.
    fn on_init(&mut self, handle: &mut WindowHandle)
        ensures
            hook_handle_post(*old(handle), *final(handle)),
    {
        proof {
            lemma_hook_handle_post_refl(*handle);
        }
    }

    /// Called on a paint event, before the pixel buffer is copied to the
    /// window surface, so last-second buffer edits are visible.
    fn on_paint(&mut self, handle: &mut WindowHandle, pixel_buffer: &mut Vec<u8>, client_rect: &Rect)
        requires
            client_rect.dims_in_range(),
        ensures
            hook_handle_post(*old(handle), *final(handle)),
            final(pixel_buffer)@.len() == old(pixel_buffer)@.len(),
    {
        proof {
            lemma_hook_handle_post_refl(*handle);
        }
    }

    /// Called when a menu command with the given application identifier was
    /// chosen.
    fn on_command(
        &mut self,
        handle: &mut WindowHandle,
        pixel_buffer: &mut Vec<u8>,
        client_rect: &Rect,
        command_id: u16,
    )
        requires
            client_rect.dims_in_range(),
        ensures
            hook_handle_post(*old(handle), *final(handle)),
            final(pixel_buffer)@.len() == old(pixel_buffer)@.len(),
    {
        proof {
            lemma_hook_handle_post_refl(*handle);
        }
    }

    /// Called when the one-shot timer `timer_id` fired. The native timer is
    /// already cancelled when this runs; re-arm it here for periodic
    /// behaviour.
    fn on_timer(
        &mut self,
        handle: &mut WindowHandle,
        pixel_buffer: &mut Vec<u8>,
        client_rect: &Rect,
        timer_id: usize,
    )
        requires
            client_rect.dims_in_range(),
        ensures
            hook_handle_post(*old(handle), *final(handle)),
            final(pixel_buffer)@.len() == old(pixel_buffer)@.len(),
    {
        proof {
            lemma_hook_handle_post_refl(*handle);
        }
    }

    /// Called after a committed size change, once the pixel buffer has been
    /// rebound to the new rectangle.
    fn on_resize(
        &mut self,
        handle: &mut WindowHandle,
        pixel_buffer: &mut Vec<u8>,
        client_rect: &Rect,
    )
        requires
            client_rect.dims_in_range(),
        ensures
            hook_handle_post(*old(handle), *final(handle)),
            final(pixel_buffer)@.len() == old(pixel_buffer)@.len(),
    {
        proof {
            lemma_hook_handle_post_refl(*handle);
        }
    }

    /// Called during a live resize drag with the proposed rectangle, which
    /// the implementor may clamp or adjust before the system commits to it.
    /// This does not itself reallocate the pixel buffer.
    fn on_resizing(&mut self, handle: &mut WindowHandle, client_rect: &mut Rect)
        requires
            old(client_rect).dims_in_range(),
        ensures
            hook_handle_post(*old(handle), *final(handle)),
    {
        proof {
            lemma_hook_handle_post_refl(*handle);
        }
    }

    /// Called when the pointer moved to client coordinates `(mouse_x, mouse_y)`.
    fn on_mouse_move(
        &mut self,
        handle: &mut WindowHandle,
        pixel_buffer: &mut Vec<u8>,
        client_rect: &Rect,
        mouse_x: i16,
        mouse_y: i16,
    )
        requires
            client_rect.dims_in_range(),
        ensures
            hook_handle_post(*old(handle), *final(handle)),
            final(pixel_buffer)@.len() == old(pixel_buffer)@.len(),
    {
        proof {
            lemma_hook_handle_post_refl(*handle);
        }
    }

    /// Called when the left mouse button went down.
    fn on_mouse_left_down(
        &mut self,
        handle: &mut WindowHandle,
        pixel_buffer: &mut Vec<u8>,
        client_rect: &Rect,
        mouse_x: i16,
        mouse_y: i16,
    )
        requires
            client_rect.dims_in_range(),
        ensures
            hook_handle_post(*old(handle), *final(handle)),
            final(pixel_buffer)@.len() == old(pixel_buffer)@.len(),
    {
        proof {
            lemma_hook_handle_post_refl(*handle);
        }
    }

    /// Called when the middle mouse button went down.
    fn on_mouse_middle_down(
        &mut self,
        handle: &mut WindowHandle,
        pixel_buffer: &mut Vec<u8>,
        client_rect: &Rect,
        mouse_x: i16,
        mouse_y: i16,
    )
        requires
            client_rect.dims_in_range(),
        ensures
            hook_handle_post(*old(handle), *final(handle)),
            final(pixel_buffer)@.len() == old(pixel_buffer)@.len(),
    {
        proof {
            lemma_hook_handle_post_refl(*handle);
        }
    }

    /// Called when the right mouse button went down.
    fn on_mouse_right_down(
        &mut self,
        handle: &mut WindowHandle,
        pixel_buffer: &mut Vec<u8>,
        client_rect: &Rect,
        mouse_x: i16,
        mouse_y: i16,
    )
        requires
            client_rect.dims_in_range(),
        ensures
            hook_handle_post(*old(handle), *final(handle)),
            final(pixel_buffer)@.len() == old(pixel_buffer)@.len(),
    {
        proof {
            lemma_hook_handle_post_refl(*handle);
        }
    }

    /// Called when the left mouse button was released.
    fn on_mouse_left_up(
        &mut self,
        handle: &mut WindowHandle,
        pixel_buffer: &mut Vec<u8>,
        client_rect: &Rect,
        mouse_x: i16,
        mouse_y: i16,
    )
        requires
            client_rect.dims_in_range(),
        ensures
            hook_handle_post(*old(handle), *final(handle)),
            final(pixel_buffer)@.len() == old(pixel_buffer)@.len(),
    {
        proof {
            lemma_hook_handle_post_refl(*handle);
        }
    }

    /// Called when the middle mouse button was released.
    fn on_mouse_middle_up(
        &mut self,
        handle: &mut WindowHandle,
        pixel_buffer: &mut Vec<u8>,
        client_rect: &Rect,
        mouse_x: i16,
        mouse_y: i16,
    )
        requires
            client_rect.dims_in_range(),
        ensures
            hook_handle_post(*old(handle), *final(handle)),
            final(pixel_buffer)@.len() == old(pixel_buffer)@.len(),
    {
        proof {
            lemma_hook_handle_post_refl(*handle);
        }
    }

    /// Called when the right mouse button was released.
    fn on_mouse_right_up(
        &mut self,
        handle: &mut WindowHandle,
        pixel_buffer: &mut Vec<u8>,
        client_rect: &Rect,
        mouse_x: i16,
        mouse_y: i16,
    )
        requires
            client_rect.dims_in_range(),
        ensures
            hook_handle_post(*old(handle), *final(handle)),
            final(pixel_buffer)@.len() == old(pixel_buffer)@.len(),
    {
        proof {
            lemma_hook_handle_post_refl(*handle);
        }
    }

    /// Called with the raw virtual key code of a key that went down.
    fn on_key_down(
        &mut self,
        handle: &mut WindowHandle,
        pixel_buffer: &mut Vec<u8>,
        client_rect: &Rect,
        key_code: u32,
    )
        requires
            client_rect.dims_in_range(),
        ensures
            hook_handle_post(*old(handle), *final(handle)),
            final(pixel_buffer)@.len() == old(pixel_buffer)@.len(),
    {
        proof {
            lemma_hook_handle_post_refl(*handle);
        }
    }

    /// Called with the raw virtual key code of a key that was released.
    fn on_key_up(
        &mut self,
        handle: &mut WindowHandle,
        pixel_buffer: &mut Vec<u8>,
        client_rect: &Rect,
        key_code: u32,
    )
        requires
            client_rect.dims_in_range(),
        ensures
            hook_handle_post(*old(handle), *final(handle)),
            final(pixel_buffer)@.len() == old(pixel_buffer)@.len(),
    {
        proof {
            lemma_hook_handle_post_refl(*handle);
        }
    }

    /// Called with the signed wheel delta of a scroll.
    fn on_scroll(
        &mut self,
        handle: &mut WindowHandle,
        pixel_buffer: &mut Vec<u8>,
        client_rect: &Rect,
        scroll_distance: i16,
    )
        requires
            client_rect.dims_in_range(),
        ensures
            hook_handle_post(*old(handle), *final(handle)),
            final(pixel_buffer)@.len() == old(pixel_buffer)@.len(),
    {
        proof {
            lemma_hook_handle_post_refl(*handle);
        }
    }

    /// Called when the window is being destroyed, before the quit signal is
    /// posted.
    fn on_exit(&mut self, handle: &mut WindowHandle)
        ensures
            hook_handle_post(*old(handle), *final(handle)),
    {
        proof {
            lemma_hook_handle_post_refl(*handle);
        }
    }

    /// Called with a human-readable message when a recoverable
    /// operating-system call failed during dispatch. Dispatch continues.
    fn on_error(
        &mut self,
        handle: &mut WindowHandle,
        pixel_buffer: &mut Vec<u8>,
        client_rect: &Rect,
        error_message: &str,
    )
        requires
            client_rect.dims_in_range(),
        ensures
            hook_handle_post(*old(handle), *final(handle)),
            final(pixel_buffer)@.len() == old(pixel_buffer)@.len(),
    {
        proof {
            lemma_hook_handle_post_refl(*handle);
        }
    }
}

} // verus!
