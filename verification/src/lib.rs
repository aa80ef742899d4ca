//! A thin application shell around a single native top-level window.
//!
//! The crate owns the session state of one window: the last-committed client
//! rectangle, the backing pixel buffer, the attached menu, and the user's
//! callback object. Native window messages are translated into typed events,
//! dispatched against the callback trait, and answered with a list of actions
//! for the driver to perform against the operating system. All of the
//! decision logic — message classification, menu-identifier translation, the
//! resize-driven buffer reallocation, menu bookkeeping, and one-shot timer
//! accounting — lives here and is verified; the driver around it only moves
//! raw messages in and actions out.

mod callback;
mod geometry;
mod handle;
mod ids;
mod menu;
mod messages;
mod session;

pub use callback::SimpleWindowApp;
pub use geometry::Rect;
pub use handle::{
    hook_handle_post, is_request, lemma_hook_handle_post_push, lemma_hook_handle_post_refl,
    lemma_hook_handle_post_trans, requests_only, timer_ids, Action, WindowHandle,
};
pub use ids::{
    app_id_of, externalize_id, internalize_id, lemma_id_round_trip, reserved_of, APP_ID_OFFSET,
    MAX_APP_ID,
};
pub use menu::{
    flag_applied, has_item, is_first_item_index, is_fresh_item, is_item_with, is_rechecked,
    is_reenabled, is_reflagged, is_rehighlighted, Menu, MenuEntry, FLAG_MENU_BAR_BREAK,
    FLAG_MENU_BREAK, FLAG_RIGHT_JUSTIFY,
};
pub use messages::{
    classify_message, decode_point, spec_classify, Step, WM_ACTIVATE, WM_CAPTURECHANGED,
    WM_COMMAND, WM_DESTROY, WM_KEYDOWN, WM_KEYUP, WM_LBUTTONDOWN, WM_LBUTTONUP, WM_MBUTTONDOWN,
    WM_MBUTTONUP, WM_MOUSEMOVE, WM_MOUSEWHEEL, WM_NCACTIVATE, WM_PAINT, WM_RBUTTONDOWN,
    WM_RBUTTONUP, WM_SIZE, WM_SIZING, WM_TIMER,
};
pub use session::{event_wf, DeviceBitmap, DispatchOutcome, MouseButton, Session, WindowEvent};
