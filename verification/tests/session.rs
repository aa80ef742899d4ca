use winshell::{
    classify_message, Action, DeviceBitmap, Menu, MenuEntry, MouseButton, Rect, Session,
    SimpleWindowApp, Step, WindowEvent, WindowHandle, WM_ACTIVATE, WM_COMMAND, WM_DESTROY, WM_KEYUP, WM_LBUTTONDOWN,
    WM_MOUSEMOVE,
    WM_MOUSEWHEEL, WM_NCACTIVATE, WM_PAINT, WM_SIZE, WM_SIZING, WM_TIMER,
};

fn rect(right: i32, bottom: i32) -> Rect {
    Rect { left: 0, top: 0, right, bottom }
}

fn resized(right: i32, bottom: i32) -> WindowEvent {
    WindowEvent::Resized { query: Ok(rect(right, bottom)) }
}

/// Records every hook invocation in order.
#[derive(Default)]
struct Recorder {
    log: Vec<String>,
}

impl SimpleWindowApp for Recorder {
    fn on_init(&mut self, _handle: &mut WindowHandle) {
        self.log.push("init".to_string());
    }
    fn on_paint(&mut self, _h: &mut WindowHandle, pixel_buffer: &mut Vec<u8>, _r: &Rect) {
        if !pixel_buffer.is_empty() {
            pixel_buffer[0] = 0xAB;
        }
        self.log.push("paint".to_string());
    }
    fn on_command(&mut self, _h: &mut WindowHandle, _b: &mut Vec<u8>, _r: &Rect, id: u16) {
        self.log.push(format!("command {id}"));
    }
    fn on_timer(&mut self, _h: &mut WindowHandle, _b: &mut Vec<u8>, _r: &Rect, timer_id: usize) {
        self.log.push(format!("timer {timer_id}"));
    }
    fn on_resize(&mut self, _h: &mut WindowHandle, pixel_buffer: &mut Vec<u8>, r: &Rect) {
        if !pixel_buffer.is_empty() {
            pixel_buffer[0] = 0xCD;
        }
        self.log.push(format!("resize {}x{} len {}", r.width(), r.height(), pixel_buffer.len()));
    }
    fn on_mouse_move(&mut self, _h: &mut WindowHandle, _b: &mut Vec<u8>, _r: &Rect, x: i16, y: i16) {
        self.log.push(format!("move {x},{y}"));
    }
    fn on_mouse_left_down(
        &mut self,
        handle: &mut WindowHandle,
        _b: &mut Vec<u8>,
        _r: &Rect,
        x: i16,
        y: i16,
    ) {
        handle.request_redraw();
        self.log.push(format!("left down {x},{y}"));
    }
    fn on_mouse_right_up(&mut self, _h: &mut WindowHandle, _b: &mut Vec<u8>, _r: &Rect, x: i16, y: i16) {
        self.log.push(format!("right up {x},{y}"));
    }
    fn on_key_down(&mut self, _h: &mut WindowHandle, _b: &mut Vec<u8>, _r: &Rect, key_code: u32) {
        self.log.push(format!("key {key_code}"));
    }
    fn on_scroll(&mut self, _h: &mut WindowHandle, _b: &mut Vec<u8>, _r: &Rect, distance: i16) {
        self.log.push(format!("scroll {distance}"));
    }
    fn on_exit(&mut self, _handle: &mut WindowHandle) {
        self.log.push("exit".to_string());
    }
    fn on_error(&mut self, _h: &mut WindowHandle, _b: &mut Vec<u8>, _r: &Rect, message: &str) {
        self.log.push(format!("error: {message}"));
    }
}

#[test]
fn resize_sequence_keeps_buffer_bound_to_size() {
    let mut s = Session::new(Recorder::default());
    assert_eq!(s.buffer_len(), 0);
    assert!(s.bitmap().is_none());
    for (w, h) in [(800, 600), (123, 45), (1, 1), (400, 300)] {
        s.handle_message(resized(w, h));
        assert_eq!(s.buffer_len(), (w as usize) * (h as usize) * 4);
        assert_eq!(s.bitmap(), Some(DeviceBitmap { width: w, height: h }));
        assert_eq!(s.client_rect(), rect(w, h));
    }
}

#[test]
fn degenerate_resize_changes_nothing() {
    let mut s = Session::new(Recorder::default());
    s.handle_message(resized(400, 300));
    s.handle_message(WindowEvent::Paint);
    assert_eq!(s.pixels()[0], 0xAB, "the paint hook wrote the buffer");
    let log_before = s.user_state().log.len();
    for bad in [rect(0, 0), rect(0, 300), rect(400, 0), rect(-5, 300), rect(400, -1)] {
        let out = s.handle_message(WindowEvent::Resized { query: Ok(bad) });
        assert!(out.actions.is_empty());
        assert!(!out.suppress_default);
    }
    assert_eq!(s.buffer_len(), 480000);
    assert_eq!(s.bitmap(), Some(DeviceBitmap { width: 400, height: 300 }));
    assert_eq!(s.client_rect(), rect(400, 300));
    assert_eq!(s.pixels()[0], 0xAB, "the buffer bytes were not touched");
    assert_eq!(s.user_state().log.len(), log_before, "no hook ran");
}

#[test]
fn failed_size_query_reports_error_and_keeps_state() {
    let mut s = Session::new(Recorder::default());
    s.handle_message(resized(400, 300));
    let out = s.handle_message(WindowEvent::Resized {
        query: Err("Error getting window size: lost".to_string()),
    });
    assert!(out.actions.is_empty());
    assert_eq!(s.buffer_len(), 480000);
    assert_eq!(s.client_rect(), rect(400, 300));
    assert_eq!(
        s.user_state().log.last().unwrap(),
        "error: Error getting window size: lost"
    );
}

#[test]
fn resize_rebinds_buffer_before_the_hook_runs() {
    let mut s = Session::new(Recorder::default());
    s.handle_message(resized(800, 600));
    assert_eq!(s.user_state().log, vec!["resize 800x600 len 1920000".to_string()]);
    assert_eq!(s.pixels()[0], 0xCD, "the resize hook saw the fresh buffer");
    s.handle_message(resized(400, 300));
    assert_eq!(s.user_state().log.last().unwrap(), "resize 400x300 len 480000");
}

#[test]
fn end_to_end_window_lifecycle() {
    let mut s = Session::new(Recorder::default());
    s.handle_message(resized(800, 600));
    assert_eq!(s.buffer_len(), 800 * 600 * 4);
    s.handle_message(resized(400, 300));
    assert_eq!(s.buffer_len(), 480000);
    s.handle_message(resized(0, 0));
    assert_eq!(s.buffer_len(), 480000);
    let out = s.handle_message(WindowEvent::Command { native_id: 0xF001 + 42 });
    assert!(out.actions.is_empty());
    assert_eq!(s.user_state().log.last().unwrap(), "command 42");
    let mut menu = Menu::new().unwrap();
    assert!(menu.add_item(4095, "too big").is_err());
    assert_eq!(menu.item_count(), 0);
}

#[test]
fn command_below_reserved_range_is_silently_ignored() {
    let mut s = Session::new(Recorder::default());
    for native_id in [0u16, 1, 0xF000] {
        let out = s.handle_message(WindowEvent::Command { native_id });
        assert!(out.actions.is_empty());
    }
    assert!(s.user_state().log.is_empty(), "no hook ran for foreign identifiers");
}

#[test]
fn activation_and_capture_events_drive_capture() {
    let mut s = Session::new(Recorder::default());
    let out = s.handle_message(WindowEvent::Activated { active: true });
    assert_eq!(out.actions, vec![Action::SetCapture]);
    let out = s.handle_message(WindowEvent::Activated { active: false });
    assert_eq!(out.actions, vec![Action::ReleaseCapture]);
    let out = s.handle_message(WindowEvent::CaptureChanged);
    assert_eq!(out.actions, vec![Action::ReleaseCapture]);
    assert!(!out.suppress_default);
}

#[test]
fn mouse_down_captures_before_the_hook_requests() {
    let mut s = Session::new(Recorder::default());
    let out = s.handle_message(WindowEvent::MouseDown { button: MouseButton::Left, x: 10, y: -3 });
    assert_eq!(out.actions, vec![Action::SetCapture, Action::RequestRedraw]);
    assert_eq!(s.user_state().log, vec!["left down 10,-3".to_string()]);
    let out = s.handle_message(WindowEvent::MouseUp { button: MouseButton::Right, x: 7, y: 8 });
    assert!(out.actions.is_empty(), "a button release does not capture");
    assert_eq!(s.user_state().log.last().unwrap(), "right up 7,8");
    let out = s.handle_message(WindowEvent::MouseDown { button: MouseButton::Middle, x: 0, y: 0 });
    assert_eq!(out.actions, vec![Action::SetCapture]);
    let out = s.handle_message(WindowEvent::MouseDown { button: MouseButton::Right, x: 0, y: 0 });
    assert_eq!(out.actions, vec![Action::SetCapture]);
}

#[test]
fn keys_moves_and_scrolls_reach_their_hooks() {
    let mut s = Session::new(Recorder::default());
    s.handle_message(WindowEvent::MouseMove { x: -1, y: 2 });
    s.handle_message(WindowEvent::KeyDown { key_code: 65 });
    s.handle_message(WindowEvent::Scroll { distance: -120 });
    assert_eq!(
        s.user_state().log,
        vec!["move -1,2".to_string(), "key 65".to_string(), "scroll -120".to_string()]
    );
}

#[test]
fn paint_presents_only_with_a_bitmap() {
    let mut s = Session::new(Recorder::default());
    let out = s.handle_message(WindowEvent::Paint);
    assert!(out.actions.is_empty(), "nothing to present before the first resize");
    s.handle_message(resized(10, 10));
    let out = s.handle_message(WindowEvent::Paint);
    assert_eq!(out.actions, vec![Action::PresentBuffer]);
    assert_eq!(s.pixels()[0], 0xAB, "the hook ran before the copy was requested");
}

#[test]
fn destroy_runs_exit_and_quits() {
    let mut s = Session::new(Recorder::default());
    let out = s.handle_message(WindowEvent::Destroyed);
    assert_eq!(out.actions, vec![Action::Quit]);
    assert!(out.suppress_default);
    assert_eq!(s.user_state().log, vec!["exit".to_string()]);
}

#[test]
fn timer_failure_is_reported_before_the_timer_hook() {
    let mut s = Session::new(Recorder::default());
    let out = s.handle_message(WindowEvent::TimerFired {
        timer_id: 9,
        kill_error: Some("Error stopping timer 9: denied".to_string()),
    });
    assert!(out.actions.is_empty());
    assert_eq!(
        s.user_state().log,
        vec!["error: Error stopping timer 9: denied".to_string(), "timer 9".to_string()]
    );
}

/// Re-arms its timer on every firing.
#[derive(Default)]
struct Metronome {
    beats: usize,
}

impl SimpleWindowApp for Metronome {
    fn on_timer(&mut self, handle: &mut WindowHandle, _b: &mut Vec<u8>, _r: &Rect, timer_id: usize) {
        self.beats += 1;
        handle.set_timer(timer_id, 250);
    }
}

#[test]
fn fired_timer_stays_dead_without_a_rearm() {
    let mut s = Session::new(Recorder::default());
    let out = s.handle_message(WindowEvent::TimerFired { timer_id: 3, kill_error: None });
    assert!(
        !out.actions.iter().any(|a| matches!(a, Action::SetTimer { .. })),
        "no re-arm was requested, so the one-shot timer is gone"
    );
}

#[test]
fn fired_timer_runs_again_only_through_an_explicit_rearm() {
    let mut s = Session::new(Metronome::default());
    let out = s.handle_message(WindowEvent::TimerFired { timer_id: 3, kill_error: None });
    assert_eq!(out.actions, vec![Action::SetTimer { timer_id: 3, milliseconds: 250 }]);
    assert_eq!(s.user_state().beats, 1);
}

/// Arms a timer during initialisation.
struct EagerStarter {}

impl SimpleWindowApp for EagerStarter {
    fn on_init(&mut self, handle: &mut WindowHandle) {
        handle.set_timer(1, 16);
        handle.request_redraw();
    }
}

#[test]
fn init_hook_requests_come_back_as_actions() {
    let mut s = Session::new(EagerStarter {});
    let actions = s.handle_init();
    assert_eq!(
        actions,
        vec![Action::SetTimer { timer_id: 1, milliseconds: 16 }, Action::RequestRedraw]
    );
}

/// Clamps the proposed width during a live resize.
struct WidthClamp {}

impl SimpleWindowApp for WidthClamp {
    fn on_resizing(&mut self, _handle: &mut WindowHandle, client_rect: &mut Rect) {
        if client_rect.width() > 500 {
            client_rect.right = client_rect.left + 500;
        }
    }
}

#[test]
fn sizing_negotiation_clamps_without_committing() {
    let mut s = Session::new(WidthClamp {});
    s.handle_message(resized(400, 300));
    let (negotiated, actions) = s.handle_sizing(rect(800, 600));
    assert_eq!(negotiated, rect(500, 600));
    assert!(actions.is_empty());
    assert_eq!(s.client_rect(), rect(400, 300), "a sizing preview commits nothing");
    assert_eq!(s.buffer_len(), 480000);
    let (kept, _) = s.handle_sizing(rect(300, 200));
    assert_eq!(kept, rect(300, 200));
}

/// Replaces the attached menu when a command arrives.
struct MenuSwapper {}

impl SimpleWindowApp for MenuSwapper {
    fn on_command(&mut self, handle: &mut WindowHandle, _b: &mut Vec<u8>, _r: &Rect, _id: u16) {
        let mut menu = Menu::new().unwrap();
        menu.add_item(7, "seven").unwrap();
        handle.replace_menu(menu).unwrap();
        handle.redraw_menu().unwrap();
    }
}

#[test]
fn replace_menu_leaves_exactly_one_attached_menu() {
    let mut s = Session::new(MenuSwapper {});
    assert_eq!(s.menu().unwrap().item_count(), 0, "a fresh session holds an empty menu bar");
    let out = s.handle_message(WindowEvent::Command { native_id: 0xF001 });
    assert_eq!(out.actions, vec![Action::RedrawMenuBar]);
    let menu = s.menu().expect("exactly one menu is attached");
    assert_eq!(menu.item_count(), 1);
    match &menu.entries()[0] {
        MenuEntry::Item { native_id, text, .. } => {
            assert_eq!(*native_id, 0xF008);
            assert_eq!(text, "seven");
        }
        other => panic!("expected the swapped-in item, got {:?}", other),
    }
}

#[test]
fn error_reports_reach_the_error_hook() {
    let mut s = Session::new(Recorder::default());
    let actions = s.report_error("Couldn't draw pixel buffer: device lost");
    assert!(actions.is_empty());
    assert_eq!(
        s.user_state().log,
        vec!["error: Couldn't draw pixel buffer: device lost".to_string()]
    );
}

#[test]
fn classification_decodes_packed_parameters() {
    assert_eq!(
        classify_message(WM_MOUSEMOVE, 0, 0x0014FFF6),
        Step::Dispatch(WindowEvent::MouseMove { x: -10, y: 20 })
    );
    assert_eq!(
        classify_message(WM_LBUTTONDOWN, 0, (3 << 16) | 5),
        Step::Dispatch(WindowEvent::MouseDown { button: MouseButton::Left, x: 5, y: 3 })
    );
    assert_eq!(
        classify_message(WM_MOUSEWHEEL, 0xFF88_0000, 0),
        Step::Dispatch(WindowEvent::Scroll { distance: -120 })
    );
    assert_eq!(
        classify_message(WM_COMMAND, 0xF02B, 0),
        Step::Dispatch(WindowEvent::Command { native_id: 0xF02B })
    );
    assert_eq!(classify_message(WM_TIMER, 5, 0), Step::CancelTimer { timer_id: 5 });
    assert_eq!(classify_message(WM_SIZE, 0, 0), Step::QueryClientRect);
    assert_eq!(classify_message(WM_SIZING, 0, 0), Step::NegotiateSizing);
    assert_eq!(classify_message(WM_PAINT, 0, 0), Step::Dispatch(WindowEvent::Paint));
    assert_eq!(
        classify_message(WM_ACTIVATE, 0x0002_0000, 0),
        Step::Dispatch(WindowEvent::Activated { active: false }),
        "minimised activation carries state in the low word only"
    );
    assert_eq!(
        classify_message(WM_ACTIVATE, 1, 0),
        Step::Dispatch(WindowEvent::Activated { active: true })
    );
    assert_eq!(
        classify_message(WM_NCACTIVATE, 0, 0),
        Step::Dispatch(WindowEvent::Activated { active: false })
    );
    assert_eq!(
        classify_message(WM_KEYUP, 27, 0),
        Step::Dispatch(WindowEvent::KeyUp { key_code: 27 })
    );
    assert_eq!(
        classify_message(WM_DESTROY, 0, 0),
        Step::Dispatch(WindowEvent::Destroyed)
    );
    assert_eq!(classify_message(0x0400, 0, 0), Step::PassThrough);
}
