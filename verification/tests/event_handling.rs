use egui_window_winit::backend::{
    parent_size_changed, render_order, ControlFlow, RenderOrder, WindowEvent, WinitBackend,
};
use egui_window_winit::events::{DroppedFile, InputEvent};
use egui_window_winit::input::{
    EguiTouchPhase, ElementState, Modifiers, ModifiersState, MouseButton, PointerButton, TouchPhase,
    ALT_BIT, CTRL_BIT,
};
use egui_window_winit::keys::{Key, KeyCode};

type Backend = WinitBackend<[f32; 2], f32>;

fn backend() -> Backend {
    WinitBackend::new(1.0, [0.0, 0.0])
}

#[test]
fn new_backend_starts_empty_and_needs_a_resize() {
    let b = backend();
    assert_eq!(b.framebuffer_size, [0, 0]);
    assert!(b.latest_resize_event);
    assert!(!b.should_close);
    assert!(b.suspended);
    assert_eq!(b.pointer_touch_id, None);
    assert_eq!(b.modifiers, Modifiers::none());
    assert!(b.raw_input.events.is_empty());
    assert_eq!(b.raw_input.screen_rect, None);
}

#[test]
fn mouse_button_is_pressed_where_the_cursor_is() {
    let mut b = backend();
    b.handle_event(WindowEvent::CursorMoved { position: [3.0, 4.0] });
    b.handle_event(WindowEvent::ModifiersChanged(ModifiersState { bits: CTRL_BIT }));
    b.handle_event(WindowEvent::MouseInput { state: ElementState::Pressed, button: MouseButton::Right });
    let ctrl = Modifiers { alt: false, ctrl: true, shift: false, mac_cmd: false, command: false };
    assert_eq!(
        b.raw_input.events,
        vec![
            InputEvent::PointerMoved([3.0, 4.0]),
            InputEvent::PointerButton {
                pos: [3.0, 4.0],
                button: PointerButton::Secondary,
                pressed: true,
                modifiers: ctrl,
            },
        ]
    );
    assert_eq!(b.cursor_pos_logical, [3.0, 4.0]);
}

#[test]
fn key_events_carry_the_current_modifiers() {
    let mut b = backend();
    b.handle_event(WindowEvent::ModifiersChanged(ModifiersState { bits: ALT_BIT }));
    b.handle_event(WindowEvent::KeyboardInput {
        state: ElementState::Released,
        virtual_keycode: Some(KeyCode::Numpad5),
    });
    let alt = Modifiers { alt: true, ctrl: false, shift: false, mac_cmd: false, command: false };
    assert_eq!(b.raw_input.events, vec![InputEvent::Key { key: Key::Num5, pressed: false, modifiers: alt }]);
}

#[test]
fn keys_egui_lacks_give_no_event() {
    let mut b = backend();
    b.handle_event(WindowEvent::KeyboardInput { state: ElementState::Pressed, virtual_keycode: Some(KeyCode::LControl) });
    b.handle_event(WindowEvent::KeyboardInput { state: ElementState::Pressed, virtual_keycode: None });
    assert!(b.raw_input.events.is_empty());
}

#[test]
fn typed_character_becomes_text() {
    let mut b = backend();
    b.handle_event(WindowEvent::ReceivedCharacter('é'));
    b.handle_event(WindowEvent::ReceivedCharacter('x'));
    assert_eq!(
        b.raw_input.events,
        vec![InputEvent::Text("é".to_string()), InputEvent::Text("x".to_string())]
    );
}

#[test]
fn cursor_leaving_and_scrolling_become_events() {
    let mut b = backend();
    b.handle_event(WindowEvent::MouseWheel { delta: [0.0, -2.5] });
    b.handle_event(WindowEvent::CursorLeft);
    assert_eq!(b.raw_input.events, vec![InputEvent::Scroll([0.0, -2.5]), InputEvent::PointerGone]);
}

#[test]
fn dropped_file_is_named_by_its_last_component() {
    let mut b = backend();
    b.handle_event(WindowEvent::DroppedFile("/home/user/pictures/cat.png".to_string()));
    assert_eq!(
        b.raw_input.dropped_files,
        vec![DroppedFile { path: "/home/user/pictures/cat.png".to_string(), name: "cat.png".to_string() }]
    );
    assert!(b.raw_input.events.is_empty());
}

#[test]
fn dropped_path_ending_in_parent_dir_has_no_name() {
    let mut b = backend();
    b.handle_event(WindowEvent::DroppedFile("/home/user/..".to_string()));
    assert_eq!(b.raw_input.dropped_files[0].name, "");
    assert_eq!(b.raw_input.dropped_files[0].path, "/home/user/..");
}

#[test]
fn resize_records_size_and_marks_framebuffer() {
    let mut b = backend();
    let _ = b.begin_frame();
    b.on_resumed([10, 10], 1.0, [10.0, 10.0]);
    let frame = b.begin_frame().unwrap();
    assert!(frame.framebuffer_needs_resize);
    assert!(!b.latest_resize_event);
    b.handle_event(WindowEvent::Resized { width: 800, height: 600, logical_size: [400.0, 300.0] });
    assert_eq!(b.framebuffer_size, [800, 600]);
    assert!(b.latest_resize_event);
    assert_eq!(b.raw_input.screen_rect, Some([400.0, 300.0]));
    assert!(b.raw_input.events.is_empty());
}

#[test]
fn scale_change_records_scale_and_marks_framebuffer() {
    let mut b = backend();
    b.latest_resize_event = false;
    b.handle_event(WindowEvent::ScaleFactorChanged { scale_factor: 2.0 });
    assert_eq!(b.scale, 2.0);
    assert_eq!(b.raw_input.pixels_per_point, Some(2.0));
    assert!(b.latest_resize_event);
}

#[test]
fn close_request_ends_the_loop() {
    let mut b = backend();
    assert_eq!(b.control_flow(), ControlFlow::Poll);
    b.handle_event(WindowEvent::CloseRequested);
    assert!(b.should_close);
    assert_eq!(b.control_flow(), ControlFlow::Exit);
    b.handle_event(WindowEvent::Destroyed);
    b.handle_event(WindowEvent::Other);
    assert_eq!(b.control_flow(), ControlFlow::Exit);
}

#[test]
fn tap_emulates_a_click() {
    let mut b = backend();
    b.handle_event(WindowEvent::Touch { device_id: 9, id: 1, phase: TouchPhase::Started, location: [1.0, 2.0], force: 0.5 });
    assert_eq!(b.pointer_touch_id, Some(1));
    b.handle_event(WindowEvent::Touch { device_id: 9, id: 1, phase: TouchPhase::Ended, location: [1.5, 2.5], force: 0.0 });
    assert_eq!(b.pointer_touch_id, None);
    let none = Modifiers::none();
    assert_eq!(
        b.raw_input.events,
        vec![
            InputEvent::PointerMoved([1.0, 2.0]),
            InputEvent::PointerButton { pos: [1.0, 2.0], button: PointerButton::Primary, pressed: true, modifiers: none },
            InputEvent::Touch { device_id: 9, id: 1, phase: EguiTouchPhase::Start, pos: [1.0, 2.0], force: 0.5 },
            InputEvent::PointerButton { pos: [1.5, 2.5], button: PointerButton::Primary, pressed: false, modifiers: none },
            InputEvent::PointerGone,
            InputEvent::Touch { device_id: 9, id: 1, phase: EguiTouchPhase::End, pos: [1.5, 2.5], force: 0.0 },
        ]
    );
    assert_eq!(b.cursor_pos_logical, [1.5, 2.5]);
}

#[test]
fn second_touch_does_not_drive_the_pointer() {
    let mut b = backend();
    b.handle_event(WindowEvent::Touch { device_id: 9, id: 1, phase: TouchPhase::Started, location: [1.0, 1.0], force: 1.0 });
    let _ = b.take_raw_input();
    b.handle_event(WindowEvent::Touch { device_id: 9, id: 2, phase: TouchPhase::Started, location: [5.0, 5.0], force: 1.0 });
    b.handle_event(WindowEvent::Touch { device_id: 9, id: 2, phase: TouchPhase::Cancelled, location: [5.0, 6.0], force: 1.0 });
    assert_eq!(b.pointer_touch_id, Some(1));
    assert_eq!(
        b.raw_input.events,
        vec![
            InputEvent::Touch { device_id: 9, id: 2, phase: EguiTouchPhase::Start, pos: [5.0, 5.0], force: 1.0 },
            InputEvent::Touch { device_id: 9, id: 2, phase: EguiTouchPhase::Cancel, pos: [5.0, 6.0], force: 1.0 },
        ]
    );
    b.handle_event(WindowEvent::Touch { device_id: 9, id: 1, phase: TouchPhase::Moved, location: [2.0, 2.0], force: 1.0 });
    b.handle_event(WindowEvent::Touch { device_id: 9, id: 1, phase: TouchPhase::Cancelled, location: [2.0, 2.0], force: 1.0 });
    assert_eq!(b.pointer_touch_id, None);
    assert_eq!(b.raw_input.events[2], InputEvent::PointerMoved([2.0, 2.0]));
    assert_eq!(b.raw_input.events[4], InputEvent::PointerGone);
    assert_eq!(b.raw_input.events.len(), 6);
}

#[test]
fn take_hands_out_everything_in_order() {
    let mut b = backend();
    b.handle_event(WindowEvent::Resized { width: 2, height: 2, logical_size: [2.0, 2.0] });
    b.handle_event(WindowEvent::CursorLeft);
    b.handle_event(WindowEvent::DroppedFile("a.txt".to_string()));
    b.handle_event(WindowEvent::ReceivedCharacter('q'));
    let taken = b.take_raw_input();
    assert_eq!(taken.screen_rect, Some([2.0, 2.0]));
    assert_eq!(taken.events, vec![InputEvent::PointerGone, InputEvent::Text("q".to_string())]);
    assert_eq!(taken.dropped_files[0].name, "a.txt");
    assert!(b.raw_input.events.is_empty());
    assert!(b.raw_input.dropped_files.is_empty());
    assert_eq!(b.raw_input.screen_rect, None);
    assert_eq!(b.raw_input.pixels_per_point, None);
}

#[test]
fn no_frame_while_suspended() {
    let mut b = backend();
    b.handle_event(WindowEvent::CursorLeft);
    assert!(b.begin_frame().is_none());
    assert_eq!(b.raw_input.events.len(), 1);
    assert!(b.latest_resize_event);
    b.on_resumed([640, 480], 2.0, [320.0, 240.0]);
    assert!(!b.suspended);
    assert_eq!(b.framebuffer_size, [640, 480]);
    assert_eq!(b.scale, 2.0);
    assert!(b.raw_input.events.is_empty());
    let frame = b.begin_frame().unwrap();
    assert_eq!(frame.input.screen_rect, Some([320.0, 240.0]));
    assert_eq!(frame.input.pixels_per_point, Some(2.0));
    b.on_suspended();
    assert!(b.begin_frame().is_none());
}

#[test]
fn render_order_follows_the_render_target() {
    assert_eq!(render_order(true), RenderOrder::EguiThenFinalPass);
    assert_eq!(render_order(false), RenderOrder::FinalPassThenEgui);
}

#[test]
fn canvas_resizes_only_on_a_new_parent_size() {
    assert!(!parent_size_changed((300, 200), 300, 200));
    assert!(parent_size_changed((300, 200), 301, 200));
    assert!(parent_size_changed((0, 0), 0, 5));
}

#[test]
fn plain_dropped_name_names_itself() {
    let mut b = backend();
    b.handle_event(WindowEvent::DroppedFile("notes.txt".to_string()));
    assert_eq!(b.raw_input.dropped_files[0].name, "notes.txt");
}

#[test]
fn frames_report_resizes_since_the_last_frame() {
    let mut b = backend();
    assert!(b.begin_frame().is_none());
    b.on_resumed([100, 100], 1.0, [100.0, 100.0]);
    assert!(b.begin_frame().unwrap().framebuffer_needs_resize);
    assert!(!b.begin_frame().unwrap().framebuffer_needs_resize);
    b.handle_event(WindowEvent::CursorLeft);
    assert!(!b.begin_frame().unwrap().framebuffer_needs_resize);
    b.handle_event(WindowEvent::ScaleFactorChanged { scale_factor: 1.5 });
    b.handle_event(WindowEvent::CursorLeft);
    assert!(b.begin_frame().unwrap().framebuffer_needs_resize);
    assert!(!b.begin_frame().unwrap().framebuffer_needs_resize);
}

#[test]
fn each_event_reaches_one_frame() {
    let mut b = backend();
    b.on_resumed([100, 100], 1.0, [100.0, 100.0]);
    b.handle_event(WindowEvent::ReceivedCharacter('a'));
    b.handle_event(WindowEvent::CursorLeft);
    let first = b.begin_frame().unwrap();
    b.handle_event(WindowEvent::ReceivedCharacter('b'));
    b.on_suspended();
    assert!(b.begin_frame().is_none());
    b.on_resumed([100, 100], 1.0, [100.0, 100.0]);
    b.handle_event(WindowEvent::ReceivedCharacter('c'));
    let second = b.begin_frame().unwrap();
    let third = b.begin_frame().unwrap();
    assert_eq!(first.input.events, vec![InputEvent::Text("a".to_string()), InputEvent::PointerGone]);
    assert_eq!(second.input.events, vec![InputEvent::Text("c".to_string())]);
    assert!(third.input.events.is_empty());
}

#[test]
fn dropped_root_has_no_name() {
    let mut b = backend();
    b.handle_event(WindowEvent::DroppedFile("/".to_string()));
    b.handle_event(WindowEvent::DroppedFile("dir/sub/file.txt".to_string()));
    assert_eq!(b.raw_input.dropped_files[0].name, "");
    assert_eq!(b.raw_input.dropped_files[1].name, "file.txt");
}

#[test]
fn each_dropped_file_reaches_one_frame() {
    let mut b = backend();
    b.on_resumed([100, 100], 1.0, [100.0, 100.0]);
    b.handle_event(WindowEvent::DroppedFile("a/one.txt".to_string()));
    let first = b.begin_frame().unwrap();
    b.handle_event(WindowEvent::DroppedFile("a/two.txt".to_string()));
    let second = b.begin_frame().unwrap();
    let third = b.begin_frame().unwrap();
    assert_eq!(first.input.dropped_files.len(), 1);
    assert_eq!(first.input.dropped_files[0].name, "one.txt");
    assert_eq!(second.input.dropped_files.len(), 1);
    assert_eq!(second.input.dropped_files[0].name, "two.txt");
    assert!(third.input.dropped_files.is_empty());
}
