use vstd::prelude::*;
use crate::events::{
    after_last_slash, char_text, ends_in_parent_dir, is_plain_name, split_at_slash_only, DroppedFile, DroppedFileView, EventView, InputEvent, RawInput, RawInputView,
};
use crate::input::{
    egui_button_of, egui_modifiers_of, egui_phase_of, is_pressed, winit_modifiers_to_egui,
    winit_mouse_button_to_egui, ElementState, EguiTouchPhase, Modifiers, ModifiersState,
    MouseButton, PointerButton, TouchPhase,
};
use crate::keys::{egui_key_of, winit_key_to_egui, KeyCode};

verus! {

/// A window event, as the event loop hands it over once it has done the
/// arithmetic on floating-point values: positions and scroll amounts are
/// already in logical points (of type `P`), scale factors and forces are of
/// type `F`.
#[derive(Clone, Debug, PartialEq)]
pub enum WindowEvent<P, F> {
    /// The framebuffer has a new size in physical pixels; `logical_size` is
    /// the size of the screen in logical points.
    Resized { width: u32, height: u32, logical_size: P },
    /// The user asked to close the window.
    CloseRequested,
    /// A file was dropped onto the window.
    DroppedFile(String),
    /// A character was typed.
    ReceivedCharacter(char),
    /// A key went down or came up; `virtual_keycode` is the key's symbol, if
    /// the platform knows it.
    KeyboardInput { state: ElementState, virtual_keycode: Option<KeyCode> },
    /// The set of held modifier keys changed.
    ModifiersChanged(ModifiersState),
    /// The cursor moved to `position`.
    CursorMoved { position: P },
    /// The cursor left the window.
    CursorLeft,
    /// The wheel or touchpad scrolled by `delta`.
    MouseWheel { delta: P },
    /// A mouse button went down or came up.
    MouseInput { state: ElementState, button: MouseButton },
    /// The number of physical pixels per logical point changed.
    ScaleFactorChanged { scale_factor: F },
    /// The window was destroyed.
    Destroyed,
    /// A touch at `location`.
    Touch { device_id: u64, id: u64, phase: TouchPhase, location: P, force: F },
    /// Any other window event.
    Other,
}

/// What the event loop does after an event.
#[derive(Clone, Copy, Debug, PartialEq, Eq, Structural)]
pub enum ControlFlow {
    /// Go on polling for events.
    Poll,
    /// Leave the event loop.
    Exit,
}

/// In which order a frame draws egui and the application's final pass.
#[derive(Clone, Copy, Debug, PartialEq, Eq, Structural)]
pub enum RenderOrder {
    /// egui first, then the final pass, which uses what egui drew.
    EguiThenFinalPass,
    /// The final pass first, then egui on top of it.
    FinalPassThenEgui,
}

/// What a frame starts with: the input gathered since the last frame, and
/// whether the framebuffer changed size since then.
#[derive(Debug)]
pub struct Frame<P, F> {
    pub input: RawInput<P, F>,
    pub framebuffer_needs_resize: bool,
}

/// The state that the winit backend keeps between events.
#[derive(Debug)]
pub struct WinitBackend<P, F> {
    /// The modifier keys held now.
    pub modifiers: Modifiers,
    /// The touch that drives the pointer, if one does.
    pub pointer_touch_id: Option<u64>,
    /// The framebuffer's size in physical pixels.
    pub framebuffer_size: [u32; 2],
    /// Physical pixels per logical point.
    pub scale: F,
    /// The cursor's position in logical points.
    pub cursor_pos_logical: P,
    /// The input gathered for egui's next frame.
    pub raw_input: RawInput<P, F>,
    /// Whether the framebuffer changed size since the last frame began.
    pub latest_resize_event: bool,
    /// Whether the window is to close.
    pub should_close: bool,
    /// Whether the application is suspended, so that no frame is drawn.
    pub suspended: bool,
}

/// What the backend's state holds.
pub struct WinitBackendView<P, F> {
    pub modifiers: Modifiers,
    pub pointer_touch_id: Option<u64>,
    pub framebuffer_size: [u32; 2],
    pub scale: F,
    pub cursor_pos_logical: P,
    pub raw_input: RawInputView<P, F>,
    pub latest_resize_event: bool,
    pub should_close: bool,
    pub suspended: bool,
}

impl<P, F> View for WinitBackend<P, F> {
    type V = WinitBackendView<P, F>;

    open spec fn view(&self) -> WinitBackendView<P, F> {
        WinitBackendView {
            modifiers: self.modifiers,
            pointer_touch_id: self.pointer_touch_id,
            framebuffer_size: self.framebuffer_size,
            scale: self.scale,
            cursor_pos_logical: self.cursor_pos_logical,
            raw_input: self.raw_input@,
            latest_resize_event: self.latest_resize_event,
            should_close: self.should_close,
            suspended: self.suspended,
        }
    }
}

/// The events that emulate the pointer for a touch that drives it: a touch
/// that starts moves the pointer there and presses the primary button, one
/// that moves moves the pointer, one that ends releases the button and
/// takes the pointer away, and one that is cancelled takes it away.
pub open spec fn touch_pointer_events<P, F>(phase: TouchPhase, pos: P, modifiers: Modifiers) -> Seq<EventView<P, F>> {
    match phase {
        TouchPhase::Started => seq![
            EventView::PointerMoved(pos),
            EventView::PointerButton { pos, button: PointerButton::Primary, pressed: true, modifiers },
        ],
        TouchPhase::Moved => seq![EventView::PointerMoved(pos)],
        TouchPhase::Ended => seq![
            EventView::PointerButton { pos, button: PointerButton::Primary, pressed: false, modifiers },
            EventView::PointerGone,
        ],
        TouchPhase::Cancelled => seq![EventView::PointerGone],
    }
}

/// Which touch drives the pointer after a touch that drives it: the one
/// that started, and none once it ended or was cancelled.
pub open spec fn pointer_touch_after(phase: TouchPhase, id: u64, before: Option<u64>) -> Option<u64> {
    match phase {
        TouchPhase::Started => Some(id),
        TouchPhase::Moved => before,
        TouchPhase::Ended | TouchPhase::Cancelled => None,
    }
}

impl<P, F> WinitBackendView<P, F> {
    /// The state as it is when the backend is created, with the given scale
    /// and cursor position.
    pub open spec fn initial(scale: F, cursor: P) -> WinitBackendView<P, F> {
        WinitBackendView {
            modifiers: Modifiers::spec_none(),
            pointer_touch_id: None,
            framebuffer_size: [0u32, 0u32],
            scale,
            cursor_pos_logical: cursor,
            raw_input: RawInputView::empty(),
            latest_resize_event: true,
            should_close: false,
            suspended: true,
        }
    }

    /// The same state with the given events after the gathered ones.
    pub open spec fn with_events(self, events: Seq<EventView<P, F>>) -> WinitBackendView<P, F> {
        WinitBackendView {
            raw_input: RawInputView { events: self.raw_input.events + events, ..self.raw_input },
            ..self
        }
    }

    /// Whether a touch with this id drives the pointer: it does when no
    /// touch does yet, or when it is the one that does.
    pub open spec fn touch_drives_pointer(self, id: u64) -> bool {
        self.pointer_touch_id is None || self.pointer_touch_id == Some(id)
    }

    /// The egui events that a window event adds, in order.
    pub open spec fn emitted_events(self, event: WindowEvent<P, F>) -> Seq<EventView<P, F>> {
        match event {
            WindowEvent::ReceivedCharacter(c) => seq![EventView::Text(seq![c])],
            WindowEvent::KeyboardInput { state, virtual_keycode } => match virtual_keycode {
                Some(code) => match egui_key_of(code) {
                    Some(key) => seq![
                        EventView::Key { key, pressed: is_pressed(state), modifiers: self.modifiers },
                    ],
                    None => seq![],
                },
                None => seq![],
            },
            WindowEvent::CursorMoved { position } => seq![EventView::PointerMoved(position)],
            WindowEvent::CursorLeft => seq![EventView::PointerGone],
            WindowEvent::MouseWheel { delta } => seq![EventView::Scroll(delta)],
            WindowEvent::MouseInput { state, button } => seq![
                EventView::PointerButton {
                    pos: self.cursor_pos_logical,
                    button: egui_button_of(button),
                    pressed: is_pressed(state),
                    modifiers: self.modifiers,
                },
            ],
            WindowEvent::Touch { device_id, id, phase, location, force } => {
                let pointer_events = if self.touch_drives_pointer(id) {
                    touch_pointer_events(phase, location, self.modifiers)
                } else {
                    seq![]
                };
                pointer_events.push(
                    EventView::Touch {
                        device_id,
                        id,
                        phase: egui_phase_of(phase),
                        pos: location,
                        force,
                    },
                )
            },
            _ => seq![],
        }
    }

    /// The state after a window event. A dropped file is recorded under the
    /// name `dropped_name`, which std's path handling gives it.
    pub open spec fn after_window_event(self, event: WindowEvent<P, F>, dropped_name: Seq<char>) -> WinitBackendView<P, F> {
        let emitted = self.emitted_events(event);
        match event {
            WindowEvent::Resized { width, height, logical_size } => WinitBackendView {
                raw_input: RawInputView { screen_rect: Some(logical_size), ..self.raw_input },
                latest_resize_event: true,
                framebuffer_size: [width, height],
                ..self
            },
            WindowEvent::CloseRequested => WinitBackendView { should_close: true, ..self },
            WindowEvent::DroppedFile(path) => WinitBackendView {
                raw_input: self.raw_input.with_dropped_file(
                    DroppedFileView { path: path@, name: dropped_name },
                ),
                ..self
            },
            WindowEvent::ModifiersChanged(m) => WinitBackendView { modifiers: egui_modifiers_of(m), ..self },
            WindowEvent::CursorMoved { position } => WinitBackendView {
                cursor_pos_logical: position,
                ..self
            }.with_events(emitted),
            WindowEvent::ScaleFactorChanged { scale_factor } => WinitBackendView {
                scale: scale_factor,
                raw_input: RawInputView { pixels_per_point: Some(scale_factor), ..self.raw_input },
                latest_resize_event: true,
                ..self
            },
            WindowEvent::Touch { device_id, id, phase, location, force } => WinitBackendView {
                cursor_pos_logical: location,
                pointer_touch_id: if self.touch_drives_pointer(id) {
                    pointer_touch_after(phase, id, self.pointer_touch_id)
                } else {
                    self.pointer_touch_id
                },
                ..self
            }.with_events(emitted),
            _ => self.with_events(emitted),
        }
    }

    /// The state after the application is suspended.
    pub open spec fn after_suspend(self) -> WinitBackendView<P, F> {
        WinitBackendView { suspended: true, ..self }
    }

    /// The state after the application resumes with a framebuffer of the
    /// given size, at the given scale, showing a screen of the given logical
    /// size: the gathered input starts afresh with only the screen and scale.
    pub open spec fn after_resume(self, framebuffer_size: [u32; 2], scale: F, screen_size: P) -> WinitBackendView<P, F> {
        WinitBackendView {
            suspended: false,
            framebuffer_size,
            scale,
            raw_input: RawInputView {
                screen_rect: Some(screen_size),
                pixels_per_point: Some(scale),
                ..RawInputView::<P, F>::empty()
            },
            ..self
        }
    }

    /// The state once a frame has begun: the gathered input is handed out and
    /// the framebuffer is no longer marked as resized.
    pub open spec fn after_frame(self) -> WinitBackendView<P, F> {
        WinitBackendView { raw_input: RawInputView::empty(), latest_resize_event: false, ..self }
    }

    /// The name under which the last dropped file is recorded.
    pub open spec fn last_dropped_name(self) -> Seq<char> {
        self.raw_input.dropped_files.last().name
    }
}

impl<P: Copy, F: Copy> WinitBackend<P, F> {
    /// The backend's state when it is created: no modifier held, no touch,
    /// an empty framebuffer that is to be sized, nothing gathered, the
    /// window open and the application not yet resumed.
    pub fn new(scale: F, cursor: P) -> (backend: WinitBackend<P, F>)
        ensures
            backend@ == WinitBackendView::initial(scale, cursor),
    {
        WinitBackend {
            modifiers: Modifiers::none(),
            pointer_touch_id: None,
            framebuffer_size: [0u32, 0u32],
            scale,
            cursor_pos_logical: cursor,
            raw_input: RawInput::new(),
            latest_resize_event: true,
            should_close: false,
            suspended: true,
        }
    }

    /// Hands out the input gathered for egui and keeps nothing of it.
    pub fn take_raw_input(&mut self) -> (input: RawInput<P, F>)
        ensures
            input@ == old(self)@.raw_input,
            final(self)@ == (WinitBackendView { raw_input: RawInputView::empty(), ..old(self)@ }),
    {
        self.raw_input.take()
    }

    /// Turns a window event into egui input and updates the state.
    pub fn handle_event(&mut self, event: WindowEvent<P, F>)
        ensures
            final(self)@ == old(self)@.after_window_event(event, final(self)@.last_dropped_name()),
            event matches WindowEvent::MouseInput { state, button } ==> final(self)@.raw_input.events
                == old(self)@.raw_input.events.push(EventView::PointerButton {
                    pos: old(self).cursor_pos_logical,
                    button: egui_button_of(button),
                    pressed: state == ElementState::Pressed,
                    modifiers: old(self).modifiers,
                }),
            event matches WindowEvent::Touch { id, phase, .. } ==> final(self).pointer_touch_id == if phase
                == TouchPhase::Started && old(self).pointer_touch_id is None {
                Some(id)
            } else if (phase == TouchPhase::Ended || phase == TouchPhase::Cancelled)
                && old(self).pointer_touch_id == Some(id) {
                None
            } else {
                old(self).pointer_touch_id
            },
            event matches WindowEvent::DroppedFile(path) ==> (ends_in_parent_dir(path@)
                ==> final(self)@.last_dropped_name().len() == 0),
            event matches WindowEvent::DroppedFile(path) ==> (path@ =~= seq!['/']
                ==> final(self)@.last_dropped_name().len() == 0),
            event matches WindowEvent::DroppedFile(path) ==> (split_at_slash_only(path@)
                && is_plain_name(after_last_slash(path@))
                ==> final(self)@.last_dropped_name() == after_last_slash(path@)),
            event matches WindowEvent::DroppedFile(path) ==> (is_plain_name(path@)
                ==> final(self)@.last_dropped_name() == path@),
    {
        let ghost before = self@;
        let ghost ev = event;
        match event {
            WindowEvent::Resized { width, height, logical_size } => {
                self.raw_input.screen_rect = Some(logical_size);
                self.latest_resize_event = true;
                self.framebuffer_size = [width, height];
            },
            WindowEvent::CloseRequested => {
                self.should_close = true;
            },
            WindowEvent::DroppedFile(path) => {
                self.raw_input.push_dropped_file(DroppedFile::from_path(path));
            },
            WindowEvent::ReceivedCharacter(c) => {
                self.raw_input.push_event(InputEvent::Text(char_text(c)));
            },
            WindowEvent::KeyboardInput { state, virtual_keycode } => {
                let pressed = match state {
                    ElementState::Pressed => true,
                    ElementState::Released => false,
                };
                if let Some(key_code) = virtual_keycode {
                    if let Some(key) = winit_key_to_egui(key_code) {
                        self.raw_input.push_event(InputEvent::Key { key, pressed, modifiers: self.modifiers });
                    }
                }
            },
            WindowEvent::ModifiersChanged(modifiers) => {
                self.modifiers = winit_modifiers_to_egui(modifiers);
            },
            WindowEvent::CursorMoved { position } => {
                self.cursor_pos_logical = position;
                self.raw_input.push_event(InputEvent::PointerMoved(position));
            },
            WindowEvent::CursorLeft => {
                self.raw_input.push_event(InputEvent::PointerGone);
            },
            WindowEvent::MouseWheel { delta } => {
                self.raw_input.push_event(InputEvent::Scroll(delta));
            },
            WindowEvent::MouseInput { state, button } => {
                let pressed = match state {
                    ElementState::Pressed => true,
                    ElementState::Released => false,
                };
                self.raw_input.push_event(
                    InputEvent::PointerButton {
                        pos: self.cursor_pos_logical,
                        button: winit_mouse_button_to_egui(button),
                        pressed,
                        modifiers: self.modifiers,
                    },
                );
            },
            WindowEvent::ScaleFactorChanged { scale_factor } => {
                self.scale = scale_factor;
                self.raw_input.pixels_per_point = Some(scale_factor);
                self.latest_resize_event = true;
            },
            WindowEvent::Destroyed => {},
            WindowEvent::Touch { device_id, id, phase, location, force } => {
                self.handle_touch(device_id, id, phase, location, force);
            },
            WindowEvent::Other => {},
        }
        proof {
            if !(ev is Touch) {
                assert(self@.raw_input.events =~= before.raw_input.events + before.emitted_events(ev));
            }
        }
    }

    /// A touch: the touch that drives the pointer (or any touch, when none
    /// does) also moves and presses the pointer; every touch is passed on.
    fn handle_touch(&mut self, device_id: u64, id: u64, phase: TouchPhase, pos: P, force: F)
        ensures
            final(self)@ == old(self)@.after_window_event(
                WindowEvent::Touch { device_id, id, phase, location: pos, force },
                final(self)@.last_dropped_name(),
            ),
    {
        let ghost before = self@;
        self.cursor_pos_logical = pos;
        let drives = match self.pointer_touch_id {
            None => true,
            Some(current) => current == id,
        };
        if drives {
            match phase {
                TouchPhase::Started => {
                    self.pointer_touch_id = Some(id);
                    self.raw_input.push_event(InputEvent::PointerMoved(pos));
                    self.raw_input.push_event(
                        InputEvent::PointerButton {
                            pos,
                            button: PointerButton::Primary,
                            pressed: true,
                            modifiers: self.modifiers,
                        },
                    );
                },
                TouchPhase::Moved => {
                    self.raw_input.push_event(InputEvent::PointerMoved(pos));
                },
                TouchPhase::Ended => {
                    self.pointer_touch_id = None;
                    self.raw_input.push_event(
                        InputEvent::PointerButton {
                            pos,
                            button: PointerButton::Primary,
                            pressed: false,
                            modifiers: self.modifiers,
                        },
                    );
                    self.raw_input.push_event(InputEvent::PointerGone);
                },
                TouchPhase::Cancelled => {
                    self.pointer_touch_id = None;
                    self.raw_input.push_event(InputEvent::PointerGone);
                },
            }
        }
        let egui_phase = match phase {
            TouchPhase::Started => EguiTouchPhase::Start,
            TouchPhase::Moved => EguiTouchPhase::Move,
            TouchPhase::Ended => EguiTouchPhase::End,
            TouchPhase::Cancelled => EguiTouchPhase::Cancel,
        };
        self.raw_input.push_event(InputEvent::Touch { device_id, id, phase: egui_phase, pos, force });
        proof {
            let event = WindowEvent::Touch { device_id, id, phase, location: pos, force };
            assert(self@.raw_input.events =~= before.raw_input.events + before.emitted_events(event));
        }
    }

    /// The application was suspended: no frame is drawn until it resumes.
    pub fn on_suspended(&mut self)
        ensures
            final(self)@ == old(self)@.after_suspend(),
    {
        self.suspended = true;
    }

    /// The application resumed with a window whose framebuffer has the
    /// given size, at the given scale, showing a screen of the given logical
    /// size: the state takes them, and the gathered input starts afresh with
    /// only the screen and the scale.
    pub fn on_resumed(&mut self, framebuffer_size: [u32; 2], scale: F, screen_size: P)
        ensures
            final(self)@ == old(self)@.after_resume(framebuffer_size, scale, screen_size),
    {
        self.suspended = false;
        self.framebuffer_size = framebuffer_size;
        self.scale = scale;
        self.raw_input = RawInput::with_screen(screen_size, scale);
    }

    /// A redraw was requested. While the application is suspended nothing is
    /// drawn and nothing changes; otherwise a frame begins with the gathered
    /// input, which the state gives up, and with whether the framebuffer
    /// changed size, which it then forgets.
    pub fn begin_frame(&mut self) -> (frame: Option<Frame<P, F>>)
        ensures
            old(self).suspended ==> frame is None && final(self)@ == old(self)@,
            !old(self).suspended ==> (frame matches Some(f) && f.input@ == old(self)@.raw_input
                && f.framebuffer_needs_resize == old(self).latest_resize_event
                && final(self)@ == old(self)@.after_frame()),
    {
        if self.suspended {
            return None;
        }
        let input = self.take_raw_input();
        let framebuffer_needs_resize = self.latest_resize_event;
        self.latest_resize_event = false;
        Some(Frame { input, framebuffer_needs_resize })
    }

    /// What the event loop does after an event: it leaves once the window is
    /// to close, and polls on otherwise.
    pub fn control_flow(&self) -> (flow: ControlFlow)
        ensures
            flow == (if self.should_close { ControlFlow::Exit } else { ControlFlow::Poll }),
    {
        if self.should_close {
            ControlFlow::Exit
        } else {
            ControlFlow::Poll
        }
    }
}

/// The order in which a frame draws: when the graphics backend renders to
/// an offscreen target, egui goes first and the final pass uses it;
/// otherwise the final pass goes first and egui is drawn on top.
pub fn render_order(offscreen: bool) -> (order: RenderOrder)
    ensures
        order == (if offscreen { RenderOrder::EguiThenFinalPass } else { RenderOrder::FinalPassThenEgui }),
{
    if offscreen {
        RenderOrder::EguiThenFinalPass
    } else {
        RenderOrder::FinalPassThenEgui
    }
}

/// Whether the canvas's parent has a size other than the last one seen, so
/// that the canvas must be resized.
pub fn parent_size_changed(last_size: (i32, i32), width: i32, height: i32) -> (changed: bool)
    ensures
        changed == !(last_size.0 == width && last_size.1 == height),
{
    !(last_size.0 == width && last_size.1 == height)
}

/// Once the window is to close it stays so: no window event takes that back,
/// and a close request is what sets it.
pub proof fn lemma_close_is_final<P, F>(state: WinitBackendView<P, F>, event: WindowEvent<P, F>, name: Seq<char>)
    ensures
        state.after_window_event(event, name).should_close == (state.should_close || event is CloseRequested),
{
}

/// Window events only ever add egui events after those already gathered,
/// never drop or reorder them; a file is recorded only for a dropped file.
pub proof fn lemma_input_only_grows<P, F>(state: WinitBackendView<P, F>, event: WindowEvent<P, F>, name: Seq<char>)
    ensures
        state.after_window_event(event, name).raw_input.events == state.raw_input.events + state.emitted_events(event),
        !(event is DroppedFile) ==> state.after_window_event(event, name).raw_input.dropped_files
            == state.raw_input.dropped_files,
        event matches WindowEvent::DroppedFile(path) ==> state.after_window_event(event, name).raw_input.dropped_files
            == state.raw_input.dropped_files.push(DroppedFileView { path: path@, name }),
{
    let after = state.after_window_event(event, name);
    if !(event is CursorMoved || event is Touch) {
        assert(after.raw_input.events =~= state.raw_input.events + state.emitted_events(event));
    }
}

/// The framebuffer is marked as resized by a resize or a change of scale, and
/// no other window event changes the mark.
pub proof fn lemma_resize_marks_framebuffer<P, F>(state: WinitBackendView<P, F>, event: WindowEvent<P, F>, name: Seq<char>)
    ensures
        state.after_window_event(event, name).latest_resize_event == if event is Resized || event is ScaleFactorChanged {
            true
        } else {
            state.latest_resize_event
        },
{
}

/// A key event carries the modifiers of the last change of modifiers.
pub proof fn lemma_key_events_carry_modifiers<P, F>(
    state: WinitBackendView<P, F>,
    modifiers: ModifiersState,
    key_state: ElementState,
    code: KeyCode,
    name: Seq<char>,
)
    requires
        egui_key_of(code) is Some,
    ensures
        ({
            let changed = state.after_window_event(WindowEvent::ModifiersChanged(modifiers), name);
            changed.emitted_events(WindowEvent::KeyboardInput { state: key_state, virtual_keycode: Some(code) })
                == seq![EventView::<P, F>::Key {
                    key: egui_key_of(code)->0,
                    pressed: key_state == ElementState::Pressed,
                    modifiers: egui_modifiers_of(modifiers),
                }]
        }),
{
}

/// A tap with no other touch on the pointer: the touch moves the pointer
/// there, presses and releases the primary button and takes the pointer
/// away, each touch event passed on after the pointer events it causes; after
/// it no touch drives the pointer.
pub proof fn lemma_tap_emulates_click<P, F>(
    state: WinitBackendView<P, F>,
    device_id: u64,
    id: u64,
    down: P,
    up: P,
    force_down: F,
    force_up: F,
    name: Seq<char>,
)
    requires
        state.pointer_touch_id is None,
    ensures
        ({
            let started = state.after_window_event(
                WindowEvent::Touch { device_id, id, phase: TouchPhase::Started, location: down, force: force_down },
                name,
            );
            let ended = started.after_window_event(
                WindowEvent::Touch { device_id, id, phase: TouchPhase::Ended, location: up, force: force_up },
                name,
            );
            let m = state.modifiers;
            &&& started.pointer_touch_id == Some(id)
            &&& ended.pointer_touch_id is None
            &&& ended.cursor_pos_logical == up
            &&& ended.raw_input.events == state.raw_input.events + seq![
                EventView::PointerMoved(down),
                EventView::PointerButton { pos: down, button: PointerButton::Primary, pressed: true, modifiers: m },
                EventView::Touch { device_id, id, phase: EguiTouchPhase::Start, pos: down, force: force_down },
                EventView::PointerButton { pos: up, button: PointerButton::Primary, pressed: false, modifiers: m },
                EventView::PointerGone,
                EventView::Touch { device_id, id, phase: EguiTouchPhase::End, pos: up, force: force_up },
            ]
        }),
{
    let started = state.after_window_event(
        WindowEvent::Touch { device_id, id, phase: TouchPhase::Started, location: down, force: force_down },
        name,
    );
    let ended = started.after_window_event(
        WindowEvent::Touch { device_id, id, phase: TouchPhase::Ended, location: up, force: force_up },
        name,
    );
    let m = state.modifiers;
    assert(ended.raw_input.events =~= state.raw_input.events + seq![
        EventView::PointerMoved(down),
        EventView::PointerButton { pos: down, button: PointerButton::Primary, pressed: true, modifiers: m },
        EventView::Touch { device_id, id, phase: EguiTouchPhase::Start, pos: down, force: force_down },
        EventView::PointerButton { pos: up, button: PointerButton::Primary, pressed: false, modifiers: m },
        EventView::PointerGone,
        EventView::Touch { device_id, id, phase: EguiTouchPhase::End, pos: up, force: force_up },
    ]);
}

/// While one touch drives the pointer, another touch leaves the pointer
/// alone: it is passed on as a touch and nothing else.
pub proof fn lemma_second_touch_leaves_pointer<P, F>(
    state: WinitBackendView<P, F>,
    device_id: u64,
    id: u64,
    phase: TouchPhase,
    location: P,
    force: F,
    name: Seq<char>,
)
    requires
        state.pointer_touch_id is Some,
        state.pointer_touch_id != Some(id),
    ensures
        ({
            let event = WindowEvent::Touch { device_id, id, phase, location, force };
            &&& state.after_window_event(event, name).pointer_touch_id == state.pointer_touch_id
            &&& state.emitted_events(event) == seq![
                EventView::Touch { device_id, id, phase: egui_phase_of(phase), pos: location, force },
            ]
        }),
{
    let event = WindowEvent::Touch { device_id, id, phase, location, force };
    assert(state.emitted_events(event) =~= seq![
        EventView::Touch { device_id, id, phase: egui_phase_of(phase), pos: location, force },
    ]);
}

/// When the touch that drives the pointer ends or is cancelled, no touch
/// drives the pointer any more.
pub proof fn lemma_lifted_touch_frees_pointer<P, F>(
    state: WinitBackendView<P, F>,
    device_id: u64,
    phase: TouchPhase,
    location: P,
    force: F,
    name: Seq<char>,
)
    requires
        state.pointer_touch_id is Some,
        phase == TouchPhase::Ended || phase == TouchPhase::Cancelled,
    ensures
        state.after_window_event(
            WindowEvent::Touch { device_id, id: state.pointer_touch_id->0, phase, location, force },
            name,
        ).pointer_touch_id is None,
{
}

/// A mouse button event adds exactly one egui event after those gathered: a
/// press of the button's egui counterpart where the cursor is, with the held
/// modifiers, that is pressed exactly when the button went down.
pub proof fn lemma_button_event_reports_its_state<P, F>(
    state: WinitBackendView<P, F>,
    button_state: ElementState,
    button: MouseButton,
    name: Seq<char>,
)
    ensures
        ({
            let after = state.after_window_event(WindowEvent::MouseInput { state: button_state, button }, name);
            &&& after.raw_input.events.len() == state.raw_input.events.len() + 1
            &&& after.raw_input.events.drop_last() == state.raw_input.events
            &&& after.raw_input.events.last() matches EventView::PointerButton { pos, button: b, pressed, modifiers }
                && pos == state.cursor_pos_logical && b == egui_button_of(button)
                && pressed == (button_state == ElementState::Pressed) && modifiers == state.modifiers
        }),
{
    let after = state.after_window_event(WindowEvent::MouseInput { state: button_state, button }, name);
    assert(after.raw_input.events.drop_last() =~= state.raw_input.events);
}

/// Which touch drives the pointer after a touch: a touch that starts while
/// none drives it takes the pointer; the driving touch gives it up when it
/// ends or is cancelled; nothing else, a move in particular, changes it.
pub proof fn lemma_touch_changes_pointer_owner_only_at_start_and_end<P, F>(
    state: WinitBackendView<P, F>,
    device_id: u64,
    id: u64,
    phase: TouchPhase,
    location: P,
    force: F,
    name: Seq<char>,
)
    ensures
        state.after_window_event(WindowEvent::Touch { device_id, id, phase, location, force }, name).pointer_touch_id
            == if phase == TouchPhase::Started && state.pointer_touch_id is None {
            Some(id)
        } else if (phase == TouchPhase::Ended || phase == TouchPhase::Cancelled) && state.pointer_touch_id
            == Some(id) {
            None
        } else {
            state.pointer_touch_id
        },
{
}

/// A move of the touch that drives the pointer keeps it driving the pointer,
/// moves the pointer there and is passed on as a move.
pub proof fn lemma_driving_touch_moves_pointer<P, F>(
    state: WinitBackendView<P, F>,
    device_id: u64,
    id: u64,
    location: P,
    force: F,
    name: Seq<char>,
)
    requires
        state.pointer_touch_id == Some(id),
    ensures
        ({
            let after = state.after_window_event(
                WindowEvent::Touch { device_id, id, phase: TouchPhase::Moved, location, force },
                name,
            );
            &&& after.pointer_touch_id == Some(id)
            &&& after.cursor_pos_logical == location
            &&& after.raw_input.events == state.raw_input.events + seq![
                EventView::PointerMoved(location),
                EventView::Touch { device_id, id, phase: EguiTouchPhase::Move, pos: location, force },
            ]
        }),
{
    let after = state.after_window_event(
        WindowEvent::Touch { device_id, id, phase: TouchPhase::Moved, location, force },
        name,
    );
    assert(after.raw_input.events =~= state.raw_input.events + seq![
        EventView::PointerMoved(location),
        EventView::Touch { device_id, id, phase: EguiTouchPhase::Move, pos: location, force },
    ]);
}

} // verus!
