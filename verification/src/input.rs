use vstd::prelude::*;

verus! {

/// The bit of winit's `ModifiersState` that is set while a shift key is held.
pub const SHIFT_BIT: u32 = 0x4;

/// The bit of winit's `ModifiersState` that is set while a control key is held.
pub const CTRL_BIT: u32 = 0x20;

/// The bit of winit's `ModifiersState` that is set while an alt key is held.
pub const ALT_BIT: u32 = 0x100;

/// The bit of winit's `ModifiersState` that is set while the logo key (the
/// "windows" key on a PC, "command" on a Mac) is held.
pub const LOGO_BIT: u32 = 0x800;

/// The modifier keys that the platform reports as held, as the bits of
/// winit's `ModifiersState`.
#[derive(Clone, Copy, Debug, PartialEq, Eq, Structural)]
pub struct ModifiersState {
    pub bits: u32,
}

/// The modifier keys as egui sees them.
#[derive(Clone, Copy, Debug, PartialEq, Eq, Structural)]
pub struct Modifiers {
    pub alt: bool,
    pub ctrl: bool,
    pub shift: bool,
    pub mac_cmd: bool,
    pub command: bool,
}

impl Modifiers {
    /// No modifier held.
    pub open spec fn spec_none() -> Modifiers {
        Modifiers { alt: false, ctrl: false, shift: false, mac_cmd: false, command: false }
    }

    /// No modifier held.
    pub fn none() -> (m: Modifiers)
        ensures
            m == Modifiers::spec_none(),
    {
        Modifiers { alt: false, ctrl: false, shift: false, mac_cmd: false, command: false }
    }
}

/// Whether `bits` holds `bit`.
pub open spec fn has_bit(bits: u32, bit: u32) -> bool {
    bits & bit != 0
}

/// Calls winit's `ModifiersState::alt` on the state with these bits; winit
/// defines it as `intersects(ALT)`, and `from_bits_truncate` keeps the bit.
#[verifier::external_body]
fn state_alt(bits: u32) -> (held: bool)
    ensures
        held == has_bit(bits, ALT_BIT),
{
    winit::event::ModifiersState::from_bits_truncate(bits).alt()
}

/// Calls winit's `ModifiersState::ctrl`: `intersects(CTRL)`.
#[verifier::external_body]
fn state_ctrl(bits: u32) -> (held: bool)
    ensures
        held == has_bit(bits, CTRL_BIT),
{
    winit::event::ModifiersState::from_bits_truncate(bits).ctrl()
}

/// Calls winit's `ModifiersState::shift`: `intersects(SHIFT)`.
#[verifier::external_body]
fn state_shift(bits: u32) -> (held: bool)
    ensures
        held == has_bit(bits, SHIFT_BIT),
{
    winit::event::ModifiersState::from_bits_truncate(bits).shift()
}

/// Calls winit's `ModifiersState::logo`: `intersects(LOGO)`.
#[verifier::external_body]
fn state_logo(bits: u32) -> (held: bool)
    ensures
        held == has_bit(bits, LOGO_BIT),
{
    winit::event::ModifiersState::from_bits_truncate(bits).logo()
}

/// The egui modifiers for the platform's modifier state: alt, control and
/// shift as they are, the logo key as egui's `command`, and `mac_cmd` never.
pub open spec fn egui_modifiers_of(modifiers: ModifiersState) -> Modifiers {
    Modifiers {
        alt: has_bit(modifiers.bits, ALT_BIT),
        ctrl: has_bit(modifiers.bits, CTRL_BIT),
        shift: has_bit(modifiers.bits, SHIFT_BIT),
        mac_cmd: false,
        command: has_bit(modifiers.bits, LOGO_BIT),
    }
}

/// Translates the platform's modifier state into egui's.
pub fn winit_modifiers_to_egui(modifiers: ModifiersState) -> (m: Modifiers)
    ensures
        m == egui_modifiers_of(modifiers),
        m.alt == (modifiers.bits & ALT_BIT != 0),
        m.ctrl == (modifiers.bits & CTRL_BIT != 0),
        m.shift == (modifiers.bits & SHIFT_BIT != 0),
        m.command == (modifiers.bits & LOGO_BIT != 0),
        !m.mac_cmd,
{
    Modifiers {
        alt: state_alt(modifiers.bits),
        ctrl: state_ctrl(modifiers.bits),
        shift: state_shift(modifiers.bits),
        mac_cmd: false,
        command: state_logo(modifiers.bits),
    }
}

/// A mouse button, as winit names it.
#[derive(Clone, Copy, Debug, PartialEq, Eq, Structural)]
pub enum MouseButton {
    Left,
    Right,
    Middle,
    Other(u16),
}

/// A pointer button, as egui names it.
#[derive(Clone, Copy, Debug, PartialEq, Eq, Structural)]
pub enum PointerButton {
    Primary,
    Secondary,
    Middle,
    Extra1,
    Extra2,
}

/// The egui button for a mouse button: left is primary, right is secondary,
/// middle is middle, and every other button is the first extra one.
pub open spec fn egui_button_of(button: MouseButton) -> PointerButton {
    match button {
        MouseButton::Left => PointerButton::Primary,
        MouseButton::Right => PointerButton::Secondary,
        MouseButton::Middle => PointerButton::Middle,
        MouseButton::Other(_) => PointerButton::Extra1,
    }
}

/// Translates a mouse button into egui's pointer button.
pub fn winit_mouse_button_to_egui(mb: MouseButton) -> (button: PointerButton)
    ensures
        button == egui_button_of(mb),
        (button == PointerButton::Primary) == (mb == MouseButton::Left),
        (button == PointerButton::Secondary) == (mb == MouseButton::Right),
        (button == PointerButton::Middle) == (mb == MouseButton::Middle),
        (button == PointerButton::Extra1) == (mb is Other),
{
    match mb {
        MouseButton::Left => PointerButton::Primary,
        MouseButton::Right => PointerButton::Secondary,
        MouseButton::Middle => PointerButton::Middle,
        MouseButton::Other(_) => PointerButton::Extra1,
    }
}

/// Each egui modifier follows the bit of its own modifier key and no other:
/// alt, control and shift are held exactly when their bits are set, egui's
/// `command` exactly when the logo key's bit is, and `mac_cmd` never.
pub proof fn lemma_each_modifier_follows_its_own_bit(modifiers: ModifiersState)
    ensures
        egui_modifiers_of(modifiers).alt == (modifiers.bits & ALT_BIT != 0),
        egui_modifiers_of(modifiers).ctrl == (modifiers.bits & CTRL_BIT != 0),
        egui_modifiers_of(modifiers).shift == (modifiers.bits & SHIFT_BIT != 0),
        egui_modifiers_of(modifiers).command == (modifiers.bits & LOGO_BIT != 0),
        !egui_modifiers_of(modifiers).mac_cmd,
{
}

/// Only the left button is egui's primary one, only the right its secondary
/// one and only the middle its middle one; every other button, whatever its
/// number, is the first extra one, and none is the second extra one.
pub proof fn lemma_only_named_buttons_keep_their_role(button: MouseButton)
    ensures
        (egui_button_of(button) == PointerButton::Primary) == (button == MouseButton::Left),
        (egui_button_of(button) == PointerButton::Secondary) == (button == MouseButton::Right),
        (egui_button_of(button) == PointerButton::Middle) == (button == MouseButton::Middle),
        forall|n: u16| #[trigger] egui_button_of(MouseButton::Other(n)) == PointerButton::Extra1,
        egui_button_of(button) != PointerButton::Extra2,
{
}

/// Whether a key or a button went down or came up.
#[derive(Clone, Copy, Debug, PartialEq, Eq, Structural)]
pub enum ElementState {
    Pressed,
    Released,
}

/// Whether the state means the key or button is down.
pub open spec fn is_pressed(state: ElementState) -> bool {
    state == ElementState::Pressed
}

/// The phase of a touch, as winit names it.
#[derive(Clone, Copy, Debug, PartialEq, Eq, Structural)]
pub enum TouchPhase {
    Started,
    Moved,
    Ended,
    Cancelled,
}

/// The phase of a touch, as egui names it.
#[derive(Clone, Copy, Debug, PartialEq, Eq, Structural)]
pub enum EguiTouchPhase {
    Start,
    Move,
    End,
    Cancel,
}

/// The egui phase for a winit phase.
pub open spec fn egui_phase_of(phase: TouchPhase) -> EguiTouchPhase {
    match phase {
        TouchPhase::Started => EguiTouchPhase::Start,
        TouchPhase::Moved => EguiTouchPhase::Move,
        TouchPhase::Ended => EguiTouchPhase::End,
        TouchPhase::Cancelled => EguiTouchPhase::Cancel,
    }
}

} // verus!
