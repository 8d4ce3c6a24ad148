use vstd::prelude::*;
use crate::input::{EguiTouchPhase, Modifiers, PointerButton};
use crate::keys::Key;

verus! {

/// An input event for egui. Positions and scroll amounts are of type `P`
/// and touch forces of type `F`: the library only carries them.
#[derive(Clone, Debug, PartialEq)]
pub enum InputEvent<P, F> {
    /// Text typed by the user.
    Text(String),
    /// A key went down or came up, with the modifiers held at that time.
    Key { key: Key, pressed: bool, modifiers: Modifiers },
    /// The pointer moved to this position.
    PointerMoved(P),
    /// A pointer button went down or came up at this position.
    PointerButton { pos: P, button: PointerButton, pressed: bool, modifiers: Modifiers },
    /// The pointer left the window.
    PointerGone,
    /// The user scrolled by this amount.
    Scroll(P),
    /// A touch on a touch screen.
    Touch { device_id: u64, id: u64, phase: EguiTouchPhase, pos: P, force: F },
}

/// What an input event holds, with text as its characters.
pub enum EventView<P, F> {
    Text(Seq<char>),
    Key { key: Key, pressed: bool, modifiers: Modifiers },
    PointerMoved(P),
    PointerButton { pos: P, button: PointerButton, pressed: bool, modifiers: Modifiers },
    PointerGone,
    Scroll(P),
    Touch { device_id: u64, id: u64, phase: EguiTouchPhase, pos: P, force: F },
}

impl<P, F> View for InputEvent<P, F> {
    type V = EventView<P, F>;

    open spec fn view(&self) -> EventView<P, F> {
        match self {
            InputEvent::Text(text) => EventView::Text(text@),
            InputEvent::Key { key, pressed, modifiers } => EventView::Key {
                key: *key,
                pressed: *pressed,
                modifiers: *modifiers,
            },
            InputEvent::PointerMoved(pos) => EventView::PointerMoved(*pos),
            InputEvent::PointerButton { pos, button, pressed, modifiers } => EventView::PointerButton {
                pos: *pos,
                button: *button,
                pressed: *pressed,
                modifiers: *modifiers,
            },
            InputEvent::PointerGone => EventView::PointerGone,
            InputEvent::Scroll(delta) => EventView::Scroll(*delta),
            InputEvent::Touch { device_id, id, phase, pos, force } => EventView::Touch {
                device_id: *device_id,
                id: *id,
                phase: *phase,
                pos: *pos,
                force: *force,
            },
        }
    }
}

/// The views of a sequence of events, in order.
pub open spec fn events_view<P, F>(events: Seq<InputEvent<P, F>>) -> Seq<EventView<P, F>> {
    events.map_values(|e: InputEvent<P, F>| e@)
}

/// A file dropped onto the window: its path and the name of the file.
#[derive(Clone, Debug, PartialEq, Eq)]
pub struct DroppedFile {
    pub path: String,
    pub name: String,
}

/// What a dropped file holds, as characters.
pub struct DroppedFileView {
    pub path: Seq<char>,
    pub name: Seq<char>,
}

impl View for DroppedFile {
    type V = DroppedFileView;

    open spec fn view(&self) -> DroppedFileView {
        DroppedFileView { path: self.path@, name: self.name@ }
    }
}

/// The views of a sequence of dropped files, in order.
pub open spec fn files_view(files: Seq<DroppedFile>) -> Seq<DroppedFileView> {
    files.map_values(|f: DroppedFile| f@)
}

/// Whether a path ends in the component `..`: it is `..` alone, or it ends
/// in `/..` and holds no backslash (in a Windows path with a verbatim prefix,
/// which starts with backslashes, `/` separates nothing).
pub open spec fn ends_in_parent_dir(path: Seq<char>) -> bool {
    ||| path =~= seq!['.', '.']
    ||| {
        &&& path.len() >= 3
        &&& path.subrange(path.len() - 3, path.len() as int) =~= seq!['/', '.', '.']
        &&& !path.contains('\\')
    }
}

/// Whether a path is a single plain component: not empty, not `.` or `..`,
/// and with no slash, backslash or colon, so that no platform reads a separator, a
/// root or a prefix in it.
pub open spec fn is_plain_name(path: Seq<char>) -> bool {
    &&& path.len() > 0
    &&& !(path =~= seq!['.'])
    &&& !(path =~= seq!['.', '.'])
    &&& !path.contains('/')
    &&& !path.contains('\\')
    &&& !path.contains(':')
}

/// Whether every platform splits the path into components at `/` alone: it
/// holds no backslash (a separator on Windows) and no colon (which starts a
/// drive prefix there), and it does not start with `//` (which starts a
/// network prefix there).
pub open spec fn split_at_slash_only(path: Seq<char>) -> bool {
    &&& !path.contains('\\')
    &&& !path.contains(':')
    &&& !(path.len() >= 2 && path[0] == '/' && path[1] == '/')
}

/// The text after the last `/` of a path, or the whole path where it has none.
pub open spec fn after_last_slash(path: Seq<char>) -> Seq<char>
    decreases path.len(),
{
    if path.len() == 0 || path.last() == '/' {
        seq![]
    } else {
        after_last_slash(path.drop_last()).push(path.last())
    }
}

/// A path without a slash is all text after its last slash.
pub proof fn lemma_no_slash_is_after_last_slash(path: Seq<char>)
    requires
        !path.contains('/'),
    ensures
        after_last_slash(path) == path,
    decreases path.len(),
{
    if path.len() > 0 {
        let p = path.drop_last();
        assert(!p.contains('/')) by {
            if p.contains('/') {
                let i = choose|i: int| 0 <= i < p.len() && p[i] == '/';
                assert(path[i] == '/');
            }
        }
        lemma_no_slash_is_after_last_slash(p);
        assert(path[path.len() - 1] != '/');
        assert(p.push(path.last()) =~= path);
    }
}

/// std's `Path::file_name`: the final component of the path, or `None` when
/// the path has none. std documents that the file name is the path's final
/// component, that a path ending in `..` has none, and that `/` has none;
/// and that components are split at separators. Where every platform splits
/// the path at `/` alone and the text after the last `/` is a plain name,
/// that text is the final component. Which characters separate components
/// otherwise depends on the platform, so of other paths the contract states
/// nothing. The component is converted to a `String`; it is UTF-8 because
/// the path is.
#[verifier::external_body]
fn path_file_name(path: &str) -> (name: Option<String>)
    ensures
        ends_in_parent_dir(path@) ==> name is None,
        path@ =~= seq!['/'] ==> name is None,
        split_at_slash_only(path@) && is_plain_name(after_last_slash(path@)) ==> (name is Some
            && name->0@ == after_last_slash(path@)),
{
    match std::path::Path::new(path).file_name() {
        Some(name) => Some(name.to_string_lossy().into_owned()),
        None => None,
    }
}

/// The text of a single character, through std's `ToString` for `char`,
/// whose `Display` writes the character itself.
#[verifier::external_body]
pub(crate) fn char_text(c: char) -> (text: String)
    ensures
        text@ == seq![c],
{
    c.to_string()
}

impl DroppedFile {
    /// The dropped file at `path`, named by the last component of the path,
    /// or by the empty string where the path has none.
    pub fn from_path(path: String) -> (file: DroppedFile)
        ensures
            file.path@ == path@,
            ends_in_parent_dir(path@) ==> file.name@.len() == 0,
            path@ =~= seq!['/'] ==> file.name@.len() == 0,
            split_at_slash_only(path@) && is_plain_name(after_last_slash(path@)) ==> file.name@
                == after_last_slash(path@),
            is_plain_name(path@) ==> file.name@ == path@,
    {
        proof {
            if is_plain_name(path@) {
                lemma_no_slash_is_after_last_slash(path@);
            }
        }
        let name = match path_file_name(path.as_str()) {
            Some(name) => name,
            None => String::new(),
        };
        DroppedFile { path, name }
    }
}

/// The input gathered for egui's next frame: the screen rectangle, which
/// starts at the origin and ends at `screen_rect`, the number of physical
/// pixels per logical point, the events in the order they came, and the
/// files dropped onto the window.
#[derive(Clone, Debug, PartialEq)]
pub struct RawInput<P, F> {
    pub screen_rect: Option<P>,
    pub pixels_per_point: Option<F>,
    pub events: Vec<InputEvent<P, F>>,
    pub dropped_files: Vec<DroppedFile>,
}

/// What gathered input holds.
pub struct RawInputView<P, F> {
    pub screen_rect: Option<P>,
    pub pixels_per_point: Option<F>,
    pub events: Seq<EventView<P, F>>,
    pub dropped_files: Seq<DroppedFileView>,
}

impl<P, F> RawInputView<P, F> {
    /// Input with nothing in it.
    pub open spec fn empty() -> RawInputView<P, F> {
        RawInputView { screen_rect: None, pixels_per_point: None, events: seq![], dropped_files: seq![] }
    }

    /// The same input with `e` after its events.
    pub open spec fn with_event(self, e: EventView<P, F>) -> RawInputView<P, F> {
        RawInputView { events: self.events.push(e), ..self }
    }

    /// The same input with `f` after its dropped files.
    pub open spec fn with_dropped_file(self, f: DroppedFileView) -> RawInputView<P, F> {
        RawInputView { dropped_files: self.dropped_files.push(f), ..self }
    }
}

impl<P, F> View for RawInput<P, F> {
    type V = RawInputView<P, F>;

    open spec fn view(&self) -> RawInputView<P, F> {
        RawInputView {
            screen_rect: self.screen_rect,
            pixels_per_point: self.pixels_per_point,
            events: events_view(self.events@),
            dropped_files: files_view(self.dropped_files@),
        }
    }
}

impl<P, F> RawInput<P, F> {
    /// Input with nothing in it.
    pub fn new() -> (input: RawInput<P, F>)
        ensures
            input@ == RawInputView::<P, F>::empty(),
    {
        let input = RawInput {
            screen_rect: None,
            pixels_per_point: None,
            events: Vec::new(),
            dropped_files: Vec::new(),
        };
        assert(events_view(input.events@) =~= seq![]);
        assert(files_view(input.dropped_files@) =~= seq![]);
        input
    }

    /// Input that holds only a screen rectangle and a scale.
    pub fn with_screen(screen_rect: P, pixels_per_point: F) -> (input: RawInput<P, F>)
        ensures
            input@ == (RawInputView {
                screen_rect: Some(screen_rect),
                pixels_per_point: Some(pixels_per_point),
                ..RawInputView::<P, F>::empty()
            }),
    {
        let mut input = RawInput::new();
        input.screen_rect = Some(screen_rect);
        input.pixels_per_point = Some(pixels_per_point);
        input
    }

    /// Appends an event.
    pub fn push_event(&mut self, e: InputEvent<P, F>)
        ensures
            final(self)@ == old(self)@.with_event(e@),
    {
        let ghost old_events = self.events@;
        self.events.push(e);
        assert(events_view(self.events@) =~= events_view(old_events).push(e@));
    }

    /// Appends a dropped file.
    pub fn push_dropped_file(&mut self, f: DroppedFile)
        ensures
            final(self)@ == old(self)@.with_dropped_file(f@),
    {
        let ghost old_files = self.dropped_files@;
        self.dropped_files.push(f);
        assert(files_view(self.dropped_files@) =~= files_view(old_files).push(f@));
    }

    /// Hands out everything gathered so far and leaves nothing behind, as
    /// egui's `RawInput::take` does with these fields.
    pub fn take(&mut self) -> (taken: RawInput<P, F>)
        ensures
            taken@ == old(self)@,
            final(self)@ == RawInputView::<P, F>::empty(),
    {
        let mut taken = RawInput::new();
        std::mem::swap(self, &mut taken);
        taken
    }
}

} // verus!
