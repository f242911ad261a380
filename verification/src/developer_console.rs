//! Tilde-toggle developer console decisions: toggling and focus, which input
//! reaches the console, its commands, its error log, key vocabulary and the
//! texture identities it allocates. Drawing is done by the caller's UI.

use vstd::prelude::*;
use vstd::string::StrSliceExecFns;

use crate::text::{fold_ascii, fold_ascii_char, str_equal};

verus! {

/// Console texture identities start in the upper half of the identity space.
pub const FIRST_TEXTURE_IDENTITY: u64 = 9_223_372_036_854_775_807;

/// Allocates console texture identities, wrapping like an atomic counter.
pub struct TextureIdentityCounter {
    next: u64,
}

impl TextureIdentityCounter {
    pub closed spec fn peek(&self) -> u64 {
        self.next
    }

    pub fn new() -> (counter: Self)
        ensures
            counter.peek() == FIRST_TEXTURE_IDENTITY,
    {
        TextureIdentityCounter { next: FIRST_TEXTURE_IDENTITY }
    }

    /// Returns the current identity and advances the counter (wrapping).
    pub fn next_texture_identity(&mut self) -> (identity: u64)
        ensures
            identity == old(self).peek(),
            final(self).peek() as int == (old(self).peek() as int + 1) % 0x1_0000_0000_0000_0000,
    {
        let identity = self.next;
        self.next = self.next.wrapping_add(1);
        identity
    }
}

/// `char::is_whitespace`: the Unicode White_Space property.
pub open spec fn is_unicode_whitespace(c: char) -> bool {
    let u = c as u32;
    ||| 0x09 <= u <= 0x0d
    ||| u == 0x20
    ||| u == 0x85
    ||| u == 0xa0
    ||| u == 0x1680
    ||| 0x2000 <= u <= 0x200a
    ||| u == 0x2028
    ||| u == 0x2029
    ||| u == 0x202f
    ||| u == 0x205f
    ||| u == 0x3000
}

fn is_whitespace_char(c: char) -> (ws: bool)
    ensures
        ws == is_unicode_whitespace(c),
{
    let u = c as u32;
    (0x09 <= u && u <= 0x0d) || u == 0x20 || u == 0x85 || u == 0xa0 || u == 0x1680 || (0x2000 <= u
        && u <= 0x200a) || u == 0x2028 || u == 0x2029 || u == 0x202f || u == 0x205f || u == 0x3000
}

/// `str::trim`: the characters between leading and trailing whitespace.
pub open spec fn is_trim_of(s: Seq<char>, start: int, end: int) -> bool {
    &&& 0 <= start <= end <= s.len()
    &&& forall|i: int| 0 <= i < start ==> is_unicode_whitespace(#[trigger] s[i])
    &&& forall|i: int| end <= i < s.len() ==> is_unicode_whitespace(#[trigger] s[i])
    &&& start < end ==> !is_unicode_whitespace(s[start]) && !is_unicode_whitespace(s[end - 1])
}

/// The trimmed text with ASCII letters lower-cased, as a command word.
pub open spec fn command_word(s: Seq<char>, start: int, end: int) -> Seq<char> {
    s.subrange(start, end).map_values(|c: char| fold_ascii(c))
}

/// A command entered at the console prompt.
#[derive(Clone, Debug)]
pub enum ConsoleCommand {
    Clear,
    Errors,
    Help,
    Empty,
    Unknown { word: String },
}

/// What the console writes back for a command entered at its prompt.
#[derive(Clone, Debug)]
pub enum ConsoleReply {
    /// Clear the scrollback.
    Clear,
    /// Nothing is written.
    Silent,
    /// The error summary: errors counted and distinct messages this run.
    ErrorSummary { count: u64, unique: usize },
    /// The command list.
    Help,
    /// The word is not a command.
    Unknown { word: String },
}

/// The reply to a parsed command, with the error log's current counts.
pub fn command_reply(command: ConsoleCommand, errors: &ConsoleErrorLog) -> (reply: ConsoleReply)
    ensures
        match command {
            ConsoleCommand::Clear => reply is Clear,
            ConsoleCommand::Errors => reply == (ConsoleReply::ErrorSummary {
                count: errors.count(),
                unique: errors.messages().len() as usize,
            }),
            ConsoleCommand::Help => reply is Help,
            ConsoleCommand::Empty => reply is Silent,
            ConsoleCommand::Unknown { word } => reply matches ConsoleReply::Unknown { word: w }
                && w@ == word@,
        },
{
    match command {
        ConsoleCommand::Clear => ConsoleReply::Clear,
        ConsoleCommand::Errors => ConsoleReply::ErrorSummary {
            count: errors.error_count(),
            unique: errors.unique_count(),
        },
        ConsoleCommand::Help => ConsoleReply::Help,
        ConsoleCommand::Empty => ConsoleReply::Silent,
        ConsoleCommand::Unknown { word } => ConsoleReply::Unknown { word },
    }
}

/// `String::push`: appends one character.
#[verifier::external_body]
fn string_push(s: &mut String, c: char)
    ensures
        final(s)@ == old(s)@.push(c),
{
    s.push(c);
}

/// Parses a prompt line: the trimmed, ASCII lower-cased word selects one of
/// `clear`, `errors`, `help`, nothing, or an unknown command.
pub fn console_command(line: &str) -> (command: ConsoleCommand)
    ensures
        exists|start: int, end: int|
            is_trim_of(line@, start, end) && {
                let w = command_word(line@, start, end);
                match command {
                    ConsoleCommand::Clear => w == "clear"@,
                    ConsoleCommand::Errors => w == "errors"@,
                    ConsoleCommand::Help => w == "help"@,
                    ConsoleCommand::Empty => w.len() == 0,
                    ConsoleCommand::Unknown { word } => word@ == w && w != "clear"@ && w
                        != "errors"@ && w != "help"@ && w.len() != 0,
                }
            },
{
    let n = line.unicode_len();
    let mut start: usize = 0;
    while start < n && is_whitespace_char(line.get_char(start))
        invariant
            n == line@.len(),
            0 <= start <= n,
            forall|i: int| 0 <= i < start ==> is_unicode_whitespace(#[trigger] line@[i]),
        decreases n - start,
    {
        start += 1;
    }
    let mut end: usize = n;
    while end > start && is_whitespace_char(line.get_char(end - 1))
        invariant
            n == line@.len(),
            start <= end <= n,
            forall|i: int| end <= i < n ==> is_unicode_whitespace(#[trigger] line@[i]),
        decreases end - start,
    {
        end -= 1;
    }
    assert(is_trim_of(line@, start as int, end as int));
    let mut word = String::new();
    let mut i: usize = start;
    while i < end
        invariant
            start <= i <= end <= n,
            n == line@.len(),
            word@ == line@.subrange(start as int, i as int).map_values(|c: char| fold_ascii(c)),
        decreases end - i,
    {
        let c = fold_ascii_char(line.get_char(i));
        string_push(&mut word, c);
        i += 1;
        assert(word@ =~= line@.subrange(start as int, i as int).map_values(
            |c: char| fold_ascii(c),
        ));
    }
    let w = word.as_str();
    if str_equal(w, "clear") {
        ConsoleCommand::Clear
    } else if str_equal(w, "errors") {
        ConsoleCommand::Errors
    } else if str_equal(w, "help") {
        ConsoleCommand::Help
    } else if start == end {
        ConsoleCommand::Empty
    } else {
        ConsoleCommand::Unknown { word }
    }
}

/// The toggle key's press state and repeat flag, when a key event on the
/// console's window has a scan code whose stock name is the backquote.
pub fn toggle_key_event(on_window: bool, key_name: Option<&str>, pressed: bool, repeat: bool) -> (toggle:
    Option<(bool, bool)>)
    ensures
        toggle == if on_window && (key_name matches Some(name) && name@ == "`"@) {
            Some((pressed, repeat))
        } else {
            None::<(bool, bool)>
        },
{
    let is_toggle = match key_name {
        Some(name) => str_equal(name, "`"),
        None => false,
    };
    if on_window && is_toggle {
        Some((pressed, repeat))
    } else {
        None
    }
}

/// Visibility and focus state of the console overlay.
#[derive(Clone, Copy, Debug, PartialEq, Eq)]
pub struct ConsoleFocus {
    pub visible: bool,
    pub focus_on_next_frame: bool,
    pub ignore_toggle_text: bool,
}

/// The state after a fresh press of the toggle key.
pub open spec fn toggled(focus: ConsoleFocus) -> ConsoleFocus {
    ConsoleFocus {
        visible: !focus.visible,
        focus_on_next_frame: !focus.visible,
        ignore_toggle_text: true,
    }
}

impl ConsoleFocus {
    pub fn new() -> (focus: Self)
        ensures
            !focus.visible && !focus.focus_on_next_frame && !focus.ignore_toggle_text,
    {
        ConsoleFocus { visible: false, focus_on_next_frame: false, ignore_toggle_text: false }
    }

    /// The toggle key: a fresh press flips visibility, focuses a shown console
    /// on its next frame and swallows the key's own text; returns whether the
    /// pending input and draws must be cleared.
    pub fn toggle_key(&mut self, pressed: bool, repeat: bool) -> (cleared: bool)
        ensures
            cleared == (pressed && !repeat),
            cleared ==> *final(self) == toggled(*old(self)),
            !cleared ==> *final(self) == *old(self),
    {
        if pressed && !repeat {
            self.visible = !self.visible;
            self.focus_on_next_frame = self.visible;
            self.ignore_toggle_text = true;
            true
        } else {
            false
        }
    }

    /// Intercepts one platform event before the UI sees it. `toggle_key`
    /// holds the press state and repeat flag when the event is a key event on
    /// the console's window whose scan code names the toggle key. The toggle
    /// key is always consumed; any other event is consumed exactly while the
    /// console is shown, and leaves visibility and focus unchanged.
    pub fn intercept(&mut self, toggle_key: Option<(bool, bool)>) -> (consumed: bool)
        ensures
            toggle_key is Some ==> consumed,
            toggle_key matches Some((pressed, repeat)) ==> if pressed && !repeat {
                *final(self) == toggled(*old(self))
            } else {
                *final(self) == *old(self)
            },
            toggle_key is None ==> consumed == old(self).visible && *final(self) == *old(self),
            final(self).visible == (old(self).visible != (toggle_key matches Some((pressed, repeat))
                && pressed && !repeat)),
    {
        match toggle_key {
            Some((pressed, repeat)) => {
                self.toggle_key(pressed, repeat);
                true
            },
            None => self.visible,
        }
    }

    /// Text input while visible: the toggle key's own character is dropped
    /// once; everything else reaches the console.
    pub fn text_input(&mut self, text: &str) -> (forward: bool)
        ensures
            forward == !(old(self).ignore_toggle_text && (text@ == "`"@ || text@ == "~"@)),
            *final(self) == (ConsoleFocus { ignore_toggle_text: false, ..*old(self) }),
    {
        let swallow = self.ignore_toggle_text && (str_equal(text, "`") || str_equal(text, "~"));
        self.ignore_toggle_text = false;
        !swallow
    }

    /// Consumes the pending focus request of a shown console's next frame.
    pub fn take_focus_request(&mut self) -> (focus: bool)
        ensures
            focus == old(self).focus_on_next_frame,
            *final(self) == (ConsoleFocus { focus_on_next_frame: false, ..*old(self) }),
    {
        let focus = self.focus_on_next_frame;
        self.focus_on_next_frame = false;
        focus
    }
}

/// Recoverable presentation errors captured this run: a saturating count and
/// each distinct message once.
pub struct ConsoleErrorLog {
    count: u64,
    unique: Vec<String>,
}

pub open spec fn views(s: Seq<String>) -> Seq<Seq<char>> {
    s.map_values(|m: String| m@)
}

impl ConsoleErrorLog {
    pub closed spec fn count(&self) -> u64 {
        self.count
    }

    pub closed spec fn messages(&self) -> Seq<Seq<char>> {
        views(self.unique@)
    }

    pub fn new() -> (log: Self)
        ensures
            log.count() == 0,
            log.messages() == Seq::<Seq<char>>::empty(),
    {
        let log = ConsoleErrorLog { count: 0, unique: Vec::new() };
        assert(log.messages() =~= Seq::<Seq<char>>::empty());
        log
    }

    /// Counts an error; a message seen for the first time is retained and its
    /// ordinal returned for the console line.
    pub fn record(&mut self, message: &str) -> (first: Option<usize>)
        ensures
            final(self).count() == if old(self).count() == u64::MAX {
                u64::MAX
            } else {
                (old(self).count() + 1) as u64
            },
            old(self).messages().contains(message@) ==> first is None && final(self).messages()
                == old(self).messages(),
            !old(self).messages().contains(message@) ==> final(self).messages() == old(
                self,
            ).messages().push(message@) && first == Some(final(self).messages().len() as usize),
    {
        self.count = self.count.saturating_add(1);
        let ghost counted = self.count;
        let mut i: usize = 0;
        while i < self.unique.len()
            invariant
                0 <= i <= self.unique@.len(),
                self.count == counted,
                self.unique@ == old(self).unique@,
                counted == if old(self).count == u64::MAX {
                    u64::MAX
                } else {
                    (old(self).count + 1) as u64
                },
                forall|j: int| 0 <= j < i ==> (#[trigger] self.unique@[j])@ != message@,
            decreases self.unique@.len() - i,
        {
            if str_equal(self.unique[i].as_str(), message) {
                assert(self.messages()[i as int] == message@);
                return None;
            }
            i += 1;
        }
        assert(!self.messages().contains(message@)) by {
            assert forall|j: int| 0 <= j < self.messages().len() implies self.messages()[j]
                != message@ by {
                assert(self.messages()[j] == self.unique@[j]@);
            }
        }
        let ghost before = self.messages();
        self.unique.push(message.to_owned());
        assert(self.messages() =~= before.push(message@));
        Some(self.unique.len())
    }

    pub fn error_count(&self) -> (count: u64)
        ensures
            count == self.count(),
    {
        self.count
    }

    pub fn unique_count(&self) -> (count: usize)
        ensures
            count == self.messages().len(),
    {
        self.unique.len()
    }
}

/// Keys the console reacts to.
#[derive(Clone, Copy, Debug, PartialEq, Eq)]
pub enum ConsoleKey {
    ArrowDown,
    ArrowLeft,
    ArrowRight,
    ArrowUp,
    Escape,
    Tab,
    Backspace,
    Enter,
    Space,
    Insert,
    Delete,
    Home,
    End,
    PageUp,
    PageDown,
    A,
    C,
    K,
    R,
    U,
    V,
    W,
    X,
    Y,
    Z,
    F7,
}

/// The console key of a stock keyboard name.
pub open spec fn spec_console_key(name: Seq<char>) -> Option<ConsoleKey> {
    if name == "DOWN"@ {
        Some(ConsoleKey::ArrowDown)
    } else if name == "LEFT"@ {
        Some(ConsoleKey::ArrowLeft)
    } else if name == "RIGHT"@ {
        Some(ConsoleKey::ArrowRight)
    } else if name == "UP"@ {
        Some(ConsoleKey::ArrowUp)
    } else if name == "ESCAPE"@ {
        Some(ConsoleKey::Escape)
    } else if name == "TAB"@ {
        Some(ConsoleKey::Tab)
    } else if name == "BACKSPACE"@ {
        Some(ConsoleKey::Backspace)
    } else if name == "ENTER"@ || name == "NUMPADENTER"@ {
        Some(ConsoleKey::Enter)
    } else if name == "SPACE"@ {
        Some(ConsoleKey::Space)
    } else if name == "INSERT"@ {
        Some(ConsoleKey::Insert)
    } else if name == "DELETE"@ {
        Some(ConsoleKey::Delete)
    } else if name == "HOME"@ {
        Some(ConsoleKey::Home)
    } else if name == "END"@ {
        Some(ConsoleKey::End)
    } else if name == "PAGEUP"@ {
        Some(ConsoleKey::PageUp)
    } else if name == "PAGEDOWN"@ {
        Some(ConsoleKey::PageDown)
    } else if name == "A"@ {
        Some(ConsoleKey::A)
    } else if name == "C"@ {
        Some(ConsoleKey::C)
    } else if name == "K"@ {
        Some(ConsoleKey::K)
    } else if name == "R"@ {
        Some(ConsoleKey::R)
    } else if name == "U"@ {
        Some(ConsoleKey::U)
    } else if name == "V"@ {
        Some(ConsoleKey::V)
    } else if name == "W"@ {
        Some(ConsoleKey::W)
    } else if name == "X"@ {
        Some(ConsoleKey::X)
    } else if name == "Y"@ {
        Some(ConsoleKey::Y)
    } else if name == "Z"@ {
        Some(ConsoleKey::Z)
    } else if name == "F7"@ {
        Some(ConsoleKey::F7)
    } else {
        None
    }
}

/// Maps a stock keyboard name onto the console's key vocabulary.
pub fn console_key(name: &str) -> (key: Option<ConsoleKey>)
    ensures
        key == spec_console_key(name@),
{
    if str_equal(name, "DOWN") {
        Some(ConsoleKey::ArrowDown)
    } else if str_equal(name, "LEFT") {
        Some(ConsoleKey::ArrowLeft)
    } else if str_equal(name, "RIGHT") {
        Some(ConsoleKey::ArrowRight)
    } else if str_equal(name, "UP") {
        Some(ConsoleKey::ArrowUp)
    } else if str_equal(name, "ESCAPE") {
        Some(ConsoleKey::Escape)
    } else if str_equal(name, "TAB") {
        Some(ConsoleKey::Tab)
    } else if str_equal(name, "BACKSPACE") {
        Some(ConsoleKey::Backspace)
    } else if str_equal(name, "ENTER") || str_equal(name, "NUMPADENTER") {
        Some(ConsoleKey::Enter)
    } else if str_equal(name, "SPACE") {
        Some(ConsoleKey::Space)
    } else if str_equal(name, "INSERT") {
        Some(ConsoleKey::Insert)
    } else if str_equal(name, "DELETE") {
        Some(ConsoleKey::Delete)
    } else if str_equal(name, "HOME") {
        Some(ConsoleKey::Home)
    } else if str_equal(name, "END") {
        Some(ConsoleKey::End)
    } else if str_equal(name, "PAGEUP") {
        Some(ConsoleKey::PageUp)
    } else if str_equal(name, "PAGEDOWN") {
        Some(ConsoleKey::PageDown)
    } else if str_equal(name, "A") {
        Some(ConsoleKey::A)
    } else if str_equal(name, "C") {
        Some(ConsoleKey::C)
    } else if str_equal(name, "K") {
        Some(ConsoleKey::K)
    } else if str_equal(name, "R") {
        Some(ConsoleKey::R)
    } else if str_equal(name, "U") {
        Some(ConsoleKey::U)
    } else if str_equal(name, "V") {
        Some(ConsoleKey::V)
    } else if str_equal(name, "W") {
        Some(ConsoleKey::W)
    } else if str_equal(name, "X") {
        Some(ConsoleKey::X)
    } else if str_equal(name, "Y") {
        Some(ConsoleKey::Y)
    } else if str_equal(name, "Z") {
        Some(ConsoleKey::Z)
    } else if str_equal(name, "F7") {
        Some(ConsoleKey::F7)
    } else {
        None
    }
}

/// Console pointer buttons.
#[derive(Clone, Copy, Debug, PartialEq, Eq)]
pub enum ConsolePointerButton {
    Primary,
    Secondary,
    Middle,
    Extra1,
    Extra2,
}

/// Maps desktop mouse buttons onto the console's pointer buttons.
pub fn console_pointer_button(button: crate::glue::MouseButton) -> (pointer: Option<ConsolePointerButton>)
    ensures
        pointer == match button {
            crate::glue::MouseButton::Left => Some(ConsolePointerButton::Primary),
            crate::glue::MouseButton::Right => Some(ConsolePointerButton::Secondary),
            crate::glue::MouseButton::Middle => Some(ConsolePointerButton::Middle),
            crate::glue::MouseButton::AuxiliaryOne => Some(ConsolePointerButton::Extra1),
            crate::glue::MouseButton::AuxiliaryTwo => Some(ConsolePointerButton::Extra2),
            crate::glue::MouseButton::Unknown => None,
        },
{
    match button {
        crate::glue::MouseButton::Left => Some(ConsolePointerButton::Primary),
        crate::glue::MouseButton::Right => Some(ConsolePointerButton::Secondary),
        crate::glue::MouseButton::Middle => Some(ConsolePointerButton::Middle),
        crate::glue::MouseButton::AuxiliaryOne => Some(ConsolePointerButton::Extra1),
        crate::glue::MouseButton::AuxiliaryTwo => Some(ConsolePointerButton::Extra2),
        crate::glue::MouseButton::Unknown => None,
    }
}

/// Pressing the toggle twice restores visibility, leaves no focus request
/// for a hidden console, and both presses swallow the key's own text.
pub proof fn law_double_toggle_restores_visibility(focus: ConsoleFocus)
    ensures
        toggled(toggled(focus)).visible == focus.visible,
        toggled(toggled(focus)).focus_on_next_frame == focus.visible,
        toggled(focus).ignore_toggle_text && toggled(toggled(focus)).ignore_toggle_text,
{
}

} // verus!
