//! A text input: one line of text with a cursor, edited by keystrokes.
//! Positions count characters.

use vstd::prelude::*;
use crate::color::{color_text, colored};
use crate::input::Key;
use crate::renderer::{invert, reverse_video_off, reverse_video_on};
use crate::text::{chars_of, push_char, string_of};

verus! {

/// What a text input reacts to.
#[derive(Debug, Copy, Clone, PartialEq, Eq, Hash)]
pub enum Message {
    CursorBlink,
    Key(Key),
}

/// How what is typed is echoed.
#[derive(Debug, Copy, Clone, PartialEq, Eq, Hash)]
pub enum EchoMode {
    Normal,
    Password,
    /// Nothing is echoed.
    NoEcho,
}

/// How the cursor is shown.
#[derive(Debug, Copy, Clone, PartialEq, Eq, Hash)]
pub enum CursorMode {
    Blink,
    Static,
    Hide,
}

/// The state of a text input.
#[derive(Clone)]
pub struct Model {
    pub prompt: String,
    pub placeholder: String,
    /// The milliseconds between two blinks of the cursor.
    pub blink_speed: u64,
    pub value: String,
    pub cursor: String,
    pub text_color: String,
    pub placeholder_color: String,
    pub cursor_color: String,
    pub cusrsor_mode: CursorMode,
    /// The most characters that the value takes; 0 for no limit.
    pub char_limit: usize,
    pub focus: bool,
    pub blink: bool,
    pub pos: usize,
}

/// The value and the cursor's position after a message.
pub open spec fn edited(value: Seq<char>, pos: int, char_limit: int, msg: Message) -> (
    Seq<char>,
    int,
) {
    let len = value.len() as int;
    match msg {
        Message::CursorBlink => (value, pos),
        Message::Key(k) => match k {
            Key::Backspace => if len == 0 {
                (value, pos)
            } else {
                (value.take(pos - 1) + value.skip(pos), pos - 1)
            },
            Key::Left => (
                value,
                if pos > 0 {
                    pos - 1
                } else {
                    pos
                },
            ),
            Key::Right => (
                value,
                if pos < len {
                    pos + 1
                } else {
                    pos
                },
            ),
            Key::Ctrl('f') | Key::Ctrl('b') | Key::Ctrl('a') => (value, 0),
            Key::Ctrl('d') => if pos < len {
                (value.take(pos) + value.skip(pos + 1), pos)
            } else {
                (value, pos)
            },
            Key::Ctrl('e') => (value, len),
            Key::Ctrl('k') => (value.take(pos), pos),
            Key::Ctrl('u') => (value.skip(pos), 0),
            Key::Char(c) => if char_limit == 0 || len < char_limit {
                (value.take(pos).push(c) + value.skip(pos), pos + 1)
            } else {
                (value, pos)
            },
            _ => (value, pos),
        },
    }
}

/// Whether the cursor is in its blinked-out phase after a message.
pub open spec fn blinked(focus: bool, blink: bool, msg: Message) -> bool {
    let before = if focus {
        blink
    } else {
        true
    };
    match msg {
        Message::CursorBlink => !before,
        _ => before,
    }
}

/// What `text` can look like in `color`, a CSS colour or the empty text for
/// none: the text itself where none is set.
pub open spec fn tinted(text: Seq<char>, color: Seq<char>, out: Seq<char>) -> bool {
    if color.len() == 0 {
        out == text
    } else {
        colored(text, color, out)
    }
}

/// The text under the cursor: as it is while the cursor is blinked out, in
/// reverse video otherwise.
pub open spec fn cursor_shown(text: Seq<char>, blink: bool) -> Seq<char> {
    if blink {
        text
    } else {
        reverse_video_on() + text + reverse_video_off()
    }
}

impl Model {
    /// Whether the input has the focus.
    pub open spec fn has_focus(&self) -> bool {
        self.focus
    }

    /// Whether the cursor is in its blinked-out phase.
    pub open spec fn blinked_out(&self) -> bool {
        self.blink
    }

    /// The cursor's position: how many characters of the value stand before
    /// it.
    pub open spec fn position(&self) -> int {
        self.pos as int
    }

    /// How the cursor is shown.
    pub open spec fn cursor_mode(&self) -> CursorMode {
        self.cusrsor_mode
    }

    /// The colours of the text, of the placeholder and of the cursor, as
    /// CSS colours; empty for none.
    pub open spec fn colors(&self) -> (Seq<char>, Seq<char>, Seq<char>) {
        (self.text_color@, self.placeholder_color@, self.cursor_color@)
    }

    /// No colour is set.
    pub open spec fn plain(&self) -> bool {
        self.colors().0.len() == 0 && self.colors().1.len() == 0
    }

    /// The cursor stands in the value or directly behind it.
    pub open spec fn wf(&self) -> bool {
        0 <= self.position() <= self.value@.len()
    }

    /// The other input differs from this one in value, position, focus and
    /// blink phase at most.
    pub open spec fn same_settings(&self, other: &Model) -> bool {
        &&& self.prompt@ == other.prompt@
        &&& self.placeholder@ == other.placeholder@
        &&& self.blink_speed == other.blink_speed
        &&& self.cursor@ == other.cursor@
        &&& self.colors() == other.colors()
        &&& self.cursor_mode() == other.cursor_mode()
        &&& self.char_limit == other.char_limit
    }

    /// An empty input without focus: the prompt is `> `, the cursor a full
    /// block that blinks every 600 milliseconds; no placeholder, no colours,
    /// no limit.
    pub fn new() -> (model: Model)
        ensures
            model.wf(),
            model.plain(),
            model.prompt@ == "> "@,
            model.value@ == Seq::<char>::empty(),
            model.cursor@ == seq!['\u{2588}'],
            model.blink_speed == 600,
            model.placeholder@ == Seq::<char>::empty(),
            model.cursor_mode() == CursorMode::Blink,
            model.char_limit == 0,
            !model.has_focus(),
            model.blinked_out(),
            model.position() == 0,
    {
        let mut cursor = String::new();
        push_char(&mut cursor, '\u{2588}');
        assert(cursor@ =~= seq!['\u{2588}']);
        Model {
            prompt: String::from_str("> "),
            value: String::new(),
            cursor,
            blink_speed: 600,
            placeholder: String::new(),
            text_color: String::new(),
            placeholder_color: String::new(),
            cursor_color: String::new(),
            cusrsor_mode: CursorMode::Blink,
            char_limit: 0,
            focus: false,
            blink: true,
            pos: 0,
        }
    }

    /// Whether the input has the focus.
    pub fn focused(&self) -> (focus: bool)
        ensures
            focus == self.has_focus(),
    {
        self.focus
    }

    /// Gives the input the focus. The cursor is blinked out only where it
    /// is hidden. No command comes of it.
    pub fn focus(&mut self) -> (cmd: Option<impl Fn() -> Message>)
        ensures
            cmd is None,
            final(self).has_focus(),
            final(self).blinked_out() == (old(self).cursor_mode() == CursorMode::Hide),
            final(self).same_settings(old(self)),
            final(self).value@ == old(self).value@,
            final(self).position() == old(self).position(),
    {
        self.focus = true;
        self.blink = match self.cusrsor_mode {
            CursorMode::Hide => true,
            _ => false,
        };
        let blink = || -> (msg: Message)
            ensures
                msg == Message::CursorBlink,
            { Message::CursorBlink };
        let blinking = match self.cusrsor_mode {
            CursorMode::Blink => true,
            _ => false,
        };
        if blinking && self.blink {
            return Some(blink);
        }
        None
    }

    /// Takes the focus from the input; the cursor is blinked out.
    pub fn blur(&mut self)
        ensures
            !final(self).has_focus(),
            final(self).blinked_out(),
            final(self).same_settings(old(self)),
            final(self).value@ == old(self).value@,
            final(self).position() == old(self).position(),
    {
        self.focus = false;
        self.blink = true;
    }

    /// The command that has the cursor blink: none where the cursor blinks
    /// of itself.
    pub fn blink_cmd(&mut self) -> (cmd: Option<impl Fn() -> Message>)
        ensures
            *final(self) == *old(self),
            cmd is None <==> old(self).cursor_mode() == CursorMode::Blink,
            cmd is Some ==> cmd->0.requires(()),
            cmd is Some ==> forall|msg: Message| #[trigger]
                cmd->0.ensures((), msg) ==> msg == Message::CursorBlink,
    {
        let blink = || -> (msg: Message)
            ensures
                msg == Message::CursorBlink,
            { Message::CursorBlink };
        match self.cusrsor_mode {
            CursorMode::Blink => None,
            _ => Some(blink),
        }
    }

    /// `s` in the colour of the text: `s` itself where none is set.
    pub fn color_text(&self, s: &str) -> (out: String)
        ensures
            tinted(s@, self.colors().0, out@),
    {
        if self.text_color.as_str().is_empty() {
            return String::from_str(s);
        }
        color_text(s, self.text_color.as_str())
    }

    /// `s` in the colour of the placeholder: `s` itself where none is set.
    pub fn color_placeholder(&self, s: &str) -> (out: String)
        ensures
            tinted(s@, self.colors().1, out@),
    {
        if self.placeholder_color.as_str().is_empty() {
            return String::from_str(s);
        }
        color_text(s, self.placeholder_color.as_str())
    }

    /// The part of the value before the cursor.
    pub open spec fn before_cursor(&self) -> Seq<char> {
        self.value@.take(self.position())
    }

    /// The part of the value behind the character under the cursor.
    pub open spec fn behind_cursor(&self) -> Seq<char> {
        self.value@.skip(self.position() + 1)
    }

    /// The first character of the placeholder as it is shown under the
    /// cursor: in the placeholder's colour while the cursor is blinked out,
    /// as it is otherwise.
    pub open spec fn placeholder_start(&self, first: Seq<char>) -> bool {
        if self.blinked_out() {
            tinted(self.placeholder@.take(1), self.colors().1, first)
        } else {
            first == self.placeholder@.take(1)
        }
    }

    /// What an input that shows its placeholder can show: the prompt, the
    /// first character of the placeholder under the cursor, and the rest of
    /// the placeholder in its colour.
    pub open spec fn shows_placeholder(&self, text: Seq<char>) -> bool {
        exists|first: Seq<char>, rest: Seq<char>|
            #![trigger self.placeholder_start(first), tinted(self.placeholder@.skip(1), self.colors().1, rest)]
            self.placeholder_start(first) && tinted(
                self.placeholder@.skip(1),
                self.colors().1,
                rest,
            ) && text == self.prompt@ + cursor_shown(first, self.blinked_out()) + rest
    }

    /// What an input can show: the prompt, then the placeholder where there
    /// is one and no value, else the value in the colour of the text, the
    /// character under the cursor, or a space behind the value, standing
    /// between its parts as the cursor shows it.
    pub open spec fn shows(&self, text: Seq<char>) -> bool {
        let color = self.colors().0;
        if self.value@.len() == 0 && self.placeholder@.len() > 0 {
            self.shows_placeholder(text)
        } else if self.position() < self.value@.len() {
            exists|before: Seq<char>, behind: Seq<char>|
                #![trigger tinted(self.before_cursor(), color, before), tinted(self.behind_cursor(), color, behind)]
                tinted(self.before_cursor(), color, before) && tinted(
                    self.behind_cursor(),
                    color,
                    behind,
                ) && text == self.prompt@ + (before + cursor_shown(
                    seq![self.value@[self.position()]],
                    self.blinked_out(),
                ) + behind)
        } else {
            exists|before: Seq<char>| #[trigger]
                tinted(self.before_cursor(), color, before) && text == self.prompt@ + (before
                    + cursor_shown(seq![' '], self.blinked_out()))
        }
    }

    /// What an input without colours shows: the prompt, then the placeholder
    /// where there is one and no value, else the value; the character under
    /// the cursor, or a space behind the value, is set off while the cursor
    /// is not blinked out.
    pub open spec fn shown(&self) -> Seq<char> {
        let value = self.value@;
        let pos = self.position();
        if value.len() == 0 && self.placeholder@.len() > 0 {
            self.prompt@ + cursor_shown(self.placeholder@.take(1), self.blinked_out())
                + self.placeholder@.skip(1)
        } else if pos < value.len() {
            self.prompt@ + (value.take(pos) + cursor_shown(seq![value[pos]], self.blinked_out())
                + value.skip(pos + 1))
        } else {
            self.prompt@ + (value.take(pos) + cursor_shown(seq![' '], self.blinked_out()))
        }
    }

    /// Renders the input.
    pub fn view(&self) -> (text: String)
        requires
            self.wf(),
        ensures
            self.shows(text@),
            self.plain() ==> text@ == self.shown(),
    {
        if self.value.as_str().is_empty() && !self.placeholder.as_str().is_empty() {
            return placeholder_view(self);
        }
        let value = chars_of(self.value.as_str());
        let before = string_of(&value, 0, self.pos);
        let mut v = self.color_text(before.as_str());
        let ghost before_shown = v@;
        if self.pos < value.len() {
            let under = string_of(&value, self.pos, self.pos + 1);
            let cursor = cursor_view(under.as_str(), self);
            v.append(cursor.as_str());
            let behind = string_of(&value, self.pos + 1, value.len());
            let behind = self.color_text(behind.as_str());
            v.append(behind.as_str());
            proof {
                assert(tinted(self.before_cursor(), self.colors().0, before_shown));
                assert(tinted(self.behind_cursor(), self.colors().0, behind@));
                assert(under@ =~= seq![self.value@[self.position()]]);
                assert(before@ =~= self.value@.take(self.position()));
                assert(value@.subrange(self.pos + 1, value@.len() as int) =~= self.value@.skip(
                    self.position() + 1,
                ));
            }
        } else {
            proof {
                reveal_strlit(" ");
                assert(" "@ =~= seq![' ']);
                assert(before@ =~= self.value@.take(self.position()));
                assert(tinted(self.before_cursor(), self.colors().0, before_shown));
            }
            let cursor = cursor_view(" ", self);
            v.append(cursor.as_str());
        }
        let mut text = self.prompt.clone();
        text.append(v.as_str());
        text
    }

    /// Reacts to a message: the cursor blinks, or a key edits the value and
    /// moves the cursor. Backspace is for a cursor that stands behind a
    /// character.
    pub fn reducer(&mut self, msg: Message)
        requires
            old(self).wf(),
            msg == Message::Key(Key::Backspace) && old(self).value@.len() > 0 ==> old(
                self,
            ).position() > 0,
            old(self).value@.len() < usize::MAX,
        ensures
            final(self).wf(),
            final(self).same_settings(old(self)),
            final(self).has_focus() == old(self).has_focus(),
            final(self).blinked_out() == blinked(old(self).has_focus(), old(self).blinked_out(), msg),
            (final(self).value@, final(self).position()) == edited(
                old(self).value@,
                old(self).position(),
                old(self).char_limit as int,
                msg,
            ),
    {
        if !self.focus {
            self.blink = true;
        }
        match msg {
            Message::CursorBlink => {
                self.blink = !self.blink;
            },
            Message::Key(k) => {
                let value = chars_of(self.value.as_str());
                let len = value.len();
                match k {
                    Key::Backspace => {
                        if len > 0 {
                            let mut edited = string_of(&value, 0, self.pos - 1);
                            let rest = string_of(&value, self.pos, len);
                            edited.append(rest.as_str());
                            self.value = edited;
                            self.pos -= 1;
                        }
                    },
                    Key::Left => {
                        if self.pos > 0 {
                            self.pos -= 1;
                        }
                    },
                    Key::Right => {
                        if self.pos < len {
                            self.pos += 1;
                        }
                    },
                    Key::Ctrl('f') | Key::Ctrl('b') | Key::Ctrl('a') => {
                        self.pos = 0;
                    },
                    Key::Ctrl('d') => {
                        if len > 0 && self.pos < len {
                            let mut edited = string_of(&value, 0, self.pos);
                            let rest = string_of(&value, self.pos + 1, len);
                            edited.append(rest.as_str());
                            self.value = edited;
                        }
                    },
                    Key::Ctrl('e') => {
                        self.pos = len;
                    },
                    Key::Ctrl('k') => {
                        self.value = string_of(&value, 0, self.pos);
                    },
                    Key::Ctrl('u') => {
                        self.value = string_of(&value, self.pos, len);
                        self.pos = 0;
                    },
                    Key::Char(c) => {
                        if self.char_limit == 0 || len < self.char_limit {
                            let mut edited = string_of(&value, 0, self.pos);
                            push_char(&mut edited, c);
                            let rest = string_of(&value, self.pos, len);
                            edited.append(rest.as_str());
                            self.value = edited;
                            self.pos += 1;
                        }
                    },
                    _ => {},
                }
            },
        }
    }
}

impl Default for Model {
    fn default() -> (model: Model)
        ensures
            model.wf(),
            model.plain(),
            model.value@ == Seq::<char>::empty(),
            model.position() == 0,
    {
        Model::new()
    }
}

/// Renders an input that shows its placeholder: the prompt, the first
/// character of the placeholder as the cursor, the rest behind it.
pub fn placeholder_view(model: &Model) -> (text: String)
    requires
        model.placeholder@.len() > 0,
    ensures
        model.shows_placeholder(text@),
        model.plain() ==> text@ == model.prompt@ + cursor_shown(
            model.placeholder@.take(1),
            model.blinked_out(),
        ) + model.placeholder@.skip(1),
{
    let p = chars_of(model.placeholder.as_str());
    let first = string_of(&p, 0, 1);
    let rest = string_of(&p, 1, p.len());
    let mut text = model.prompt.clone();
    proof {
        assert(first@ =~= model.placeholder@.take(1));
        assert(p@.subrange(1, p@.len() as int) =~= model.placeholder@.skip(1));
    }
    let ghost start;
    if model.blink && !model.placeholder.as_str().is_empty() {
        let colored = model.color_placeholder(first.as_str());
        proof {
            start = colored@;
        }
        let cursor = cursor_view(colored.as_str(), model);
        text.append(cursor.as_str());
    } else {
        proof {
            start = first@;
        }
        let cursor = cursor_view(first.as_str(), model);
        text.append(cursor.as_str());
    }
    let rest = model.color_placeholder(rest.as_str());
    text.append(rest.as_str());
    proof {
        assert(model.placeholder_start(start));
        assert(tinted(model.placeholder@.skip(1), model.colors().1, rest@));
    }
    text
}

/// The text under the cursor: as it is while the cursor is blinked out, in
/// reverse video otherwise.
pub fn cursor_view(s: &str, model: &Model) -> (text: String)
    ensures
        text@ == cursor_shown(s@, model.blinked_out()),
{
    if model.blink {
        return String::from_str(s);
    }
    invert(String::from_str(s))
}

} // verus!
