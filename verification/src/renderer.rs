//! The incremental terminal painter: every frame erases exactly the lines
//! that the frame before it wrote, then writes the new view.

use vstd::prelude::*;
use vstd::string::StringSliceAdditionalSpecFns;
use crate::text::{clone_lines, texts};

verus! {

/// The byte `\n`.
pub const LINE_FEED: u8 = 0x0A;

/// The byte `\r`.
pub const CARRIAGE_RETURN: u8 = 0x0D;

/// `ESC [ 1 F`: the cursor goes to the start of the previous line.
pub open spec fn previous_line_sequence() -> Seq<u8> {
    seq![0x1Bu8, 0x5Bu8, 0x31u8, 0x46u8]
}

/// `ESC [ 2 K`: the line under the cursor is erased.
pub open spec fn erase_line_sequence() -> Seq<u8> {
    seq![0x1Bu8, 0x5Bu8, 0x32u8, 0x4Bu8]
}

/// What erases `n` painted lines: `n` times previous-line, erase-line.
pub open spec fn erase_lines(n: nat) -> Seq<u8>
    decreases n,
{
    if n == 0 {
        Seq::<u8>::empty()
    } else {
        erase_lines((n - 1) as nat) + previous_line_sequence() + erase_line_sequence()
    }
}

/// The text with a carriage return put before every line feed.
pub open spec fn with_carriage_returns(text: Seq<u8>) -> Seq<u8>
    decreases text.len(),
{
    if text.len() == 0 {
        Seq::<u8>::empty()
    } else if text.last() == LINE_FEED {
        with_carriage_returns(text.drop_last()).push(CARRIAGE_RETURN).push(LINE_FEED)
    } else {
        with_carriage_returns(text.drop_last()).push(text.last())
    }
}

/// The bytes that show a view: the view, one closing line feed, and a
/// carriage return before every line feed.
pub open spec fn painted(view: Seq<u8>) -> Seq<u8> {
    with_carriage_returns(view.push(LINE_FEED))
}

/// How many times a carriage return is directly followed by a line feed.
pub open spec fn line_breaks(text: Seq<u8>) -> nat
    decreases text.len(),
{
    if text.len() < 2 {
        0
    } else if text[text.len() - 2] == CARRIAGE_RETURN && text.last() == LINE_FEED {
        line_breaks(text.drop_last()) + 1
    } else {
        line_breaks(text.drop_last())
    }
}

/// How many line feeds a text holds.
pub open spec fn line_feeds(text: Seq<u8>) -> nat
    decreases text.len(),
{
    if text.len() == 0 {
        0
    } else if text.last() == LINE_FEED {
        line_feeds(text.drop_last()) + 1
    } else {
        line_feeds(text.drop_last())
    }
}

/// A whole frame: the erasure of `lines_rendered` lines, then the painted view.
pub open spec fn frame_of(lines_rendered: nat, view: Seq<u8>) -> Seq<u8> {
    erase_lines(lines_rendered) + painted(view)
}

/// Putting carriage returns in makes one line break of every line feed.
pub proof fn lemma_line_breaks_of_carriage_returns(text: Seq<u8>)
    ensures
        line_breaks(with_carriage_returns(text)) == line_feeds(text),
        with_carriage_returns(text).len() == text.len() + line_feeds(text),
        text.len() > 0 ==> with_carriage_returns(text).len() > 0
            && (with_carriage_returns(text).last() == LINE_FEED <==> text.last() == LINE_FEED),
    decreases text.len(),
{
    if text.len() > 0 {
        let head = text.drop_last();
        lemma_line_breaks_of_carriage_returns(head);
        let w = with_carriage_returns(head);
        if text.last() == LINE_FEED {
            let w1 = w.push(CARRIAGE_RETURN);
            let w2 = w1.push(LINE_FEED);
            assert(w2.drop_last() =~= w1);
            assert(w1.drop_last() =~= w);
            assert(line_breaks(w1) == line_breaks(w)) by {
                if w1.len() >= 2 {
                    assert(w1.last() == CARRIAGE_RETURN);
                }
            }
            assert(w2[w2.len() - 2] == CARRIAGE_RETURN);
        } else {
            let w1 = w.push(text.last());
            assert(w1.drop_last() =~= w);
        }
    }
}

/// The painter's state: how many lines the last frame wrote.
pub struct Renderer {
    lines_rendered: usize,
}

impl Renderer {
    /// How many line breaks the most recent frame wrote.
    pub closed spec fn lines(&self) -> nat {
        self.lines_rendered as nat
    }

    /// A painter that has written nothing yet.
    pub fn new() -> (renderer: Renderer)
        ensures
            renderer.lines() == 0,
    {
        Renderer { lines_rendered: 0 }
    }

    /// How many line breaks the most recent frame wrote.
    pub fn lines_rendered(&self) -> (n: usize)
        ensures
            n == self.lines(),
    {
        self.lines_rendered
    }

    /// The control sequence that hides the cursor.
    pub fn hide_cursor(&self) -> (sequence: String)
        ensures
            sequence@ == hide_cursor_sequence(),
    {
        termion_hide()
    }

    /// The control sequence that shows the cursor.
    pub fn show_cursor(&self) -> (sequence: String)
        ensures
            sequence@ == show_cursor_sequence(),
    {
        termion_show()
    }

    /// The control sequence that puts the cursor back where it was saved.
    pub fn restore_terminal(&self) -> (sequence: String)
        ensures
            sequence@ == restore_cursor_sequence(),
    {
        termion_restore()
    }

    /// The bytes of the next frame: they erase every line that the frame
    /// before wrote and paint `view`. The painter then remembers how many
    /// line breaks it has written.
    pub fn render(&mut self, view: &str) -> (frame: Vec<u8>)
        ensures
            frame@ == frame_of(old(self).lines(), view.spec_bytes()),
            final(self).lines() == line_breaks(painted(view.spec_bytes())),
            final(self).lines() == line_feeds(view.spec_bytes()) + 1,
    {
        let mut frame = clear_lines(self.lines_rendered);
        let ghost erased = frame@;
        let bytes = view.as_bytes();
        let mut count: usize = 0;
        let mut i: usize = 0;
        while i < bytes.len()
            invariant
                i <= bytes.len(),
                bytes@ == view.spec_bytes(),
                frame@ == erased + with_carriage_returns(bytes@.take(i as int)),
                count == line_feeds(bytes@.take(i as int)),
            decreases bytes.len() - i,
        {
            let b = bytes[i];
            proof {
                assert(bytes@.take(i + 1).drop_last() =~= bytes@.take(i as int));
                lemma_line_breaks_of_carriage_returns(bytes@.take(i as int));
                lemma_line_breaks_of_carriage_returns(bytes@.take(i + 1));
            }
            if b == LINE_FEED {
                frame.push(CARRIAGE_RETURN);
                frame.push(LINE_FEED);
                let written = frame.len();
                assert(written == erased.len() + i + count + 2);
                count = count + 1;
            } else {
                frame.push(b);
            }
            i = i + 1;
            assert(frame@ =~= erased + with_carriage_returns(bytes@.take(i as int)));
        }
        proof {
            assert(bytes@.take(i as int) =~= bytes@);
            let closed = bytes@.push(LINE_FEED);
            assert(closed.drop_last() =~= bytes@);
            lemma_line_breaks_of_carriage_returns(closed);
            lemma_line_breaks_of_carriage_returns(bytes@);
        }
        frame.push(CARRIAGE_RETURN);
        frame.push(LINE_FEED);
        assert(frame@ =~= erased + painted(bytes@));
        let written = frame.len();
        assert(written == erased.len() + bytes@.len() + count + 2);
        self.lines_rendered = count + 1;
        frame
    }
}

/// The bytes that erase `n` painted lines, the cursor standing below them.
pub fn clear_lines(n: usize) -> (out: Vec<u8>)
    ensures
        out@ == erase_lines(n as nat),
{
    let mut out: Vec<u8> = Vec::new();
    let mut i: usize = 0;
    while i < n
        invariant
            i <= n,
            out@ == erase_lines(i as nat),
        decreases n - i,
    {
        out.push(0x1Bu8);
        out.push(0x5Bu8);
        out.push(0x31u8);
        out.push(0x46u8);
        out.push(0x1Bu8);
        out.push(0x5Bu8);
        out.push(0x32u8);
        out.push(0x4Bu8);
        i = i + 1;
        assert(out@ =~= erase_lines(i as nat));
    }
    out
}

/// The law of tight rendering: the frame that follows a frame showing
/// `first` begins with exactly as many previous-line, erase-line pairs as
/// `first` was painted with line breaks, which is one more than the line
/// feeds that `first` holds; the painted `second` follows. Counted as
/// occurrences, the erasure holds each of the two sequences that often.
pub proof fn lemma_frames_are_tight(first: Seq<u8>, second: Seq<u8>)
    ensures
        frame_of(line_breaks(painted(first)), second) == erase_lines(line_feeds(first) + 1)
            + painted(second),
        erase_lines(line_feeds(first) + 1).len() == 8 * (line_feeds(first) + 1),
        occurrences(erase_lines(line_breaks(painted(first))), previous_line_sequence())
            == line_breaks(painted(first)),
        occurrences(erase_lines(line_breaks(painted(first))), erase_line_sequence())
            == line_breaks(painted(first)),
{
    let closed = first.push(LINE_FEED);
    assert(closed.drop_last() =~= first);
    lemma_line_breaks_of_carriage_returns(closed);
    lemma_erase_lines_len(line_feeds(first) + 1);
    lemma_erase_lines_count(line_breaks(painted(first)));
}

/// Whether the text ends in the pattern.
pub open spec fn ends_in(text: Seq<u8>, pattern: Seq<u8>) -> bool {
    pattern.len() <= text.len() && text.skip(text.len() - pattern.len()) == pattern
}

/// How often the pattern occurs in the text.
pub open spec fn occurrences(text: Seq<u8>, pattern: Seq<u8>) -> nat
    decreases text.len(),
{
    if text.len() == 0 {
        0
    } else if ends_in(text, pattern) {
        occurrences(text.drop_last(), pattern) + 1
    } else {
        occurrences(text.drop_last(), pattern)
    }
}

/// A byte that is not the last of the pattern adds no occurrence.
pub proof fn lemma_no_occurrence(text: Seq<u8>, byte: u8, pattern: Seq<u8>)
    requires
        pattern.len() > 0,
        pattern.last() != byte,
    ensures
        occurrences(text.push(byte), pattern) == occurrences(text, pattern),
{
    let longer = text.push(byte);
    assert(longer.drop_last() =~= text);
    if ends_in(longer, pattern) {
        assert(longer.skip(longer.len() - pattern.len()).last() == byte);
    }
}

/// What erases `n` lines holds the previous-line sequence `n` times and the
/// erase-line sequence `n` times.
pub proof fn lemma_erase_lines_count(n: nat)
    ensures
        occurrences(erase_lines(n), previous_line_sequence()) == n,
        occurrences(erase_lines(n), erase_line_sequence()) == n,
    decreases n,
{
    if n > 0 {
        lemma_erase_lines_count((n - 1) as nat);
        let before = erase_lines((n - 1) as nat);
        let up = previous_line_sequence();
        let wipe = erase_line_sequence();
        let t1 = before.push(0x1Bu8);
        let t2 = t1.push(0x5Bu8);
        let t3 = t2.push(0x31u8);
        let t4 = t3.push(0x46u8);
        let t5 = t4.push(0x1Bu8);
        let t6 = t5.push(0x5Bu8);
        let t7 = t6.push(0x32u8);
        let t8 = t7.push(0x4Bu8);
        assert(t8 =~= erase_lines(n));
        assert(up.last() == 0x46u8);
        assert(wipe.last() == 0x4Bu8);
        lemma_no_occurrence(before, 0x1Bu8, up);
        lemma_no_occurrence(t1, 0x5Bu8, up);
        lemma_no_occurrence(t2, 0x31u8, up);
        assert(t4.drop_last() =~= t3);
        assert(t4.skip(t4.len() - 4) =~= up);
        lemma_no_occurrence(t4, 0x1Bu8, up);
        lemma_no_occurrence(t5, 0x5Bu8, up);
        lemma_no_occurrence(t6, 0x32u8, up);
        lemma_no_occurrence(t7, 0x4Bu8, up);
        lemma_no_occurrence(before, 0x1Bu8, wipe);
        lemma_no_occurrence(t1, 0x5Bu8, wipe);
        lemma_no_occurrence(t2, 0x31u8, wipe);
        lemma_no_occurrence(t3, 0x46u8, wipe);
        lemma_no_occurrence(t4, 0x1Bu8, wipe);
        lemma_no_occurrence(t5, 0x5Bu8, wipe);
        lemma_no_occurrence(t6, 0x32u8, wipe);
        assert(t8.drop_last() =~= t7);
        assert(t8.skip(t8.len() - 4) =~= wipe);
    }
}

/// Erasing `n` lines takes `n` sequences of four bytes each, twice.
pub proof fn lemma_erase_lines_len(n: nat)
    ensures
        erase_lines(n).len() == 8 * n,
    decreases n,
{
    if n > 0 {
        lemma_erase_lines_len((n - 1) as nat);
    }
}

/// What a scroll message asks of the terminal.
#[derive(Debug, Copy, Clone, PartialEq, Eq, Hash)]
pub enum ScrollKind {
    /// Paint the whole scroll area anew.
    Sync,
    /// Reveal lines at the bottom.
    Down,
    /// Reveal lines at the top.
    Up,
}

/// A high-performance scroll operation: the lines to paint and the first and
/// last terminal line of the scroll area.
#[derive(Debug, Clone, PartialEq, Eq, Hash)]
pub enum RenderMsg {
    SyncScrollArea { lines: Vec<String>, top_boundary: isize, bottom_boundary: isize },
    ScrollDown { lines: Vec<String>, top_boundary: isize, bottom_boundary: isize },
    ScrollUp { lines: Vec<String>, top_boundary: isize, bottom_boundary: isize },
}

/// The mathematical content of a [`RenderMsg`].
pub ghost struct RenderMsgView {
    pub kind: ScrollKind,
    pub lines: Seq<Seq<char>>,
    pub top_boundary: int,
    pub bottom_boundary: int,
}

impl View for RenderMsg {
    type V = RenderMsgView;

    open spec fn view(&self) -> RenderMsgView {
        match self {
            RenderMsg::SyncScrollArea { lines, top_boundary, bottom_boundary } => RenderMsgView {
                kind: ScrollKind::Sync,
                lines: texts(lines@),
                top_boundary: *top_boundary as int,
                bottom_boundary: *bottom_boundary as int,
            },
            RenderMsg::ScrollDown { lines, top_boundary, bottom_boundary } => RenderMsgView {
                kind: ScrollKind::Down,
                lines: texts(lines@),
                top_boundary: *top_boundary as int,
                bottom_boundary: *bottom_boundary as int,
            },
            RenderMsg::ScrollUp { lines, top_boundary, bottom_boundary } => RenderMsgView {
                kind: ScrollKind::Up,
                lines: texts(lines@),
                top_boundary: *top_boundary as int,
                bottom_boundary: *bottom_boundary as int,
            },
        }
    }
}

/// A command that yields the request to paint the whole scroll area with
/// `lines`, between the terminal lines `top_boundary` and `bottom_boundary`.
pub fn sync_scroll_area(lines: Vec<String>, top_boundary: isize, bottom_boundary: isize) -> (cmd:
    impl Fn() -> RenderMsg)
    ensures
        cmd.requires(()),
        forall|msg: RenderMsg| #[trigger]
            cmd.ensures((), msg) ==> msg@ == (RenderMsgView {
                kind: ScrollKind::Sync,
                lines: texts(lines@),
                top_boundary: top_boundary as int,
                bottom_boundary: bottom_boundary as int,
            }),
{
    move || -> (msg: RenderMsg)
        ensures
            msg@ == (RenderMsgView {
                kind: ScrollKind::Sync,
                lines: texts(lines@),
                top_boundary: top_boundary as int,
                bottom_boundary: bottom_boundary as int,
            }),
        { RenderMsg::SyncScrollArea { lines: clone_lines(&lines), top_boundary, bottom_boundary } }
}

/// A command that yields the request to scroll the area between the terminal
/// lines `top_boundary` and `bottom_boundary` down, revealing `new_lines` at
/// its bottom.
pub fn scroll_down(new_lines: Vec<String>, top_boundary: isize, bottom_boundary: isize) -> (cmd:
    impl Fn() -> RenderMsg)
    ensures
        cmd.requires(()),
        forall|msg: RenderMsg| #[trigger]
            cmd.ensures((), msg) ==> msg@ == (RenderMsgView {
                kind: ScrollKind::Down,
                lines: texts(new_lines@),
                top_boundary: top_boundary as int,
                bottom_boundary: bottom_boundary as int,
            }),
{
    move || -> (msg: RenderMsg)
        ensures
            msg@ == (RenderMsgView {
                kind: ScrollKind::Down,
                lines: texts(new_lines@),
                top_boundary: top_boundary as int,
                bottom_boundary: bottom_boundary as int,
            }),
        { RenderMsg::ScrollDown { lines: clone_lines(&new_lines), top_boundary, bottom_boundary } }
}

/// A command that yields the request to scroll the area between the terminal
/// lines `top_boundary` and `bottom_boundary` up, revealing `new_lines` at its
/// top.
pub fn scroll_up(new_lines: Vec<String>, top_boundary: isize, bottom_boundary: isize) -> (cmd:
    impl Fn() -> RenderMsg)
    ensures
        cmd.requires(()),
        forall|msg: RenderMsg| #[trigger]
            cmd.ensures((), msg) ==> msg@ == (RenderMsgView {
                kind: ScrollKind::Up,
                lines: texts(new_lines@),
                top_boundary: top_boundary as int,
                bottom_boundary: bottom_boundary as int,
            }),
{
    move || -> (msg: RenderMsg)
        ensures
            msg@ == (RenderMsgView {
                kind: ScrollKind::Up,
                lines: texts(new_lines@),
                top_boundary: top_boundary as int,
                bottom_boundary: bottom_boundary as int,
            }),
        { RenderMsg::ScrollUp { lines: clone_lines(&new_lines), top_boundary, bottom_boundary } }
}

/// `ESC [ 7 m`: reverse video on.
pub open spec fn reverse_video_on() -> Seq<char> {
    seq!['\x1b', '[', '7', 'm']
}

/// `ESC [ 0 m`: all attributes off.
pub open spec fn reverse_video_off() -> Seq<char> {
    seq!['\x1b', '[', '0', 'm']
}

/// The text in reverse video: foreground and background swapped.
pub fn invert(s: String) -> (inverted: String)
    ensures
        inverted@ == reverse_video_on() + s@ + reverse_video_off(),
{
    proof {
        reveal_strlit("\x1b[7m");
        reveal_strlit("\x1b[0m");
    }
    let mut inverted = String::from_str("\x1b[7m");
    assert(inverted@ =~= reverse_video_on());
    inverted.append(s.as_str());
    inverted.append("\x1b[0m");
    assert("\x1b[0m"@ =~= reverse_video_off());
    inverted
}

/// What is left of a text when four characters are taken off each end.
pub open spec fn strip_brackets(text: Seq<char>) -> Seq<char> {
    text.subrange(4, text.len() - 4)
}

/// Inverting is undone by stripping the bracketing escapes: between the
/// four characters that switch reverse video on and the four that switch it
/// off stands the text itself.
pub proof fn lemma_invert_is_reversible(s: Seq<char>)
    ensures
        strip_brackets(reverse_video_on() + s + reverse_video_off()) == s,
        (reverse_video_on() + s + reverse_video_off()).subrange(0, 4) == reverse_video_on(),
{
    let inverted = reverse_video_on() + s + reverse_video_off();
    assert(strip_brackets(inverted) =~= s);
    assert(inverted.subrange(0, 4) =~= reverse_video_on());
}

/// `ESC [ ? 1049 h ESC [ H`: the alternate screen, cursor at its top left.
pub open spec fn enter_alternate_screen() -> Seq<char> {
    seq!['\x1b', '[', '?', '1', '0', '4', '9', 'h', '\x1b', '[', 'H']
}

/// `ESC [ ? 1049 l`: back to the screen that was there before.
pub open spec fn leave_alternate_screen() -> Seq<char> {
    seq!['\x1b', '[', '?', '1', '0', '4', '9', 'l']
}

/// `ESC [ ? 25 l`: the cursor is hidden.
pub open spec fn hide_cursor_sequence() -> Seq<char> {
    seq!['\x1b', '[', '?', '2', '5', 'l']
}

/// `ESC [ ? 25 h`: the cursor is shown.
pub open spec fn show_cursor_sequence() -> Seq<char> {
    seq!['\x1b', '[', '?', '2', '5', 'h']
}

/// `ESC [ u`: the cursor goes back to the position saved last.
pub open spec fn restore_cursor_sequence() -> Seq<char> {
    seq!['\x1b', '[', 'u']
}

/// The control sequence that switches to the alternate screen and puts the
/// cursor at its top left. The former view comes back with
/// [`exit_fullscreen`].
pub fn fullscreen() -> (sequence: String)
    ensures
        sequence@ == enter_alternate_screen(),
{
    proof {
        reveal_strlit("\x1b[?1049h\x1b[H");
    }
    let sequence = String::from_str("\x1b[?1049h\x1b[H");
    assert(sequence@ =~= enter_alternate_screen());
    sequence
}

/// The control sequence that leaves the alternate screen.
pub fn exit_fullscreen() -> (sequence: String)
    ensures
        sequence@ == leave_alternate_screen(),
{
    proof {
        reveal_strlit("\x1b[?1049l");
    }
    let sequence = String::from_str("\x1b[?1049l");
    assert(sequence@ =~= leave_alternate_screen());
    sequence
}

/// `termion::cursor::Hide`, formatted: the crate writes the control sequence
/// introducer and `?25l`, whatever the environment.
#[verifier::external_body]
fn termion_hide() -> (sequence: String)
    ensures
        sequence@ == hide_cursor_sequence(),
{
    format!("{}", termion::cursor::Hide)
}

/// `termion::cursor::Show`, formatted: the crate writes the control sequence
/// introducer and `?25h`, whatever the environment.
#[verifier::external_body]
fn termion_show() -> (sequence: String)
    ensures
        sequence@ == show_cursor_sequence(),
{
    format!("{}", termion::cursor::Show)
}

/// `termion::cursor::Restore`, formatted: the crate writes the control
/// sequence introducer and `u`, whatever the environment.
#[verifier::external_body]
fn termion_restore() -> (sequence: String)
    ensures
        sequence@ == restore_cursor_sequence(),
{
    format!("{}", termion::cursor::Restore)
}

} // verus!
