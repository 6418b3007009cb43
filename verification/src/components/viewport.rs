//! A viewport: a window of some height that scrolls over a list of lines.

use vstd::prelude::*;
use vstd::std_specs::convert::FromSpecImpl;
use crate::commands;
use crate::input::Key;
use crate::renderer::{scroll_down, scroll_up, sync_scroll_area, RenderMsg, RenderMsgView, ScrollKind};
use crate::text::{copy_lines, join_lines, joined, line_feed_run, lines_of, pad_line_feeds, split_lines, texts};

verus! {

/// The largest height, offset, position and number of lines that a viewport
/// works with: sums of three of them fit the machine's integers.
pub const LIMIT: isize = 0x1FFF_FFFF;

/// What a viewport reacts to.
#[derive(Clone, Debug)]
pub enum Message {
    Input(Key),
    SyncScrollArea(RenderMsg),
    ScrollDown(RenderMsg),
    ScrollUp(RenderMsg),
}

impl From<RenderMsg> for Message {
    fn from(msg: RenderMsg) -> (out: Message) {
        match msg {
            RenderMsg::SyncScrollArea { lines, top_boundary, bottom_boundary } => {
                Message::SyncScrollArea(
                    RenderMsg::SyncScrollArea { lines, top_boundary, bottom_boundary },
                )
            },
            RenderMsg::ScrollDown { lines, top_boundary, bottom_boundary } => Message::ScrollDown(
                RenderMsg::ScrollDown { lines, top_boundary, bottom_boundary },
            ),
            RenderMsg::ScrollUp { lines, top_boundary, bottom_boundary } => Message::ScrollUp(
                RenderMsg::ScrollUp { lines, top_boundary, bottom_boundary },
            ),
        }
    }
}

impl FromSpecImpl<RenderMsg> for Message {
    open spec fn obeys_from_spec() -> bool {
        true
    }

    open spec fn from_spec(msg: RenderMsg) -> Message {
        match msg {
            RenderMsg::SyncScrollArea { .. } => Message::SyncScrollArea(msg),
            RenderMsg::ScrollDown { .. } => Message::ScrollDown(msg),
            RenderMsg::ScrollUp { .. } => Message::ScrollUp(msg),
        }
    }
}

/// The smaller of two numbers.
pub open spec fn smaller(a: int, b: int) -> int {
    if a < b {
        a
    } else {
        b
    }
}

/// The larger of two numbers.
pub open spec fn larger(a: int, b: int) -> int {
    if a > b {
        a
    } else {
        b
    }
}

/// `v`, raised to `low` where it is below, then lowered to `high` where it
/// is above.
pub open spec fn clamped(v: int, low: int, high: int) -> int {
    smaller(high, larger(low, v))
}

/// The state of a viewport.
#[derive(Clone)]
pub struct Model {
    pub width: isize,
    pub height: isize,
    /// The index of the first line shown.
    pub y_offset: isize,
    /// The terminal line on which the viewport begins.
    pub y_position: isize,
    pub lines: Vec<String>,
}

impl Default for Model {
    fn default() -> (model: Model)
        ensures
            model.width == 0,
            model.height == 0,
            model.y_offset == 0,
            model.y_position == 0,
            model.lines@ == Seq::<String>::empty(),
            model.wf(),
    {
        Model { width: 0, height: 0, y_offset: 0, y_position: 0, lines: Vec::new() }
    }
}

fn clamp(v: isize, low: isize, high: isize) -> (r: isize)
    ensures
        r == clamped(v as int, low as int, high as int),
{
    min(high, max(low, v))
}

fn min(a: isize, b: isize) -> (r: isize)
    ensures
        r == smaller(a as int, b as int),
{
    if a < b {
        return a;
    }
    b
}

fn max(a: isize, b: isize) -> (r: isize)
    ensures
        r == larger(a as int, b as int),
{
    if a > b {
        return a;
    }
    b
}

impl Model {
    /// How many lines there are.
    pub open spec fn count(&self) -> int {
        self.lines@.len() as int
    }

    /// The numbers are within the limit, the height is not negative, and the
    /// first line shown is a line of the content (line 0 where there is no
    /// content).
    pub open spec fn wf(&self) -> bool {
        &&& self.count() <= LIMIT
        &&& 0 <= self.height <= LIMIT
        &&& -LIMIT <= self.y_position <= LIMIT
        &&& 0 <= self.y_offset <= larger(self.count() - 1, 0)
    }

    /// The other viewport differs from this one in the offset at most.
    pub open spec fn same_but_offset(&self, other: &Model) -> bool {
        &&& self.width == other.width
        &&& self.height == other.height
        &&& self.y_position == other.y_position
        &&& self.lines@ == other.lines@
    }

    /// The first line is shown.
    pub open spec fn is_at_top(&self) -> bool {
        self.y_offset <= 0
    }

    /// The viewport has scrolled as far down as it goes.
    pub open spec fn is_at_bottom(&self) -> bool {
        self.y_offset >= self.count() - 1 - self.height
    }

    /// The viewport has scrolled beyond the end.
    pub open spec fn is_past_bottom(&self) -> bool {
        self.y_offset > self.count() - 1 - self.height
    }

    /// The lines from `top` up to `bottom`.
    pub open spec fn lines_between(&self, top: int, bottom: int) -> Seq<String> {
        self.lines@.subrange(top, bottom)
    }

    /// The lines that the viewport shows.
    pub open spec fn visible(&self) -> Seq<String> {
        if self.count() > 0 {
            self.lines_between(
                self.y_offset as int,
                smaller(self.count(), self.y_offset + self.height),
            )
        } else {
            Seq::<String>::empty()
        }
    }

    fn len(&self) -> (n: isize)
        requires
            self.count() <= LIMIT,
        ensures
            n == self.count(),
    {
        self.lines.len() as isize
    }

    /// Whether the first line is shown.
    pub fn at_top(&self) -> (r: bool)
        ensures
            r == self.is_at_top(),
    {
        self.y_offset <= 0
    }

    /// Whether the viewport has scrolled as far down as it goes.
    pub fn at_bottom(&self) -> (r: bool)
        requires
            self.wf(),
        ensures
            r == self.is_at_bottom(),
    {
        self.y_offset >= self.len() - 1 - self.height
    }

    /// Whether the viewport has scrolled beyond the end.
    pub fn past_bottom(&self) -> (r: bool)
        requires
            self.wf(),
        ensures
            r == self.is_past_bottom(),
    {
        self.y_offset > self.len() - 1 - self.height
    }

    /// Replaces the content by the lines of `s`. Where the offset is then
    /// below the last line, the viewport goes to the bottom.
    pub fn set_content(&mut self, s: String)
        requires
            old(self).wf(),
            s@.len() < LIMIT,
        ensures
            final(self).wf(),
            texts(final(self).lines@) == lines_of(s@),
            final(self).width == old(self).width,
            final(self).height == old(self).height,
            final(self).y_position == old(self).y_position,
            final(self).y_offset == if old(self).y_offset > final(self).count() - 1 {
                larger(final(self).count() - 1 - old(self).height, 0)
            } else {
                old(self).y_offset as int
            },
    {
        proof {
            crate::text::lemma_unix_line_ends_len(s@);
            crate::text::lemma_split_is_not_empty(crate::text::unix_line_ends(s@));
        }
        let lines = split_lines(s.as_str());
        assert(texts(lines@).len() == lines@.len());
        self.lines = lines;
        if self.y_offset > self.len() - 1 {
            self.goto_bottom();
        }
    }

    fn visible_lines(&self) -> (lines: Vec<String>)
        requires
            self.wf(),
        ensures
            lines@ == self.visible(),
    {
        let mut lines: Vec<String> = Vec::new();
        if self.len() > 0 {
            let top = max(0, self.y_offset);
            let bottom = clamp(self.y_offset + self.height, top, self.len());
            lines = copy_lines(&self.lines, top as usize, bottom as usize);
        }
        lines
    }

    /// Where a page down from here begins.
    pub open spec fn page_down_offset(&self) -> int {
        if self.is_at_bottom() {
            self.y_offset as int
        } else {
            smaller(self.y_offset + self.height, self.count() - 1 - self.height)
        }
    }

    /// Where a page up from here begins.
    pub open spec fn page_up_offset(&self) -> int {
        if self.is_at_top() {
            self.y_offset as int
        } else {
            larger(self.y_offset - self.height, 0)
        }
    }

    /// Where half a page down from here begins.
    pub open spec fn half_page_down_offset(&self) -> int {
        if self.is_at_bottom() {
            self.y_offset as int
        } else {
            smaller(self.y_offset + self.height / 2, self.count() - 1 - self.height)
        }
    }

    /// Where half a page up from here begins.
    pub open spec fn half_page_up_offset(&self) -> int {
        if self.is_at_top() {
            self.y_offset as int
        } else {
            larger(self.y_offset - self.height / 2, 0)
        }
    }

    /// Where `n` lines down from here begins: no further than the bottom.
    pub open spec fn lines_down_offset(&self, n: int) -> int {
        if self.is_at_bottom() || n == 0 {
            self.y_offset as int
        } else {
            self.y_offset + smaller(n, self.count() - 1 - (self.y_offset + self.height))
        }
    }

    /// Where `n` lines up from here begins: no further than the top.
    pub open spec fn lines_up_offset(&self, n: int) -> int {
        if self.is_at_top() || n == 0 {
            self.y_offset as int
        } else {
            self.y_offset - smaller(n, self.y_offset as int)
        }
    }

    /// Moves down by the height of the viewport, no further than the bottom,
    /// and returns the lines then shown; `None` at the bottom.
    pub fn view_down(&mut self) -> (shown: Option<Vec<String>>)
        requires
            old(self).wf(),
        ensures
            final(self).wf(),
            final(self).same_but_offset(old(self)),
            final(self).y_offset == old(self).page_down_offset(),
            shown is None <==> old(self).is_at_bottom(),
            shown is Some ==> shown->0@ == final(self).visible(),
    {
        if self.at_bottom() {
            return None;
        }
        self.y_offset = min(self.y_offset + self.height, self.len() - 1 - self.height);
        Some(self.visible_lines())
    }

    /// Moves up by the height of the viewport, no further than the top, and
    /// returns the lines then shown; `None` at the top.
    pub fn view_up(&mut self) -> (shown: Option<Vec<String>>)
        requires
            old(self).wf(),
        ensures
            final(self).wf(),
            final(self).same_but_offset(old(self)),
            final(self).y_offset == old(self).page_up_offset(),
            shown is None <==> old(self).is_at_top(),
            shown is Some ==> shown->0@ == final(self).visible(),
    {
        if self.at_top() {
            return None;
        }
        self.y_offset = max(self.y_offset - self.height, 0);
        Some(self.visible_lines())
    }

    /// Moves down by half the height, no further than the bottom, and
    /// returns the lines of the lower half then shown, the last line of the
    /// content left out; `None` at the bottom.
    pub fn half_view_down(&mut self) -> (revealed: Option<Vec<String>>)
        requires
            old(self).wf(),
        ensures
            final(self).wf(),
            final(self).same_but_offset(old(self)),
            final(self).y_offset == old(self).half_page_down_offset(),
            revealed is None <==> old(self).is_at_bottom(),
            revealed is Some ==> revealed->0@ == final(self).lines_between(
                final(self).y_offset + final(self).height / 2,
                smaller(final(self).count() - 1, final(self).y_offset + final(self).height),
            ),
    {
        let mut lines: Vec<String> = Vec::new();
        if self.at_bottom() {
            return None;
        }
        self.y_offset = min(self.y_offset + self.height / 2, self.len() - 1 - self.height);
        if self.len() > 0 {
            let top = max(self.y_offset + self.height / 2, 0);
            let bottom = clamp(self.y_offset + self.height, top, self.len() - 1);
            lines = copy_lines(&self.lines, top as usize, bottom as usize);
        }
        Some(lines)
    }

    /// Moves up by half the height, no further than the top, and returns the
    /// lines of the upper half then shown, the last line of the content left
    /// out; `None` at the top.
    pub fn half_view_up(&mut self) -> (revealed: Option<Vec<String>>)
        requires
            old(self).wf(),
        ensures
            final(self).wf(),
            final(self).same_but_offset(old(self)),
            final(self).y_offset == old(self).half_page_up_offset(),
            revealed is None <==> old(self).is_at_top(),
            revealed is Some ==> revealed->0@ == final(self).lines_between(
                final(self).y_offset as int,
                smaller(final(self).count() - 1, final(self).y_offset + final(self).height / 2),
            ),
    {
        let mut lines: Vec<String> = Vec::new();
        if self.at_top() {
            return None;
        }
        self.y_offset = max(self.y_offset - self.height / 2, 0);
        if self.len() > 0 {
            let top = max(self.y_offset, 0);
            let bottom = clamp(self.y_offset + self.height / 2, top, self.len() - 1);
            lines = copy_lines(&self.lines, top as usize, bottom as usize);
        }
        Some(lines)
    }

    /// Moves down by `n` lines, no further than the bottom, and returns the
    /// lines that came into view at the lower edge; `None` at the bottom and
    /// for no lines.
    pub(crate) fn line_down(&mut self, n: isize) -> (revealed: Option<Vec<String>>)
        requires
            old(self).wf(),
            0 <= n <= LIMIT,
        ensures
            final(self).wf(),
            final(self).same_but_offset(old(self)),
            final(self).y_offset == old(self).lines_down_offset(n as int),
            revealed is None <==> old(self).is_at_bottom() || n == 0,
            revealed is Some ==> revealed->0@ == final(self).lines_between(
                old(self).y_offset + old(self).height,
                final(self).y_offset + final(self).height,
            ),
    {
        let mut n = n;
        let mut lines: Vec<String> = Vec::new();
        if self.at_bottom() || n == 0 {
            return None;
        }
        let len = self.len();
        let max_delta = (len - 1) - (self.y_offset + self.height);
        n = min(n, max_delta);
        self.y_offset = min(self.y_offset + n, len - 1 - self.height);
        if len > 0 {
            let top = max(self.y_offset + self.height - n, 0);
            let bottom = clamp(self.y_offset + self.height, top, len - 1);
            lines = copy_lines(&self.lines, top as usize, bottom as usize);
        }
        Some(lines)
    }

    /// Moves up by `n` lines, no further than the top, and returns the lines
    /// that came into view at the upper edge; `None` at the top and for no
    /// lines.
    pub(crate) fn line_up(&mut self, n: isize) -> (revealed: Option<Vec<String>>)
        requires
            old(self).wf(),
            0 <= n <= LIMIT,
        ensures
            final(self).wf(),
            final(self).same_but_offset(old(self)),
            final(self).y_offset == old(self).lines_up_offset(n as int),
            revealed is None <==> old(self).is_at_top() || n == 0,
            revealed is Some ==> revealed->0@ == final(self).lines_between(
                final(self).y_offset as int,
                old(self).y_offset as int,
            ),
    {
        let mut n = n;
        let mut lines: Vec<String> = Vec::new();
        if self.at_top() || n == 0 {
            return None;
        }
        n = min(n, self.y_offset);
        self.y_offset = max(self.y_offset - n, 0);
        let len = self.len();
        if len > 0 {
            let top = max(0, self.y_offset);
            let bottom = clamp(self.y_offset + n, top, len - 1);
            lines = copy_lines(&self.lines, top as usize, bottom as usize);
        }
        Some(lines)
    }

    /// Goes to the first line and returns the lines then shown, the last
    /// line of the content left out; `None` at the top.
    pub fn goto_top(&mut self) -> (shown: Option<Vec<String>>)
        requires
            old(self).wf(),
        ensures
            final(self).wf(),
            final(self).same_but_offset(old(self)),
            final(self).y_offset == if old(self).is_at_top() {
                old(self).y_offset
            } else {
                0
            },
            shown is None <==> old(self).is_at_top(),
            shown is Some ==> shown->0@ == final(self).lines_between(
                0,
                smaller(final(self).count() - 1, final(self).height as int),
            ),
    {
        let mut lines: Vec<String> = Vec::new();
        if self.at_top() {
            return None;
        }
        self.y_offset = 0;
        if self.len() > 0 {
            let top = self.y_offset;
            let bottom = clamp(self.y_offset + self.height, top, self.len() - 1);
            lines = copy_lines(&self.lines, top as usize, bottom as usize);
        }
        Some(lines)
    }

    /// Goes as far down as the viewport goes and returns the lines from
    /// there on, the last line of the content left out.
    pub fn goto_bottom(&mut self) -> (shown: Option<Vec<String>>)
        requires
            old(self).count() <= LIMIT,
            0 <= old(self).height <= LIMIT,
            -LIMIT <= old(self).y_position <= LIMIT,
        ensures
            final(self).wf(),
            final(self).same_but_offset(old(self)),
            final(self).y_offset == larger(old(self).count() - 1 - old(self).height, 0),
            shown is Some,
            shown->0@ == if final(self).count() > 0 {
                final(self).lines_between(final(self).y_offset as int, final(self).count() - 1)
            } else {
                Seq::<String>::empty()
            },
    {
        let mut lines: Vec<String> = Vec::new();
        let len = self.len();
        self.y_offset = max(len - 1 - self.height, 0);
        if len > 0 {
            let top = self.y_offset;
            let bottom = max(len - 1, 0);
            lines = copy_lines(&self.lines, top as usize, bottom as usize);
        }
        Some(lines)
    }

    /// Where the viewport begins after it has reacted to `msg`.
    pub open spec fn offset_after(&self, msg: Message) -> int {
        match msg {
            Message::Input(key) => match key {
                Key::PageDown | Key::Char(' ') | Key::Char('f') => self.page_down_offset(),
                Key::PageUp | Key::Char('b') => self.page_up_offset(),
                Key::Char('d') | Key::Ctrl('d') => self.half_page_down_offset(),
                Key::Char('u') | Key::Ctrl('u') => self.half_page_up_offset(),
                Key::Down | Key::Char('j') => self.lines_down_offset(1),
                Key::Up | Key::Char('k') => self.lines_up_offset(1),
                _ => self.y_offset as int,
            },
            Message::ScrollUp(_) => self.lines_up_offset(1),
            Message::ScrollDown(_) => self.lines_down_offset(1),
            _ => self.y_offset as int,
        }
    }
}

/// Every key is a message for the viewport.
pub fn input(event: Key) -> (msg: Option<Message>)
    ensures
        msg == Some(Message::Input(event)),
{
    Some(Message::Input(event))
}

/// Reacts to a message: page down and up, half a page down and up, a line
/// down and up. Only the offset changes.
pub fn update(msg: &Message, model: &mut Model)
    requires
        old(model).wf(),
    ensures
        final(model).wf(),
        final(model).same_but_offset(old(model)),
        final(model).y_offset == old(model).offset_after(*msg),
{
    match msg {
        Message::Input(key) => match key {
            Key::PageDown | Key::Char(' ') | Key::Char('f') => {
                model.view_down();
            },
            Key::PageUp | Key::Char('b') => {
                model.view_up();
            },
            Key::Char('d') | Key::Ctrl('d') => {
                model.half_view_down();
            },
            Key::Char('u') | Key::Ctrl('u') => {
                model.half_view_up();
            },
            Key::Down | Key::Char('j') => {
                model.line_down(1);
            },
            Key::Up | Key::Char('k') => {
                model.line_up(1);
            },
            _ => {},
        },
        Message::ScrollUp(_) => {
            model.line_up(1);
        },
        Message::ScrollDown(_) => {
            model.line_down(1);
        },
        _ => {},
    }
}

/// The text of the viewport: the lines shown, a line feed between each two,
/// and as many line feeds behind them as lines are missing to the height.
pub fn view(model: &Model) -> (text: String)
    requires
        model.wf(),
    ensures
        text@ == joined(texts(model.visible())) + line_feed_run(
            larger(model.height - model.visible().len(), 0) as nat,
        ),
{
    let lines = model.visible_lines();
    let len = lines.len() as isize;
    let mut text = join_lines(&lines);
    if len < model.height {
        pad_line_feeds(&mut text, (model.height - len) as usize);
    } else {
        assert(text@ =~= text@ + line_feed_run(0));
    }
    text
}

/// The message carries a scroll operation of the given kind, with the given
/// lines and boundaries, under the variant of that kind.
pub open spec fn carries(
    msg: Message,
    kind: ScrollKind,
    lines: Seq<Seq<char>>,
    top_boundary: int,
    bottom_boundary: int,
) -> bool {
    let operation = RenderMsgView { kind, lines, top_boundary, bottom_boundary };
    match msg {
        Message::SyncScrollArea(r) => kind == ScrollKind::Sync && r@ == operation,
        Message::ScrollDown(r) => kind == ScrollKind::Down && r@ == operation,
        Message::ScrollUp(r) => kind == ScrollKind::Up && r@ == operation,
        Message::Input(_) => false,
    }
}

/// The command that has the terminal paint the whole scroll area anew:
/// `None` where there is no content. The viewport stands at its top or has
/// no height; the command then carries no lines.
pub fn sync(m: &Model) -> (cmd: Option<impl Fn() -> Message>)
    requires
        m.wf(),
        m.height == 0 || m.y_offset == 0,
    ensures
        cmd is None <==> m.count() == 0,
        cmd is Some ==> cmd->0.requires(()),
        cmd is Some ==> forall|out: Message| #[trigger]
            cmd->0.ensures((), out) ==> carries(
                out,
                ScrollKind::Sync,
                Seq::<Seq<char>>::empty(),
                m.y_position as int,
                m.y_position + m.height,
            ),
{
    if m.lines.len() == 0 {
        return None;
    }
    let top = max(m.y_offset, 0) as usize;
    let bottom = clamp(m.y_offset - m.height, 0, m.lines.len() as isize - 1);
    let lines = copy_lines(&m.lines, top, bottom as usize);
    let top_boundary = m.y_position;
    let bottom_boundary = m.y_position + m.height;
    let inner = sync_scroll_area(lines, top_boundary, bottom_boundary);
    let lifted = move || -> (out: Message)
            ensures
                carries(
                    out,
                    ScrollKind::Sync,
                    Seq::<Seq<char>>::empty(),
                    top_boundary as int,
                    bottom_boundary as int,
                ),
            {
                let msg = inner();
                assert(texts(lines@) =~= Seq::<Seq<char>>::empty());
                Message::from(msg)
            };
    Some(lifted)
}

/// The command that has the terminal scroll the viewport's area down and
/// paint `lines` at its bottom: `None` where there are no lines.
pub fn view_down(m: &Model, lines: Vec<String>) -> (cmd: Option<impl Fn() -> Message>)
    requires
        m.wf(),
    ensures
        cmd is None <==> lines@.len() == 0,
        cmd is Some ==> cmd->0.requires(()),
        cmd is Some ==> forall|out: Message| #[trigger]
            cmd->0.ensures((), out) ==> carries(
                out,
                ScrollKind::Down,
                texts(lines@),
                m.y_position as int,
                m.y_position + m.height,
            ),
{
    if lines.len() == 0 {
        return None;
    }
    let top_boundary = m.y_position;
    let bottom_boundary = m.y_position + m.height;
    let inner = scroll_down(lines, top_boundary, bottom_boundary);
    let lifted = move || -> (out: Message)
            ensures
                carries(
                    out,
                    ScrollKind::Down,
                    texts(lines@),
                    top_boundary as int,
                    bottom_boundary as int,
                ),
            {
                let msg = inner();
                Message::from(msg)
            };
    Some(lifted)
}

/// The command that has the terminal scroll the viewport's area up and
/// paint `lines` at its top: `None` where there are no lines.
pub fn view_up(m: &Model, lines: Vec<String>) -> (cmd: Option<impl Fn() -> Message>)
    requires
        m.wf(),
    ensures
        cmd is None <==> lines@.len() == 0,
        cmd is Some ==> cmd->0.requires(()),
        cmd is Some ==> forall|out: Message| #[trigger]
            cmd->0.ensures((), out) ==> carries(
                out,
                ScrollKind::Up,
                texts(lines@),
                m.y_position as int,
                m.y_position + m.height,
            ),
{
    if lines.len() == 0 {
        return None;
    }
    let top_boundary = m.y_position;
    let bottom_boundary = m.y_position + m.height;
    let inner = scroll_up(lines, top_boundary, bottom_boundary);
    let lifted = move || -> (out: Message)
            ensures
                carries(
                    out,
                    ScrollKind::Up,
                    texts(lines@),
                    top_boundary as int,
                    bottom_boundary as int,
                ),
            {
                let msg = inner();
                Message::from(msg)
            };
    Some(lifted)
}

} // verus!
