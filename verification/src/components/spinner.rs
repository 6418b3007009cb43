//! A spinner: a short animation that shows that something is going on.

use vstd::prelude::*;
use crate::commands::{tick as after, Delayed};

verus! {

/// The spinners to choose from.
#[derive(Clone, Copy, Debug, PartialEq, Eq)]
pub enum SpinnerType {
    Line,
    Dot,
    MiniDot,
    Jump,
    Pulse,
    Points,
    Globe,
    Moon,
    Monkey,
}

/// One second, in nanoseconds.
pub const SECOND: u64 = 1_000_000_000;

/// The frames of a spinner, in the order in which they are shown.
pub open spec fn frames_of(spinner_type: SpinnerType) -> Seq<Seq<char>> {
    match spinner_type {
        SpinnerType::Line => seq!["|"@, "/"@, "-"@, "\\"@],
        SpinnerType::Dot => seq!["\u{28fe} "@, "\u{28fd} "@, "\u{28fb} "@, "\u{28bf} "@, "\u{287f} "@, "\u{28df} "@, "\u{28ef} "@, "\u{28f7} "@],
        SpinnerType::MiniDot => seq!["\u{280b}"@, "\u{2819}"@, "\u{2839}"@, "\u{2838}"@, "\u{283c}"@, "\u{2834}"@, "\u{2826}"@, "\u{2827}"@, "\u{2807}"@, "\u{280f}"@],
        SpinnerType::Jump => seq!["\u{2884}"@, "\u{2882}"@, "\u{2881}"@, "\u{2841}"@, "\u{2848}"@, "\u{2850}"@, "\u{2860}"@],
        SpinnerType::Pulse => seq!["\u{2588}"@, "\u{2593}"@, "\u{2592}"@, "\u{2591}"@],
        SpinnerType::Points => seq!["\u{2219}\u{2219}\u{2219}"@, "\u{25cf}\u{2219}\u{2219}"@, "\u{2219}\u{25cf}\u{2219}"@, "\u{2219}\u{2219}\u{25cf}"@],
        SpinnerType::Globe => seq!["\u{1f30d}"@, "\u{1f30e}"@, "\u{1f30f}"@],
        SpinnerType::Moon => seq!["\u{1f311}"@, "\u{1f312}"@, "\u{1f313}"@, "\u{1f314}"@, "\u{1f315}"@, "\u{1f316}"@, "\u{1f317}"@, "\u{1f318}"@],
        SpinnerType::Monkey => seq!["\u{1f648}"@, "\u{1f649}"@, "\u{1f64a}"@],
    }
}

/// How many frames of a spinner are shown in a second.
pub open spec fn frames_per_second(spinner_type: SpinnerType) -> int {
    match spinner_type {
        SpinnerType::Line => 10,
        SpinnerType::Dot => 10,
        SpinnerType::MiniDot => 12,
        SpinnerType::Jump => 10,
        SpinnerType::Pulse => 8,
        SpinnerType::Points => 7,
        SpinnerType::Globe => 4,
        SpinnerType::Moon => 8,
        SpinnerType::Monkey => 3,
    }
}

/// The texts of a list of frames.
pub open spec fn frame_texts(frames: Seq<&'static str>) -> Seq<Seq<char>> {
    Seq::new(frames.len(), |i: int| frames[i]@)
}

/// A set of frames and the time for which each is shown.
#[derive(Clone)]
pub struct Spinner {
    frames: Vec<&'static str>,
    fps: u64,
}

impl Default for Spinner {
    fn default() -> (spinner: Spinner)
        ensures
            spinner.frames() == Seq::<Seq<char>>::empty(),
            spinner.interval() == 0,
    {
        let spinner = Spinner { frames: Vec::new(), fps: 0 };
        assert(spinner.frames() =~= Seq::<Seq<char>>::empty());
        spinner
    }
}

impl Spinner {
    /// The frames, in the order in which they are shown.
    pub closed spec fn frames(&self) -> Seq<Seq<char>> {
        frame_texts(self.frames@)
    }

    /// The nanoseconds for which a frame is shown.
    pub closed spec fn interval(&self) -> int {
        self.fps as int
    }

    /// One of the spinners that come with the library.
    pub fn new(spinner_type: SpinnerType) -> (spinner: Spinner)
        ensures
            spinner.frames() == frames_of(spinner_type),
            spinner.interval() == SECOND as int / frames_per_second(spinner_type),
    {
        let spinner = match spinner_type {
            SpinnerType::Line => Spinner {
                frames: vec!["|", "/", "-", "\\"],
                fps: SECOND / 10,
            },
            SpinnerType::Dot => Spinner {
                frames: vec!["\u{28fe} ", "\u{28fd} ", "\u{28fb} ", "\u{28bf} ", "\u{287f} ", "\u{28df} ", "\u{28ef} ", "\u{28f7} "],
                fps: SECOND / 10,
            },
            SpinnerType::MiniDot => Spinner {
                frames: vec!["\u{280b}", "\u{2819}", "\u{2839}", "\u{2838}", "\u{283c}", "\u{2834}", "\u{2826}", "\u{2827}", "\u{2807}", "\u{280f}"],
                fps: SECOND / 12,
            },
            SpinnerType::Jump => Spinner {
                frames: vec!["\u{2884}", "\u{2882}", "\u{2881}", "\u{2841}", "\u{2848}", "\u{2850}", "\u{2860}"],
                fps: SECOND / 10,
            },
            SpinnerType::Pulse => Spinner {
                frames: vec!["\u{2588}", "\u{2593}", "\u{2592}", "\u{2591}"],
                fps: SECOND / 8,
            },
            SpinnerType::Points => Spinner {
                frames: vec!["\u{2219}\u{2219}\u{2219}", "\u{25cf}\u{2219}\u{2219}", "\u{2219}\u{25cf}\u{2219}", "\u{2219}\u{2219}\u{25cf}"],
                fps: SECOND / 7,
            },
            SpinnerType::Globe => Spinner {
                frames: vec!["\u{1f30d}", "\u{1f30e}", "\u{1f30f}"],
                fps: SECOND / 4,
            },
            SpinnerType::Moon => Spinner {
                frames: vec!["\u{1f311}", "\u{1f312}", "\u{1f313}", "\u{1f314}", "\u{1f315}", "\u{1f316}", "\u{1f317}", "\u{1f318}"],
                fps: SECOND / 8,
            },
            SpinnerType::Monkey => Spinner {
                frames: vec!["\u{1f648}", "\u{1f649}", "\u{1f64a}"],
                fps: SECOND / 3,
            },
        };
        assert(spinner.frames() =~= frames_of(spinner_type));
        spinner
    }

    /// The nanoseconds for which a frame is shown.
    pub fn interval_nanos(&self) -> (nanos: u64)
        ensures
            nanos == self.interval(),
    {
        self.fps
    }
}

/// The timer has ticked: the next frame is due.
#[derive(Clone, Copy, Debug, PartialEq, Eq)]
pub struct TickMsg {
    tag: i32,
}

impl TickMsg {
    /// The number of the tick; 0 for the tick that starts a spinner.
    pub closed spec fn tag(&self) -> int {
        self.tag as int
    }
}

/// The state of a spinner.
#[derive(Clone)]
pub struct Model {
    spinner: Spinner,
    frame: usize,
    tag: i32,
}

impl Default for Model {
    fn default() -> (model: Model)
        ensures
            model.spinner().frames() == Seq::<Seq<char>>::empty(),
            model.spinner().interval() == 0,
            model.frame() == 0,
            model.tag() == 0,
    {
        Model { spinner: Spinner::default(), frame: 0, tag: 0 }
    }
}

impl Model {
    /// The frames and their interval.
    pub closed spec fn spinner(&self) -> Spinner {
        self.spinner
    }

    /// The index of the frame that is shown.
    pub closed spec fn frame(&self) -> int {
        self.frame as int
    }

    /// The number of the tick that the spinner waits for.
    pub closed spec fn tag(&self) -> int {
        self.tag as int
    }

    /// A spinner of lines, at its first frame.
    pub fn new() -> (model: Model)
        ensures
            model.spinner().frames() == frames_of(SpinnerType::Line),
            model.spinner().interval() == SECOND as int / 10,
            model.frame() == 0,
            model.tag() == 0,
    {
        Model { spinner: Spinner::new(SpinnerType::Line), frame: 0, tag: 0 }
    }

    /// A spinner of the given type, at its first frame.
    pub fn with(spinner_type: SpinnerType) -> (model: Model)
        ensures
            model.spinner().frames() == frames_of(spinner_type),
            model.spinner().interval() == SECOND as int / frames_per_second(spinner_type),
            model.frame() == 0,
            model.tag() == 0,
    {
        Model { spinner: Spinner::new(spinner_type), frame: 0, tag: 0 }
    }

    /// The command that yields tick number `tag` when the frame's time is
    /// over.
    pub fn tick(&self, tag: i32) -> (cmds: Vec<Delayed<TickMsg>>)
        ensures
            cmds@.len() == 1,
            cmds@[0].nanos == self.spinner().interval(),
            cmds@[0].msg.tag() == tag,
    {
        let cmd = after(self.spinner.fps, TickMsg { tag });
        let cmds = vec![cmd];
        assert(cmds@ =~= seq![(Delayed { nanos: self.spinner.fps, msg: TickMsg { tag } })]);
        cmds
    }

    /// The tick is the one that the spinner waits for, or one that starts
    /// it.
    pub open spec fn accepts(&self, msg: TickMsg) -> bool {
        !(msg.tag() > 0 && msg.tag() != self.tag())
    }

    /// The frame after the one shown: the first again after the last.
    pub open spec fn next_frame(&self) -> int {
        if self.frame() + 1 >= self.spinner().frames().len() {
            0
        } else {
            self.frame() + 1
        }
    }
}

/// Advances the spinner by one frame where the tick is the one it waits for
/// or one that starts it, and returns the command for the next tick. Any
/// other tick changes nothing and brings no command.
pub fn update(msg: TickMsg, model: &mut Model) -> (cmds: Vec<Delayed<TickMsg>>)
    requires
        old(model).tag() < i32::MAX,
        old(model).frame() < usize::MAX,
    ensures
        final(model).spinner() == old(model).spinner(),
        !old(model).accepts(msg) ==> cmds@ == Seq::<Delayed<TickMsg>>::empty(),
        !old(model).accepts(msg) ==> *final(model) == *old(model),
        old(model).accepts(msg) ==> final(model).frame() == old(model).next_frame(),
        old(model).accepts(msg) ==> final(model).tag() == old(model).tag() + 1,
        old(model).accepts(msg) ==> cmds@.len() == 1,
        old(model).accepts(msg) ==> cmds@[0].nanos == old(model).spinner().interval(),
        old(model).accepts(msg) ==> cmds@[0].msg.tag() == old(model).tag() + 1,
{
    if msg.tag > 0 && msg.tag != model.tag {
        return Vec::new();
    }
    model.frame += 1;
    if model.frame >= model.spinner.frames.len() {
        model.frame = 0;
    }
    model.tag += 1;
    model.tick(model.tag)
}

/// What a spinner shows: its current frame.
pub open spec fn shown(model: &Model) -> Seq<char> {
    if model.frame() >= model.spinner().frames().len() {
        "(error)"@
    } else {
        model.spinner().frames()[model.frame()]
    }
}

/// Renders the spinner: the current frame, or `(error)` where there is no
/// such frame.
pub fn view(model: &Model) -> (text: String)
    ensures
        text@ == shown(model),
{
    if model.frame >= model.spinner.frames.len() {
        return String::from_str("(error)");
    }
    String::from_str(model.spinner.frames[model.frame])
}

/// The tick that starts a spinner.
pub fn tick() -> (msg: TickMsg)
    ensures
        msg.tag() == 0,
{
    TickMsg { tag: 0 }
}

} // verus!
