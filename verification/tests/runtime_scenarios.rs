use std::cell::{Cell, RefCell};
use std::rc::Rc;

use moonlight::channels::Channel;
use moonlight::input::{InputEvent, Key};
use moonlight::runtime::{receive_input, Phase, Runtime};

type Cmd<M> = Box<dyn Fn() -> M>;
type NoMiddleware<Model, M> = fn(&Model, M) -> Option<M>;
type NoReaction<Model> = fn(&Model);
type NoSubscription<Model, M> = fn(&Model) -> M;

/// Splits what a runtime wrote into the views of its frames.
fn views(output: &[u8]) -> Vec<String> {
    let text = String::from_utf8(output.to_vec()).unwrap();
    let mut shown = Vec::new();
    let mut frame = String::new();
    let mut rest = text.as_str();
    while !rest.is_empty() {
        if let Some(after) = rest.strip_prefix("\x1b[1F\x1b[2K") {
            if !frame.is_empty() {
                shown.push(frame.trim_end_matches("\r\n").replace("\r\n", "\n"));
                frame = String::new();
            }
            rest = after;
        } else {
            let c = rest.chars().next().unwrap();
            frame.push(c);
            rest = &rest[c.len_utf8()..];
        }
    }
    if !frame.is_empty() {
        shown.push(frame.trim_end_matches("\r\n").replace("\r\n", "\n"));
    }
    shown
}

#[derive(Clone, Debug, PartialEq)]
enum CounterMsg {
    Increment,
    Decrement,
    Quit,
}

#[test]
fn counter_renders_each_state_and_stops_on_quit() {
    let quit = Rc::new(Cell::new(false));
    let asked = quit.clone();
    let reducer = move |model: i32, msg: CounterMsg| -> (i32, Vec<Cmd<CounterMsg>>) {
        match msg {
            CounterMsg::Increment => (model + 1, vec![]),
            CounterMsg::Decrement => (model - 1, vec![]),
            CounterMsg::Quit => {
                asked.set(true);
                (model, vec![])
            }
        }
    };
    let input = |event: InputEvent| match event {
        InputEvent::Key(Key::Char('k')) => Some(CounterMsg::Increment),
        InputEvent::Key(Key::Char('j')) => Some(CounterMsg::Decrement),
        InputEvent::Key(Key::Char('q')) => Some(CounterMsg::Quit),
        _ => None,
    };
    let view = |model: &i32| model.to_string();
    let mut runtime: Runtime<
        i32,
        _,
        _,
        _,
        NoMiddleware<i32, CounterMsg>,
        NoReaction<i32>,
        NoSubscription<i32, CounterMsg>,
        Cmd<CounterMsg>,
    > = Runtime::new(reducer, || (0, None), input, view);
    let mut channel = Channel::new();

    let mut written = runtime.start(&mut channel);
    assert_eq!(written, b"\x1b[?25l0\r\n".to_vec());
    assert_eq!(runtime.phase, Phase::Looping);
    written.drain(..6);

    let mut ended = None;
    for key in ['k', 'k', 'j', 'x', 'q'] {
        let mut sender = channel.sender();
        runtime.feed(InputEvent::Key(Key::Char(key)), &mut sender);
        channel.accept(sender);
        while channel.next_frame() {
            written.extend(runtime.drain(&mut channel));
            if quit.get() {
                runtime.stop();
            }
            if let Some(bye) = runtime.stop_if_dead() {
                ended = Some(bye);
                break;
            }
        }
        if ended.is_some() {
            assert_eq!(key, 'q');
        }
    }
    let shown = views(&written);
    assert_eq!(&shown[..4], ["0", "1", "2", "1"]);
    // the quit message reaches the reducer too: the unchanged model is painted once more
    assert_eq!(shown, ["0", "1", "2", "1", "1"]);
    assert_eq!(ended, Some(b"\x1b[?25h\x1b[u".to_vec()));
    assert_eq!(runtime.phase, Phase::Exited);
    assert_eq!(runtime.store.model(), 1);
    // an exited runtime does nothing more
    let mut sender = channel.sender();
    sender.send(CounterMsg::Increment);
    channel.accept(sender);
    assert!(runtime.drain(&mut channel).is_empty());
    assert_eq!(runtime.store.model(), 1);
    assert!(runtime.stop_if_dead().is_none());
}

#[derive(Clone, Debug, PartialEq)]
struct Tick;

#[test]
fn countdown_stops_at_zero() {
    let quit = Rc::new(Cell::new(false));
    let asked = quit.clone();
    let reducer = move |model: u32, _msg: Tick| -> (u32, Vec<Cmd<Tick>>) {
        let next = model - 1;
        if next == 0 {
            asked.set(true);
        }
        (next, vec![])
    };
    let input = |_event: InputEvent| -> Option<Tick> { None };
    let view = |model: &u32| model.to_string();
    let subscription: fn(&u32) -> Tick = |_model| Tick;
    let mut runtime: Runtime<u32, _, _, _, NoMiddleware<u32, Tick>, NoReaction<u32>, _, Cmd<Tick>> =
        Runtime::new(reducer, || (5, None), input, view).with_subscription(subscription);
    let mut channel = Channel::new();
    let mut written = runtime.start(&mut channel);
    written.drain(..6);

    let mut started = runtime.store.dispatch_subscriptions();
    assert_eq!(started.len(), 1);
    let (snapshot, source) = started.pop().unwrap();
    assert_eq!(snapshot, 5);
    // the store keeps its subscriptions
    assert_eq!(runtime.store.dispatch_subscriptions().len(), 1);

    let mut ended = None;
    let mut ticks = 0;
    while ended.is_none() {
        let mut sender = channel.sender();
        moonlight::store::subscription_step(&source, &snapshot, &mut sender);
        ticks += 1;
        channel.accept(sender);
        assert!(channel.next_frame());
        written.extend(runtime.drain(&mut channel));
        if quit.get() {
            runtime.stop();
        }
        ended = runtime.stop_if_dead();
    }
    assert_eq!(ticks, 5);
    assert_eq!(views(&written), ["5", "4", "3", "2", "1", "0"]);
    assert_eq!(ended, Some(b"\x1b[?25h\x1b[u".to_vec()));
}

#[derive(Clone, Debug, PartialEq)]
enum BootMsg {
    Boot,
}

#[derive(Clone, Debug, PartialEq)]
struct BootModel {
    booted: bool,
}

#[test]
fn ignition_message_is_dispatched_in_the_first_frame() {
    let seen = Rc::new(RefCell::new(Vec::new()));
    let log = seen.clone();
    let reducer = |_model: BootModel, msg: BootMsg| -> (BootModel, Vec<Cmd<BootMsg>>) {
        match msg {
            BootMsg::Boot => (BootModel { booted: true }, vec![]),
        }
    };
    let input = |_event: InputEvent| -> Option<BootMsg> { None };
    let view = |model: &BootModel| format!("booted={}", model.booted);
    let ignition: Cmd<BootMsg> = Box::new(|| BootMsg::Boot);
    let mut runtime: Runtime<
        BootModel,
        _,
        _,
        _,
        NoMiddleware<BootModel, BootMsg>,
        Box<dyn Fn(&BootModel)>,
        NoSubscription<BootModel, BootMsg>,
        Cmd<BootMsg>,
    > = Runtime::new(reducer, move || (BootModel { booted: false }, Some(ignition)), input, view);
    runtime.store.react(Box::new(move |model: &BootModel| log.borrow_mut().push(model.booted)));
    let mut channel = Channel::new();
    let written = runtime.start(&mut channel);
    assert_eq!(written, b"\x1b[?25lbooted=false\r\n".to_vec());
    assert_eq!(channel.rx, vec![BootMsg::Boot]);
    assert!(seen.borrow().is_empty());
    assert!(channel.next_frame());
    let frame = runtime.drain(&mut channel);
    assert_eq!(frame, b"\x1b[1F\x1b[2Kbooted=true\r\n".to_vec());
    assert_eq!(*seen.borrow(), vec![true]);
    assert!(!channel.next_frame());
    // starting again does nothing
    assert!(runtime.start(&mut channel).is_empty());
    assert!(channel.rx.is_empty());
}

#[derive(Clone, Debug, PartialEq)]
enum SizeMsg {
    Resize(u16, u16),
}

#[derive(Clone, Debug, PartialEq)]
struct SizeModel {
    width: u16,
    height: u16,
}

#[test]
fn resize_is_mapped_and_recorded() {
    let reducer = |_model: SizeModel, msg: SizeMsg| -> (SizeModel, Vec<Cmd<SizeMsg>>) {
        match msg {
            SizeMsg::Resize(width, height) => (SizeModel { width, height }, vec![]),
        }
    };
    let input = |event: InputEvent| match event {
        InputEvent::WindowSize { width, height } => Some(SizeMsg::Resize(width, height)),
        _ => None,
    };
    let view = |model: &SizeModel| format!("{}x{}", model.width, model.height);
    let mut runtime: Runtime<
        SizeModel,
        _,
        _,
        _,
        NoMiddleware<SizeModel, SizeMsg>,
        NoReaction<SizeModel>,
        NoSubscription<SizeModel, SizeMsg>,
        Cmd<SizeMsg>,
    > = Runtime::new(reducer, || (SizeModel { width: 0, height: 0 }, None), input, view)
        .with_fullscreen();
    let mut channel = Channel::new();
    let written = runtime.start(&mut channel);
    assert_eq!(written, b"\x1b[?1049h\x1b[H\x1b[?25l0x0\r\n".to_vec());

    let mut sender = channel.sender();
    runtime.feed(InputEvent::WindowSize { width: 80, height: 24 }, &mut sender);
    assert_eq!(sender.tx, vec![SizeMsg::Resize(80, 24)]);
    assert_eq!(sender.frames.pending(), 1);
    runtime.feed(InputEvent::Key(Key::Esc), &mut sender);
    assert_eq!(sender.tx.len(), 1);
    assert_eq!(sender.frames.pending(), 1);
    channel.accept(sender);

    assert!(channel.next_frame());
    let frame = runtime.drain(&mut channel);
    assert_eq!(runtime.store.model(), SizeModel { width: 80, height: 24 });
    assert_eq!(views(&frame), ["80x24"]);
    assert!(!channel.next_frame());

    assert_eq!(runtime.teardown(), b"\x1b[?1049l\x1b[?25h\x1b[u".to_vec());
    assert_eq!(runtime.phase, Phase::Exited);
}

#[derive(Clone, Debug, PartialEq)]
enum VetoMsg {
    Allowed(u32),
    Forbidden,
}

#[test]
fn middleware_veto_suppresses_reducer_and_reactions() {
    let reduced = Rc::new(RefCell::new(Vec::new()));
    let log = reduced.clone();
    let reactions = Rc::new(Cell::new(0u32));
    let fired = reactions.clone();
    let reducer = move |model: u32, msg: VetoMsg| -> (u32, Vec<Cmd<VetoMsg>>) {
        log.borrow_mut().push(msg.clone());
        match msg {
            VetoMsg::Allowed(n) => (model + n, vec![]),
            VetoMsg::Forbidden => (model, vec![]),
        }
    };
    let input = |_event: InputEvent| -> Option<VetoMsg> { None };
    let view = |model: &u32| model.to_string();
    let veto: fn(&u32, VetoMsg) -> Option<VetoMsg> = |_model, msg| match msg {
        VetoMsg::Forbidden => None,
        other => Some(other),
    };
    let mut runtime: Runtime<
        u32,
        _,
        _,
        _,
        _,
        Box<dyn Fn(&u32)>,
        NoSubscription<u32, VetoMsg>,
        Cmd<VetoMsg>,
    > = Runtime::new(reducer, || (0, None), input, view).with_middleware(veto);
    runtime.store.react(Box::new(move |_model: &u32| fired.set(fired.get() + 1)));
    let mut channel = Channel::new();
    runtime.start(&mut channel);
    let mut sender = channel.sender();
    sender.send(VetoMsg::Allowed(1));
    sender.send(VetoMsg::Forbidden);
    sender.send(VetoMsg::Allowed(2));
    channel.accept(sender);
    let written = runtime.drain(&mut channel);
    assert_eq!(*reduced.borrow(), vec![VetoMsg::Allowed(1), VetoMsg::Allowed(2)]);
    assert_eq!(reactions.get(), 2);
    assert_eq!(views(&written), ["1", "3"]);
    assert_eq!(runtime.store.model(), 3);
}

#[test]
fn receive_input_sends_what_the_mapper_returns() {
    let mut channel: Channel<char> = Channel::new();
    let mut sender = channel.sender();
    let input = |event: InputEvent| match event {
        InputEvent::Key(Key::Char(c)) => Some(c),
        _ => None,
    };
    receive_input(&input, InputEvent::Key(Key::Char('a')), &mut sender);
    receive_input(&input, InputEvent::Key(Key::Up), &mut sender);
    receive_input(&input, InputEvent::Key(Key::Char('b')), &mut sender);
    assert_eq!(sender.tx, vec!['a', 'b']);
    assert_eq!(sender.frames.pending(), 2);
}
