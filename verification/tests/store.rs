use std::cell::RefCell;
use std::rc::Rc;

use moonlight::channels::Channel;
use moonlight::commands::{map_batch, map_each, tick};
use moonlight::store::Store;

type Cmd<M> = Box<dyn Fn() -> M>;

#[test]
fn dispatch_runs_commands_in_order_before_reactions() {
    let trace = Rc::new(RefCell::new(Vec::new()));
    let from_reducer = trace.clone();
    let from_reaction = trace.clone();
    let reducer = move |model: u32, msg: u32| -> (u32, Vec<Cmd<u32>>) {
        from_reducer.borrow_mut().push(format!("reduce {msg} on {model}"));
        let first = from_reducer.clone();
        let second = from_reducer.clone();
        let cmds: Vec<Cmd<u32>> = vec![
            Box::new(move || {
                first.borrow_mut().push(String::from("cmd 100"));
                100
            }),
            Box::new(move || {
                second.borrow_mut().push(String::from("cmd 200"));
                200
            }),
        ];
        (model + msg, if msg < 100 { cmds } else { vec![] })
    };
    let mut store: Store<u32, _, fn(&u32, u32) -> Option<u32>, Box<dyn Fn(&u32)>, fn(&u32) -> u32> =
        Store::new(reducer, 1);
    store.react(Box::new(move |model: &u32| {
        from_reaction.borrow_mut().push(format!("react to {model}"))
    }));
    let mut channel: Channel<u32> = Channel::new();
    let mut sender = channel.sender();
    sender.send(9);
    let reached = store.dispatch(5, &mut sender);
    assert!(reached);
    assert_eq!(store.model(), 6);
    assert_eq!(sender.tx, vec![9, 100, 200]);
    assert_eq!(sender.frames.pending(), 3);
    assert_eq!(
        *trace.borrow(),
        vec!["reduce 5 on 1", "cmd 100", "cmd 200", "react to 6"]
    );
}

#[test]
fn middleware_chain_is_the_composition_of_its_stages() {
    let seen = Rc::new(RefCell::new(Vec::new()));
    let log = seen.clone();
    let reducer = move |model: i64, msg: i64| -> (i64, Vec<Cmd<i64>>) {
        log.borrow_mut().push(msg);
        (model + msg, vec![])
    };
    let a: fn(&i64, i64) -> Option<i64> = |_m, msg| Some(msg + 1);
    let b: fn(&i64, i64) -> Option<i64> = |_m, msg| if msg % 2 == 0 { Some(msg * 10) } else { None };
    let c: fn(&i64, i64) -> Option<i64> = |m, msg| Some(msg - *m);
    let mut store: Store<i64, _, fn(&i64, i64) -> Option<i64>, fn(&i64), fn(&i64) -> i64> =
        Store::new(reducer, 7);
    store.middleware(a);
    store.middleware(b);
    store.middleware(c);
    let mut channel: Channel<i64> = Channel::new();
    let mut sender = channel.sender();
    // c(b(a(3))) = (3 + 1) * 10 - 7
    assert!(store.dispatch(3, &mut sender));
    assert_eq!(*seen.borrow(), vec![33]);
    assert_eq!(store.model(), 40);
    // a(4) = 5 is odd: b swallows it
    assert!(!store.dispatch(4, &mut sender));
    assert_eq!(*seen.borrow(), vec![33]);
    assert_eq!(store.model(), 40);
    assert!(sender.tx.is_empty());
    // entering the chain behind b
    assert!(store.dispatch_middleware(2, 4, &mut sender));
    assert_eq!(*seen.borrow(), vec![33, -36]);
}

#[test]
fn reactions_see_the_new_model() {
    let seen = Rc::new(RefCell::new(Vec::new()));
    let log = seen.clone();
    let reducer = |model: u8, msg: u8| -> (u8, Vec<Cmd<u8>>) { (model * 2 + msg, vec![]) };
    let mut store: Store<u8, _, fn(&u8, u8) -> Option<u8>, Box<dyn Fn(&u8)>, fn(&u8) -> u8> =
        Store::new(reducer, 1);
    store.react(Box::new(move |model: &u8| log.borrow_mut().push(*model)));
    let mut channel: Channel<u8> = Channel::new();
    let mut sender = channel.sender();
    store.dispatch(1, &mut sender);
    store.dispatch(0, &mut sender);
    assert_eq!(*seen.borrow(), vec![3, 6]);
    assert_eq!(*store.peek(), 6);
}

#[test]
fn subscriptions_get_their_own_snapshots_in_order() {
    let reducer = |model: u8, _msg: u8| -> (u8, Vec<Cmd<u8>>) { (model, vec![]) };
    let mut store: Store<u8, _, fn(&u8, u8) -> Option<u8>, fn(&u8), fn(&u8) -> u8> =
        Store::new(reducer, 4);
    store.subscribe(|model| *model + 1);
    store.subscribe(|model| *model + 2);
    store.subscribe(|model| *model + 3);
    let started = store.dispatch_subscriptions();
    let yields: Vec<u8> = started.iter().map(|(snapshot, source)| source(snapshot)).collect();
    assert_eq!(yields, vec![5, 6, 7]);
    // the store keeps its subscriptions: they can be handed out again
    let again = store.dispatch_subscriptions();
    let yields: Vec<u8> = again.iter().map(|(snapshot, source)| source(snapshot)).collect();
    assert_eq!(yields, vec![5, 6, 7]);
}

#[derive(Debug, PartialEq)]
struct Outer(u8);

impl From<u8> for Outer {
    fn from(inner: u8) -> Self {
        Outer(inner + 1)
    }
}

#[test]
fn map_lifts_a_command() {
    let lifted = moonlight::commands::map::<u8, Outer, _>(|| 41u8);
    assert_eq!(lifted(), Outer(42));
}

#[test]
fn map_batch_lifts_in_order() {
    let runs = Rc::new(RefCell::new(Vec::new()));
    let cmds: Vec<Box<dyn Fn() -> u8>> = (1u8..=3)
        .map(|n| {
            let log = runs.clone();
            Box::new(move || {
                log.borrow_mut().push(n);
                n
            }) as Box<dyn Fn() -> u8>
        })
        .collect();
    let lifted = map_batch(cmds, moonlight::commands::map::<u8, Outer, Box<dyn Fn() -> u8>>);
    assert_eq!(lifted.len(), 3);
    // lifting runs no command
    assert!(runs.borrow().is_empty());
    let yields: Vec<Outer> = lifted.iter().map(|cmd| cmd()).collect();
    assert_eq!(yields, vec![Outer(2), Outer(3), Outer(4)]);
    assert_eq!(*runs.borrow(), vec![1, 2, 3]);
    // a lifted command can be run again
    assert_eq!(lifted[1](), Outer(3));
    let none: Vec<Box<dyn Fn() -> u8>> = Vec::new();
    assert!(map_batch(none, moonlight::commands::map::<u8, Outer, Box<dyn Fn() -> u8>>).is_empty());
}

#[test]
fn map_each_keeps_order() {
    assert_eq!(map_each(vec![1, 2, 3], |n: i32| n * n), vec![1, 4, 9]);
    assert_eq!(map_each(Vec::<i32>::new(), |n: i32| n), Vec::<i32>::new());
}

#[test]
fn tick_keeps_delay_and_message() {
    let cmd = tick(250, "go");
    assert_eq!(cmd.nanos, 250);
    assert_eq!(cmd.msg, "go");
}
