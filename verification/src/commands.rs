//! Commands lifted from one message type into another.

use vstd::prelude::*;

verus! {

/// A command that waits: its message is due when `nanos` nanoseconds have
/// passed.
#[derive(Clone, Copy, Debug, PartialEq, Eq)]
pub struct Delayed<MSG> {
    pub nanos: u64,
    pub msg: MSG,
}

/// The command that yields `msg` after `nanos` nanoseconds.
pub fn tick<MSG>(nanos: u64, msg: MSG) -> (cmd: Delayed<MSG>)
    ensures
        cmd == (Delayed { nanos, msg }),
{
    Delayed { nanos, msg }
}

/// What the lifted command yields: the conversion of what the inner command
/// yields.
pub open spec fn lifted<I, O: From<I>, C: Fn() -> I>(cmd: C, out: O) -> bool {
    exists|inner: I| #[trigger] cmd.ensures((), inner) && call_ensures(O::from, (inner,), out)
}

/// Lifts a command into the message type `O`: the new command runs the
/// given one and converts its message.
pub fn map<I, O: From<I>, C: Fn() -> I>(cmd: C) -> (outer: impl Fn() -> O)
    ensures
        cmd.requires(()) ==> outer.requires(()),
        forall|out: O| #[trigger] outer.ensures((), out) ==> lifted(cmd, out),
{
    move || -> (out: O)
        requires
            cmd.requires(()),
        ensures
            lifted(cmd, out),
        {
            let inner = cmd();
            O::from(inner)
        }
}

/// Applies `each` to every item of a list, in order.
pub fn map_each<C, F, M: Fn(C) -> F>(items: Vec<C>, each: M) -> (mapped: Vec<F>)
    requires
        forall|item: C| #[trigger] each.requires((item,)),
    ensures
        mapped@.len() == items@.len(),
        forall|i: int| 0 <= i < items@.len() ==> each.ensures((items@[i],), #[trigger] mapped@[i]),
{
    let mut items = items;
    let ghost all = items@;
    let mut turned: Vec<F> = Vec::new();
    while items.len() > 0
        invariant
            forall|item: C| #[trigger] each.requires((item,)),
            items@.len() + turned@.len() == all.len(),
            items@ == all.take(items@.len() as int),
            forall|k: int|
                0 <= k < turned@.len() ==> each.ensures(
                    (all[all.len() - 1 - k],),
                    #[trigger] turned@[k],
                ),
        decreases items@.len(),
    {
        let item = items.pop().unwrap();
        turned.push(each(item));
    }
    let mut mapped: Vec<F> = Vec::new();
    while turned.len() > 0
        invariant
            turned@.len() + mapped@.len() == all.len(),
            forall|k: int|
                0 <= k < turned@.len() ==> each.ensures(
                    (all[all.len() - 1 - k],),
                    #[trigger] turned@[k],
                ),
            forall|k: int| 0 <= k < mapped@.len() ==> each.ensures((all[k],), #[trigger] mapped@[k]),
        decreases turned@.len(),
    {
        let item = turned.pop().unwrap();
        mapped.push(item);
    }
    mapped
}

/// The function lifts commands from `I` to `O`: it takes every command, and
/// what it returns for a command can be run wherever the command can and
/// yields the conversion of what the command yields. [`map`] is such a
/// function.
pub open spec fn lifts<I, O: From<I>, C: Fn() -> I, F: Fn() -> O, L: Fn(C) -> F>(lift: L) -> bool {
    &&& forall|cmd: C| #[trigger] lift.requires((cmd,))
    &&& forall|cmd: C, outer: F| #[trigger]
        lift.ensures((cmd,), outer) ==> (cmd.requires(()) ==> outer.requires(()))
    &&& forall|cmd: C, outer: F, out: O|
        #![trigger lift.ensures((cmd,), outer), outer.ensures((), out)]
        lift.ensures((cmd,), outer) && outer.ensures((), out) ==> lifted(cmd, out)
}

/// Lifts every command of a batch into the message type `O`, in order, with
/// a function that lifts one command: [`map`], as a rule. No command is run
/// here. The lifted command at each place can be run wherever the command
/// at that place can, and yields the conversion of what that command
/// yields.
pub fn map_batch<I, O: From<I>, C: Fn() -> I, F: Fn() -> O, L: Fn(C) -> F>(
    cmds: Vec<C>,
    lift: L,
) -> (mapped: Vec<F>)
    requires
        lifts::<I, O, C, F, L>(lift),
    ensures
        mapped@.len() == cmds@.len(),
        forall|i: int| 0 <= i < cmds@.len() ==> lift.ensures((cmds@[i],), #[trigger] mapped@[i]),
        forall|i: int, out: O|
            0 <= i < cmds@.len() && #[trigger] mapped@[i].ensures((), out) ==> lifted(
                cmds@[i],
                out,
            ),
        forall|i: int|
            0 <= i < cmds@.len() && cmds@[i].requires(()) ==> (#[trigger] mapped@[i]).requires(()),
{
    map_each(cmds, lift)
}

} // verus!
