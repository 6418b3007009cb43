//! The store: it holds the model, passes every message through the
//! middleware chain to the reducer, runs the commands that the reducer
//! returns, and calls the reactions with the new model.

use vstd::prelude::*;
use vstd::multiset::Multiset;
use vstd::pervasive::cloned;
use crate::channels::ChannelSender;

verus! {

/// `generational_arena::Arena`: nothing is known of what is inside but what
/// the functions below say.
#[verifier::external_type_specification]
#[verifier::external_body]
#[verifier::reject_recursive_types(T)]
pub struct ExArena<T>(generational_arena::Arena<T>);

/// What an arena of numbers holds: each number as often as it was inserted.
pub uninterp spec fn arena_items(arena: generational_arena::Arena<usize>) -> Multiset<usize>;

/// `Arena::new`: an arena that holds nothing.
#[verifier::external_body]
fn arena_new() -> (arena: generational_arena::Arena<usize>)
    ensures
        arena_items(arena) == Multiset::<usize>::empty(),
{
    generational_arena::Arena::new()
}

/// `Arena::insert`: the arena holds the value once more, and all it held
/// before. The index that the arena returns is dropped.
#[verifier::external_body]
fn arena_insert(arena: &mut generational_arena::Arena<usize>, value: usize)
    ensures
        arena_items(*final(arena)) == arena_items(*old(arena)).insert(value),
{
    arena.insert(value);
}

/// `Arena::iter`: every value that the arena holds comes out once. The
/// arena leaves the order open.
#[verifier::external_body]
fn arena_values(arena: &generational_arena::Arena<usize>) -> (values: Vec<usize>)
    ensures
        values@.to_multiset() == arena_items(*arena),
{
    arena.iter().map(|(_, value)| *value).collect()
}

/// The numbers below `count`, each once.
pub open spec fn numbers_below(count: nat) -> Multiset<usize>
    decreases count,
{
    if count == 0 {
        Multiset::<usize>::empty()
    } else {
        numbers_below((count - 1) as nat).insert((count - 1) as usize)
    }
}

/// Every number below `count` is among the numbers below `count`.
pub proof fn lemma_numbers_below(count: nat, i: usize)
    requires
        i < count,
    ensures
        numbers_below(count).count(i) > 0,
    decreases count,
{
    if i < count - 1 {
        lemma_numbers_below((count - 1) as nat, i);
    }
}

/// What the middleware chain, from stage `from` on, can make of `msg` while
/// the store holds `model`: `Some` of the message that leaves the last stage,
/// or `None` where a stage swallows it.
pub open spec fn chain_yields<Model, Message, Mid: Fn(&Model, Message) -> Option<Message>>(
    chain: Seq<Mid>,
    model: Model,
    from: int,
    msg: Message,
    passed: Option<Message>,
) -> bool
    decreases chain.len() - from,
{
    if from < 0 || from >= chain.len() {
        passed == Some(msg)
    } else {
        exists|next: Option<Message>| #[trigger]
            chain[from].ensures((&model, msg), next) && match next {
                None => passed is None,
                Some(rewritten) => chain_yields(chain, model, from + 1, rewritten, passed),
            }
    }
}

/// `outputs` are what the commands yield, one message each, in their order.
pub open spec fn commands_yield<Message, Command: Fn() -> Message>(
    commands: Seq<Command>,
    outputs: Seq<Message>,
) -> bool {
    outputs.len() == commands.len() && forall|i: int|
        0 <= i < commands.len() ==> #[trigger] commands[i].ensures((), outputs[i])
}

/// Every reaction was called with `model`.
pub open spec fn reactions_saw<Model, React: Fn(&Model)>(
    reactions: Seq<React>,
    model: Model,
) -> bool {
    forall|i: int| 0 <= i < reactions.len() ==> #[trigger] reactions[i].ensures((&model,), ())
}

/// The reducer, given a copy of `before` and `msg`, returned `after` and
/// commands that yield `outputs`.
pub open spec fn reduces<Model: Clone, Message, Command: Fn() -> Message, Reducer: Fn(
    Model,
    Message,
) -> (Model, Vec<Command>)>(
    reducer: Reducer,
    before: Model,
    msg: Message,
    after: Model,
    outputs: Seq<Message>,
) -> bool {
    exists|snapshot: Model, commands: Vec<Command>| #[trigger]
        reducer.ensures((snapshot, msg), (after, commands)) && cloned(before, snapshot)
            && commands_yield(commands@, outputs)
}

/// The holder of the model and of the functions that act on it. The
/// reactions are kept in a list; an arena holds their places in it and says
/// in which order they are called.
pub struct Store<Model, Reducer, Mid, React, Sub> {
    reducer: Reducer,
    model: Model,
    middleware: Vec<Mid>,
    reactions: Vec<React>,
    places: generational_arena::Arena<usize>,
    subscriptions: Vec<Sub>,
}

impl<Model, Reducer, Mid, React, Sub> Store<Model, Reducer, Mid, React, Sub> {
    /// The current model.
    pub closed spec fn current(&self) -> Model {
        self.model
    }

    /// The reducer.
    pub closed spec fn transition(&self) -> Reducer {
        self.reducer
    }

    /// The middleware chain, first stage first.
    pub closed spec fn chain(&self) -> Seq<Mid> {
        self.middleware@
    }

    /// The reactions, in the order in which they were added.
    pub closed spec fn observers(&self) -> Seq<React> {
        self.reactions@
    }

    /// The subscriptions, in the order in which they were added.
    pub closed spec fn sources(&self) -> Seq<Sub> {
        self.subscriptions@
    }

    /// The arena holds the place of every reaction once, and nothing else.
    pub closed spec fn wf(&self) -> bool {
        arena_items(self.places) == numbers_below(self.reactions@.len())
    }

    /// The other store differs from this one in the model at most.
    pub open spec fn same_wiring(&self, other: &Self) -> bool {
        &&& self.transition() == other.transition()
        &&& self.chain() == other.chain()
        &&& self.observers() == other.observers()
        &&& self.sources() == other.sources()
    }

    /// A store with the initial model and nothing registered.
    pub fn new(reducer: Reducer, initial: Model) -> (store: Self)
        ensures
            store.wf(),
            store.current() == initial,
            store.transition() == reducer,
            store.chain() == Seq::<Mid>::empty(),
            store.observers() == Seq::<React>::empty(),
            store.sources() == Seq::<Sub>::empty(),
    {
        Store {
            reducer,
            model: initial,
            middleware: Vec::new(),
            reactions: Vec::new(),
            places: arena_new(),
            subscriptions: Vec::new(),
        }
    }

    /// Adds a reaction behind those that are there.
    pub fn react(&mut self, callback: React)
        requires
            old(self).wf(),
        ensures
            final(self).wf(),
            final(self).observers() == old(self).observers().push(callback),
            final(self).current() == old(self).current(),
            final(self).transition() == old(self).transition(),
            final(self).chain() == old(self).chain(),
            final(self).sources() == old(self).sources(),
    {
        let place = self.reactions.len();
        self.reactions.push(callback);
        arena_insert(&mut self.places, place);
    }

    /// Adds a subscription behind those that are there.
    pub fn subscribe(&mut self, callback: Sub)
        ensures
            final(self).wf() == old(self).wf(),
            final(self).sources() == old(self).sources().push(callback),
            final(self).current() == old(self).current(),
            final(self).transition() == old(self).transition(),
            final(self).chain() == old(self).chain(),
            final(self).observers() == old(self).observers(),
    {
        self.subscriptions.push(callback);
    }

    /// Adds a middleware stage behind those that are there.
    pub fn middleware(&mut self, callback: Mid)
        ensures
            final(self).wf() == old(self).wf(),
            final(self).chain() == old(self).chain().push(callback),
            final(self).current() == old(self).current(),
            final(self).transition() == old(self).transition(),
            final(self).observers() == old(self).observers(),
            final(self).sources() == old(self).sources(),
    {
        self.middleware.push(callback);
    }

    /// The current model, to read.
    pub fn peek(&self) -> (model: &Model)
        ensures
            *model == self.current(),
    {
        &self.model
    }

    /// A copy of the current model.
    pub fn model(&self) -> (snapshot: Model) where Model: Clone
        ensures
            cloned(self.current(), snapshot),
    {
        self.model.clone()
    }
}

/// What one run of the reducer leaves behind: the new model, the messages of
/// its commands behind what the sender held, one frame asked for with each,
/// and every reaction called with the new model.
pub open spec fn reducer_ran<Model: Clone, Message, Command: Fn() -> Message, Reducer: Fn(
    Model,
    Message,
) -> (Model, Vec<Command>), React: Fn(&Model)>(
    reducer: Reducer,
    reactions: Seq<React>,
    before: Model,
    msg: Message,
    after: Model,
    sender_before: ChannelSender<Message>,
    sender_after: ChannelSender<Message>,
) -> bool {
    let sent = sender_before.sent().len() as int;
    &&& sender_before.sent().is_prefix_of(sender_after.sent())
    &&& reduces(reducer, before, msg, after, sender_after.sent().skip(sent))
    &&& sender_after.frames_wanted() == sender_before.frames_wanted() + sender_after.sent().len()
        - sent
    &&& reactions_saw(reactions, after)
}

/// What a dispatch that enters the middleware chain at stage `from` leaves
/// behind. Where a stage swallows the message, nothing has changed and
/// `reached` is false: no reducer, no command, no reaction. Where the chain
/// lets a message through, the reducer ran on it.
pub open spec fn dispatched<Model: Clone, Message, Command: Fn() -> Message, Reducer: Fn(
    Model,
    Message,
) -> (Model, Vec<Command>), Mid: Fn(&Model, Message) -> Option<Message>, React: Fn(&Model)>(
    reducer: Reducer,
    chain: Seq<Mid>,
    reactions: Seq<React>,
    from: int,
    before: Model,
    msg: Message,
    reached: bool,
    after: Model,
    sender_before: ChannelSender<Message>,
    sender_after: ChannelSender<Message>,
) -> bool {
    exists|passed: Option<Message>| #[trigger]
        chain_yields(chain, before, from, msg, passed) && match passed {
            None => !reached && after == before && sender_after == sender_before,
            Some(let_through) => reached && reducer_ran(
                reducer,
                reactions,
                before,
                let_through,
                after,
                sender_before,
                sender_after,
            ),
        }
}

impl<Model: Clone, Reducer, Mid, React, Sub> Store<Model, Reducer, Mid, React, Sub> {
    /// The reducer, the commands it returns, the middleware stages and the
    /// reactions can be called on every input: they are total.
    pub open spec fn total<Message, Command>(&self) -> bool where
        Reducer: Fn(Model, Message) -> (Model, Vec<Command>),
        Command: Fn() -> Message,
        Mid: Fn(&Model, Message) -> Option<Message>,
        React: Fn(&Model),
     {
        &&& self.wf()
        &&& forall|m: Model, msg: Message| #[trigger] self.transition().requires((m, msg))
        &&& forall|m: Model, msg: Message, after: Model, commands: Vec<Command>, i: int|
            #![trigger self.transition().ensures((m, msg), (after, commands)), commands[i]]
            self.transition().ensures((m, msg), (after, commands)) && 0 <= i < commands.len()
                ==> commands[i].requires(())
        &&& forall|i: int, m: &Model, msg: Message|
            0 <= i < self.chain().len() ==> #[trigger] self.chain()[i].requires((m, msg))
        &&& forall|i: int, m: &Model|
            0 <= i < self.observers().len() ==> #[trigger] self.observers()[i].requires((m,))
    }

    /// Handles one message: it goes through the middleware chain, stage by
    /// stage; what leaves the last stage goes to the reducer. Returns whether
    /// the reducer was reached.
    pub fn dispatch<Message, Command>(
        &mut self,
        message: Message,
        cmd_sender: &mut ChannelSender<Message>,
    ) -> (reached: bool) where
        Reducer: Fn(Model, Message) -> (Model, Vec<Command>),
        Command: Fn() -> Message,
        Mid: Fn(&Model, Message) -> Option<Message>,
        React: Fn(&Model),

        requires
            old(self).total::<Message, Command>(),
        ensures
            final(self).total::<Message, Command>(),
            final(self).same_wiring(old(self)),
            dispatched(
                old(self).transition(),
                old(self).chain(),
                old(self).observers(),
                0,
                old(self).current(),
                message,
                reached,
                final(self).current(),
                *old(cmd_sender),
                *final(cmd_sender),
            ),
    {
        if self.middleware.len() == 0 {
            assert(chain_yields(self.chain(), self.current(), 0, message, Some(message)));
            self.dispatch_reducer(message, cmd_sender);
            true
        } else {
            self.dispatch_middleware(0, message, cmd_sender)
        }
    }

    /// Handles a message that has passed the stages before `index`.
    pub fn dispatch_middleware<Message, Command>(
        &mut self,
        index: usize,
        message: Message,
        cmd_sender: &mut ChannelSender<Message>,
    ) -> (reached: bool) where
        Reducer: Fn(Model, Message) -> (Model, Vec<Command>),
        Command: Fn() -> Message,
        Mid: Fn(&Model, Message) -> Option<Message>,
        React: Fn(&Model),

        requires
            old(self).total::<Message, Command>(),
            index <= old(self).chain().len(),
        ensures
            final(self).total::<Message, Command>(),
            final(self).same_wiring(old(self)),
            dispatched(
                old(self).transition(),
                old(self).chain(),
                old(self).observers(),
                index as int,
                old(self).current(),
                message,
                reached,
                final(self).current(),
                *old(cmd_sender),
                *final(cmd_sender),
            ),
        decreases old(self).chain().len() - index,
    {
        if index == self.middleware.len() {
            assert(chain_yields(self.chain(), self.current(), index as int, message, Some(message)));
            self.dispatch_reducer(message, cmd_sender);
            return true;
        }
        let next = (self.middleware[index])(&self.model, message);
        match next {
            None => {
                assert(chain_yields(self.chain(), self.current(), index as int, message, None));
                false
            },
            Some(rewritten) => {
                let reached = self.dispatch_middleware(index + 1, rewritten, cmd_sender);
                proof {
                    let passed = choose|passed: Option<Message>| #[trigger]
                        chain_yields(
                            old(self).chain(),
                            old(self).current(),
                            index + 1,
                            rewritten,
                            passed,
                        ) && match passed {
                            None => !reached && final(self).current() == old(self).current()
                                && *final(cmd_sender) == *old(cmd_sender),
                            Some(let_through) => reached && reducer_ran(
                                old(self).transition(),
                                old(self).observers(),
                                old(self).current(),
                                let_through,
                                final(self).current(),
                                *old(cmd_sender),
                                *final(cmd_sender),
                            ),
                        };
                    assert(chain_yields(
                        old(self).chain(),
                        old(self).current(),
                        index as int,
                        message,
                        passed,
                    ));
                }
                reached
            },
        }
    }

    /// Runs the reducer on a copy of the model and the message, puts the new
    /// model in place, runs the commands in order and sends what each yields,
    /// then calls the reactions with the new model.
    pub fn dispatch_reducer<Message, Command>(
        &mut self,
        message: Message,
        cmd_sender: &mut ChannelSender<Message>,
    ) where
        Reducer: Fn(Model, Message) -> (Model, Vec<Command>),
        Command: Fn() -> Message,
        Mid: Fn(&Model, Message) -> Option<Message>,
        React: Fn(&Model),

        requires
            old(self).total::<Message, Command>(),
        ensures
            final(self).total::<Message, Command>(),
            final(self).same_wiring(old(self)),
            reducer_ran(
                old(self).transition(),
                old(self).observers(),
                old(self).current(),
                message,
                final(self).current(),
                *old(cmd_sender),
                *final(cmd_sender),
            ),
    {
        let snapshot = self.model.clone();
        assert(self.transition().requires((snapshot, message)));
        let (model, commands) = (self.reducer)(snapshot, message);
        self.model = model;
        let ghost held = cmd_sender.sent();
        let ghost frames = cmd_sender.frames_wanted();
        let mut i: usize = 0;
        while i < commands.len()
            invariant
                i <= commands.len(),
                forall|j: int|
                    0 <= j < commands.len() ==> #[trigger] commands[j].requires(()),
                cmd_sender.sent().len() == held.len() + i,
                held.is_prefix_of(cmd_sender.sent()),
                cmd_sender.frames_wanted() == frames + i,
                commands_yield(commands@.take(i as int), cmd_sender.sent().skip(held.len() as int)),
            decreases commands.len() - i,
        {
            let ghost yielded = cmd_sender.sent().skip(held.len() as int);
            let msg = (commands[i])();
            cmd_sender.send(msg);
            i = i + 1;
            assert(cmd_sender.sent().skip(held.len() as int) =~= yielded.push(msg));
            assert(commands@.take(i as int) =~= commands@.take(i - 1).push(commands[i - 1]));
        }
        assert(commands@.take(i as int) =~= commands@);
        assert(self.observers() == old(self).observers());
        assert(self.transition() == old(self).transition());
        assert(self.chain() == old(self).chain());
        assert(self.wf());
        self.dispatch_reactions();
    }

    /// Calls every reaction with the current model, in the order in which
    /// the arena hands their places out.
    pub fn dispatch_reactions(&self) where React: Fn(&Model)
        requires
            self.wf(),
            forall|i: int, m: &Model|
                0 <= i < self.observers().len() ==> #[trigger] self.observers()[i].requires((m,)),
        ensures
            reactions_saw(self.observers(), self.current()),
    {
        let places = arena_values(&self.places);
        let mut k: usize = 0;
        while k < places.len()
            invariant
                k <= places.len(),
                forall|j: int, m: &Model|
                    0 <= j < self.observers().len() ==> #[trigger] self.observers()[j].requires(
                        (m,),
                    ),
                forall|j: int|
                    0 <= j < k && places@[j] < self.observers().len() ==> (
                    #[trigger] self.observers()[places@[j] as int]).ensures(
                        (&self.current(),),
                        (),
                    ),
            decreases places.len() - k,
        {
            let place = places[k];
            if place < self.reactions.len() {
                assert(self.observers()[place as int].requires((&self.model,)));
                (self.reactions[place])(&self.model);
            }
            k = k + 1;
        }
        let count = self.reactions.len();
        assert forall|i: int| 0 <= i < self.observers().len() implies (
        #[trigger] self.observers()[i]).ensures((&self.current(),), ()) by {
            let place = i as usize;
            lemma_numbers_below(count as nat, place);
            places@.to_multiset_ensures();
            assert(places@.to_multiset().count(place) > 0);
            assert(places@.contains(place));
            let j = choose|j: int| 0 <= j < places@.len() && places@[j] == place;
            assert(self.observers()[places@[j] as int].ensures((&self.current(),), ()));
        }
    }
}

/// The subscription was called with the snapshot, and what it returned went
/// out through the sender behind what it held, with one frame asked for.
pub open spec fn subscription_fired<Model, Message, Sub: Fn(&Model) -> Message>(
    subscription: Sub,
    snapshot: Model,
    before: ChannelSender<Message>,
    after: ChannelSender<Message>,
) -> bool {
    exists|msg: Message| #[trigger]
        subscription.ensures((&snapshot,), msg) && after.sent() == before.sent().push(msg)
            && after.frames_wanted() == before.frames_wanted() + 1
}

/// One turn of a subscription: it is called with its snapshot of the model,
/// and its message is sent. A subscription's thread does this over and over.
pub fn subscription_step<Model, Message, Sub: Fn(&Model) -> Message>(
    subscription: &Sub,
    snapshot: &Model,
    subscription_sender: &mut ChannelSender<Message>,
)
    requires
        subscription.requires((snapshot,)),
    ensures
        subscription_fired(
            *subscription,
            *snapshot,
            *old(subscription_sender),
            *final(subscription_sender),
        ),
{
    let message = subscription(snapshot);
    subscription_sender.send(message);
}

impl<Model: Clone, Reducer, Mid, React, Sub: Clone> Store<Model, Reducer, Mid, React, Sub> {
    /// Hands out a copy of every subscription, each with its own copy of the
    /// model as it is now, in the order in which they were added. The copies
    /// of the model are never refreshed. The store stays as it is and keeps
    /// its subscriptions.
    pub fn dispatch_subscriptions(&self) -> (started: Vec<(Model, Sub)>)
        ensures
            started@.len() == self.sources().len(),
            forall|i: int|
                0 <= i < started@.len() ==> cloned(self.current(), (#[trigger] started@[i]).0)
                    && cloned(self.sources()[i], started@[i].1),
    {
        let mut started: Vec<(Model, Sub)> = Vec::new();
        let mut i: usize = 0;
        while i < self.subscriptions.len()
            invariant
                i <= self.subscriptions@.len(),
                started@.len() == i,
                forall|k: int|
                    0 <= k < i ==> cloned(self.current(), (#[trigger] started@[k]).0) && cloned(
                        self.sources()[k],
                        started@[k].1,
                    ),
            decreases self.subscriptions@.len() - i,
        {
            let snapshot = self.model.clone();
            let subscription = self.subscriptions[i].clone();
            started.push((snapshot, subscription));
            i = i + 1;
        }
        started
    }
}

/// A middleware stage computes `stage`: called with a model and a message,
/// it returns what `stage` gives for them, and nothing else.
pub open spec fn computes<Model, Message, Mid: Fn(&Model, Message) -> Option<Message>>(
    middleware: Mid,
    stage: spec_fn(Model, Message) -> Option<Message>,
) -> bool {
    forall|model: Model, msg: Message, out: Option<Message>| #[trigger]
        middleware.ensures((&model, msg), out) <==> out == stage(model, msg)
}

/// The composition of the stages from `from` on: each stage gets what the
/// stage before it returned; the first `None` ends it.
pub open spec fn composition<Model, Message>(
    stages: Seq<spec_fn(Model, Message) -> Option<Message>>,
    model: Model,
    from: int,
    msg: Message,
) -> Option<Message>
    decreases stages.len() - from,
{
    if from < 0 || from >= stages.len() {
        Some(msg)
    } else {
        match stages[from](model, msg) {
            None => None,
            Some(rewritten) => composition(stages, model, from + 1, rewritten),
        }
    }
}

/// The middleware chain is the composition of its stages: where every stage
/// computes a function, the message that reaches the reducer is what the
/// last stage makes of what the stage before it made, and so on back to the
/// dispatched message; where a stage returns `None`, no message reaches the
/// reducer.
pub proof fn lemma_chain_is_composition<Model, Message, Mid: Fn(&Model, Message) -> Option<
    Message,
>>(
    chain: Seq<Mid>,
    stages: Seq<spec_fn(Model, Message) -> Option<Message>>,
    model: Model,
    from: int,
    msg: Message,
    passed: Option<Message>,
)
    requires
        chain.len() == stages.len(),
        forall|i: int| 0 <= i < chain.len() ==> computes(#[trigger] chain[i], stages[i]),
        0 <= from <= chain.len(),
    ensures
        chain_yields(chain, model, from, msg, passed) <==> passed == composition(
            stages,
            model,
            from,
            msg,
        ),
    decreases chain.len() - from,
{
    if from < chain.len() {
        let next = stages[from](model, msg);
        assert(computes(chain[from], stages[from]));
        assert(chain[from].ensures((&model, msg), next));
        match next {
            None => {},
            Some(rewritten) => {
                lemma_chain_is_composition(chain, stages, model, from + 1, rewritten, passed);
            },
        }
    }
}

} // verus!
