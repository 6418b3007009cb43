//! The orchestrator: it wires the store, the painter and the liveness flag
//! together and decides, step by step, what the main loop does. Whoever
//! drives it does the waiting and the writing: each step hands back the bytes
//! that go to the terminal.

use vstd::prelude::*;
use vstd::utf8::encode_utf8;
use crate::channels::{Channel, ChannelSender};
use crate::heartbeat::Heartbeat;
use crate::input::InputEvent;
use crate::renderer::{
    enter_alternate_screen,
    exit_fullscreen,
    frame_of,
    fullscreen,
    hide_cursor_sequence,
    leave_alternate_screen,
    line_feeds,
    restore_cursor_sequence,
    show_cursor_sequence,
    Renderer,
};
use crate::store::{dispatched, Store};

verus! {

/// Where a runtime stands in its life.
#[derive(Debug, Copy, Clone, PartialEq, Eq)]
pub enum Phase {
    /// Built and being configured; nothing was written yet.
    Constructed,
    /// Started: the terminal is set up and frames are being painted.
    Looping,
    /// Torn down: the terminal is restored.
    Exited,
}

/// A program in the making: the store, the first command, the input mapper,
/// the view, the painter and the liveness flag.
pub struct Runtime<Model, Input, View, Reducer, Mid, React, Sub, Ignition> {
    pub heartbeat: Heartbeat,
    pub store: Store<Model, Reducer, Mid, React, Sub>,
    pub ignition: Option<Ignition>,
    pub input: Input,
    pub view: View,
    pub fullscreen: bool,
    pub renderer: Renderer,
    pub phase: Phase,
}

/// The input mapper was called with `event`, and what it returned, if
/// anything, went out through the sender behind what it held, with one frame
/// asked for.
pub open spec fn input_mapped<Message, Input: Fn(InputEvent) -> Option<Message>>(
    input: Input,
    event: InputEvent,
    before: ChannelSender<Message>,
    after: ChannelSender<Message>,
) -> bool {
    exists|mapped: Option<Message>| #[trigger]
        input.ensures((event,), mapped) && match mapped {
            None => after == before,
            Some(msg) => after.sent() == before.sent().push(msg) && after.frames_wanted()
                == before.frames_wanted() + 1,
        }
}

/// Maps one input event to a message and sends it, where the mapper returns
/// one.
pub fn receive_input<Message, Input: Fn(InputEvent) -> Option<Message>>(
    input: &Input,
    event: InputEvent,
    input_sender: &mut ChannelSender<Message>,
)
    requires
        input.requires((event,)),
    ensures
        input_mapped(*input, event, *old(input_sender), *final(input_sender)),
{
    match input(event) {
        None => {},
        Some(msg) => {
            input_sender.send(msg);
        },
    }
}

/// Appends the bytes of a text to what is to be written.
pub fn write_text(out: &mut Vec<u8>, text: &str)
    ensures
        final(out)@ == old(out)@ + encode_utf8(text@),
{
    out.extend_from_slice(text.as_bytes());
}

/// The bytes that set the terminal up: the alternate screen where
/// `fullscreen` is set, then the hidden cursor.
pub open spec fn setup_bytes(fullscreen: bool) -> Seq<u8> {
    if fullscreen {
        encode_utf8(enter_alternate_screen()) + encode_utf8(hide_cursor_sequence())
    } else {
        encode_utf8(hide_cursor_sequence())
    }
}

/// The bytes that give the terminal back: out of the alternate screen where
/// `fullscreen` is set, then the cursor shown and put back.
pub open spec fn teardown_bytes(fullscreen: bool) -> Seq<u8> {
    if fullscreen {
        encode_utf8(leave_alternate_screen()) + encode_utf8(show_cursor_sequence()) + encode_utf8(
            restore_cursor_sequence(),
        )
    } else {
        encode_utf8(show_cursor_sequence()) + encode_utf8(restore_cursor_sequence())
    }
}

impl<Model, Input, View, Reducer, Mid, React, Sub, Ignition> Runtime<
    Model,
    Input,
    View,
    Reducer,
    Mid,
    React,
    Sub,
    Ignition,
> {
    /// The other runtime differs from this one in the model, in the painter's
    /// line count and in the first command at most.
    pub open spec fn same_setup(&self, other: &Self) -> bool {
        &&& self.heartbeat == other.heartbeat
        &&& self.store.same_wiring(&other.store)
        &&& self.input == other.input
        &&& self.view == other.view
        &&& self.fullscreen == other.fullscreen
        &&& self.phase == other.phase
    }

    /// Builds a runtime: `initial` gives the first model and, where there is
    /// one, the first command.
    pub fn new<Initialize: FnOnce() -> (Model, Option<Ignition>)>(
        reducer: Reducer,
        initial: Initialize,
        input: Input,
        view: View,
    ) -> (runtime: Self)
        requires
            initial.requires(()),
        ensures
            initial.ensures((), (runtime.store.current(), runtime.ignition)),
            runtime.store.wf(),
            runtime.store.transition() == reducer,
            runtime.store.chain() == Seq::<Mid>::empty(),
            runtime.store.observers() == Seq::<React>::empty(),
            runtime.store.sources() == Seq::<Sub>::empty(),
            runtime.input == input,
            runtime.view == view,
            !runtime.fullscreen,
            !runtime.heartbeat.dead(),
            runtime.renderer.lines() == 0,
            runtime.phase == Phase::Constructed,
    {
        let (model, cmd) = initial();
        Runtime {
            heartbeat: Heartbeat::new(),
            store: Store::new(reducer, model),
            ignition: cmd,
            input,
            view,
            fullscreen: false,
            renderer: Renderer::new(),
            phase: Phase::Constructed,
        }
    }

    /// The program will run on the alternate screen.
    pub fn with_fullscreen(self) -> (runtime: Self)
        ensures
            runtime.fullscreen,
            runtime.heartbeat == self.heartbeat,
            runtime.store == self.store,
            runtime.ignition == self.ignition,
            runtime.input == self.input,
            runtime.view == self.view,
            runtime.renderer == self.renderer,
            runtime.phase == self.phase,
    {
        let mut runtime = self;
        runtime.fullscreen = true;
        runtime
    }

    /// Adds a middleware stage; it runs before the reducer, behind the stages
    /// added before it.
    pub fn with_middleware(self, middleware: Mid) -> (runtime: Self)
        ensures
            runtime.store.chain() == self.store.chain().push(middleware),
            runtime.store.wf() == self.store.wf(),
            runtime.store.current() == self.store.current(),
            runtime.store.transition() == self.store.transition(),
            runtime.store.observers() == self.store.observers(),
            runtime.store.sources() == self.store.sources(),
            runtime.heartbeat == self.heartbeat,
            runtime.ignition == self.ignition,
            runtime.input == self.input,
            runtime.view == self.view,
            runtime.fullscreen == self.fullscreen,
            runtime.renderer == self.renderer,
            runtime.phase == self.phase,
    {
        let mut runtime = self;
        runtime.store.middleware(middleware);
        runtime
    }

    /// Adds a subscription behind those added before it.
    pub fn with_subscription(self, subscription: Sub) -> (runtime: Self)
        ensures
            runtime.store.sources() == self.store.sources().push(subscription),
            runtime.store.wf() == self.store.wf(),
            runtime.store.current() == self.store.current(),
            runtime.store.transition() == self.store.transition(),
            runtime.store.chain() == self.store.chain(),
            runtime.store.observers() == self.store.observers(),
            runtime.heartbeat == self.heartbeat,
            runtime.ignition == self.ignition,
            runtime.input == self.input,
            runtime.view == self.view,
            runtime.fullscreen == self.fullscreen,
            runtime.renderer == self.renderer,
            runtime.phase == self.phase,
    {
        let mut runtime = self;
        runtime.store.subscribe(subscription);
        runtime
    }

    /// Sets the liveness flag: the loop ends after the drain in progress.
    pub fn stop(&mut self)
        ensures
            final(self).heartbeat.dead(),
            final(self).store == old(self).store,
            final(self).ignition == old(self).ignition,
            final(self).input == old(self).input,
            final(self).view == old(self).view,
            final(self).fullscreen == old(self).fullscreen,
            final(self).renderer == old(self).renderer,
            final(self).phase == old(self).phase,
    {
        self.heartbeat.stop();
    }

    /// Gives the terminal back, whatever happened before: the bytes that
    /// leave the alternate screen, where the runtime was configured for it,
    /// show the cursor and put it back. The runtime has exited.
    pub fn teardown(&mut self) -> (output: Vec<u8>)
        ensures
            output@ == teardown_bytes(old(self).fullscreen),
            final(self).phase == Phase::Exited,
            final(self).heartbeat == old(self).heartbeat,
            final(self).store == old(self).store,
            final(self).ignition == old(self).ignition,
            final(self).input == old(self).input,
            final(self).view == old(self).view,
            final(self).fullscreen == old(self).fullscreen,
            final(self).renderer == old(self).renderer,
    {
        let mut output: Vec<u8> = Vec::new();
        if self.fullscreen {
            let leave = exit_fullscreen();
            write_text(&mut output, leave.as_str());
        }
        let show = self.renderer.show_cursor();
        write_text(&mut output, show.as_str());
        let restore = self.renderer.restore_terminal();
        write_text(&mut output, restore.as_str());
        self.phase = Phase::Exited;
        assert(output@ =~= teardown_bytes(self.fullscreen));
        output
    }

    /// Consults the liveness flag, as the loop does after every drain. Where
    /// it is set and the runtime is looping, the runtime is torn down and the
    /// bytes that give the terminal back are returned: the loop ends here.
    /// Otherwise nothing changes.
    pub fn stop_if_dead(&mut self) -> (output: Option<Vec<u8>>)
        ensures
            output is Some <==> old(self).heartbeat.dead() && old(self).phase == Phase::Looping,
            output is Some ==> output->0@ == teardown_bytes(old(self).fullscreen),
            output is Some ==> final(self).phase == Phase::Exited,
            output is None ==> final(self).phase == old(self).phase,
            final(self).heartbeat == old(self).heartbeat,
            final(self).store == old(self).store,
            final(self).ignition == old(self).ignition,
            final(self).input == old(self).input,
            final(self).view == old(self).view,
            final(self).fullscreen == old(self).fullscreen,
            final(self).renderer == old(self).renderer,
    {
        let looping = match self.phase {
            Phase::Looping => true,
            _ => false,
        };
        if looping && self.heartbeat.is_dead() {
            Some(self.teardown())
        } else {
            None
        }
    }
}

/// What starting a runtime leaves behind: the setup sequences and the first
/// frame are the output, the message of the first command waits on the
/// channel, and the runtime is looping.
pub open spec fn started<Model, Message, Input, View: Fn(&Model) -> String, Reducer, Mid, React, Sub, Ignition: Fn() -> Message>(
    before: Runtime<Model, Input, View, Reducer, Mid, React, Sub, Ignition>,
    after: Runtime<Model, Input, View, Reducer, Mid, React, Sub, Ignition>,
    channel_before: Channel<Message>,
    channel_after: Channel<Message>,
    output: Seq<u8>,
) -> bool {
    &&& after.phase == Phase::Looping
    &&& after.heartbeat == before.heartbeat
    &&& after.store == before.store
    &&& after.ignition == before.ignition
    &&& after.input == before.input
    &&& after.view == before.view
    &&& after.fullscreen == before.fullscreen
    &&& exists|text: String| #[trigger]
        before.view.ensures((&before.store.current(),), text) && output == setup_bytes(
            before.fullscreen,
        ) + frame_of(before.renderer.lines(), encode_utf8(text@)) && after.renderer.lines()
            == line_feeds(encode_utf8(text@)) + 1
    &&& match before.ignition {
        None => channel_after == channel_before,
        Some(cmd) => exists|msg: Message| #[trigger]
            cmd.ensures((), msg) && channel_after.pending() == channel_before.pending().push(msg)
                && channel_after.frames_wanted() == channel_before.frames_wanted() + 1,
    }
}

/// What handling one message leaves behind. The message is dispatched; where
/// it reaches the reducer, the view of the new model is painted over the
/// last frame and `output` is that frame; where the middleware swallows it,
/// nothing is written and nothing changes.
pub open spec fn handled<Model: Clone, Message, Command: Fn() -> Message, Input, View: Fn(
    &Model,
) -> String, Reducer: Fn(Model, Message) -> (Model, Vec<Command>), Mid: Fn(
    &Model,
    Message,
) -> Option<Message>, React: Fn(&Model), Sub, Ignition>(
    before: Runtime<Model, Input, View, Reducer, Mid, React, Sub, Ignition>,
    msg: Message,
    after: Runtime<Model, Input, View, Reducer, Mid, React, Sub, Ignition>,
    sender_before: ChannelSender<Message>,
    sender_after: ChannelSender<Message>,
    output: Seq<u8>,
) -> bool {
    &&& after.same_setup(&before)
    &&& after.ignition == before.ignition
    &&& exists|reached: bool| #[trigger]
        dispatched(
            before.store.transition(),
            before.store.chain(),
            before.store.observers(),
            0,
            before.store.current(),
            msg,
            reached,
            after.store.current(),
            sender_before,
            sender_after,
        ) && if reached {
            exists|text: String| #[trigger]
                before.view.ensures((&after.store.current(),), text) && output == frame_of(
                    before.renderer.lines(),
                    encode_utf8(text@),
                ) && after.renderer.lines() == line_feeds(encode_utf8(text@)) + 1
        } else {
            output == Seq::<u8>::empty() && after.renderer == before.renderer
        }
}

/// What handling `messages`, oldest first, leaves behind: each is handled in
/// the state that the one before it left, and `output` holds their frames
/// one after the other, the frame of the last message at its end.
pub open spec fn drained<Model: Clone, Message, Command: Fn() -> Message, Input, View: Fn(
    &Model,
) -> String, Reducer: Fn(Model, Message) -> (Model, Vec<Command>), Mid: Fn(
    &Model,
    Message,
) -> Option<Message>, React: Fn(&Model), Sub, Ignition>(
    before: Runtime<Model, Input, View, Reducer, Mid, React, Sub, Ignition>,
    messages: Seq<Message>,
    after: Runtime<Model, Input, View, Reducer, Mid, React, Sub, Ignition>,
    sender_before: ChannelSender<Message>,
    sender_after: ChannelSender<Message>,
    output: Seq<u8>,
) -> bool
    decreases messages.len(),
{
    if messages.len() == 0 {
        after == before && sender_after == sender_before && output == Seq::<u8>::empty()
    } else {
        exists|
            middle: Runtime<Model, Input, View, Reducer, Mid, React, Sub, Ignition>,
            sender_middle: ChannelSender<Message>,
            frame: Seq<u8>,
        | #[trigger]
            handled(middle, messages.last(), after, sender_middle, sender_after, frame)
                && frame.len() <= output.len() && output.skip(output.len() - frame.len())
                == frame && drained(
                before,
                messages.drop_last(),
                middle,
                sender_before,
                sender_middle,
                output.take(output.len() - frame.len()),
            )
    }
}

/// Every message that commands sent during a drain has its frame token:
/// the sender holds what it held before and the new messages behind it, and
/// was asked for as many frames more as it took messages more.
pub proof fn lemma_drained_tokens<Model: Clone, Message, Command: Fn() -> Message, Input, View: Fn(
    &Model,
) -> String, Reducer: Fn(Model, Message) -> (Model, Vec<Command>), Mid: Fn(
    &Model,
    Message,
) -> Option<Message>, React: Fn(&Model), Sub, Ignition>(
    before: Runtime<Model, Input, View, Reducer, Mid, React, Sub, Ignition>,
    messages: Seq<Message>,
    after: Runtime<Model, Input, View, Reducer, Mid, React, Sub, Ignition>,
    sender_before: ChannelSender<Message>,
    sender_after: ChannelSender<Message>,
    output: Seq<u8>,
)
    requires
        drained(before, messages, after, sender_before, sender_after, output),
    ensures
        sender_before.sent().is_prefix_of(sender_after.sent()),
        sender_after.frames_wanted() - sender_before.frames_wanted() == sender_after.sent().len()
            - sender_before.sent().len(),
        after.same_setup(&before),
    decreases messages.len(),
{
    if messages.len() > 0 {
        let (middle, sender_middle, frame) = choose|
            middle: Runtime<Model, Input, View, Reducer, Mid, React, Sub, Ignition>,
            sender_middle: ChannelSender<Message>,
            frame: Seq<u8>,
        | #[trigger]
            handled(middle, messages.last(), after, sender_middle, sender_after, frame)
                && frame.len() <= output.len() && output.skip(output.len() - frame.len())
                == frame && drained(
                before,
                messages.drop_last(),
                middle,
                sender_before,
                sender_middle,
                output.take(output.len() - frame.len()),
            );
        lemma_drained_tokens(
            before,
            messages.drop_last(),
            middle,
            sender_before,
            sender_middle,
            output.take(output.len() - frame.len()),
        );
    }
}

/// Handling one more message extends a drain by its frame.
pub proof fn lemma_drained_one_more<Model: Clone, Message, Command: Fn() -> Message, Input, View: Fn(
    &Model,
) -> String, Reducer: Fn(Model, Message) -> (Model, Vec<Command>), Mid: Fn(
    &Model,
    Message,
) -> Option<Message>, React: Fn(&Model), Sub, Ignition>(
    before: Runtime<Model, Input, View, Reducer, Mid, React, Sub, Ignition>,
    messages: Seq<Message>,
    middle: Runtime<Model, Input, View, Reducer, Mid, React, Sub, Ignition>,
    after: Runtime<Model, Input, View, Reducer, Mid, React, Sub, Ignition>,
    sender_before: ChannelSender<Message>,
    sender_middle: ChannelSender<Message>,
    sender_after: ChannelSender<Message>,
    earlier: Seq<u8>,
    frame: Seq<u8>,
)
    requires
        messages.len() > 0,
        drained(before, messages.drop_last(), middle, sender_before, sender_middle, earlier),
        handled(middle, messages.last(), after, sender_middle, sender_after, frame),
    ensures
        drained(before, messages, after, sender_before, sender_after, earlier + frame),
{
    let output = earlier + frame;
    assert(output.skip(output.len() - frame.len()) =~= frame);
    assert(output.take(output.len() - frame.len()) =~= earlier);
}

impl<Model: Clone, Input, View, Reducer, Mid, React, Sub, Ignition> Runtime<
    Model,
    Input,
    View,
    Reducer,
    Mid,
    React,
    Sub,
    Ignition,
> {
    /// Every function that the user supplied can be called on every input.
    pub open spec fn total<Message, Command>(&self) -> bool where
        Reducer: Fn(Model, Message) -> (Model, Vec<Command>),
        Command: Fn() -> Message,
        Mid: Fn(&Model, Message) -> Option<Message>,
        React: Fn(&Model),
        Input: Fn(InputEvent) -> Option<Message>,
        View: Fn(&Model) -> String,
        Ignition: Fn() -> Message,
     {
        &&& self.store.total::<Message, Command>()
        &&& forall|event: InputEvent| #[trigger] self.input.requires((event,))
        &&& forall|model: &Model| #[trigger] self.view.requires((model,))
        &&& self.ignition is Some ==> self.ignition->0.requires(())
    }

    /// Starts the program, once: the terminal is set up, the first command,
    /// where there is one, is run and its message put on the channel, and the
    /// view of the initial model is painted. Returns the bytes to write. The
    /// runtime is looping afterwards. A runtime that was started before does
    /// nothing.
    pub fn start<Message, Command>(&mut self, channel: &mut Channel<Message>) -> (output: Vec<
        u8,
    >) where
        Reducer: Fn(Model, Message) -> (Model, Vec<Command>),
        Command: Fn() -> Message,
        Mid: Fn(&Model, Message) -> Option<Message>,
        React: Fn(&Model),
        Input: Fn(InputEvent) -> Option<Message>,
        View: Fn(&Model) -> String,
        Ignition: Fn() -> Message,

        requires
            old(self).total::<Message, Command>(),
        ensures
            final(self).total::<Message, Command>(),
            old(self).phase != Phase::Constructed ==> *final(self) == *old(self) && *final(channel)
                == *old(channel) && output@ == Seq::<u8>::empty(),
            old(self).phase == Phase::Constructed ==> started(
                *old(self),
                *final(self),
                *old(channel),
                *final(channel),
                output@,
            ),
    {
        let mut output: Vec<u8> = Vec::new();
        match self.phase {
            Phase::Constructed => {},
            _ => {
                return output;
            },
        }
        if self.fullscreen {
            let enter = fullscreen();
            write_text(&mut output, enter.as_str());
        }
        let hide = self.renderer.hide_cursor();
        write_text(&mut output, hide.as_str());
        assert(output@ =~= setup_bytes(self.fullscreen));
        match &self.ignition {
            None => {},
            Some(cmd) => {
                let mut cmd_sender = channel.sender();
                let msg = cmd();
                cmd_sender.send(msg);
                channel.accept(cmd_sender);
                assert(channel.pending() =~= old(channel).pending().push(msg));
            },
        }
        let text = (self.view)(self.store.peek());
        assert(self.view.ensures((&self.store.current(),), text));
        let mut first_frame = self.renderer.render(text.as_str());
        output.append(&mut first_frame);
        self.phase = Phase::Looping;
        output
    }

    /// Feeds one input event, a key or a window size, through the input
    /// mapper and sends the message that it returns, if any.
    pub fn feed<Message>(&self, event: InputEvent, sender: &mut ChannelSender<Message>) where
        Input: Fn(InputEvent) -> Option<Message>,

        requires
            forall|event: InputEvent| #[trigger] self.input.requires((event,)),
        ensures
            input_mapped(self.input, event, *old(sender), *final(sender)),
    {
        receive_input(&self.input, event, sender);
    }

    /// Handles one message: dispatches it and, where it reached the reducer,
    /// paints the view of the new model. Returns the bytes to write.
    pub fn handle<Message, Command>(
        &mut self,
        message: Message,
        sender: &mut ChannelSender<Message>,
    ) -> (output: Vec<u8>) where
        Reducer: Fn(Model, Message) -> (Model, Vec<Command>),
        Command: Fn() -> Message,
        Mid: Fn(&Model, Message) -> Option<Message>,
        React: Fn(&Model),
        Input: Fn(InputEvent) -> Option<Message>,
        View: Fn(&Model) -> String,
        Ignition: Fn() -> Message,

        requires
            old(self).total::<Message, Command>(),
        ensures
            final(self).total::<Message, Command>(),
            handled(*old(self), message, *final(self), *old(sender), *final(sender), output@),
    {
        let reached = self.store.dispatch(message, sender);
        let output = if reached {
            let text = (self.view)(self.store.peek());
            assert(self.view.ensures((&self.store.current(),), text));
            self.renderer.render(text.as_str())
        } else {
            Vec::new()
        };
        assert(dispatched(
            old(self).store.transition(),
            old(self).store.chain(),
            old(self).store.observers(),
            0,
            old(self).store.current(),
            message,
            reached,
            self.store.current(),
            *old(sender),
            *sender,
        ));
        output
    }

    /// One frame of the main loop: every message that waits on the channel
    /// is taken out and handled, oldest first. What the commands send
    /// meanwhile waits on the channel afterwards, with a frame asked for
    /// each. Returns the bytes to write. A runtime that is not looping does
    /// nothing.
    pub fn drain<Message, Command>(&mut self, channel: &mut Channel<Message>) -> (output: Vec<
        u8,
    >) where
        Reducer: Fn(Model, Message) -> (Model, Vec<Command>),
        Command: Fn() -> Message,
        Mid: Fn(&Model, Message) -> Option<Message>,
        React: Fn(&Model),
        Input: Fn(InputEvent) -> Option<Message>,
        View: Fn(&Model) -> String,
        Ignition: Fn() -> Message,

        requires
            old(self).total::<Message, Command>(),
        ensures
            final(self).total::<Message, Command>(),
            final(self).same_setup(old(self)),
            old(self).phase != Phase::Looping ==> *final(self) == *old(self) && *final(channel)
                == *old(channel) && output@ == Seq::<u8>::empty(),
            old(self).phase == Phase::Looping ==> final(channel).frames_wanted() == old(
                channel,
            ).frames_wanted() + final(channel).pending().len(),
            old(self).phase == Phase::Looping ==> exists|
                first: ChannelSender<Message>,
                last: ChannelSender<Message>,
            |
                #![trigger
                    drained(*old(self), old(channel).pending(), *final(self), first, last, output@)
                ]
                first.sent() == Seq::<Message>::empty() && first.frames_wanted() == 0 && drained(
                    *old(self),
                    old(channel).pending(),
                    *final(self),
                    first,
                    last,
                    output@,
                ) && final(channel).pending() == last.sent() && final(channel).frames_wanted()
                    == old(channel).frames_wanted() + last.frames_wanted(),
    {
        let mut output: Vec<u8> = Vec::new();
        match self.phase {
            Phase::Looping => {},
            _ => {
                return output;
            },
        }
        let messages = channel.try_drain();
        let mut sender = channel.sender();
        let ghost first = sender;
        let mut messages = messages;
        let ghost all = messages@;
        let count = messages.len();
        // The oldest message is handled first: the list is turned round and
        // taken from its end.
        reverse(&mut messages);
        let mut i: usize = 0;
        while i < count
            invariant
                i <= count,
                count == all.len(),
                messages@.len() == count - i,
                forall|k: int| 0 <= k < count - i ==> messages@[k] == all[count - 1 - k],
                self.total::<Message, Command>(),
                drained(*old(self), all.take(i as int), *self, first, sender, output@),
            decreases count - i,
        {
            let ghost middle = *self;
            let ghost sender_middle = sender;
            let ghost earlier = output@;
            let message = messages.pop().unwrap();
            assert(message == all[i as int]);
            let mut frame = self.handle(message, &mut sender);
            let ghost frame_bytes = frame@;
            output.append(&mut frame);
            i = i + 1;
            proof {
                assert(all.take(i as int).drop_last() =~= all.take(i - 1));
                assert(all.take(i as int).last() == all[i - 1]);
                lemma_drained_one_more(
                    *old(self),
                    all.take(i as int),
                    middle,
                    *self,
                    first,
                    sender_middle,
                    sender,
                    earlier,
                    frame_bytes,
                );
            }
        }
        assert(all.take(i as int) =~= all);
        assert(channel.pending() == Seq::<Message>::empty());
        proof {
            lemma_drained_tokens(*old(self), all, *self, first, sender, output@);
        }
        channel.accept(sender);
        assert(channel.pending() =~= sender.sent());
        output
    }
}

/// Turns a list round: what was first is last.
pub fn reverse<T>(list: &mut Vec<T>)
    ensures
        final(list)@.len() == old(list)@.len(),
        forall|k: int|
            0 <= k < old(list)@.len() ==> final(list)@[k] == old(list)@[old(list)@.len() - 1 - k],
{
    let mut turned: Vec<T> = Vec::new();
    let ghost all = list@;
    while list.len() > 0
        invariant
            list@.len() + turned@.len() == all.len(),
            list@ == all.take(list@.len() as int),
            forall|k: int| 0 <= k < turned@.len() ==> turned@[k] == all[all.len() - 1 - k],
        decreases list@.len(),
    {
        let item = list.pop().unwrap();
        turned.push(item);
    }
    list.append(&mut turned);
}

} // verus!
