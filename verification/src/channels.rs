//! The message channel: a first-in first-out queue of user messages. Every
//! message sent also asks the render scheduler for a frame.

use vstd::prelude::*;
use crate::render_channel::RenderChannel;

verus! {

/// A sending end. It keeps, in the order of sending, what was sent through
/// it, until the channel takes it in.
pub struct ChannelSender<MSG> {
    pub tx: Vec<MSG>,
    pub frames: RenderChannel,
}

impl<MSG> ChannelSender<MSG> {
    /// The messages sent through this end and not yet taken in, oldest first.
    pub open spec fn sent(&self) -> Seq<MSG> {
        self.tx@
    }

    /// How many frames this end has asked for.
    pub open spec fn frames_wanted(&self) -> nat {
        self.frames.wanted()
    }

    /// Sends a message: it goes behind everything sent before, and one frame
    /// is asked for. Sending never fails and never blocks.
    pub fn send(&mut self, msg: MSG)
        ensures
            final(self).sent() == old(self).sent().push(msg),
            final(self).frames_wanted() == old(self).frames_wanted() + 1,
    {
        self.tx.push(msg);
        self.frames.next_frame();
    }
}

/// The channel with its single receiving end.
pub struct Channel<MSG> {
    pub rx: Vec<MSG>,
    pub frames: RenderChannel,
}

impl<MSG> Channel<MSG> {
    /// The messages that wait to be handled, oldest first.
    pub open spec fn pending(&self) -> Seq<MSG> {
        self.rx@
    }

    /// How many frames are wanted and not yet taken.
    pub open spec fn frames_wanted(&self) -> nat {
        self.frames.wanted()
    }

    /// A channel on which nothing waits.
    pub fn new() -> (channel: Channel<MSG>)
        ensures
            channel.pending() == Seq::<MSG>::empty(),
            channel.frames_wanted() == 0,
    {
        Channel { rx: Vec::new(), frames: RenderChannel::new() }
    }

    /// A new sending end, through which nothing was sent yet. The channel
    /// stays as it is.
    pub fn sender(&mut self) -> (sender: ChannelSender<MSG>)
        ensures
            sender.sent() == Seq::<MSG>::empty(),
            sender.frames_wanted() == 0,
            final(self).pending() == old(self).pending(),
            final(self).frames_wanted() == old(self).frames_wanted(),
    {
        ChannelSender { tx: Vec::new(), frames: self.frames.sender() }
    }

    /// Takes in what was sent through `sender`: its messages go behind those
    /// that wait already, in the order of sending, and its frame requests
    /// are added to the scheduler's.
    pub fn accept(&mut self, sender: ChannelSender<MSG>)
        ensures
            final(self).pending() == old(self).pending() + sender.sent(),
            final(self).frames_wanted() == old(self).frames_wanted() + sender.frames_wanted(),
    {
        let mut sender = sender;
        self.rx.append(&mut sender.tx);
        self.frames.absorb(sender.frames);
    }

    /// Takes every waiting message out, oldest first. Nothing waits after.
    pub fn try_drain(&mut self) -> (messages: Vec<MSG>)
        ensures
            messages@ == old(self).pending(),
            final(self).pending() == Seq::<MSG>::empty(),
            final(self).frames_wanted() == old(self).frames_wanted(),
    {
        let mut messages: Vec<MSG> = Vec::new();
        messages.append(&mut self.rx);
        messages
    }

    /// Takes one frame token, where a frame is wanted.
    pub fn next_frame(&mut self) -> (wanted: bool)
        ensures
            wanted <==> old(self).frames_wanted() > 0,
            wanted ==> final(self).frames_wanted() == old(self).frames_wanted() - 1,
            !wanted ==> final(self).frames_wanted() == 0,
            final(self).pending() == old(self).pending(),
    {
        self.frames.take().is_some()
    }
}

} // verus!
