//! The render scheduler: a queue of "a frame is wanted" tokens.

use vstd::prelude::*;

verus! {

/// The token that asks for one frame.
#[derive(Clone, Copy, Debug, PartialEq, Eq)]
pub struct NextFrame;

/// The queue of frame requests. The main loop takes one token per frame and
/// handles every pending message for it, so bursts of requests collapse.
pub struct RenderChannel {
    pub tokens: Vec<NextFrame>,
}

impl RenderChannel {
    /// How many frames are wanted and not yet taken.
    pub open spec fn wanted(&self) -> nat {
        self.tokens@.len()
    }

    /// A scheduler with no frame wanted.
    pub fn new() -> (scheduler: RenderChannel)
        ensures
            scheduler.wanted() == 0,
    {
        RenderChannel { tokens: Vec::new() }
    }

    /// A further handle for posting tokens, with none posted yet.
    pub fn sender(&self) -> (handle: RenderChannel)
        ensures
            handle.wanted() == 0,
    {
        RenderChannel { tokens: Vec::new() }
    }

    /// Asks for one more frame.
    pub fn next_frame(&mut self)
        ensures
            final(self).wanted() == old(self).wanted() + 1,
    {
        self.tokens.push(NextFrame);
    }

    /// How many frames are wanted and not yet taken.
    pub fn pending(&self) -> (n: usize)
        ensures
            n == self.wanted(),
    {
        self.tokens.len()
    }

    /// Takes one token, where a frame is wanted.
    pub fn take(&mut self) -> (token: Option<NextFrame>)
        ensures
            token is Some <==> old(self).wanted() > 0,
            token is Some ==> final(self).wanted() == old(self).wanted() - 1,
            token is None ==> final(self).wanted() == 0,
    {
        self.tokens.pop()
    }

    /// Moves every token posted through `handle` into this scheduler.
    pub fn absorb(&mut self, handle: RenderChannel)
        ensures
            final(self).wanted() == old(self).wanted() + handle.wanted(),
    {
        let mut handle = handle;
        self.tokens.append(&mut handle.tokens);
    }
}

} // verus!
