//! The liveness flag that the main loop consults after every drain.

use vstd::prelude::*;

verus! {

/// Alive until stopped; dead ever after.
#[derive(Debug, Copy, Clone, PartialEq, Eq)]
pub enum Health {
    Alive,
    Dead,
}

/// The stop flag of a runtime.
#[derive(Debug, Copy, Clone)]
pub struct Heartbeat {
    is_alive: Health,
}

impl Heartbeat {
    /// Whether the flag was set.
    pub closed spec fn dead(&self) -> bool {
        self.is_alive is Dead
    }

    /// A flag that is not set.
    pub fn new() -> (heartbeat: Heartbeat)
        ensures
            !heartbeat.dead(),
    {
        Heartbeat { is_alive: Health::Alive }
    }

    /// Whether the flag was set.
    pub fn is_dead(&self) -> (dead: bool)
        ensures
            dead == self.dead(),
    {
        match self.is_alive {
            Health::Alive => false,
            Health::Dead => true,
        }
    }

    /// Sets the flag.
    pub fn kill(&mut self)
        ensures
            final(self).dead(),
    {
        self.is_alive = Health::Dead;
    }

    /// Asks the main loop to end: the flag is set, and nothing unsets it.
    pub fn stop(&mut self)
        ensures
            final(self).dead(),
    {
        self.kill();
    }
}

} // verus!
