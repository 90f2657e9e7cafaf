//! Hotkey edge events.
//!
//! The operating system's hotkey subsystem reports press and release
//! edges of the registered binding.  [`HotkeySignal`] wraps that feed as
//! a polled queue: the unverified shell offers each raw event as it
//! arrives, and the control loop drains at most one edge per poll, in
//! arrival order, seeing only events of its own binding.

use vstd::prelude::*;

verus! {

/// A press or release transition of the monitored key.
#[derive(Clone, Copy, Debug, PartialEq, Eq, Structural)]
pub enum HotkeyEdge {
    /// The key went down.
    Pressed,
    /// The key went up.
    Released,
}

/// One observed edge of a key binding.
#[derive(Clone, Copy, Debug, PartialEq, Eq, Structural)]
pub struct HotkeyEvent {
    /// Which transition occurred.
    pub edge: HotkeyEdge,
    /// Identifier of the key binding that produced the edge.
    pub identity: u32,
}

/// An ordered queue of the monitored binding's edges.
#[derive(Debug)]
pub struct HotkeySignal {
    /// Identifier of the binding this signal listens to.
    pub binding_id: u32,
    /// Edges not yet consumed, oldest first.
    pub queue: Vec<HotkeyEvent>,
}

impl HotkeySignal {
    /// A signal for the given binding, with nothing queued.
    pub fn new(binding_id: u32) -> (r: HotkeySignal)
        ensures
            r.binding_id == binding_id,
            r.queue@ == Seq::<HotkeyEvent>::empty(),
    {
        HotkeySignal { binding_id, queue: Vec::new() }
    }

    /// Enqueue a raw event: kept when it belongs to the monitored
    /// binding, discarded otherwise.
    pub fn offer(&mut self, event: HotkeyEvent)
        ensures
            final(self).binding_id == old(self).binding_id,
            event.identity == old(self).binding_id ==> final(self).queue@ == old(
                self,
            ).queue@.push(event),
            event.identity != old(self).binding_id ==> *final(self) == *old(self),
    {
        if event.identity == self.binding_id {
            self.queue.push(event);
        }
    }

    /// Dequeue at most one edge, oldest first; non-blocking and free of
    /// side effects beyond the dequeue.
    pub fn poll(&mut self) -> (r: Option<HotkeyEvent>)
        ensures
            final(self).binding_id == old(self).binding_id,
            old(self).queue@.len() == 0 ==> r is None && *final(self) == *old(self),
            old(self).queue@.len() > 0 ==> r == Some(old(self).queue@[0]) && final(self).queue@
                == old(self).queue@.drop_first(),
    {
        if self.queue.len() == 0 {
            None
        } else {
            let ev = self.queue.remove(0);
            proof {
                assert(self.queue@ =~= old(self).queue@.drop_first());
            }
            Some(ev)
        }
    }
}

} // verus!
