//! The reset gate: decides, once per tick, whether the rendering backend's
//! output surface must be reallocated because the framebuffer size changed.

use vstd::prelude::*;

verus! {

/// Pixel dimensions of a window's drawable area, sampled once per tick.
/// Used only for equality comparison against the previously observed value.
#[derive(Clone, Copy, Debug, PartialEq, Eq, Structural)]
pub struct FramebufferSize {
    pub width: u32,
    pub height: u32,
}

/// True when a gate whose last-known size is `last` must fire on observing
/// `size`: on the very first observation, and on every change of size.
pub open spec fn gate_fires(last: Option<FramebufferSize>, size: FramebufferSize) -> bool {
    last != Some(size)
}

/// Tracks the last-known framebuffer size. `observe` fires exactly once per
/// distinct size change, and never for an unchanged size.
#[derive(Clone, Copy, Debug)]
pub struct ResetGate {
    last_size: Option<FramebufferSize>,
}

impl ResetGate {
    /// The most recently observed size; `None` when nothing was observed yet.
    pub closed spec fn last(self) -> Option<FramebufferSize> {
        self.last_size
    }

    /// A gate with no previous observation: its first `observe` fires
    /// whatever the size.
    pub fn new() -> (g: ResetGate)
        ensures
            g.last() is None,
    {
        ResetGate { last_size: None }
    }

    /// A gate seeded with a known size, as if it had already observed it:
    /// an `observe` of the same size does not fire.
    pub fn seeded(size: FramebufferSize) -> (g: ResetGate)
        ensures
            g.last() == Some(size),
    {
        ResetGate { last_size: Some(size) }
    }

    /// Observe the sampled framebuffer size. The result is `true` exactly
    /// when the caller must issue a backend reset with this size; the size
    /// is then remembered, so an immediate repeat of it is quiet.
    pub fn observe(&mut self, size: FramebufferSize) -> (fired: bool)
        ensures
            fired == gate_fires(old(self).last(), size),
            final(self).last() == Some(size),
    {
        let changed: bool = match self.last_size {
            None => true,
            Some(prev) => prev.width != size.width || prev.height != size.height,
        };
        if changed {
            self.last_size = Some(size);
        }
        changed
    }
}

/// Law: a gate with no previous observation fires on any size, and a gate
/// never fires on the size it last observed.
pub proof fn lemma_first_fires_repeat_quiet(size: FramebufferSize)
    ensures
        gate_fires(None, size),
        !gate_fires(Some(size), size),
{
}

/// Law: a size that toggles between two distinct values fires on every
/// toggle; there is no debouncing beyond one-tick granularity.
pub proof fn lemma_toggle_fires(a: FramebufferSize, b: FramebufferSize)
    requires
        a != b,
    ensures
        gate_fires(Some(a), b),
        gate_fires(Some(b), a),
{
}

} // verus!
