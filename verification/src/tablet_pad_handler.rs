//! The event bridge for tablet pads.
//!
//! The native subsystem reports pad events and destruction by native
//! identity. The functions here do what the bridge's listeners do: resolve
//! the identity back to a [`TabletPadHandle`], invoke the matching typed
//! callback of a user-supplied [`TabletPadHandler`], and — for destruction —
//! unregister the resource exactly once afterwards, so the user callback
//! can still legally read identity and state while the pad is about to die.

use vstd::prelude::*;
use crate::registry::{free_data, lookup};
use crate::tablet_pad::{PadData, PadRegistry, TabletPadHandle};

verus! {

/// Whether a pad button went down or up.
#[derive(Clone, Copy, Debug, PartialEq, Eq, Structural)]
pub enum ButtonState {
    Released,
    Pressed,
}

/// What drove a ring or strip interaction.
#[derive(Clone, Copy, Debug, PartialEq, Eq, Structural)]
pub enum PadEventSource {
    Unknown,
    Finger,
}

/// A button was pressed or released on the tablet pad.
#[derive(Clone, Copy, Debug, PartialEq, Eq, Structural)]
pub struct ButtonEvent {
    /// When the event happened, in milliseconds.
    pub time_msec: u32,
    /// Which button.
    pub button: u32,
    /// Whether the button went down or up.
    pub state: ButtonState,
    /// The mode group the button belongs to.
    pub mode: u32,
}

/// A touch strip of the pad was used.
#[derive(Clone, Copy, Debug, PartialEq, Eq, Structural)]
pub struct StripEvent {
    /// When the event happened, in milliseconds.
    pub time_msec: u32,
    /// Which strip.
    pub strip: u32,
    /// What drove the interaction.
    pub source: PadEventSource,
}

/// A ring of the pad was touched.
#[derive(Clone, Copy, Debug, PartialEq, Eq, Structural)]
pub struct RingEvent {
    /// When the event happened, in milliseconds.
    pub time_msec: u32,
    /// Which ring.
    pub ring: u32,
    /// What drove the interaction.
    pub source: PadEventSource,
}

/// The callbacks a user of tablet pads supplies. The bridge invokes the
/// matching one per event, handing a freshly-derived handle each time; the
/// `destroyed` callback runs before the pad's bookkeeping is torn down.
pub trait TabletPadHandler {
    /// Triggered when a button is pressed on the tablet pad.
    fn on_button(&mut self, pad: TabletPadHandle, event: &ButtonEvent);

    /// Triggered when the touch strip is used.
    fn on_strip(&mut self, pad: TabletPadHandle, event: &StripEvent);

    /// Triggered when the ring is touched.
    fn on_ring(&mut self, pad: TabletPadHandle, event: &RingEvent);

    /// Triggered when the pad device is destroyed.
    fn destroyed(&mut self, pad: TabletPadHandle);
}

/// Delivers a button event for a native identity: resolves the identity
/// back to a handle and invokes the `on_button` callback. Returns whether
/// a wrapped pad was found; an unknown identity is ignored.
pub fn dispatch_button<H: TabletPadHandler>(
    reg: &PadRegistry,
    handler: &mut H,
    native_id: u64,
    event: &ButtonEvent,
) -> (r: bool)
    ensures
        r == (lookup(reg.assoc(), native_id) is Some),
{
    match reg.resolve(native_id) {
        Some(pad) => {
            handler.on_button(pad, event);
            true
        },
        None => false,
    }
}

/// Delivers a strip event for a native identity: resolves the identity
/// back to a handle and invokes the `on_strip` callback. Returns whether
/// a wrapped pad was found; an unknown identity is ignored.
pub fn dispatch_strip<H: TabletPadHandler>(
    reg: &PadRegistry,
    handler: &mut H,
    native_id: u64,
    event: &StripEvent,
) -> (r: bool)
    ensures
        r == (lookup(reg.assoc(), native_id) is Some),
{
    match reg.resolve(native_id) {
        Some(pad) => {
            handler.on_strip(pad, event);
            true
        },
        None => false,
    }
}

/// Delivers a ring event for a native identity: resolves the identity
/// back to a handle and invokes the `on_ring` callback. Returns whether
/// a wrapped pad was found; an unknown identity is ignored.
pub fn dispatch_ring<H: TabletPadHandler>(
    reg: &PadRegistry,
    handler: &mut H,
    native_id: u64,
    event: &RingEvent,
) -> (r: bool)
    ensures
        r == (lookup(reg.assoc(), native_id) is Some),
{
    match reg.resolve(native_id) {
        Some(pad) => {
            handler.on_ring(pad, event);
            true
        },
        None => false,
    }
}

/// Handles the destruction notification for a native identity.
///
/// If the identity is wrapped, the user's `destroyed` callback is invoked
/// first, with a handle that still resolves, and only then is the pad
/// unregistered: the association entry is cleared, the flag turned dead for
/// every outstanding handle, and the pad's native state handed back exactly
/// once. A second notification for the same identity finds nothing, calls
/// nothing, and is a no-op returning `None`.
pub fn dispatch_destroy<H: TabletPadHandler>(
    reg: &mut PadRegistry,
    handler: &mut H,
    native_id: u64,
) -> (r: Option<PadData>)
    requires
        old(reg).wf(),
        match lookup(old(reg).assoc(), native_id) {
            Some(e) => !(old(reg).flags()[e.slot as int] is CheckedOut),
            None => true,
        },
    ensures
        final(reg).wf(),
        crate::registry::step(old(reg).flags(), final(reg).flags()),
        match lookup(old(reg).assoc(), native_id) {
            None => r is None && final(reg).flags() == old(reg).flags() && final(reg).assoc()
                == old(reg).assoc(),
            Some(e) => {
                &&& r == Some(free_data(old(reg).flags(), e.slot as int))
                &&& final(reg).flags() == old(reg).flags().update(
                    e.slot as int,
                    crate::registry::Liveliness::Dead,
                )
                &&& exists|k: int|
                    0 <= k < old(reg).assoc().len() && old(reg).assoc()[k] == e
                        && final(reg).assoc() == old(reg).assoc().remove(k)
                &&& lookup(final(reg).assoc(), native_id) is None
            },
        },
{
    match reg.resolve(native_id) {
        Some(pad) => handler.destroyed(pad),
        None => (),
    }
    reg.notify_destroyed(native_id)
}

} // verus!
