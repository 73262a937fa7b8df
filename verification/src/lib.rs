//! A compositor toolkit's safety layer for objects whose true lifetime is
//! decided by an external native subsystem: outputs, tablet pads and the like
//! can vanish at any moment when a display is unplugged or a device detached.
//!
//! The core is a run-time emulation of exclusive borrowing and
//! lifetime-validity checking. A [`registry::Registry`] models the native
//! heap: one liveliness flag per wrapped native object, plus the per-object
//! association slot through which destruction notifications find their
//! wrapper. Application code keeps cheap, storable [`registry::Handle`]s and
//! acts on a resource only through `run`/`upgrade`, which fail cleanly with
//! [`errors::HandleErr`] once the native object is gone or while another
//! exclusive access is outstanding.

pub mod errors;
pub mod registry;
pub mod output;
pub mod tablet_pad;
pub mod tablet_pad_handler;
