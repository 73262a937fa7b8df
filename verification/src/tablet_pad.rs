//! Tablet pads: the input-device resource kind.
//!
//! A [`TabletPad`] is the exclusive wrapper around one native tablet pad.
//! Construction is a typed filter: only an input device that declares the
//! tablet-pad type yields a resource. As with every resource kind, the
//! native subsystem owns the object's true lifetime, so application code
//! keeps [`TabletPadHandle`]s and reaches the pad through `run`/`upgrade`
//! on the shared [`PadRegistry`].

use vstd::prelude::*;
use crate::errors::{HandleErr, HandleResult};
use crate::registry::{resolves, Handle, Registry, Resource};

verus! {

/// The kind an input device declares.
#[derive(Clone, Copy, Debug, PartialEq, Eq, Structural)]
pub enum DeviceType {
    /// No device: the type carried by a handle constructed invalid.
    Unknown,
    Keyboard,
    Pointer,
    Touch,
    TabletTool,
    TabletPad,
    Switch,
}

/// The descriptor of a native input device: the identifying data that
/// survives in every handle derived from a device-backed resource.
#[derive(Clone, Copy, Debug, PartialEq, Eq, Structural)]
pub struct InputDevice {
    /// The native identity (address) of the device.
    pub device_id: u64,
    /// The kind the device declares.
    pub dev_type: DeviceType,
    /// The vendor id of the device.
    pub vendor: u32,
    /// The product id of the device.
    pub product: u32,
}

/// The identifying data every handle to a tablet pad carries.
#[derive(Clone, Copy, Debug)]
pub struct PadIdent {
    /// The native identity (address) of the pad.
    pub pad_id: u64,
    /// The device the pad belongs to.
    pub device: InputDevice,
}

/// The mutable native state of a tablet pad.
#[derive(Clone, Copy, Debug, PartialEq, Eq, Structural)]
pub struct PadData {
    /// How many buttons the pad has.
    pub button_count: usize,
    /// How many touch rings the pad has.
    pub ring_count: usize,
    /// How many touch strips the pad has.
    pub strip_count: usize,
}

/// The exclusive, temporary access to a live tablet pad.
pub type TabletPad = Resource<PadIdent, PadData>;

/// The storable, non-owning reference to a tablet pad.
pub type TabletPadHandle = Handle<PadIdent>;

/// The model of the native heap for tablet pads.
pub type PadRegistry = Registry<PadIdent, PadData>;

impl Resource<PadIdent, PadData> {
    /// Tries to wrap an input device as a tablet pad.
    ///
    /// A device of any other declared kind yields no resource and changes
    /// nothing: this is a typed construction filter, not an error. For a
    /// tablet-pad device, the resource is constructed and the first handle
    /// distributed, unless the identity is already wrapped — only one
    /// wrapper per native pad may exist.
    pub fn new_from_input_device(
        reg: &mut PadRegistry,
        device: InputDevice,
        pad_id: u64,
        data: PadData,
    ) -> (r: Option<TabletPadHandle>)
        requires
            old(reg).wf(),
        ensures
            final(reg).wf(),
            crate::registry::step(old(reg).flags(), final(reg).flags()),
            device.dev_type != DeviceType::TabletPad ==> r is None && final(reg).flags() == old(
                reg,
            ).flags() && final(reg).assoc() == old(reg).assoc(),
            device.dev_type == DeviceType::TabletPad ==> match crate::registry::lookup(
                old(reg).assoc(),
                pad_id,
            ) {
                Some(_) => r is None && final(reg).flags() == old(reg).flags()
                    && final(reg).assoc() == old(reg).assoc(),
                None => {
                    &&& final(reg).flags() == old(reg).flags().push(
                        crate::registry::Liveliness::Free(data),
                    )
                    &&& final(reg).assoc() == old(reg).assoc().push(
                        (crate::registry::IndexEntry {
                            native_id: pad_id,
                            slot: old(reg).flags().len() as usize,
                            ident: PadIdent { pad_id, device },
                        }),
                    )
                    &&& r == Some(
                        (Handle {
                            link: Some(old(reg).flags().len() as usize),
                            ident: PadIdent { pad_id, device },
                        }),
                    )
                },
            },
    {
        match device.dev_type {
            DeviceType::TabletPad => reg.register(pad_id, PadIdent { pad_id, device }, data),
            _ => None,
        }
    }

    /// The input device associated with this tablet pad.
    pub fn input_device(&self) -> (r: InputDevice)
        ensures
            r == self.ident.device,
    {
        self.ident.device
    }
}

impl Handle<PadIdent> {
    /// Constructs a tablet pad handle that is always invalid: `run` and
    /// `upgrade` on it always fail with `AlreadyDropped`. Useful for
    /// pre-filling a value before the native subsystem provides one.
    pub fn new() -> (r: TabletPadHandle)
        ensures
            r.link is None,
    {
        Handle::invalid(
            PadIdent {
                pad_id: 0,
                device: InputDevice {
                    device_id: 0,
                    dev_type: DeviceType::Unknown,
                    vendor: 0,
                    product: 0,
                },
            },
        )
    }

    /// The input device associated with this handle: read-only metadata,
    /// available without a full `run`, but still failing with
    /// `AlreadyDropped` once the pad is gone.
    pub fn input_device(&self, reg: &PadRegistry) -> (r: HandleResult<InputDevice>)
        ensures
            resolves(reg.flags(), *self) ==> r == Ok::<InputDevice, HandleErr>(self.ident.device),
            !resolves(reg.flags(), *self) ==> r == Err::<InputDevice, HandleErr>(
                HandleErr::AlreadyDropped,
            ),
    {
        if self.is_alive(reg) {
            Ok(self.ident.device)
        } else {
            Err(HandleErr::AlreadyDropped)
        }
    }
}

impl Default for Handle<PadIdent> {
    /// The default tablet pad handle is the always-invalid one.
    fn default() -> (r: Self)
        ensures
            r.link is None,
    {
        Handle::<PadIdent>::new()
    }
}

impl PartialEq for Handle<PadIdent> {
    /// Tablet pad handles are equal when they refer to the same native
    /// identity, regardless of liveliness or checkout state.
    fn eq(&self, other: &Self) -> (r: bool) {
        self.ident.pad_id == other.ident.pad_id
    }
}

impl vstd::std_specs::cmp::PartialEqSpecImpl for Handle<PadIdent> {
    open spec fn obeys_eq_spec() -> bool {
        true
    }

    open spec fn eq_spec(&self, other: &Self) -> bool {
        self.ident.pad_id == other.ident.pad_id
    }
}

impl Eq for Handle<PadIdent> {

}

} // verus!
