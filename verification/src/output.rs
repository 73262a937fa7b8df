//! Outputs: the display-like resource kind.
//!
//! An [`Output`] is the exclusive wrapper around one native display output.
//! The native subsystem owns the object's true lifetime, so application code
//! keeps [`OutputHandle`]s and reaches the output through `run`/`upgrade` on
//! the shared [`OutputRegistry`]. The mutable native state an output carries
//! — mode, position, transform, and the damage tracker whose lifetime is
//! tied to the output's own — is modelled by [`OutputData`].

use vstd::prelude::*;
use crate::registry::{Handle, Registry, Resource};

verus! {

/// A width and height pair.
#[derive(Clone, Copy, Debug, PartialEq, Eq, Structural)]
pub struct Size {
    pub width: i32,
    pub height: i32,
}

/// A position in layout space.
#[derive(Clone, Copy, Debug, PartialEq, Eq, Structural)]
pub struct Origin {
    pub x: i32,
    pub y: i32,
}

/// One modesetting an output supports: dimensions in pixels and refresh
/// rate in millihertz.
#[derive(Clone, Copy, Debug, PartialEq, Eq, Structural)]
pub struct OutputMode {
    pub width: i32,
    pub height: i32,
    pub refresh: i32,
}

/// How an output is rotated and/or flipped relative to its natural
/// orientation.
#[derive(Clone, Copy, Debug, PartialEq, Eq, Structural)]
pub enum Transform {
    Normal,
    Rotate90,
    Rotate180,
    Rotate270,
    Flipped,
    Flipped90,
    Flipped180,
    Flipped270,
}

/// The subpixel geometry of an output's panel.
#[derive(Clone, Copy, Debug, PartialEq, Eq, Structural)]
pub enum Subpixel {
    Unknown,
    NoSubpixel,
    HorizontalRgb,
    HorizontalBgr,
    VerticalRgb,
    VerticalBgr,
}

/// The damage tracker owned by an output: auxiliary state whose lifetime
/// must match the native output's exactly. It lives inside [`OutputData`],
/// so it travels with the liveliness flag and is handed back exactly once,
/// by the destruction notification — never by a transient release.
#[derive(Clone, Copy, Debug, PartialEq, Eq, Structural)]
pub struct OutputDamage {
    /// The native identity of the tracker.
    pub damage_id: u64,
}

/// The identifying data every handle to an output carries: enough to
/// re-derive the resource without asking the native subsystem again.
#[derive(Clone, Copy, Debug)]
pub struct OutputIdent {
    /// The native identity (address) of the output.
    pub output_id: u64,
    /// The native identity of the associated damage tracker.
    pub damage_id: u64,
}

/// The mutable native state of an output, checked out and given back as one
/// value by `upgrade`/`release`.
#[derive(Debug)]
pub struct OutputData {
    /// The output's name.
    pub name: String,
    /// The make of the output.
    pub make: String,
    /// The model of the output.
    pub model: String,
    /// The serial of the output.
    pub serial: String,
    /// Whether the output is enabled.
    pub enabled: bool,
    /// Current dimensions in pixels.
    pub width: i32,
    pub height: i32,
    /// Physical dimensions in millimetres.
    pub phys_width: i32,
    pub phys_height: i32,
    /// Current refresh rate in millihertz.
    pub refresh: i32,
    /// Whether the output's buffers should be swapped.
    pub needs_swap: bool,
    /// Whether a `frame` event is pending.
    pub frame_pending: bool,
    /// Position in layout space reported to clients.
    pub lx: i32,
    pub ly: i32,
    /// Subpixel geometry.
    pub subpixel: Subpixel,
    /// Current transform.
    pub transform: Transform,
    /// The modes the output advertises; some backends have none.
    pub modes: Vec<OutputMode>,
    /// Index into `modes` of the current mode; `None` while no listed mode
    /// (or a custom mode) is set.
    pub current_mode: Option<usize>,
    /// The fullscreen surface shown on this output, by native identity.
    pub fullscreen_surface: Option<u64>,
    /// The output layout this output is a member of, by native identity;
    /// cleared at teardown so no membership is left dangling.
    pub layout: Option<u64>,
    /// The size of the gamma ramps.
    pub gamma_size: u32,
    /// The gamma ramp last set, as (size, red, green, blue).
    pub gamma: Option<(u32, u16, u16, u16)>,
    /// The damage tracker destroyed in lock-step with the output.
    pub damage: OutputDamage,
}

/// The exclusive, temporary access to a live output.
pub type Output = Resource<OutputIdent, OutputData>;

/// The storable, non-owning reference to an output.
pub type OutputHandle = Handle<OutputIdent>;

/// The model of the native heap for outputs.
pub type OutputRegistry = Registry<OutputIdent, OutputData>;

/// Whether a transform turns the output by a quarter turn, swapping the
/// transformed width and height.
pub open spec fn transform_swaps(t: Transform) -> bool {
    match t {
        Transform::Rotate90 => true,
        Transform::Rotate270 => true,
        Transform::Flipped90 => true,
        Transform::Flipped270 => true,
        _ => false,
    }
}

/// The first position of a mode in a mode list, if the list holds it.
pub open spec fn find_mode(modes: Seq<OutputMode>, mode: OutputMode) -> Option<int>
    decreases modes.len(),
{
    if modes.len() == 0 {
        None
    } else if modes[0] == mode {
        Some(0int)
    } else {
        match find_mode(modes.drop_first(), mode) {
            Some(i) => Some(i + 1),
            None => None,
        }
    }
}

/// The mode an output currently reports, if any: the listed mode its
/// current-mode index points at.
pub open spec fn current_mode_of(data: OutputData) -> Option<OutputMode> {
    match data.current_mode {
        Some(i) => if i < data.modes@.len() {
            Some(data.modes@[i as int])
        } else {
            None
        },
        None => None,
    }
}

proof fn lemma_find_mode_at(modes: Seq<OutputMode>, mode: OutputMode, k: int)
    requires
        0 <= k < modes.len(),
        modes[k] == mode,
        forall|j: int| 0 <= j < k ==> modes[j] != mode,
    ensures
        find_mode(modes, mode) == Some(k),
    decreases k,
{
    if k > 0 {
        lemma_find_mode_at(modes.drop_first(), mode, k - 1);
    }
}

proof fn lemma_find_mode_none(modes: Seq<OutputMode>, mode: OutputMode)
    requires
        forall|j: int| 0 <= j < modes.len() ==> modes[j] != mode,
    ensures
        find_mode(modes, mode) is None,
    decreases modes.len(),
{
    if modes.len() > 0 {
        lemma_find_mode_none(modes.drop_first(), mode);
    }
}

impl Resource<OutputIdent, OutputData> {
    /// Wraps a freshly-appeared native output: allocates its liveliness
    /// flag, records the association through which the destruction
    /// notification will find it, and distributes the first handle. Only
    /// one wrapper per native output may exist, so an identity that is
    /// already wrapped yields `None` and changes nothing.
    pub fn new(reg: &mut OutputRegistry, output_id: u64, data: OutputData) -> (r: Option<
        OutputHandle,
    >)
        requires
            old(reg).wf(),
        ensures
            final(reg).wf(),
            crate::registry::step(old(reg).flags(), final(reg).flags()),
            match crate::registry::lookup(old(reg).assoc(), output_id) {
                Some(_) => r is None && final(reg).flags() == old(reg).flags()
                    && final(reg).assoc() == old(reg).assoc(),
                None => {
                    &&& final(reg).flags() == old(reg).flags().push(
                        crate::registry::Liveliness::Free(data),
                    )
                    &&& final(reg).assoc() == old(reg).assoc().push(
                        (crate::registry::IndexEntry {
                            native_id: output_id,
                            slot: old(reg).flags().len() as usize,
                            ident: OutputIdent { output_id, damage_id: data.damage.damage_id },
                        }),
                    )
                    &&& r == Some(
                        (Handle {
                            link: Some(old(reg).flags().len() as usize),
                            ident: OutputIdent { output_id, damage_id: data.damage.damage_id },
                        }),
                    )
                },
            },
    {
        let ident = OutputIdent { output_id, damage_id: data.damage.damage_id };
        reg.register(output_id, ident, data)
    }

    /// The name of the output.
    pub fn name(&self) -> (r: String)
        ensures
            r == self.data.name,
    {
        self.data.name.clone()
    }

    /// The make of the output.
    pub fn make(&self) -> (r: String)
        ensures
            r == self.data.make,
    {
        self.data.make.clone()
    }

    /// The model of the output.
    pub fn model(&self) -> (r: String)
        ensures
            r == self.data.model,
    {
        self.data.model.clone()
    }

    /// The serial of the output.
    pub fn serial(&self) -> (r: String)
        ensures
            r == self.data.serial,
    {
        self.data.serial.clone()
    }

    /// Whether the output is enabled.
    pub fn enabled(&self) -> (r: bool)
        ensures
            r == self.data.enabled,
    {
        self.data.enabled
    }

    /// Whether the output's buffers should be swapped.
    pub fn needs_swap(&self) -> (r: bool)
        ensures
            r == self.data.needs_swap,
    {
        self.data.needs_swap
    }

    /// The refresh rate of the output, in millihertz.
    pub fn refresh_rate(&self) -> (r: i32)
        ensures
            r == self.data.refresh,
    {
        self.data.refresh
    }

    /// The listed mode the output currently uses, if any.
    pub fn current_mode(&self) -> (r: Option<OutputMode>)
        ensures
            r == current_mode_of(self.data),
    {
        match self.data.current_mode {
            Some(i) => if i < self.data.modes.len() {
                Some(self.data.modes[i])
            } else {
                None
            },
            None => None,
        }
    }

    /// The output position in layout space reported to clients.
    pub fn layout_space_pos(&self) -> (r: (i32, i32))
        ensures
            r == (self.data.lx, self.data.ly),
    {
        (self.data.lx, self.data.ly)
    }

    /// Subpixel geometry information about the output.
    pub fn subpixel(&self) -> (r: Subpixel)
        ensures
            r == self.data.subpixel,
    {
        self.data.subpixel
    }

    /// The transform applied to the output.
    pub fn get_transform(&self) -> (r: Transform)
        ensures
            r == self.data.transform,
    {
        self.data.transform
    }

    /// Whether a frame is pending on the output.
    pub fn frame_pending(&self) -> (r: bool)
        ensures
            r == self.data.frame_pending,
    {
        self.data.frame_pending
    }

    /// The dimensions of the output as (width, height), in pixels.
    pub fn size(&self) -> (r: (i32, i32))
        ensures
            r == (self.data.width, self.data.height),
    {
        (self.data.width, self.data.height)
    }

    /// The physical dimensions of the output as (width, height), in
    /// millimetres.
    pub fn physical_size(&self) -> (r: (i32, i32))
        ensures
            r == (self.data.phys_width, self.data.phys_height),
    {
        (self.data.phys_width, self.data.phys_height)
    }

    /// The transformed output resolution: the output's dimensions, swapped
    /// when the current transform turns the output by a quarter turn.
    pub fn transformed_resolution(&self) -> (r: (i32, i32))
        ensures
            transform_swaps(self.data.transform) ==> r == (self.data.height, self.data.width),
            !transform_swaps(self.data.transform) ==> r == (self.data.width, self.data.height),
    {
        match self.data.transform {
            Transform::Rotate90 => (self.data.height, self.data.width),
            Transform::Rotate270 => (self.data.height, self.data.width),
            Transform::Flipped90 => (self.data.height, self.data.width),
            Transform::Flipped270 => (self.data.height, self.data.width),
            _ => (self.data.width, self.data.height),
        }
    }

    /// The modes the output advertises; some backends have none.
    pub fn modes(&self) -> (r: Vec<OutputMode>)
        ensures
            r@ == self.data.modes@,
    {
        let n = self.data.modes.len();
        let mut r: Vec<OutputMode> = Vec::new();
        let mut i: usize = 0;
        while i < n
            invariant
                i <= n,
                n == self.data.modes@.len(),
                r@ == self.data.modes@.subrange(0, i as int),
            decreases n - i,
        {
            r.push(self.data.modes[i]);
            proof {
                assert(r@ =~= self.data.modes@.subrange(0, i + 1));
            }
            i += 1;
        }
        proof {
            assert(r@ =~= self.data.modes@);
        }
        r
    }

    /// The fullscreen surface on this output, by native identity, if any.
    pub fn fullscreen_surface(&self) -> (r: Option<u64>)
        ensures
            r == self.data.fullscreen_surface,
    {
        self.data.fullscreen_surface
    }

    /// The gamma ramp size of the output.
    pub fn get_gamma_size(&self) -> (r: u32)
        ensures
            r == self.data.gamma_size,
    {
        self.data.gamma_size
    }

    /// The output layout this output is a member of, by native identity,
    /// if any.
    pub fn layout(&self) -> (r: Option<u64>)
        ensures
            r == self.data.layout,
    {
        self.data.layout
    }

    /// The damage tracker of the output.
    pub fn damage(&self) -> (r: OutputDamage)
        ensures
            r == self.data.damage,
    {
        self.data.damage
    }

    /// Sets the best modesetting for the output: the last of its listed
    /// modes, as the native subsystem advertises the preferred mode there.
    /// An output with no listed modes is left unchanged.
    pub fn choose_best_mode(&mut self)
        ensures
            old(self).data.modes@.len() == 0 ==> *final(self) == *old(self),
            old(self).data.modes@.len() > 0 ==> *final(self) == (Resource {
                data: OutputData {
                    current_mode: Some((old(self).data.modes@.len() - 1) as usize),
                    width: old(self).data.modes@.last().width,
                    height: old(self).data.modes@.last().height,
                    refresh: old(self).data.modes@.last().refresh,
                    ..old(self).data
                },
                ..*old(self)
            }),
    {
        let n = self.data.modes.len();
        if n > 0 {
            let mode = self.data.modes[n - 1];
            self.data.current_mode = Some(n - 1);
            self.data.width = mode.width;
            self.data.height = mode.height;
            self.data.refresh = mode.refresh;
        }
    }

    /// Sets a listed mode as the current mode of the output. Succeeds,
    /// updating the dimensions and refresh rate, exactly when the output
    /// advertises the given mode; otherwise the output is unchanged and
    /// `false` is returned.
    pub fn set_mode(&mut self, mode: OutputMode) -> (r: bool)
        ensures
            match find_mode(old(self).data.modes@, mode) {
                Some(i) => r && *final(self) == (Resource {
                    data: OutputData {
                        current_mode: Some(i as usize),
                        width: mode.width,
                        height: mode.height,
                        refresh: mode.refresh,
                        ..old(self).data
                    },
                    ..*old(self)
                }),
                None => !r && *final(self) == *old(self),
            },
    {
        let n = self.data.modes.len();
        let mut i: usize = 0;
        while i < n
            invariant
                i <= n,
                n == self.data.modes@.len(),
                forall|j: int| 0 <= j < i ==> self.data.modes@[j] != mode,
                self == old(self),
            decreases n - i,
        {
            if self.data.modes[i] == mode {
                proof {
                    lemma_find_mode_at(self.data.modes@, mode, i as int);
                }
                self.data.current_mode = Some(i);
                self.data.width = mode.width;
                self.data.height = mode.height;
                self.data.refresh = mode.refresh;
                return true;
            }
            i += 1;
        }
        proof {
            lemma_find_mode_none(self.data.modes@, mode);
        }
        false
    }

    /// Sets a custom mode for the output: the dimensions and refresh rate
    /// are taken as given and no listed mode is current afterwards.
    pub fn set_custom_mode(&mut self, size: Size, refresh: i32) -> (r: bool)
        ensures
            r,
            *final(self) == (Resource {
                data: OutputData {
                    current_mode: None,
                    width: size.width,
                    height: size.height,
                    refresh,
                    ..old(self).data
                },
                ..*old(self)
            }),
    {
        self.data.current_mode = None;
        self.data.width = size.width;
        self.data.height = size.height;
        self.data.refresh = refresh;
        true
    }

    /// Enables or disables the output.
    pub fn enable(&mut self, enable: bool)
        ensures
            *final(self) == (Resource {
                data: OutputData { enabled: enable, ..old(self).data },
                ..*old(self)
            }),
    {
        self.data.enabled = enable;
    }

    /// Sets the transform applied to the output.
    pub fn transform(&mut self, transform: Transform)
        ensures
            *final(self) == (Resource {
                data: OutputData { transform, ..old(self).data },
                ..*old(self)
            }),
    {
        self.data.transform = transform;
    }

    /// Manually schedules a `frame` event; a no-op if one is already
    /// pending.
    pub fn schedule_frame(&mut self)
        ensures
            *final(self) == (Resource {
                data: OutputData { frame_pending: true, ..old(self).data },
                ..*old(self)
            }),
    {
        self.data.frame_pending = true;
    }

    /// Sets the gamma ramp of the output.
    pub fn set_gamma(&mut self, size: u32, r: u16, g: u16, b: u16)
        ensures
            *final(self) == (Resource {
                data: OutputData { gamma: Some((size, r, g, b)), ..old(self).data },
                ..*old(self)
            }),
    {
        self.data.gamma = Some((size, r, g, b));
    }

    /// Sets the fullscreen surface for the output, by native identity.
    pub fn set_fullscreen_surface(&mut self, surface_id: u64)
        ensures
            *final(self) == (Resource {
                data: OutputData { fullscreen_surface: Some(surface_id), ..old(self).data },
                ..*old(self)
            }),
    {
        self.data.fullscreen_surface = Some(surface_id);
    }

    /// Sets the position of the output in layout space.
    pub fn set_position(&mut self, origin: Origin)
        ensures
            *final(self) == (Resource {
                data: OutputData { lx: origin.x, ly: origin.y, ..old(self).data },
                ..*old(self)
            }),
    {
        self.data.lx = origin.x;
        self.data.ly = origin.y;
    }

    /// Records the output layout the output now belongs to (or none),
    /// replacing any previous membership.
    pub fn set_output_layout(&mut self, layout: Option<u64>)
        ensures
            *final(self) == (Resource {
                data: OutputData { layout, ..old(self).data },
                ..*old(self)
            }),
    {
        self.data.layout = layout;
    }

    /// Clears the recorded layout membership, as the layout does when it
    /// removes this output from its listing.
    pub fn clear_output_layout_data(&mut self)
        ensures
            *final(self) == (Resource {
                data: OutputData { layout: None, ..old(self).data },
                ..*old(self)
            }),
    {
        self.data.layout = None;
    }

    /// Removes the output from its layout, if it is part of one: clears
    /// the membership and hands the layout's identity back so the caller
    /// can update the layout's own listing — never left dangling.
    pub fn remove_from_output_layout(&mut self) -> (r: Option<u64>)
        ensures
            r == old(self).data.layout,
            *final(self) == (Resource {
                data: OutputData { layout: None, ..old(self).data },
                ..*old(self)
            }),
    {
        let r = self.data.layout;
        self.data.layout = None;
        r
    }
}

impl Handle<OutputIdent> {
    /// Constructs an output handle that is always invalid: `run` and
    /// `upgrade` on it always fail with `AlreadyDropped`. Useful for
    /// pre-filling a value before the native subsystem provides one.
    pub fn new() -> (r: OutputHandle)
        ensures
            r.link is None,
    {
        Handle::invalid(OutputIdent { output_id: 0, damage_id: 0 })
    }
}

impl Default for Handle<OutputIdent> {
    /// The default output handle is the always-invalid one.
    fn default() -> (r: Self)
        ensures
            r.link is None,
    {
        Handle::<OutputIdent>::new()
    }
}

impl PartialEq for Handle<OutputIdent> {
    /// Output handles are equal when they refer to the same native
    /// identity, regardless of liveliness or checkout state.
    fn eq(&self, other: &Self) -> (r: bool) {
        self.ident.output_id == other.ident.output_id
    }
}

impl vstd::std_specs::cmp::PartialEqSpecImpl for Handle<OutputIdent> {
    open spec fn obeys_eq_spec() -> bool {
        true
    }

    open spec fn eq_spec(&self, other: &Self) -> bool {
        self.ident.output_id == other.ident.output_id
    }
}

impl Eq for Handle<OutputIdent> {

}

} // verus!
