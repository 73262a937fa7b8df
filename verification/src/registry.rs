//! The generic liveliness-tracking core.
//!
//! The true lifetime of a wrapped native object is decided elsewhere: a
//! display can be unplugged, a device detached, at any time. This module
//! emulates at run time what a borrow checker would enforce statically. A
//! [`Registry`] models the native heap: one [`Liveliness`] flag per wrapped
//! object, plus the association table through which a destruction
//! notification finds the wrapper it must tear down. A [`Handle`] is the
//! cheap, storable, non-owning reference; a [`Resource`] is the exclusive,
//! temporary access that a successful `upgrade` produces and a matching
//! `release` gives back.
//!
//! Each resource kind supplies two payload types: `I`, the immutable
//! identifying data copied into every handle (native identity, device
//! descriptor), and `M`, the mutable native state that travels between the
//! flag and the one outstanding `Resource`.

use vstd::prelude::*;
use crate::errors::{HandleErr, HandleResult};

verus! {

/// One liveliness flag: the cell shared between the single owning side of a
/// resource and all handles derived from it.
///
/// The flag records two things at once: whether the native object still
/// exists (`Dead` is terminal and means it does not), and whether the
/// resource is currently checked out for an exclusive access. While the
/// resource is free, the native state `M` rests in the flag; while it is
/// checked out, the state travels inside the one outstanding [`Resource`].
pub enum Liveliness<M> {
    /// The native object exists and nobody holds it.
    Free(M),
    /// The native object exists and exactly one upgraded [`Resource`] is
    /// outstanding.
    CheckedOut,
    /// The native object was destroyed. No transition leaves this state.
    Dead,
}

/// One row of the association table: the opaque per-object slot through
/// which a destruction notification recovers the wrapper of a native
/// identity. It is written exactly once, when the resource is constructed,
/// and read and cleared exactly once, when destruction is notified.
pub struct IndexEntry<I> {
    /// The native identity (an address in the native subsystem).
    pub native_id: u64,
    /// The flag of the resource wrapping that identity.
    pub slot: usize,
    /// The identifying data handles to this resource carry.
    pub ident: I,
}

/// The storable, non-owning reference to a resource.
///
/// A handle holds only a weak link to the resource's liveliness flag plus a
/// copy of the identifying data; it never keeps the native object alive and
/// is safe to keep in long-lived collections. Handles are freely copyable:
/// a copy links to the same flag, so everything that holds of a handle after
/// destruction holds of its copies too.
#[derive(Clone, Copy, Debug)]
pub struct Handle<I> {
    /// The flag this handle watches; `None` for a handle constructed
    /// invalid, which never resolves.
    pub link: Option<usize>,
    /// The identifying data of the resource.
    pub ident: I,
}

/// The exclusive, temporary access to a live resource.
///
/// A value of this type exists only between a successful `upgrade` and the
/// matching `release`: it carries the native state `M` out of the flag and
/// back. At most one `Resource` per flag is outstanding at any instant; the
/// flag's `CheckedOut` state enforces this.
pub struct Resource<I, M> {
    /// The flag this resource was checked out of.
    pub slot: usize,
    /// The identifying data of the resource.
    pub ident: I,
    /// The mutable native state, on loan from the flag.
    pub data: M,
}

/// The model of the native heap for one resource kind: every liveliness
/// flag ever allocated (flags are never reused, as a fresh allocation backs
/// each constructed resource), and the association table from native
/// identities to their wrappers.
pub struct Registry<I, M> {
    slots: Vec<Liveliness<M>>,
    index: Vec<IndexEntry<I>>,
}

/// Whether a handle still resolves: it links to a flag and the flag's
/// native object has not been destroyed.
pub open spec fn resolves<I, M>(flags: Seq<Liveliness<M>>, h: Handle<I>) -> bool {
    match h.link {
        Some(s) => s < flags.len() && !(flags[s as int] is Dead),
        None => false,
    }
}

/// Whether the resource a handle links to is currently checked out.
pub open spec fn borrowed<I, M>(flags: Seq<Liveliness<M>>, h: Handle<I>) -> bool {
    match h.link {
        Some(s) => s < flags.len() && flags[s as int] is CheckedOut,
        None => false,
    }
}

/// Whether an upgrade of the handle would succeed: the flag exists, the
/// native object is alive, and nobody has it checked out.
pub open spec fn upgradable<I, M>(flags: Seq<Liveliness<M>>, h: Handle<I>) -> bool {
    match h.link {
        Some(s) => s < flags.len() && flags[s as int] is Free,
        None => false,
    }
}

/// The native state resting in a free flag.
pub open spec fn free_data<M>(flags: Seq<Liveliness<M>>, s: int) -> M
    recommends
        0 <= s < flags.len(),
        flags[s] is Free,
{
    flags[s]->Free_0
}

/// The resource a successful upgrade of the handle produces.
pub open spec fn upgrade_of<I, M>(flags: Seq<Liveliness<M>>, h: Handle<I>) -> Resource<I, M>
    recommends
        upgradable(flags, h),
{
    match h.link {
        Some(s) => (Resource { slot: s, ident: h.ident, data: free_data(flags, s as int) }),
        None => (Resource { slot: 0, ident: h.ident, data: free_data(flags, 0) }),
    }
}

/// The transitions the liveliness flags can take in one operation:
/// constructing a resource appends a free flag; an upgrade checks a free
/// flag out; a release gives a checked-out flag back; a completed `run`
/// does both at once; destruction turns a free flag dead; a failed
/// operation changes nothing. `Dead` appears on no left-hand side: it is
/// terminal.
pub open spec fn step<M>(pre: Seq<Liveliness<M>>, post: Seq<Liveliness<M>>) -> bool {
    ||| (exists|m: M| post == pre.push(Liveliness::Free(m)))
    ||| (exists|s: int|
        0 <= s < pre.len() && pre[s] is Free && post == pre.update(s, Liveliness::CheckedOut))
    ||| (exists|s: int, m: M|
        0 <= s < pre.len() && pre[s] is CheckedOut && post == pre.update(
            s,
            Liveliness::Free(m),
        ))
    ||| (exists|s: int, m: M|
        0 <= s < pre.len() && pre[s] is Free && post == pre.update(s, Liveliness::Free(m)))
    ||| (exists|s: int|
        0 <= s < pre.len() && pre[s] is Free && post == pre.update(s, Liveliness::Dead))
    ||| post == pre
}

/// The first association entry for a native identity, if any.
pub open spec fn lookup<I>(assoc: Seq<IndexEntry<I>>, native_id: u64) -> Option<IndexEntry<I>>
    decreases assoc.len(),
{
    if assoc.len() == 0 {
        None
    } else if assoc[0].native_id == native_id {
        Some(assoc[0])
    } else {
        lookup(assoc.drop_first(), native_id)
    }
}

proof fn lemma_lookup_at<I>(assoc: Seq<IndexEntry<I>>, native_id: u64, k: int)
    requires
        0 <= k < assoc.len(),
        assoc[k].native_id == native_id,
        forall|j: int| 0 <= j < k ==> (#[trigger] assoc[j]).native_id != native_id,
    ensures
        lookup(assoc, native_id) == Some(assoc[k]),
    decreases k,
{
    if k > 0 {
        lemma_lookup_at(assoc.drop_first(), native_id, k - 1);
    }
}

proof fn lemma_lookup_none_converse<I>(assoc: Seq<IndexEntry<I>>, native_id: u64)
    requires
        lookup(assoc, native_id) is None,
    ensures
        forall|j: int| 0 <= j < assoc.len() ==> (#[trigger] assoc[j]).native_id != native_id,
    decreases assoc.len(),
{
    if assoc.len() > 0 {
        lemma_lookup_none_converse(assoc.drop_first(), native_id);
        assert forall|j: int| 0 <= j < assoc.len() implies (#[trigger] assoc[j]).native_id
            != native_id by {
            if j > 0 {
                assert(assoc[j] == assoc.drop_first()[j - 1]);
            }
        }
    }
}

proof fn lemma_lookup_none<I>(assoc: Seq<IndexEntry<I>>, native_id: u64)
    requires
        forall|j: int| 0 <= j < assoc.len() ==> (#[trigger] assoc[j]).native_id != native_id,
    ensures
        lookup(assoc, native_id) is None,
    decreases assoc.len(),
{
    if assoc.len() > 0 {
        lemma_lookup_none(assoc.drop_first(), native_id);
    }
}

impl<I: Copy, M> Registry<I, M> {
    /// The liveliness flags, one per resource ever constructed.
    pub closed spec fn flags(&self) -> Seq<Liveliness<M>> {
        self.slots@
    }

    /// The association table of the live resources.
    pub closed spec fn assoc(&self) -> Seq<IndexEntry<I>> {
        self.index@
    }

    /// Internal consistency: native identities are associated at most once,
    /// every associated flag exists and is not dead, and no two entries
    /// share a flag.
    pub open spec fn wf(&self) -> bool {
        &&& forall|i: int, j: int|
            0 <= i < j < self.assoc().len() ==> (#[trigger] self.assoc()[i]).native_id != (
            #[trigger] self.assoc()[j]).native_id
        &&& forall|i: int|
            0 <= i < self.assoc().len() ==> (#[trigger] self.assoc()[i]).slot
                < self.flags().len() && !(self.flags()[self.assoc()[i].slot as int] is Dead)
        &&& forall|i: int, j: int|
            0 <= i < j < self.assoc().len() ==> (#[trigger] self.assoc()[i]).slot != (
            #[trigger] self.assoc()[j]).slot
    }

    /// An empty registry: no flags, no associations.
    pub fn new() -> (r: Self)
        ensures
            r.flags().len() == 0,
            r.assoc().len() == 0,
            r.wf(),
    {
        Registry { slots: Vec::new(), index: Vec::new() }
    }

    /// The position of the association entry for a native identity.
    fn find_entry(&self, native_id: u64) -> (r: Option<usize>)
        ensures
            match r {
                Some(k) => k < self.assoc().len() && self.assoc()[k as int].native_id == native_id
                    && lookup(self.assoc(), native_id) == Some(self.assoc()[k as int]),
                None => lookup(self.assoc(), native_id) is None,
            },
    {
        let n = self.index.len();
        let mut i: usize = 0;
        while i < n
            invariant
                i <= n,
                n == self.assoc().len(),
                forall|j: int| 0 <= j < i ==> (#[trigger] self.assoc()[j]).native_id != native_id,
            decreases n - i,
        {
            if self.index[i].native_id == native_id {
                proof {
                    lemma_lookup_at(self.assoc(), native_id, i as int);
                }
                return Some(i);
            }
            i += 1;
        }
        proof {
            lemma_lookup_none(self.assoc(), native_id);
        }
        None
    }

    /// Wraps a freshly-discovered native object: allocates its liveliness
    /// flag, writes its association entry, and distributes the first handle.
    ///
    /// Returns `None`, changing nothing, if the identity is already wrapped:
    /// at most one owning resource per native identity may exist, and the
    /// association slot is written exactly once.
    pub fn register(&mut self, native_id: u64, ident: I, data: M) -> (r: Option<Handle<I>>)
        requires
            old(self).wf(),
        ensures
            final(self).wf(),
            step(old(self).flags(), final(self).flags()),
            match lookup(old(self).assoc(), native_id) {
                Some(_) => r is None && final(self).flags() == old(self).flags()
                    && final(self).assoc() == old(self).assoc(),
                None => {
                    &&& final(self).flags() == old(self).flags().push(Liveliness::Free(data))
                    &&& final(self).assoc() == old(self).assoc().push(
                        (IndexEntry {
                            native_id,
                            slot: old(self).flags().len() as usize,
                            ident,
                        }),
                    )
                    &&& r == Some(
                        (Handle { link: Some(old(self).flags().len() as usize), ident }),
                    )
                },
            },
    {
        if self.find_entry(native_id).is_some() {
            return None;
        }
        let slot = self.slots.len();
        self.slots.push(Liveliness::Free(data));
        self.index.push(IndexEntry { native_id, slot, ident });
        proof {
            lemma_lookup_none_converse(old(self).assoc(), native_id);
            assert forall|i: int, j: int|
                0 <= i < j < self.assoc().len() implies (#[trigger] self.assoc()[i]).native_id != (
            #[trigger] self.assoc()[j]).native_id by {
                if j < self.assoc().len() - 1 {
                    assert(old(self).assoc()[i] == self.assoc()[i]);
                }
            }
        }
        Some(Handle { link: Some(slot), ident })
    }

    /// Recovers a handle to the wrapper of a native identity, as the event
    /// bridge does when the native subsystem reports an event for it.
    /// Returns `None` for an identity that is not (or no longer) wrapped.
    pub fn resolve(&self, native_id: u64) -> (r: Option<Handle<I>>)
        ensures
            match lookup(self.assoc(), native_id) {
                Some(e) => r == Some((Handle { link: Some(e.slot), ident: e.ident })),
                None => r is None,
            },
    {
        match self.find_entry(native_id) {
            Some(k) => {
                let e = &self.index[k];
                Some(Handle { link: Some(e.slot), ident: e.ident })
            },
            None => None,
        }
    }

    /// Gives a checked-out flag back, storing the (possibly updated) native
    /// state in it. Pairs with every successful `upgrade`.
    pub fn release(&mut self, slot: usize, data: M)
        requires
            slot < old(self).flags().len(),
            old(self).flags()[slot as int] is CheckedOut,
        ensures
            final(self).flags() == old(self).flags().update(slot as int, Liveliness::Free(data)),
            final(self).assoc() == old(self).assoc(),
            step(old(self).flags(), final(self).flags()),
            old(self).wf() ==> final(self).wf(),
    {
        let _checked_out = self.slots.remove(slot);
        self.slots.insert(slot, Liveliness::Free(data));
        proof {
            assert(self.flags() =~= old(self).flags().update(slot as int, Liveliness::Free(data)));
        }
    }

    /// Handles the destruction notification for a native identity: clears
    /// the association entry, turns the flag dead for every outstanding
    /// handle, and hands back the native state for final teardown, exactly
    /// once.
    ///
    /// A second notification for the same identity finds no entry and is a
    /// no-op returning `None`: unregistration is idempotent. Destruction is
    /// never notified while a `run` on the same resource is in progress
    /// (the single-threaded model delivers it only between operations), so
    /// the flag is required not to be checked out.
    pub fn notify_destroyed(&mut self, native_id: u64) -> (r: Option<M>)
        requires
            old(self).wf(),
            match lookup(old(self).assoc(), native_id) {
                Some(e) => !(old(self).flags()[e.slot as int] is CheckedOut),
                None => true,
            },
        ensures
            final(self).wf(),
            step(old(self).flags(), final(self).flags()),
            match lookup(old(self).assoc(), native_id) {
                None => r is None && final(self).flags() == old(self).flags()
                    && final(self).assoc() == old(self).assoc(),
                Some(e) => {
                    &&& r == Some(free_data(old(self).flags(), e.slot as int))
                    &&& final(self).flags() == old(self).flags().update(
                        e.slot as int,
                        Liveliness::Dead,
                    )
                    &&& exists|k: int|
                        0 <= k < old(self).assoc().len() && old(self).assoc()[k] == e
                            && final(self).assoc() == old(self).assoc().remove(k)
                    &&& lookup(final(self).assoc(), native_id) is None
                },
            },
    {
        let k = match self.find_entry(native_id) {
            Some(k) => k,
            None => {
                return None;
            },
        };
        let e = self.index.remove(k);
        let fl = self.slots.remove(e.slot);
        self.slots.insert(e.slot, Liveliness::Dead);
        proof {
            assert(self.flags() =~= old(self).flags().update(e.slot as int, Liveliness::Dead));
            lemma_remove_clears_id(old(self).assoc(), k as int, native_id);
        }
        match fl {
            Liveliness::Free(m) => Some(m),
            _ => vstd::pervasive::unreached(),
        }
    }
}

/// Idempotent unregistration, association side: the association table holds
/// at most one entry per native identity, so once a destruction notification
/// has removed that entry, no entry for the identity remains, and a second
/// notification for the same identity finds nothing and is a no-op (the
/// `None` case of `notify_destroyed`). Nothing is unregistered twice.
pub proof fn lemma_remove_clears_id<I>(assoc: Seq<IndexEntry<I>>, k: int, native_id: u64)
    requires
        0 <= k < assoc.len(),
        assoc[k].native_id == native_id,
        forall|i: int, j: int|
            0 <= i < j < assoc.len() ==> (#[trigger] assoc[i]).native_id != (
            #[trigger] assoc[j]).native_id,
    ensures
        lookup(assoc.remove(k), native_id) is None,
{
    let rest = assoc.remove(k);
    assert forall|j: int| 0 <= j < rest.len() implies (#[trigger] rest[j]).native_id
        != native_id by {
        if j < k {
            assert(rest[j] == assoc[j]);
        } else {
            assert(rest[j] == assoc[j + 1]);
        }
    }
    lemma_lookup_none(rest, native_id);
}

impl<I: Copy, M> Resource<I, M> {
    /// Creates a weak reference to this resource: a handle linked to the
    /// same liveliness flag, safe to store indefinitely and to copy freely,
    /// which keeps nothing alive.
    pub fn weak_reference(&self) -> (r: Handle<I>)
        ensures
            r.link == Some(self.slot),
            r.ident == self.ident,
    {
        Handle { link: Some(self.slot), ident: self.ident }
    }
}

impl<I: Copy> Handle<I> {
    /// A handle that never resolves: every `upgrade` and `run` on it fails
    /// with `AlreadyDropped`. Useful for pre-filling a value before the
    /// native subsystem provides the real one.
    pub fn invalid(ident: I) -> (r: Self)
        ensures
            r.link is None,
            r.ident == ident,
    {
        Handle { link: None, ident }
    }

    /// Whether the handle still resolves: the native object behind it has
    /// not been destroyed. Read-only metadata accessors use this check; it
    /// says nothing about whether the resource is currently checked out.
    pub fn is_alive<M>(&self, reg: &Registry<I, M>) -> (r: bool)
        ensures
            r == resolves(reg.flags(), *self),
    {
        match self.link {
            Some(s) => {
                if s >= reg.slots.len() {
                    return false;
                }
                match &reg.slots[s] {
                    Liveliness::Dead => false,
                    _ => true,
                }
            },
            None => false,
        }
    }

    /// Attempts to produce the exclusive, temporary [`Resource`] this
    /// handle refers to, checking the flag out.
    ///
    /// Fails with `AlreadyDropped` when the handle no longer resolves (the
    /// native object was destroyed, or the handle was constructed invalid),
    /// and with `AlreadyBorrowed` when another upgrade is outstanding. This
    /// is the single enforcement point of exclusivity; every success must be
    /// paired with a `release` of the same flag, as `run` does.
    pub fn upgrade<M>(&self, reg: &mut Registry<I, M>) -> (r: HandleResult<Resource<I, M>>)
        ensures
            final(reg).assoc() == old(reg).assoc(),
            old(reg).wf() ==> final(reg).wf(),
            step(old(reg).flags(), final(reg).flags()),
            (match r {
                Ok(_) => true,
                Err(_) => false,
            }) <==> upgradable(old(reg).flags(), *self),
            match r {
                Ok(res) => {
                    &&& res == upgrade_of(old(reg).flags(), *self)
                    &&& self.link == Some(res.slot)
                    &&& final(reg).flags() == old(reg).flags().update(
                        res.slot as int,
                        Liveliness::CheckedOut,
                    )
                },
                Err(e) => {
                    &&& final(reg).flags() == old(reg).flags()
                    &&& (e is AlreadyBorrowed <==> borrowed(old(reg).flags(), *self))
                    &&& (e is AlreadyDropped <==> !resolves(old(reg).flags(), *self))
                },
            },
    {
        let s = match self.link {
            Some(s) => s,
            None => {
                return Err(HandleErr::AlreadyDropped);
            },
        };
        if s >= reg.slots.len() {
            return Err(HandleErr::AlreadyDropped);
        }
        let fl = reg.slots.remove(s);
        match fl {
            Liveliness::Free(data) => {
                reg.slots.insert(s, Liveliness::CheckedOut);
                proof {
                    assert(reg.flags() =~= old(reg).flags().update(
                        s as int,
                        Liveliness::CheckedOut,
                    ));
                }
                Ok(Resource { slot: s, ident: self.ident, data })
            },
            Liveliness::CheckedOut => {
                reg.slots.insert(s, Liveliness::CheckedOut);
                proof {
                    assert(reg.flags() =~= old(reg).flags());
                }
                Err(HandleErr::AlreadyBorrowed)
            },
            Liveliness::Dead => {
                reg.slots.insert(s, Liveliness::Dead);
                proof {
                    assert(reg.flags() =~= old(reg).flags());
                }
                Err(HandleErr::AlreadyDropped)
            },
        }
    }

    /// Runs a closure against the resource this handle refers to, if it
    /// still exists, with exclusive access.
    ///
    /// Upgrades the handle, hands the resource to the closure, and gives
    /// the flag back unconditionally when the closure returns, so a
    /// successful call leaves the flag free again whatever the closure's
    /// result was. An upgrade failure is propagated untouched. Nesting a
    /// `run` on the same resource inside the closure cannot release the
    /// flag out from under this call: the inner upgrade fails with
    /// `AlreadyBorrowed` while the outer one is outstanding. Re-validating
    /// the flag before the release can therefore never fail: this call
    /// holds the registry exclusively while the closure runs, so the flag
    /// it checked out is still checked out afterwards, by construction.
    pub fn run<M, R, F: FnOnce(Resource<I, M>) -> (Resource<I, M>, R)>(
        &self,
        reg: &mut Registry<I, M>,
        f: F,
    ) -> (r: HandleResult<R>)
        requires
            upgradable(old(reg).flags(), *self) ==> call_requires(
                f,
                (upgrade_of(old(reg).flags(), *self),),
            ),
        ensures
            final(reg).assoc() == old(reg).assoc(),
            old(reg).wf() ==> final(reg).wf(),
            step(old(reg).flags(), final(reg).flags()),
            (match r {
                Ok(_) => true,
                Err(_) => false,
            }) <==> upgradable(old(reg).flags(), *self),
            match r {
                Ok(out) => {
                    &&& self.link matches Some(s)
                    &&& exists|back: Resource<I, M>|
                        call_ensures(f, (upgrade_of(old(reg).flags(), *self),), (back, out))
                            && final(reg).flags() == old(reg).flags().update(
                            s as int,
                            Liveliness::Free(back.data),
                        )
                },
                Err(e) => {
                    &&& final(reg).flags() == old(reg).flags()
                    &&& (e is AlreadyBorrowed <==> borrowed(old(reg).flags(), *self))
                    &&& (e is AlreadyDropped <==> !resolves(old(reg).flags(), *self))
                },
            },
    {
        let res = match self.upgrade(reg) {
            Ok(res) => res,
            Err(e) => {
                return Err(e);
            },
        };
        let slot = res.slot;
        let (back, out) = f(res);
        reg.release(slot, back.data);
        proof {
            assert(reg.flags() =~= old(reg).flags().update(
                slot as int,
                Liveliness::Free(back.data),
            ));
        }
        Ok(out)
    }
}

/// Single-owner law: while one successful upgrade of a flag is outstanding
/// (the flag was free and is now checked out), every handle linked to the
/// same flag still resolves but meets exactly the `AlreadyBorrowed`
/// condition and not the upgradable one — so by the contract of `upgrade`
/// and `run`, a second concurrent upgrade attempt on the same resource
/// always yields `AlreadyBorrowed`, and at most one successfully-upgraded
/// [`Resource`] per flag exists at any instant.
pub proof fn lemma_single_owner<I, M>(flags: Seq<Liveliness<M>>, s: usize, h2: Handle<I>)
    requires
        (s as int) < flags.len(),
        flags[s as int] is Free,
        h2.link == Some(s),
    ensures
        borrowed(flags.update(s as int, Liveliness::CheckedOut), h2),
        !upgradable(flags.update(s as int, Liveliness::CheckedOut), h2),
        resolves(flags.update(s as int, Liveliness::CheckedOut), h2),
{
}

/// A dead flag stays dead across every transition one operation can take:
/// no left-hand side of [`step`] is `Dead`, and flags are never removed.
pub proof fn lemma_step_preserves_dead<M>(
    pre: Seq<Liveliness<M>>,
    post: Seq<Liveliness<M>>,
    i: int,
)
    requires
        step(pre, post),
        0 <= i < pre.len(),
        pre[i] is Dead,
    ensures
        i < post.len(),
        post[i] is Dead,
{
}

/// Post-destruction permanence: over any sequence of operations — any trace
/// of flag states where each consecutive pair is one [`step`] — a flag that
/// is dead at the start is dead at the end. With `lemma_dead_handle_fails`,
/// every existing and every subsequently-copied handle to a destroyed
/// resource fails `upgrade` and `run` with `AlreadyDropped` forever after.
pub proof fn lemma_dead_forever<M>(trace: Seq<Seq<Liveliness<M>>>, i: int)
    requires
        trace.len() > 0,
        forall|k: int| 0 <= k < trace.len() - 1 ==> step(#[trigger] trace[k], trace[k + 1]),
        0 <= i < trace[0].len(),
        trace[0][i] is Dead,
    ensures
        i < trace.last().len(),
        trace.last()[i] is Dead,
    decreases trace.len(),
{
    if trace.len() > 1 {
        lemma_step_preserves_dead(trace[0], trace[1], i);
        let rest = trace.drop_first();
        assert forall|k: int| 0 <= k < rest.len() - 1 implies step(#[trigger] rest[k], rest[k + 1]) by {
            assert(rest[k] == trace[k + 1]);
            assert(rest[k + 1] == trace[k + 2]);
            assert(step(trace[k + 1], trace[k + 2]));
        }
        lemma_dead_forever(rest, i);
        assert(rest.last() == trace.last());
    }
}

/// A handle whose flag is dead — and equally a handle constructed invalid —
/// neither resolves nor is upgradable nor counts as borrowed: by the
/// contracts of `upgrade` and `run`, both fail on it with `AlreadyDropped`,
/// never intermittently succeeding. Handles are `Copy`, and a copy carries
/// the same link, so the same holds of every handle cloned from it.
pub proof fn lemma_dead_handle_fails<I, M>(flags: Seq<Liveliness<M>>, h: Handle<I>)
    requires
        h.link matches Some(s) ==> s < flags.len() && flags[s as int] is Dead,
    ensures
        !resolves(flags, h),
        !upgradable(flags, h),
        !borrowed(flags, h),
{
}

/// Release correctness: once a checked-out flag is given back — as `run`
/// does unconditionally after its closure returns — every handle linked to
/// it is upgradable again, so a subsequent `run` on the same handle
/// succeeds as long as the resource is not destroyed in between.
pub proof fn lemma_release_restores<I, M>(flags: Seq<Liveliness<M>>, s: usize, m: M, h: Handle<I>)
    requires
        (s as int) < flags.len(),
        h.link == Some(s),
    ensures
        upgradable(flags.update(s as int, Liveliness::Free(m)), h),
{
}

} // verus!
