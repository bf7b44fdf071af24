//! Portals: content that is declared in one place of the view tree and shown
//! in another.
//!
//! A provider near the root keeps a [`PortalRegistry`] of slots, one for each
//! identifier in use. A [`PortalInput`] puts content into the slot of its
//! identifier and a [`PortalOutput`] shows what the slot of its identifier
//! holds. Either may come first: whichever does creates the slot.
//!
//! The functions here decide what becomes of the registry and of a slot. To
//! find the registry of the nearest provider, to make a cell and to write
//! into one is the work of the component that calls them: it hands over what
//! the search found and a fresh cell, and carries out the write that it gets
//! back.

use crate::host::{dynamic_view, empty_view, fragment_view, same_key, total_content, with_cell};
use leptos::{Fragment, RwSignal, Scope};
use std::any::TypeId;
use vstd::prelude::*;

verus! {

/// The slots of one provider, in the order in which they were first used. No
/// identifier has two slots.
#[verifier::reject_recursive_types(C)]
pub struct PortalRegistry<C: 'static> {
    entries: Vec<(TypeId, RwSignal<Option<C>>)>,
}

/// A write that is owed to a slot: whoever gets it puts `content` into
/// `slot`.
#[verifier::reject_recursive_types(C)]
pub struct SlotWrite<C: 'static> {
    /// The slot to write into.
    pub slot: RwSignal<Option<C>>,
    /// What the slot is to hold.
    pub content: C,
}

impl<C: 'static> PortalRegistry<C> {
    /// The identifiers that have a slot, in the order of their first use.
    pub closed spec fn keys(&self) -> Seq<TypeId> {
        Seq::new(self.entries@.len(), |i: int| self.entries@[i].0)
    }

    /// The slots, each at the position of its identifier.
    pub closed spec fn slots(&self) -> Seq<RwSignal<Option<C>>> {
        Seq::new(self.entries@.len(), |i: int| self.entries@[i].1)
    }

    /// Every identifier has one slot and no identifier has two. This holds
    /// of every registry that a program has in hand.
    #[verifier::type_invariant]
    pub open spec fn well_formed(&self) -> bool {
        &&& self.keys().len() == self.slots().len()
        &&& forall|i: int, j: int|
            0 <= i < j < self.keys().len() ==> self.keys()[i] != self.keys()[j]
    }

    /// The slot of `id`, for an identifier that has one.
    pub open spec fn slot_of(&self, id: TypeId) -> RwSignal<Option<C>> {
        self.slots()[self.keys().index_of(id)]
    }

    /// What asking for the slot of `id`, with the cell `fresh` in hand, makes
    /// of a registry: one that knows the identifier stays as it is and gives
    /// the slot that it has; another gets `fresh` as the slot of `id`, behind
    /// all the slots that it has, and gives that.
    pub open spec fn found_or_added(
        &self,
        after: &Self,
        id: TypeId,
        fresh: RwSignal<Option<C>>,
        slot: RwSignal<Option<C>>,
    ) -> bool {
        if self.keys().contains(id) {
            &&& after.keys() == self.keys()
            &&& after.slots() == self.slots()
            &&& slot == self.slot_of(id)
        } else {
            &&& after.keys() == self.keys().push(id)
            &&& after.slots() == self.slots().push(fresh)
            &&& slot == fresh
        }
    }

    /// A registry without slots.
    pub fn new() -> (registry: Self)
        ensures
            registry.well_formed(),
            registry.keys() == Seq::<TypeId>::empty(),
            registry.slots() == Seq::<RwSignal<Option<C>>>::empty(),
    {
        let registry = PortalRegistry { entries: Vec::new() };
        assert(registry.keys() =~= Seq::<TypeId>::empty());
        assert(registry.slots() =~= Seq::<RwSignal<Option<C>>>::empty());
        registry
    }

    /// The number of slots.
    pub fn len(&self) -> (n: usize)
        ensures
            n == self.keys().len(),
            n == self.slots().len(),
    {
        self.entries.len()
    }

    /// The position of the slot of `id`, if it has one.
    pub fn position(&self, id: &TypeId) -> (r: Option<usize>)
        ensures
            match r {
                Some(i) => {
                    &&& i < self.keys().len()
                    &&& self.keys()[i as int] == *id
                    &&& forall|j: int| 0 <= j < i ==> self.keys()[j] != *id
                },
                None => !self.keys().contains(*id),
            },
    {
        let n: usize = self.entries.len();
        let mut i: usize = 0;
        while i < n
            invariant
                0 <= i <= n,
                n == self.entries.len(),
                forall|j: int| 0 <= j < i ==> self.keys()[j] != *id,
            decreases n - i,
        {
            if same_key(&self.entries[i].0, id) {
                return Some(i);
            }
            i = i + 1;
        }
        None
    }

    /// The slot of `id`. An identifier that has none yet gets the cell
    /// `fresh`, which the caller has made empty; otherwise `fresh` is left
    /// aside. No slot is removed or replaced.
    pub fn read_or_create(&mut self, id: TypeId, fresh: RwSignal<Option<C>>) -> (slot: RwSignal<
        Option<C>,
    >)
        ensures
            final(self).well_formed(),
            old(self).found_or_added(final(self), id, fresh, slot),
    {
        proof {
            use_type_invariant(&*self);
        }
        match self.position(&id) {
            Some(i) => {
                proof {
                    lemma_index_of_distinct(self.keys(), id, i as int);
                }
                self.entries[i].1
            },
            None => {
                let mut entries: Vec<(TypeId, RwSignal<Option<C>>)> = Vec::new();
                core::mem::swap(&mut self.entries, &mut entries);
                entries.push((id, fresh));
                assert forall|i: int, j: int| 0 <= i < j < entries@.len() implies entries@[i].0
                    != entries@[j].0 by {
                    if j < old(self).keys().len() {
                        assert(old(self).keys()[i] != old(self).keys()[j]);
                    } else {
                        assert(old(self).keys()[i] == entries@[i].0);
                    }
                }
                self.entries = entries;
                assert(self.keys() =~= old(self).keys().push(id));
                assert(self.slots() =~= old(self).slots().push(fresh));
                fresh
            },
        }
    }

    /// Finds the slot that is to hold `content`, as
    /// [`PortalRegistry::read_or_create`] does, and hands back the write that
    /// is owed to it: a known identifier has its slot overwritten, a new one
    /// gets `fresh` with the content.
    pub fn register_or_update(
        &mut self,
        id: TypeId,
        fresh: RwSignal<Option<C>>,
        content: C,
    ) -> (write: SlotWrite<C>)
        ensures
            final(self).well_formed(),
            old(self).found_or_added(final(self), id, fresh, write.slot),
            write.content == content,
    {
        let slot = self.read_or_create(id, fresh);
        SlotWrite { slot, content }
    }
}

/// Among distinct identifiers, the one place where `id` stands is where it
/// is found.
proof fn lemma_index_of_distinct(keys: Seq<TypeId>, id: TypeId, i: int)
    requires
        forall|a: int, b: int| 0 <= a < b < keys.len() ==> keys[a] != keys[b],
        0 <= i < keys.len(),
        keys[i] == id,
    ensures
        keys.contains(id),
        keys.index_of(id) == i,
{
    let k = keys.index_of(id);
    assert(0 <= k < keys.len() && keys[k] == id);
}

/// After the slot of `id` was asked for, the identifier has that slot, and
/// every identifier that had a slot before has it still, at its place: no
/// entry is removed or moved, and the registry grows by one entry at most.
pub proof fn law_registry_only_grows<C: 'static>(
    before: PortalRegistry<C>,
    after: PortalRegistry<C>,
    id: TypeId,
    fresh: RwSignal<Option<C>>,
    slot: RwSignal<Option<C>>,
)
    requires
        before.well_formed(),
        after.well_formed(),
        before.found_or_added(&after, id, fresh, slot),
    ensures
        after.keys().contains(id),
        slot == after.slot_of(id),
        before.keys().is_prefix_of(after.keys()),
        before.slots().is_prefix_of(after.slots()),
        after.keys().len() <= before.keys().len() + 1,
        forall|other: TypeId| #[trigger]
            before.keys().contains(other) ==> after.keys().contains(other) && after.slot_of(other)
                == before.slot_of(other),
{
    if before.keys().contains(id) {
    } else {
        let n = before.keys().len() as int;
        assert(after.keys()[n] == id);
        lemma_index_of_distinct(after.keys(), id, n);
    }
    assert forall|other: TypeId| #[trigger] before.keys().contains(other) implies after.keys().contains(
        other,
    ) && after.slot_of(other) == before.slot_of(other) by {
        let i = before.keys().index_of(other);
        assert(0 <= i < before.keys().len() && before.keys()[i] == other);
        assert(after.keys()[i] == other);
        lemma_index_of_distinct(after.keys(), other, i);
    }
}

/// A slot keeps its place: in a registry that has grown out of another, every
/// identifier of the earlier one still has the slot that it had there. So a
/// site that has taken the slot of an identifier holds the very slot that
/// later sites with that identifier read and write, whichever came first.
pub proof fn law_slot_is_stable<C: 'static>(
    before: PortalRegistry<C>,
    after: PortalRegistry<C>,
    id: TypeId,
)
    requires
        before.well_formed(),
        after.well_formed(),
        before.keys().is_prefix_of(after.keys()),
        before.slots().is_prefix_of(after.slots()),
        before.keys().contains(id),
    ensures
        after.keys().contains(id),
        after.slot_of(id) == before.slot_of(id),
{
    let i = before.keys().index_of(id);
    assert(0 <= i < before.keys().len() && before.keys()[i] == id);
    assert(after.keys()[i] == before.keys()[i]);
    lemma_index_of_distinct(after.keys(), id, i);
    assert(after.slots()[i] == before.slots()[i]);
}

/// Why a portal site cannot be set up.
#[derive(Clone, Copy, Debug, PartialEq, Eq, Structural)]
pub enum PortalError {
    /// No provider stands above the site.
    ContextNotFound,
}

impl PortalError {
    /// The text of [`PortalError::message`].
    pub open spec fn message_text(self) -> Seq<char> {
        "failed to find `PortalCtx`, make sure you are using `<PortalProvider />` somewhere near the root of the app"@
    }

    /// Says what is wrong and how to mend it.
    pub fn message(&self) -> (text: String)
        ensures
            text@ == self.message_text(),
    {
        "failed to find `PortalCtx`, make sure you are using `<PortalProvider />` somewhere near the root of the app".to_owned()
    }
}

/// What a site makes of the search for a provider: what was found, or the
/// error that nothing was.
pub fn found_or_error<T>(found: Option<T>) -> (r: Result<T, PortalError>)
    ensures
        r == match found {
            Some(ctx) => Ok::<T, PortalError>(ctx),
            None => Err::<T, PortalError>(PortalError::ContextNotFound),
        },
{
    match found {
        Some(ctx) => Ok(ctx),
        None => Err(PortalError::ContextNotFound),
    }
}

/// What a provider makes available to the sites below it: a registry
/// without slots. The component provides it to its scope before it produces
/// its children.
#[allow(non_snake_case)]
pub fn PortalProvider<C: 'static>() -> (registry: PortalRegistry<C>)
    ensures
        registry.well_formed(),
        registry.keys() == Seq::<TypeId>::empty(),
        registry.slots() == Seq::<RwSignal<Option<C>>>::empty(),
{
    PortalRegistry::new()
}

/// The slot of the portal that `id` names, given what the search for the
/// registry of the nearest provider `found`. Fails exactly when nothing was
/// found. Otherwise the registry is asked for the slot of `id` as
/// [`PortalRegistry::read_or_create`] says, with the empty cell `fresh` in
/// hand.
pub fn portal_slot<C: 'static>(
    found: Option<&mut PortalRegistry<C>>,
    id: TypeId,
    fresh: RwSignal<Option<C>>,
) -> (r: Result<RwSignal<Option<C>>, PortalError>)
    ensures
        match found {
            Some(registry) => {
                &&& r matches Ok(slot)
                &&& final(registry).well_formed()
                &&& registry.found_or_added(final(registry), id, fresh, slot)
            },
            None => r == Err::<RwSignal<Option<C>>, PortalError>(PortalError::ContextNotFound),
        },
{
    match found {
        Some(registry) => Ok(registry.read_or_create(id, fresh)),
        None => Err(PortalError::ContextNotFound),
    }
}

/// The entry of a portal: `children` is to be shown wherever a
/// [`PortalOutput`] with the same `id` stands, now or later. Given what the
/// search for the registry of the nearest provider `found`, it fails exactly
/// when nothing was found. Otherwise the registry is asked for the slot of
/// `id` as [`PortalRegistry::register_or_update`] says, with the empty cell
/// `fresh` in hand, and the write of `children` into that slot comes back for
/// the caller to carry out.
#[allow(non_snake_case)]
pub fn PortalInput<C: 'static>(
    found: Option<&mut PortalRegistry<C>>,
    id: TypeId,
    fresh: RwSignal<Option<C>>,
    children: C,
) -> (r: Result<SlotWrite<C>, PortalError>)
    ensures
        match found {
            Some(registry) => {
                &&& r matches Ok(write)
                &&& final(registry).well_formed()
                &&& registry.found_or_added(final(registry), id, fresh, write.slot)
                &&& write.content == children
            },
            None => r matches Err(e) && e == PortalError::ContextNotFound,
        },
{
    match found {
        Some(registry) => Ok(registry.register_or_update(id, fresh, children)),
        None => Err(PortalError::ContextNotFound),
    }
}

/// What a slot that holds `content` shows: the content produced in `cx`,
/// or nothing while the slot is empty.
pub fn slot_content<C>(cx: Scope, content: &Option<C>) -> (shown: Option<Fragment>) where
    C: Fn(Scope) -> Fragment,

    requires
        content matches Some(children) ==> call_requires(children, (cx,)),
    ensures
        match content {
            Some(children) => shown matches Some(fragment) && call_ensures(
                children,
                (cx,),
                fragment,
            ),
            None => shown is None,
        },
{
    match content {
        Some(children) => Some(children(cx)),
        None => None,
    }
}

/// Reads a slot and produces what it shows at this moment, which is what
/// [`slot_content`] makes of what the slot holds: content that one of the
/// slot's producers gave in `cx`, or nothing. The running computation is
/// subscribed to the slot, and so runs again when the slot is given other
/// content. A slot that can no longer be read shows nothing. What the slot
/// holds the runtime alone can say.
pub fn show_slot<C>(cx: Scope, slot: &RwSignal<Option<C>>) -> (shown: Option<Fragment>) where
    C: Fn(Scope) -> Fragment,

    requires
        total_content::<C>(),
    ensures
        shown matches Some(fragment) ==> exists|children: C|
            call_ensures(children, (cx,), fragment),
{
    let read = |content: &Option<C>| -> (read: Option<Fragment>)
        ensures
            match content {
                Some(children) => read matches Some(fragment) && call_ensures(
                    children,
                    (cx,),
                    fragment,
                ),
                None => read is None,
            },
        { slot_content(cx, content) };
    match with_cell(slot, read) {
        Some(Some(fragment)) => {
            proof {
                let held = choose|held: &Option<C>|
                    call_ensures(read, (held,), Some(fragment));
                assert(held matches Some(children) && call_ensures(children, (cx,), fragment));
            }
            Some(fragment)
        },
        _ => None,
    }
}

/// The exit of a portal: shows what the [`PortalInput`] with the same `id`
/// holds, and follows it as it changes; shows nothing while there is no such
/// input. Given what the search for the registry of the nearest provider
/// `found`, it fails exactly when nothing was found. Otherwise the registry
/// is asked for the slot of `id` as [`PortalRegistry::read_or_create`] says,
/// with the empty cell `fresh` in hand. What comes back is that slot and its
/// view, which the framework builds from one call of [`show_slot`] on the
/// slot, and builds again whenever the slot changes: it shows the content
/// that [`show_slot`] produces, and nothing where that produces none. The
/// view is the framework's, and nothing is claimed of it.
#[allow(non_snake_case)]
pub fn PortalOutput<C>(
    cx: Scope,
    found: Option<&mut PortalRegistry<C>>,
    id: TypeId,
    fresh: RwSignal<Option<C>>,
) -> (r: Result<(RwSignal<Option<C>>, leptos::View), PortalError>) where
    C: Fn(Scope) -> Fragment + 'static,

    requires
        total_content::<C>(),
    ensures
        match found {
            Some(registry) => {
                &&& r matches Ok(shown)
                &&& final(registry).well_formed()
                &&& registry.found_or_added(final(registry), id, fresh, shown.0)
            },
            None => r matches Err(e) && e == PortalError::ContextNotFound,
        },
{
    match portal_slot(found, id, fresh) {
        Ok(slot) => {
            let produce = move || -> (view: leptos::View)
                {
                    match show_slot(cx, &slot) {
                        Some(content) => fragment_view(content, cx),
                        None => empty_view(cx),
                    }
                };
            Ok((slot, dynamic_view(cx, produce)))
        },
        Err(e) => Err(e),
    }
}

} // verus!
