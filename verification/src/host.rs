//! The types of `leptos` that the components hold, and the calls that they
//! make into it. None of the functions in this module is proved: each contract
//! here is taken on trust from the framework's source.
//!
//! The runtime keeps what the handles stand for, so a contract here cannot
//! speak of it: of most calls nothing is claimed at all. Only calls that
//! return on every input are made from here; to make a cell, to write into
//! one and to provide a context is left to the caller of the library.

use leptos::leptos_dom::Transparent;
use leptos::{Fragment, IntoView, RwSignal, Scope, Signal, SignalGet, SignalWith, View};
use std::any::TypeId;
use vstd::prelude::*;

verus! {

/// A reactive scope, `leptos::Scope`: a copyable handle into the runtime.
#[verifier::external_type_specification]
#[verifier::external_body]
pub struct ExScope(leptos::Scope);

/// A list of views, `leptos::Fragment`.
#[verifier::external_type_specification]
#[verifier::external_body]
pub struct ExFragment(leptos::Fragment);

/// A node of the view tree, `leptos::View`.
#[verifier::external_type_specification]
#[verifier::external_body]
pub struct ExView(leptos::View);

/// A readable reactive value, `leptos::Signal`.
#[verifier::external_type_specification]
#[verifier::external_body]
#[verifier::reject_recursive_types(T)]
pub struct ExSignal<T: 'static>(leptos::Signal<T>);

/// A reactive cell that can be read and written, `leptos::RwSignal`: a
/// copyable handle into the runtime.
#[verifier::external_type_specification]
#[verifier::external_body]
#[verifier::reject_recursive_types(T)]
pub struct ExRwSignal<T: 'static>(leptos::RwSignal<T>);

/// The identifier of a type, `std::any::TypeId`.
#[verifier::external_type_specification]
#[verifier::external_body]
pub struct ExTypeId(std::any::TypeId);

/// Whether every content producer of type `C` can be called in every scope.
/// Whoever shows what a slot holds takes this for granted: the producer in
/// the slot was put there by another site, and nothing else is known of it.
pub open spec fn total_content<C: Fn(Scope) -> Fragment>() -> bool {
    forall|children: C, cx: Scope| call_requires(children, (cx,))
}

/// `==` on `TypeId`: two identifiers compare equal exactly when they are the
/// same identifier.
#[verifier::external_body]
pub(crate) fn same_key(a: &TypeId, b: &TypeId) -> (r: bool)
    ensures
        r == (*a == *b),
{
    a == b
}

/// `SignalWith::try_with` on an `RwSignal`: calls `f` on what the cell holds
/// and subscribes the running computation to the cell; `None`, without a
/// call, once the cell is disposed. So `f` must be callable on every value,
/// and what comes back in `Some` is what `f` gave for some value. Which value
/// the cell holds the runtime alone can say.
#[verifier::external_body]
pub(crate) fn with_cell<T, O, F>(cell: &RwSignal<T>, f: F) -> (r: Option<O>) where
    F: FnOnce(&T) -> O,

    requires
        forall|value: &T| call_requires(f, (value,)),
    ensures
        r matches Some(out) ==> exists|value: &T| call_ensures(f, (value,), out),
{
    cell.try_with(f)
}

/// `Signal::derive`: wraps a computation as a signal. The runtime calls the
/// computation whenever the signal is read, so it must be callable. Nothing
/// is claimed of the signal that comes back.
#[verifier::external_body]
pub(crate) fn derive_signal<S>(cx: Scope, source: S) -> Signal<bool> where
    S: Fn() -> bool + 'static,

    requires
        call_requires(source, ()),
{
    Signal::derive(cx, source)
}

/// `SignalGet::try_get` on a `Signal<bool>`: reads the signal and subscribes
/// the running computation to it; `None` once the signal is disposed. What it
/// reads depends on the runtime, so nothing is claimed of the result.
#[verifier::external_body]
pub(crate) fn read_signal(signal: &Signal<bool>) -> Option<bool> {
    signal.try_get()
}

/// `Transparent::new`: a view that carries `value` and shows nothing.
/// Nothing is claimed of the view.
#[verifier::external_body]
pub(crate) fn data_view<T: 'static>(value: T) -> View {
    View::Transparent(Transparent::new(value))
}

/// `IntoView::into_view` on a `Fragment`. Nothing is claimed of the view.
#[verifier::external_body]
pub(crate) fn fragment_view(fragment: Fragment, cx: Scope) -> View {
    fragment.into_view(cx)
}

/// `IntoView::into_view` on a closure: a view that shows what the closure
/// returns, and that the runtime builds again whenever a signal that the
/// closure read has changed. The closure is called by the runtime, so it must
/// be callable. Nothing is claimed of the view.
#[verifier::external_body]
pub(crate) fn dynamic_view<F>(cx: Scope, produce: F) -> View where F: Fn() -> View + 'static
    requires
        call_requires(produce, ()),
{
    produce.into_view(cx)
}

/// `IntoView::into_view` on `()`: the view that shows nothing. Nothing is
/// claimed of the view.
#[verifier::external_body]
pub(crate) fn empty_view(cx: Scope) -> View {
    ().into_view(cx)
}

} // verus!
