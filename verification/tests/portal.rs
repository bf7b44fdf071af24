use leptos::{
    create_memo, create_runtime, create_rw_signal, create_scope, Fragment, IntoView, RwSignal,
    Scope, SignalGet, SignalSet,
};
use leptos_declarative::portal::{
    found_or_error, portal_slot, show_slot, slot_content, PortalError, PortalInput, PortalOutput,
    PortalProvider, PortalRegistry,
};
use std::any::TypeId;

type Content = Box<dyn Fn(Scope) -> Fragment>;

struct PortalA;

struct PortalB;

fn text(content: &'static str) -> Content {
    Box::new(move |cx| Fragment::new(vec![content.into_view(cx)]))
}

fn fresh(cx: Scope) -> RwSignal<Option<Content>> {
    create_rw_signal(cx, None)
}

fn html(cx: Scope, shown: Option<Fragment>) -> String {
    match shown {
        Some(fragment) => fragment.into_view(cx).render_to_string(cx).to_string(),
        None => String::new(),
    }
}

fn a() -> TypeId {
    TypeId::of::<PortalA>()
}

fn b() -> TypeId {
    TypeId::of::<PortalB>()
}

fn input(cx: Scope, registry: &mut PortalRegistry<Content>, id: TypeId, content: Content) {
    let write = PortalInput(Some(registry), id, fresh(cx), content).unwrap();
    write.slot.set(Some(write.content));
}

fn output(cx: Scope, registry: &mut PortalRegistry<Content>, id: TypeId) -> String {
    let (_, view) = PortalOutput(cx, Some(registry), id, fresh(cx)).unwrap();
    view.render_to_string(cx).to_string()
}

#[test]
fn provider_starts_without_slots() {
    let registry = PortalProvider::<Content>();
    assert_eq!(registry.len(), 0);
    assert_eq!(registry.position(&a()), None);
}

#[test]
fn output_shows_what_an_earlier_input_holds() {
    create_scope(create_runtime(), |cx| {
        let mut registry = PortalProvider::<Content>();
        input(cx, &mut registry, a(), text("through the portal"));
        assert!(output(cx, &mut registry, a()).contains("through the portal"));
        assert_eq!(registry.len(), 1);
    })
    .dispose();
}

#[test]
fn output_without_input_shows_nothing() {
    create_scope(create_runtime(), |cx| {
        let mut registry = PortalProvider::<Content>();
        input(cx, &mut registry, b(), text("other portal"));
        assert!(!output(cx, &mut registry, a()).contains("other portal"));
        assert_eq!(registry.len(), 2);
        assert_eq!(registry.position(&b()), Some(0));
        assert_eq!(registry.position(&a()), Some(1));
    })
    .dispose();
}

#[test]
fn output_follows_later_inputs() {
    create_scope(create_runtime(), |cx| {
        let mut registry = PortalProvider::<Content>();
        let slot = portal_slot(Some(&mut registry), a(), fresh(cx)).unwrap();
        let shown = create_memo(cx, move |_| html(cx, show_slot(cx, &slot)));
        assert!(!shown.get().contains("first"));
        input(cx, &mut registry, a(), text("first"));
        assert!(shown.get().contains("first"));
        input(cx, &mut registry, a(), text("second"));
        assert!(shown.get().contains("second"));
        assert!(!shown.get().contains("first"));
        assert_eq!(registry.len(), 1);
    })
    .dispose();
}

#[test]
fn two_portals_do_not_mix() {
    create_scope(create_runtime(), |cx| {
        let mut registry = PortalProvider::<Content>();
        input(cx, &mut registry, a(), text("for a"));
        input(cx, &mut registry, b(), text("for b"));
        let shown_a = output(cx, &mut registry, a());
        let shown_b = output(cx, &mut registry, b());
        assert!(shown_a.contains("for a") && !shown_a.contains("for b"));
        assert!(shown_b.contains("for b") && !shown_b.contains("for a"));
    })
    .dispose();
}

#[test]
fn input_without_provider_fails() {
    create_scope(create_runtime(), |cx| {
        let outcome = PortalInput(None, a(), fresh(cx), text("lost"));
        assert_eq!(outcome.err(), Some(PortalError::ContextNotFound));
    })
    .dispose();
}

#[test]
fn output_without_provider_fails() {
    create_scope(create_runtime(), |cx| {
        let outcome = PortalOutput::<Content>(cx, None, a(), fresh(cx));
        assert_eq!(outcome.err(), Some(PortalError::ContextNotFound));
        assert_eq!(portal_slot(None, a(), fresh(cx)), Err(PortalError::ContextNotFound));
    })
    .dispose();
}

#[test]
fn context_not_found_message() {
    assert_eq!(
        PortalError::ContextNotFound.message(),
        "failed to find `PortalCtx`, make sure you are using `<PortalProvider />` somewhere near the root of the app"
    );
}

#[test]
fn missing_context_is_an_error() {
    assert_eq!(found_or_error(Some(7)), Ok(7));
    assert_eq!(found_or_error::<i32>(None), Err(PortalError::ContextNotFound));
}

#[test]
fn input_hands_back_the_write_that_is_owed() {
    create_scope(create_runtime(), |cx| {
        let mut registry = PortalProvider::<Content>();
        let first = fresh(cx);
        let write = PortalInput(Some(&mut registry), a(), first, text("held")).unwrap();
        assert!(write.slot == first);
        assert!((write.content)(cx).into_view(cx).render_to_string(cx).contains("held"));
        assert!(show_slot(cx, &first).is_none());
    })
    .dispose();
}

#[test]
fn registry_keeps_one_slot_for_each_identifier() {
    create_scope(create_runtime(), |cx| {
        let mut registry = PortalRegistry::<Content>::new();
        let (one, two, three) = (fresh(cx), fresh(cx), fresh(cx));
        assert!(one != two && two != three && one != three);
        assert_eq!(registry.len(), 0);
        assert_eq!(registry.position(&a()), None);
        assert!(registry.read_or_create(a(), one) == one);
        assert_eq!(registry.len(), 1);
        assert_eq!(registry.position(&a()), Some(0));
        let write = registry.register_or_update(b(), two, text("b"));
        assert!(write.slot == two);
        assert_eq!(registry.len(), 2);
        assert_eq!(registry.position(&b()), Some(1));
        let again = registry.register_or_update(a(), three, text("a"));
        assert!(again.slot == one);
        assert!(registry.read_or_create(b(), three) == two);
        assert_eq!(registry.len(), 2);
        assert_eq!(registry.position(&a()), Some(0));
        assert_eq!(registry.position(&b()), Some(1));
    })
    .dispose();
}

#[test]
fn slot_shows_what_it_holds() {
    create_scope(create_runtime(), |cx| {
        let slot = fresh(cx);
        assert!(show_slot(cx, &slot).is_none());
        slot.set(Some(text("old")));
        assert!(html(cx, show_slot(cx, &slot)).contains("old"));
        slot.set(Some(text("new")));
        let shown = html(cx, show_slot(cx, &slot));
        assert!(shown.contains("new"));
        assert!(!shown.contains("old"));
    })
    .dispose();
}

#[test]
fn empty_slot_has_no_content() {
    create_scope(create_runtime(), |cx| {
        assert!(slot_content::<Content>(cx, &None).is_none());
        let fragment = slot_content(cx, &Some(text("held"))).unwrap();
        assert!(fragment.into_view(cx).render_to_string(cx).contains("held"));
    })
    .dispose();
}
