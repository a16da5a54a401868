use rust_native::android::{CONTAINER_BACKGROUND, UI_HELPER_CLASS};
use rust_native::{
    Callback, CallbackRegistry, ClickHandler, ElementId, HostFailure, RenderError, ViewHandle,
    ViewRegistry,
};
use std::collections::HashSet;
use std::sync::atomic::{AtomicUsize, Ordering};
use std::sync::Arc;

struct Counter(Arc<AtomicUsize>);

impl ClickHandler for Counter {
    fn on_click(&self) {
        self.0.fetch_add(1, Ordering::SeqCst);
    }
}

fn counting() -> (Callback, Arc<AtomicUsize>) {
    let count = Arc::new(AtomicUsize::new(0));
    (Callback { handler: Arc::new(Counter(count.clone())) }, count)
}

#[test]
fn new_registry_is_empty() {
    let registry = ViewRegistry::new();
    assert_eq!(registry.len(), 0);
    assert!(!registry.is_full());
    assert_eq!(registry.lookup(ElementId(0)), Err(RenderError::MissingElement(ElementId(0))));
    assert_eq!(registry.root(), Err(RenderError::MissingRoot));
}

#[test]
fn registry_numbers_views_in_order() {
    let mut registry = ViewRegistry::new();
    assert_eq!(registry.register(ViewHandle(70)), Ok(ElementId(0)));
    assert_eq!(registry.register(ViewHandle(50)), Ok(ElementId(1)));
    assert_eq!(registry.register(ViewHandle(70)), Ok(ElementId(2)));
    assert_eq!(registry.len(), 3);
    assert_eq!(registry.lookup(ElementId(0)), Ok(ViewHandle(70)));
    assert_eq!(registry.lookup(ElementId(1)), Ok(ViewHandle(50)));
    assert_eq!(registry.lookup(ElementId(2)), Ok(ViewHandle(70)));
    assert_eq!(registry.lookup(ElementId(3)), Err(RenderError::MissingElement(ElementId(3))));
    assert_eq!(registry.root(), Ok(ViewHandle(70)));
}

#[test]
fn registry_keeps_the_largest_handle() {
    let mut registry = ViewRegistry::new();
    assert_eq!(registry.register(ViewHandle(u64::MAX)), Ok(ElementId(0)));
    assert_eq!(registry.register(ViewHandle(0)), Ok(ElementId(1)));
    assert_eq!(registry.root(), Ok(ViewHandle(u64::MAX)));
    assert_eq!(registry.lookup(ElementId(1)), Ok(ViewHandle(0)));
    assert_eq!(
        registry.lookup(ElementId(u32::MAX)),
        Err(RenderError::MissingElement(ElementId(u32::MAX)))
    );
}

#[test]
fn registry_records_the_answer_of_the_host() {
    let mut registry = ViewRegistry::new();
    assert_eq!(registry.record(Ok(ViewHandle(9))), Ok(ElementId(0)));
    assert_eq!(
        registry.record(Err(HostFailure { message: "refused".to_string() })),
        Err(RenderError::Native(HostFailure { message: "refused".to_string() }))
    );
    assert_eq!(registry.len(), 1);
    assert_eq!(registry.record(Ok(ViewHandle(4))), Ok(ElementId(1)));
    assert_eq!(registry.lookup(ElementId(1)), Ok(ViewHandle(4)));
}

#[test]
fn host_answers_become_results() {
    assert_eq!(RenderError::from_host(Ok(7)), Ok(7));
    assert_eq!(RenderError::from_host(Ok(())), Ok(()));
    assert_eq!(
        RenderError::from_host::<u8>(Err(HostFailure { message: "m".to_string() })),
        Err(RenderError::Native(HostFailure { message: "m".to_string() }))
    );
}

#[test]
fn new_callback_registry_delivers_nothing() {
    let mut callbacks = CallbackRegistry::new();
    assert_eq!(callbacks.next_id(), 0);
    assert!(!callbacks.is_full());
    assert!(!callbacks.handle_callback(0));
    assert!(callbacks.take(0).is_none());
    assert_eq!(callbacks.next_id(), 0);
}

#[test]
fn callbacks_are_numbered_in_order() {
    let mut callbacks = CallbackRegistry::new();
    let (a, _) = counting();
    let (b, _) = counting();
    let (c, _) = counting();
    assert_eq!(callbacks.register(a), Ok(0));
    assert_eq!(callbacks.next_id(), 1);
    assert_eq!(callbacks.register(b), Ok(1));
    assert!(callbacks.handle_callback(0));
    assert_eq!(callbacks.register(c), Ok(2));
    assert_eq!(callbacks.next_id(), 3);
}

#[test]
fn callback_is_delivered_at_most_once() {
    let mut callbacks = CallbackRegistry::new();
    let (callback, count) = counting();
    assert_eq!(callbacks.register(callback), Ok(0));
    assert!(callbacks.handle_callback(0));
    assert!(!callbacks.handle_callback(0));
    assert!(!callbacks.handle_callback(0));
    assert_eq!(count.load(Ordering::SeqCst), 1);
}

#[test]
fn taken_callback_is_no_longer_pending() {
    let mut callbacks = CallbackRegistry::new();
    let (first, first_count) = counting();
    let (second, second_count) = counting();
    assert_eq!(callbacks.register(first), Ok(0));
    assert_eq!(callbacks.register(second), Ok(1));
    let taken = callbacks.take(1).expect("callback 1 is pending");
    assert!(callbacks.take(1).is_none());
    assert!(!callbacks.handle_callback(1));
    assert_eq!(second_count.load(Ordering::SeqCst), 0);
    taken.fire();
    taken.fire();
    assert_eq!(second_count.load(Ordering::SeqCst), 2);
    assert!(callbacks.handle_callback(0));
    assert_eq!(first_count.load(Ordering::SeqCst), 1);
}

#[test]
fn container_background_is_opaque_white() {
    assert_eq!(CONTAINER_BACKGROUND, 0xFFFF_FFFFu32 as i32);
    assert_eq!(CONTAINER_BACKGROUND, -1);
}

#[test]
fn helper_class_is_named_as_java_names_it() {
    assert_eq!(UI_HELPER_CLASS, "com.rustnative.UiHelper");
}

#[test]
fn identifiers_compare_and_hash_by_value() {
    let a = ElementId(3);
    let b = a;
    assert_eq!(a, b);
    assert_ne!(a, ElementId(4));
    assert_eq!(a.0, 3);
    let set: HashSet<ElementId> = [ElementId(1), ElementId(1), ElementId(2)].into_iter().collect();
    assert_eq!(set.len(), 2);
    assert!(set.contains(&ElementId(2)));
}
