use rust_native::{
    App, Callback, ClickHandler, ElementId, HostFailure, LifecycleEvent, NativeHost,
    PlatformRenderer, Reaction, RenderError, Renderer, ViewHandle,
};
use std::sync::atomic::{AtomicUsize, Ordering};
use std::sync::Arc;

struct Counter(Arc<AtomicUsize>);

impl ClickHandler for Counter {
    fn on_click(&self) {
        self.0.fetch_add(1, Ordering::SeqCst);
    }
}

fn counting() -> (Callback, Arc<AtomicUsize>) {
    let count = Arc::new(AtomicUsize::new(0));
    (Callback { handler: Arc::new(Counter(count.clone())) }, count)
}

/// A host that writes down what it is asked.
#[derive(Debug, Default)]
struct Recorder {
    asked: Vec<String>,
    built: u64,
    refuse_after: Option<usize>,
}

impl Recorder {
    fn note(&mut self, request: String) -> Result<(), HostFailure> {
        if let Some(limit) = self.refuse_after {
            if self.asked.len() >= limit {
                return Err(HostFailure { message: format!("refused: {}", request) });
            }
        }
        self.asked.push(request);
        Ok(())
    }

    fn build(&mut self, request: String) -> Result<ViewHandle, HostFailure> {
        self.note(request)?;
        self.built += 1;
        Ok(ViewHandle(10 * self.built))
    }
}

impl NativeHost for Recorder {
    fn create_text(&mut self, text: &str) -> Result<ViewHandle, HostFailure> {
        self.build(format!("text {:?}", text))
    }

    fn create_button(&mut self, label: &str, callback: u32) -> Result<ViewHandle, HostFailure> {
        self.build(format!("button {:?} {}", label, callback))
    }

    fn create_container(&mut self) -> Result<ViewHandle, HostFailure> {
        self.build("container".to_string())
    }

    fn add_child(&mut self, parent: ViewHandle, child: ViewHandle) -> Result<(), HostFailure> {
        self.note(format!("add {} under {}", child.0, parent.0))
    }

    fn install(&mut self, root: ViewHandle) -> Result<(), HostFailure> {
        self.note(format!("install {}", root.0))
    }
}

#[test]
fn start_screen_shows_three_lines() {
    let mut renderer = Renderer::new(Recorder::default());
    assert_eq!(App::main(&mut renderer), Ok(()));
    assert_eq!(renderer.len(), 4);
    assert_eq!(
        renderer.into_host().asked,
        vec![
            "container",
            "text \"Hello\"",
            "add 20 under 10",
            "text \"from\"",
            "add 30 under 10",
            "text \"Rust-native\"",
            "add 40 under 10",
            "install 10",
        ]
    );
}

#[test]
fn lines_go_under_a_new_container() {
    let mut renderer = Renderer::new(Recorder::default());
    assert_eq!(renderer.create_text("already there"), Ok(ElementId(0)));
    assert_eq!(App::show_lines(&mut renderer, &["one", "two"]), Ok(()));
    assert_eq!(renderer.len(), 4);
    assert_eq!(
        renderer.into_host().asked,
        vec![
            "text \"already there\"",
            "container",
            "text \"one\"",
            "add 30 under 20",
            "text \"two\"",
            "add 40 under 20",
            "install 10",
        ]
    );
}

#[test]
fn no_lines_give_an_empty_container() {
    let mut renderer = Renderer::new(Recorder::default());
    assert_eq!(App::show_lines(&mut renderer, &[]), Ok(()));
    assert_eq!(renderer.len(), 1);
    assert_eq!(renderer.into_host().asked, vec!["container", "install 10"]);
}

#[test]
fn first_refusal_ends_the_screen() {
    let mut renderer = Renderer::new(Recorder { refuse_after: Some(3), ..Recorder::default() });
    assert_eq!(
        App::main(&mut renderer),
        Err(RenderError::Native(HostFailure { message: "refused: text \"from\"".to_string() }))
    );
    assert_eq!(renderer.len(), 2);
    assert_eq!(renderer.into_host().asked, vec!["container", "text \"Hello\"", "add 20 under 10"]);
}

#[test]
fn refused_installation_is_reported() {
    let mut renderer = Renderer::new(Recorder { refuse_after: Some(1), ..Recorder::default() });
    assert_eq!(
        App::show_lines(&mut renderer, &[]),
        Err(RenderError::Native(HostFailure { message: "refused: install 10".to_string() }))
    );
}

#[test]
fn application_ends_when_its_activity_is_destroyed() {
    assert_eq!(App::react(LifecycleEvent::Destroy), Reaction::Exit);
}

#[test]
fn application_goes_on_after_other_events() {
    assert_eq!(App::react(LifecycleEvent::Main), Reaction::Report);
    assert_eq!(App::react(LifecycleEvent::Timeout), Reaction::Report);
    assert_eq!(App::react(LifecycleEvent::Wake), Reaction::Report);
    assert_eq!(App::react(LifecycleEvent::Other), Reaction::Ignore);
}

#[test]
fn welcome_screen_has_a_greeting_and_a_button() {
    let (on_click, clicks) = counting();
    let mut renderer = Renderer::new(Recorder::default());
    assert_eq!(App::welcome(&mut renderer, on_click), Ok(()));
    assert_eq!(renderer.len(), 3);
    assert_eq!(
        renderer.host().asked,
        vec![
            "container",
            "text \"Welcome to Rust+iOS\"",
            "button \"Click\" 0",
            "add 20 under 10",
            "add 30 under 10",
            "install 10",
        ]
    );
    assert_eq!(clicks.load(Ordering::SeqCst), 0);
    assert!(renderer.handle_callback(0));
    assert!(!renderer.handle_callback(0));
    assert_eq!(clicks.load(Ordering::SeqCst), 1);
}

#[test]
fn welcome_button_gets_the_next_callback_number() {
    let (earlier, _) = counting();
    let (on_click, clicks) = counting();
    let mut renderer = Renderer::new(Recorder::default());
    assert_eq!(renderer.create_button("Earlier", earlier), Ok(ElementId(0)));
    assert_eq!(App::welcome(&mut renderer, on_click), Ok(()));
    assert_eq!(renderer.host().asked[3], "button \"Click\" 1");
    assert_eq!(renderer.host().asked[6], "install 10");
    assert!(renderer.handle_callback(1));
    assert_eq!(clicks.load(Ordering::SeqCst), 1);
}

#[test]
fn refused_button_ends_the_welcome_screen() {
    let (on_click, clicks) = counting();
    let mut renderer = Renderer::new(Recorder { refuse_after: Some(2), ..Recorder::default() });
    assert_eq!(
        App::welcome(&mut renderer, on_click),
        Err(RenderError::Native(HostFailure { message: "refused: button \"Click\" 0".to_string() }))
    );
    assert_eq!(renderer.len(), 2);
    assert!(!renderer.handle_callback(0));
    assert_eq!(clicks.load(Ordering::SeqCst), 0);
}
