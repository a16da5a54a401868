use rust_native::{
    Callback, ClickHandler, Component, ElementId, HostFailure, NativeHost, PlatformRenderer,
    RenderError, Renderer, Text, ViewHandle,
};
use std::sync::atomic::{AtomicUsize, Ordering};
use std::sync::Arc;

#[derive(Debug, Clone, PartialEq)]
enum Widget {
    Text(String),
    Button(String, u32),
    Container,
}

#[derive(Debug)]
struct Node {
    widget: Widget,
    children: Vec<u64>,
}

/// A host that builds its widgets in memory. Handles start at 100 so that
/// they cannot be mistaken for element identifiers.
#[derive(Debug, Default)]
struct MemoryHost {
    nodes: Vec<Node>,
    installed: Option<u64>,
    calls: usize,
    refuse: Option<String>,
    patience: usize,
}

impl MemoryHost {
    fn refusal(&mut self) -> Result<(), HostFailure> {
        self.calls += 1;
        match &self.refuse {
            Some(message) if self.calls > self.patience => Err(HostFailure { message: message.clone() }),
            _ => Ok(()),
        }
    }

    fn build(&mut self, widget: Widget) -> Result<ViewHandle, HostFailure> {
        self.refusal()?;
        self.nodes.push(Node { widget, children: Vec::new() });
        Ok(ViewHandle(100 + (self.nodes.len() as u64 - 1)))
    }

    fn node(&self, handle: u64) -> &Node {
        &self.nodes[(handle - 100) as usize]
    }
}

impl NativeHost for MemoryHost {
    fn create_text(&mut self, text: &str) -> Result<ViewHandle, HostFailure> {
        self.build(Widget::Text(text.to_string()))
    }

    fn create_button(&mut self, label: &str, callback: u32) -> Result<ViewHandle, HostFailure> {
        self.build(Widget::Button(label.to_string(), callback))
    }

    fn create_container(&mut self) -> Result<ViewHandle, HostFailure> {
        self.build(Widget::Container)
    }

    fn add_child(&mut self, parent: ViewHandle, child: ViewHandle) -> Result<(), HostFailure> {
        self.refusal()?;
        self.nodes[(parent.0 - 100) as usize].children.push(child.0);
        Ok(())
    }

    fn install(&mut self, root: ViewHandle) -> Result<(), HostFailure> {
        self.refusal()?;
        self.installed = Some(root.0);
        Ok(())
    }
}

struct Counter(Arc<AtomicUsize>);

impl ClickHandler for Counter {
    fn on_click(&self) {
        self.0.fetch_add(1, Ordering::SeqCst);
    }
}

fn counting() -> (Callback, Arc<AtomicUsize>) {
    let count = Arc::new(AtomicUsize::new(0));
    (Callback { handler: Arc::new(Counter(count.clone())) }, count)
}

fn refused(message: &str) -> RenderError {
    RenderError::Native(HostFailure { message: message.to_string() })
}

/// A component made of several elements: a container with a caption and a
/// body under it.
struct Card {
    caption: Text,
    body: Text,
}

impl Component for Card {
    fn render<R: PlatformRenderer>(&self, renderer: &mut R) -> Result<ElementId, RenderError> {
        let card = renderer.create_container()?;
        let caption = self.caption.render(renderer)?;
        renderer.add_child(card, caption)?;
        let body = self.body.render(renderer)?;
        renderer.add_child(card, body)?;
        Ok(card)
    }
}

#[test]
fn container_and_text_are_installed() {
    let mut renderer = Renderer::new(MemoryHost::default());
    assert_eq!(renderer.create_container(), Ok(ElementId(0)));
    assert_eq!(renderer.create_text("Hello"), Ok(ElementId(1)));
    assert_eq!(renderer.add_child(ElementId(0), ElementId(1)), Ok(()));
    assert_eq!(renderer.commit(), Ok(()));
    let host = renderer.into_host();
    let root = host.installed.expect("a root is installed");
    assert_eq!(host.node(root).widget, Widget::Container);
    assert_eq!(host.node(root).children.len(), 1);
    let child = host.node(root).children[0];
    assert_eq!(host.node(child).widget, Widget::Text("Hello".to_string()));
    assert!(host.node(child).children.is_empty());
}

#[test]
fn button_click_runs_callback_once() {
    let (callback, count) = counting();
    let mut renderer = Renderer::new(MemoryHost::default());
    assert_eq!(renderer.create_container(), Ok(ElementId(0)));
    assert_eq!(renderer.create_button("Go", callback), Ok(ElementId(1)));
    assert_eq!(renderer.add_child(ElementId(0), ElementId(1)), Ok(()));
    assert_eq!(renderer.commit(), Ok(()));
    let number = match renderer.host().node(101).widget {
        Widget::Button(ref label, number) => {
            assert_eq!(label, "Go");
            number
        }
        ref other => panic!("not a button: {:?}", other),
    };
    assert_eq!(number, 0);
    assert_eq!(count.load(Ordering::SeqCst), 0);
    assert!(renderer.handle_callback(number));
    assert_eq!(count.load(Ordering::SeqCst), 1);
    assert!(!renderer.handle_callback(number));
    assert_eq!(count.load(Ordering::SeqCst), 1);
}

#[test]
fn add_child_to_missing_parent_fails_without_native_call() {
    let mut renderer = Renderer::new(MemoryHost::default());
    assert_eq!(
        renderer.add_child(ElementId(5), ElementId(1)),
        Err(RenderError::MissingElement(ElementId(5)))
    );
    assert_eq!(renderer.host().calls, 0);
    assert!(renderer.host().nodes.is_empty());
}

#[test]
fn identifiers_count_up_from_zero() {
    let (callback, _count) = counting();
    let mut renderer = Renderer::new(MemoryHost::default());
    assert_eq!(renderer.len(), 0);
    assert_eq!(renderer.create_text("a"), Ok(ElementId(0)));
    assert_eq!(renderer.create_container(), Ok(ElementId(1)));
    assert_eq!(renderer.create_button("b", callback), Ok(ElementId(2)));
    assert_eq!(renderer.create_text("c"), Ok(ElementId(3)));
    assert_eq!(renderer.len(), 4);
}

#[test]
fn operations_in_between_do_not_disturb_the_numbering() {
    let mut renderer = Renderer::new(MemoryHost::default());
    assert_eq!(renderer.create_container(), Ok(ElementId(0)));
    assert_eq!(renderer.add_child(ElementId(0), ElementId(7)), Err(RenderError::MissingElement(ElementId(7))));
    assert_eq!(renderer.commit(), Ok(()));
    assert!(!renderer.handle_callback(3));
    assert_eq!(renderer.create_text("next"), Ok(ElementId(1)));
    assert_eq!(renderer.add_child(ElementId(0), ElementId(1)), Ok(()));
    assert_eq!(renderer.create_text("last"), Ok(ElementId(2)));
}

#[test]
fn refused_creation_uses_no_identifier() {
    let mut renderer = Renderer::new(MemoryHost { refuse: Some("no memory".to_string()), ..MemoryHost::default() });
    assert_eq!(renderer.create_text("a"), Err(refused("no memory")));
    assert_eq!(renderer.create_container(), Err(refused("no memory")));
    assert_eq!(renderer.len(), 0);
    assert!(!renderer.contains(ElementId(0)));
    assert_eq!(renderer.host().calls, 2);
    let mut renderer = Renderer::new(MemoryHost::default());
    assert_eq!(renderer.create_text("a"), Ok(ElementId(0)));
}

#[test]
fn refused_button_keeps_no_callback() {
    let (callback, count) = counting();
    let mut renderer = Renderer::new(MemoryHost { refuse: Some("no buttons".to_string()), ..MemoryHost::default() });
    assert_eq!(renderer.create_button("Go", callback), Err(refused("no buttons")));
    assert_eq!(renderer.len(), 0);
    assert!(!renderer.handle_callback(0));
    assert_eq!(count.load(Ordering::SeqCst), 0);
}

#[test]
fn add_child_links_created_elements() {
    let mut renderer = Renderer::new(MemoryHost::default());
    assert_eq!(renderer.create_container(), Ok(ElementId(0)));
    assert_eq!(renderer.create_container(), Ok(ElementId(1)));
    assert_eq!(renderer.create_text("leaf"), Ok(ElementId(2)));
    assert_eq!(renderer.add_child(ElementId(0), ElementId(1)), Ok(()));
    assert_eq!(renderer.add_child(ElementId(1), ElementId(2)), Ok(()));
    let host = renderer.into_host();
    assert_eq!(host.node(100).children, vec![101]);
    assert_eq!(host.node(101).children, vec![102]);
    assert!(host.node(102).children.is_empty());
    assert_eq!(host.calls, 5);
}

#[test]
fn add_child_names_the_missing_element() {
    let mut renderer = Renderer::new(MemoryHost::default());
    assert_eq!(renderer.create_container(), Ok(ElementId(0)));
    assert_eq!(
        renderer.add_child(ElementId(0), ElementId(1)),
        Err(RenderError::MissingElement(ElementId(1)))
    );
    assert_eq!(
        renderer.add_child(ElementId(1), ElementId(0)),
        Err(RenderError::MissingElement(ElementId(1)))
    );
    assert_eq!(
        renderer.add_child(ElementId(9), ElementId(8)),
        Err(RenderError::MissingElement(ElementId(9)))
    );
    assert_eq!(
        renderer.add_child(ElementId(u32::MAX), ElementId(0)),
        Err(RenderError::MissingElement(ElementId(u32::MAX)))
    );
    assert_eq!(renderer.host().calls, 1);
    assert!(renderer.host().node(100).children.is_empty());
}

#[test]
fn add_child_passes_on_a_refusal() {
    let host = MemoryHost { refuse: Some("detached".to_string()), patience: 2, ..MemoryHost::default() };
    let mut renderer = Renderer::new(host);
    assert_eq!(renderer.create_container(), Ok(ElementId(0)));
    assert_eq!(renderer.create_text("t"), Ok(ElementId(1)));
    assert_eq!(renderer.add_child(ElementId(0), ElementId(1)), Err(refused("detached")));
    assert_eq!(renderer.commit(), Err(refused("detached")));
    assert_eq!(renderer.len(), 2);
    assert_eq!(renderer.host().calls, 4);
    assert!(renderer.host().node(100).children.is_empty());
    assert_eq!(renderer.host().installed, None);
}

#[test]
fn commit_without_elements_fails_with_missing_root() {
    let mut renderer = Renderer::new(MemoryHost::default());
    assert_eq!(renderer.commit(), Err(RenderError::MissingRoot));
    assert_eq!(renderer.host().calls, 0);
    assert_eq!(renderer.host().installed, None);
}

#[test]
fn commit_installs_element_zero() {
    let mut renderer = Renderer::new(MemoryHost::default());
    assert_eq!(renderer.create_text("first"), Ok(ElementId(0)));
    assert_eq!(renderer.create_container(), Ok(ElementId(1)));
    assert_eq!(renderer.commit(), Ok(()));
    assert_eq!(renderer.host().installed, Some(100));
    assert_eq!(renderer.view_of(ElementId(0)), Ok(ViewHandle(100)));
}

#[test]
fn commit_passes_on_a_refusal() {
    struct Stubborn;
    impl NativeHost for Stubborn {
        fn create_text(&mut self, _text: &str) -> Result<ViewHandle, HostFailure> {
            Ok(ViewHandle(1))
        }
        fn create_button(&mut self, _label: &str, _callback: u32) -> Result<ViewHandle, HostFailure> {
            Ok(ViewHandle(2))
        }
        fn create_container(&mut self) -> Result<ViewHandle, HostFailure> {
            Ok(ViewHandle(3))
        }
        fn add_child(&mut self, parent: ViewHandle, child: ViewHandle) -> Result<(), HostFailure> {
            Err(HostFailure { message: format!("cannot put {} under {}", child.0, parent.0) })
        }
        fn install(&mut self, root: ViewHandle) -> Result<(), HostFailure> {
            Err(HostFailure { message: format!("cannot install {}", root.0) })
        }
    }
    let mut renderer = Renderer::new(Stubborn);
    assert_eq!(renderer.create_container(), Ok(ElementId(0)));
    assert_eq!(renderer.create_text("t"), Ok(ElementId(1)));
    assert_eq!(renderer.add_child(ElementId(0), ElementId(1)), Err(refused("cannot put 1 under 3")));
    assert_eq!(renderer.commit(), Err(refused("cannot install 3")));
    assert_eq!(renderer.len(), 2);
}

#[test]
fn unknown_callback_is_a_silent_no_op() {
    let (callback, count) = counting();
    let mut renderer = Renderer::new(MemoryHost::default());
    assert!(!renderer.handle_callback(0));
    assert_eq!(renderer.create_button("Go", callback), Ok(ElementId(0)));
    assert!(!renderer.handle_callback(1));
    assert!(!renderer.handle_callback(u32::MAX));
    assert_eq!(count.load(Ordering::SeqCst), 0);
    assert!(renderer.handle_callback(0));
    assert_eq!(count.load(Ordering::SeqCst), 1);
}

#[test]
fn each_button_has_its_own_callback() {
    let (first, first_count) = counting();
    let (second, second_count) = counting();
    let mut renderer = Renderer::new(MemoryHost::default());
    assert_eq!(renderer.create_text("no callback"), Ok(ElementId(0)));
    assert_eq!(renderer.create_button("one", first), Ok(ElementId(1)));
    assert_eq!(renderer.create_button("two", second), Ok(ElementId(2)));
    assert_eq!(renderer.host().node(101).widget, Widget::Button("one".to_string(), 0));
    assert_eq!(renderer.host().node(102).widget, Widget::Button("two".to_string(), 1));
    assert!(renderer.handle_callback(1));
    assert_eq!((first_count.load(Ordering::SeqCst), second_count.load(Ordering::SeqCst)), (0, 1));
    assert!(!renderer.handle_callback(1));
    assert!(renderer.handle_callback(0));
    assert!(!renderer.handle_callback(0));
    assert_eq!((first_count.load(Ordering::SeqCst), second_count.load(Ordering::SeqCst)), (1, 1));
}

#[test]
fn renderer_knows_what_it_created() {
    let mut renderer = Renderer::new(MemoryHost::default());
    assert!(!renderer.contains(ElementId(0)));
    assert_eq!(renderer.view_of(ElementId(0)), Err(RenderError::MissingElement(ElementId(0))));
    assert_eq!(renderer.create_container(), Ok(ElementId(0)));
    assert_eq!(renderer.create_text("t"), Ok(ElementId(1)));
    assert!(renderer.contains(ElementId(0)));
    assert!(renderer.contains(ElementId(1)));
    assert!(!renderer.contains(ElementId(2)));
    assert_eq!(renderer.view_of(ElementId(1)), Ok(ViewHandle(101)));
    assert_eq!(renderer.view_of(ElementId(2)), Err(RenderError::MissingElement(ElementId(2))));
}

#[test]
fn text_renders_itself() {
    let mut renderer = Renderer::new(MemoryHost::default());
    let text = Text::new("Hi");
    assert_eq!(text.content, "Hi");
    assert_eq!(Text::new("").content, "");
    assert_eq!(text.render(&mut renderer), Ok(ElementId(0)));
    assert_eq!(text.render(&mut renderer), Ok(ElementId(1)));
    assert_eq!(renderer.host().nodes.len(), 2);
    assert_eq!(renderer.host().nodes[0].widget, Widget::Text("Hi".to_string()));
    assert_eq!(renderer.host().nodes[1].widget, Widget::Text("Hi".to_string()));
}

#[test]
fn text_passes_on_a_refusal() {
    let mut renderer = Renderer::new(MemoryHost { refuse: Some("busy".to_string()), ..MemoryHost::default() });
    assert_eq!(Text::new("Hi").render(&mut renderer), Err(refused("busy")));
}

#[test]
fn a_component_may_be_made_of_several_elements() {
    let mut renderer = Renderer::new(MemoryHost::default());
    assert_eq!(renderer.create_container(), Ok(ElementId(0)));
    let card = Card { caption: Text::new("Title"), body: Text::new("Body") };
    assert_eq!(card.render(&mut renderer), Ok(ElementId(1)));
    assert_eq!(renderer.add_child(ElementId(0), ElementId(1)), Ok(()));
    assert_eq!(renderer.commit(), Ok(()));
    let host = renderer.into_host();
    assert_eq!(host.installed, Some(100));
    assert_eq!(host.node(100).children, vec![101]);
    assert_eq!(host.node(101).children, vec![102, 103]);
    assert_eq!(host.node(102).widget, Widget::Text("Title".to_string()));
    assert_eq!(host.node(103).widget, Widget::Text("Body".to_string()));
}
