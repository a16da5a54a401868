//! The renderer: keeps the registries and drives a native host.

use vstd::prelude::*;
use crate::callbacks::{Callback, CallbackRegistry};
use crate::element::{ElementId, ViewHandle};
use crate::error::{HostFailure, RenderError};
use crate::model::{HostRequest, RendererModel};
use crate::platform::{NativeHost, PlatformRenderer};
use crate::registry::ViewRegistry;

verus! {

/// A renderer over the native host `H`.
///
/// It hands out the element identifiers, remembers the native view of each
/// element, keeps the callbacks of the buttons until their click arrives, and
/// turns each operation into the requests that the host has to carry out.
///
/// Each operation states, besides what the model says, how the host
/// changed: either it was left alone, or it is what one call of the
/// matching host operation, with the stated arguments, made of it.
pub struct Renderer<H> {
    host: H,
    registry: ViewRegistry,
    callbacks: CallbackRegistry,
    requests: Ghost<Seq<HostRequest>>,
}

impl<H: NativeHost> Renderer<H> {
    /// The host that this renderer drives, as it stands now.
    pub closed spec fn native(&self) -> H {
        self.host
    }

    /// A renderer that has created nothing and asked nothing of `host`.
    pub fn new(host: H) -> (renderer: Renderer<H>)
        ensures
            renderer.model() == RendererModel::fresh(),
            renderer.native() == host,
    {
        Renderer {
            host,
            registry: ViewRegistry::new(),
            callbacks: CallbackRegistry::new(),
            requests: Ghost(Seq::empty()),
        }
    }

    /// The host that this renderer drives.
    pub fn host(&self) -> (host: &H)
        ensures
            *host == self.native(),
    {
        &self.host
    }

    /// The host that this renderer drives, to work on it directly. What
    /// the renderer itself holds stays as it is.
    pub(crate) fn host_mut(&mut self) -> (host: &mut H)
        ensures
            *host == old(self).native(),
            final(self).native() == *final(host),
            final(self).model() == old(self).model(),
    {
        &mut self.host
    }

    /// Gives the host back and ends the renderer.
    pub fn into_host(self) -> (host: H)
        ensures
            host == self.native(),
    {
        self.host
    }

    /// The number of elements created so far.
    pub fn len(&self) -> (n: u32)
        ensures
            n == self.model().views.len(),
    {
        self.registry.len()
    }

    /// Whether this renderer has created the element.
    pub fn contains(&self, id: ElementId) -> (known: bool)
        ensures
            known == self.model().has(id),
    {
        id.0 < self.registry.len()
    }

    /// The native view of an element, or `MissingElement` naming it.
    pub fn view_of(&self, id: ElementId) -> (r: Result<ViewHandle, RenderError>)
        ensures
            r == ViewRegistry::found(self.model().views, id),
    {
        self.registry.lookup(id)
    }

    /// Delivers the click that the host reports under the number `id`.
    ///
    /// Fires the callback registered under that number if it is still
    /// pending, and returns whether one ran. The callback is no longer
    /// pending afterwards, so each callback runs at most once; a number that
    /// is unknown or already delivered changes nothing. The host is not
    /// asked anything.
    pub fn handle_callback(&mut self, id: u32) -> (ran: bool)
        ensures
            final(self).model() == old(self).model().deliver(id).0,
            ran == old(self).model().deliver(id).1.is_some(),
            ran ==> call_ensures(Callback::fire, (&old(self).model().pending[id],), ()),
            final(self).native() == old(self).native(),
    {
        self.callbacks.handle_callback(id)
    }

    /// Finishes the creation of a text or a container with the host's
    /// answer to `request`.
    fn finish_create(&mut self, Ghost(request): Ghost<HostRequest>, answer: Result<ViewHandle, HostFailure>) -> (r: Result<ElementId, RenderError>)
        requires
            !old(self).model().elements_full(),
        ensures
            (final(self).model(), r) == old(self).model().create(request, answer),
            final(self).native() == old(self).native(),
    {
        proof {
            self.requests@ = self.requests@.push(request);
        }
        self.registry.record(answer)
    }
}

impl<H: NativeHost> PlatformRenderer for Renderer<H> {
    closed spec fn model(&self) -> RendererModel {
        RendererModel {
            views: self.registry@,
            requests: self.requests@,
            callbacks_issued: self.callbacks.issued(),
            pending: self.callbacks.pending(),
        }
    }

    /// With all identifiers in use the host is left alone. Otherwise its
    /// `create_text` is called once, with the text, and its answer decides
    /// as the model says.
    fn create_text(&mut self, text: &str) -> (r: Result<ElementId, RenderError>)
        ensures
            if old(self).model().elements_full() {
                final(self).native() == old(self).native()
            } else {
                exists|host: &mut H, answer: Result<ViewHandle, HostFailure>|
                    mut_ref_current(host) == old(self).native()
                        && mut_ref_future(host) == final(self).native()
                        && #[trigger] call_ensures(H::create_text, (host, text), answer)
                        && (final(self).model(), r) == old(self).model().create(
                        HostRequest::CreateText(text@),
                        answer,
                    )
            },
    {
        if self.registry.is_full() {
            assert((self.model(), Err::<ElementId, RenderError>(RenderError::Exhausted))
                == old(self).model().create(HostRequest::CreateText(text@), Ok(ViewHandle(0))));
            return Err(RenderError::Exhausted);
        }
        let answer = self.host.create_text(text);
        self.finish_create(Ghost(HostRequest::CreateText(text@)), answer)
    }

    /// With all identifiers or all callback numbers in use the host is left
    /// alone. Otherwise its `create_button` is called once, with the label
    /// and the next callback number, and its answer decides as the model
    /// says.
    fn create_button(&mut self, label: &str, on_click: Callback) -> (r: Result<ElementId, RenderError>)
        ensures
            if old(self).model().elements_full() || old(self).model().callbacks_full() {
                final(self).native() == old(self).native()
            } else {
                exists|host: &mut H, answer: Result<ViewHandle, HostFailure>|
                    mut_ref_current(host) == old(self).native()
                        && mut_ref_future(host) == final(self).native()
                        && #[trigger] call_ensures(
                        H::create_button,
                        (host, label, old(self).model().callbacks_issued as u32),
                        answer,
                    )
                        && (final(self).model(), r) == old(self).model().create_button(
                        label@,
                        on_click,
                        answer,
                    )
            },
    {
        if self.registry.is_full() || self.callbacks.is_full() {
            assert((self.model(), Err::<ElementId, RenderError>(RenderError::Exhausted))
                == old(self).model().create_button(label@, on_click, Ok(ViewHandle(0))));
            return Err(RenderError::Exhausted);
        }
        let number = self.callbacks.next_id();
        let answer = self.host.create_button(label, number);
        proof {
            self.requests@ = self.requests@.push(HostRequest::CreateButton(label@, number));
        }
        let r = match answer {
            Ok(handle) => {
                match self.callbacks.register(on_click) {
                    Ok(_) => self.registry.register(handle),
                    Err(e) => Err(e),
                }
            },
            Err(failure) => Err(RenderError::Native(failure)),
        };
        assert((self.model(), r) == old(self).model().create_button(label@, on_click, answer));
        r
    }

    /// With all identifiers in use the host is left alone. Otherwise its
    /// `create_container` is called once, and its answer decides as the
    /// model says.
    fn create_container(&mut self) -> (r: Result<ElementId, RenderError>)
        ensures
            if old(self).model().elements_full() {
                final(self).native() == old(self).native()
            } else {
                exists|host: &mut H, answer: Result<ViewHandle, HostFailure>|
                    mut_ref_current(host) == old(self).native()
                        && mut_ref_future(host) == final(self).native()
                        && #[trigger] call_ensures(H::create_container, (host,), answer)
                        && (final(self).model(), r) == old(self).model().create(
                        HostRequest::CreateContainer,
                        answer,
                    )
            },
    {
        if self.registry.is_full() {
            assert((self.model(), Err::<ElementId, RenderError>(RenderError::Exhausted))
                == old(self).model().create(HostRequest::CreateContainer, Ok(ViewHandle(0))));
            return Err(RenderError::Exhausted);
        }
        let answer = self.host.create_container();
        self.finish_create(Ghost(HostRequest::CreateContainer), answer)
    }

    /// If one of the elements was never created the host is left alone.
    /// Otherwise its `add_child` is called once, with the view of the
    /// parent and the view of the child, and its answer decides as the
    /// model says.
    fn add_child(&mut self, parent: ElementId, child: ElementId) -> (r: Result<(), RenderError>)
        ensures
            if old(self).model().has(parent) && old(self).model().has(child) {
                exists|host: &mut H, answer: Result<(), HostFailure>|
                    mut_ref_current(host) == old(self).native()
                        && mut_ref_future(host) == final(self).native()
                        && #[trigger] call_ensures(
                        H::add_child,
                        (host, old(self).model().views[parent.0 as int], old(self).model().views[child.0 as int]),
                        answer,
                    )
                        && (final(self).model(), r) == old(self).model().add_child(parent, child, answer)
            } else {
                final(self).native() == old(self).native()
            },
    {
        let parent_view = match self.registry.lookup(parent) {
            Ok(view) => view,
            Err(e) => {
                assert((self.model(), Err::<(), RenderError>(e)) == old(self).model().add_child(parent, child, Ok(())));
                return Err(e);
            },
        };
        let child_view = match self.registry.lookup(child) {
            Ok(view) => view,
            Err(e) => {
                assert((self.model(), Err::<(), RenderError>(e)) == old(self).model().add_child(parent, child, Ok(())));
                return Err(e);
            },
        };
        let answer = self.host.add_child(parent_view, child_view);
        proof {
            self.requests@ = self.requests@.push(HostRequest::AddChild(parent_view, child_view));
        }
        let r = RenderError::from_host(answer);
        assert((self.model(), r) == old(self).model().add_child(parent, child, answer));
        r
    }

    /// Without an element 0 the host is left alone. Otherwise its `install`
    /// is called once, with the view of element 0, and its answer decides
    /// as the model says.
    fn commit(&mut self) -> (r: Result<(), RenderError>)
        ensures
            if old(self).model().has(ElementId(0)) {
                exists|host: &mut H, answer: Result<(), HostFailure>|
                    mut_ref_current(host) == old(self).native()
                        && mut_ref_future(host) == final(self).native()
                        && #[trigger] call_ensures(H::install, (host, old(self).model().views[0]), answer)
                        && (final(self).model(), r) == old(self).model().commit(answer)
            } else {
                final(self).native() == old(self).native()
            },
    {
        let root = match self.registry.root() {
            Ok(view) => view,
            Err(e) => {
                assert((self.model(), Err::<(), RenderError>(e)) == old(self).model().commit(Ok(())));
                return Err(e);
            },
        };
        let answer = self.host.install(root);
        proof {
            self.requests@ = self.requests@.push(HostRequest::Install(root));
        }
        let r = RenderError::from_host(answer);
        assert((self.model(), r) == old(self).model().commit(answer));
        r
    }
}

} // verus!
