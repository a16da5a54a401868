//! The mathematical model of a renderer, which its contracts are stated over.

use vstd::prelude::*;
use crate::callbacks::{Callback, CallbackRegistry};
use crate::element::{ElementId, ViewHandle};
use crate::error::{HostFailure, RenderError};

verus! {

/// One request that a renderer makes of its native host.
pub enum HostRequest {
    /// Build a widget that displays the given text.
    CreateText(Seq<char>),
    /// Build a clickable widget with the given label, whose click is
    /// reported under the given callback number.
    CreateButton(Seq<char>, u32),
    /// Build a widget that groups others.
    CreateContainer,
    /// Put the second widget under the first.
    AddChild(ViewHandle, ViewHandle),
    /// Make the widget the active user interface.
    Install(ViewHandle),
}

/// What a renderer is, as far as its callers can tell.
pub struct RendererModel {
    /// The native views of the elements created so far, in order of
    /// creation: the element with identifier `i` stands at index `i`.
    pub views: Seq<ViewHandle>,
    /// Every request made of the host so far, oldest first.
    pub requests: Seq<HostRequest>,
    /// How many callbacks have been registered.
    pub callbacks_issued: nat,
    /// The callbacks whose click has not been delivered, each under its
    /// number.
    pub pending: Map<u32, Callback>,
}

impl RendererModel {
    /// A renderer that has done nothing yet.
    pub open spec fn fresh() -> RendererModel {
        RendererModel {
            views: Seq::empty(),
            requests: Seq::empty(),
            callbacks_issued: 0,
            pending: Map::empty(),
        }
    }

    /// Whether the renderer has created the element.
    pub open spec fn has(self, id: ElementId) -> bool {
        id.0 < self.views.len()
    }

    /// The identifier that the next element will get.
    pub open spec fn next_element(self) -> ElementId {
        ElementId(self.views.len() as u32)
    }

    /// Whether all element identifiers are in use.
    pub open spec fn elements_full(self) -> bool {
        self.views.len() >= u32::MAX
    }

    /// Whether all callback numbers are in use.
    pub open spec fn callbacks_full(self) -> bool {
        self.callbacks_issued >= u32::MAX
    }

    /// The renderer after it has made one more request of the host.
    pub open spec fn asked(self, request: HostRequest) -> RendererModel {
        RendererModel { requests: self.requests.push(request), ..self }
    }

    /// The renderer after it has recorded the view of a new element.
    pub open spec fn with_view(self, handle: ViewHandle) -> RendererModel {
        RendererModel { views: self.views.push(handle), ..self }
    }

    /// The renderer after it has registered one more callback.
    pub open spec fn with_callback(self, callback: Callback) -> RendererModel {
        RendererModel {
            callbacks_issued: self.callbacks_issued + 1,
            pending: self.pending.insert(self.callbacks_issued as u32, callback),
            ..self
        }
    }

    /// The renderer after the click with the given number was delivered.
    pub open spec fn delivered(self, number: u32) -> RendererModel {
        RendererModel { pending: self.pending.remove(number), ..self }
    }

    /// The outcome of creating a text or a container, for each answer of the
    /// host to the request.
    ///
    /// With all identifiers in use the host is not asked and nothing changes.
    /// Otherwise the request is made; a view that the host returns is
    /// recorded under the next identifier, a refusal is passed on.
    pub open spec fn create(self, request: HostRequest, answer: Result<ViewHandle, HostFailure>) -> (
        RendererModel,
        Result<ElementId, RenderError>,
    ) {
        if self.elements_full() {
            (self, Err(RenderError::Exhausted))
        } else {
            match answer {
                Ok(handle) => (self.asked(request).with_view(handle), Ok(self.next_element())),
                Err(failure) => (self.asked(request), Err(RenderError::Native(failure))),
            }
        }
    }

    /// The outcome of creating a button, for each answer of the host.
    ///
    /// As `create`, with the callback registered under the next callback
    /// number once the host has built the button, and that number named in
    /// the request. Identifiers and callback numbers must both be left.
    pub open spec fn create_button(
        self,
        label: Seq<char>,
        on_click: Callback,
        answer: Result<ViewHandle, HostFailure>,
    ) -> (RendererModel, Result<ElementId, RenderError>) {
        let request = HostRequest::CreateButton(label, self.callbacks_issued as u32);
        if self.elements_full() || self.callbacks_full() {
            (self, Err(RenderError::Exhausted))
        } else {
            match answer {
                Ok(handle) => (
                    self.asked(request).with_view(handle).with_callback(on_click),
                    Ok(self.next_element()),
                ),
                Err(failure) => (self.asked(request), Err(RenderError::Native(failure))),
            }
        }
    }

    /// The outcome of putting `child` under `parent`, for each answer of the
    /// host.
    ///
    /// An element that was never created is reported, the parent first, and
    /// the host is not asked. Otherwise the host is asked to attach the
    /// child's view to the parent's, and its answer decides.
    pub open spec fn add_child(self, parent: ElementId, child: ElementId, answer: Result<(), HostFailure>) -> (
        RendererModel,
        Result<(), RenderError>,
    ) {
        if !self.has(parent) {
            (self, Err(RenderError::MissingElement(parent)))
        } else if !self.has(child) {
            (self, Err(RenderError::MissingElement(child)))
        } else {
            (
                self.asked(HostRequest::AddChild(self.views[parent.0 as int], self.views[child.0 as int])),
                RenderError::host_result(answer),
            )
        }
    }

    /// The outcome of publishing the tree, for each answer of the host.
    ///
    /// Without an element 0 there is no root: that is reported and the host
    /// is not asked. Otherwise the host is asked to install the view of
    /// element 0, and its answer decides.
    pub open spec fn commit(self, answer: Result<(), HostFailure>) -> (
        RendererModel,
        Result<(), RenderError>,
    ) {
        if !self.has(ElementId(0)) {
            (self, Err(RenderError::MissingRoot))
        } else {
            (self.asked(HostRequest::Install(self.views[0])), RenderError::host_result(answer))
        }
    }

    /// The outcome of delivering the click with the given number: the
    /// renderer afterwards, and the callback that runs, if any.
    pub open spec fn deliver(self, number: u32) -> (RendererModel, Option<Callback>) {
        (self.delivered(number), CallbackRegistry::waiting(self.pending, number))
    }

    /// Whether `self` can have come from `earlier` by more operations:
    /// every element and request of `earlier` is still there, in place.
    pub open spec fn extends(self, earlier: RendererModel) -> bool {
        &&& earlier.views.is_prefix_of(self.views)
        &&& earlier.requests.is_prefix_of(self.requests)
        &&& earlier.callbacks_issued <= self.callbacks_issued
    }

    /// What extends an extension of a renderer extends that renderer.
    pub proof fn extends_transitive(self, middle: RendererModel, earlier: RendererModel)
        requires
            self.extends(middle),
            middle.extends(earlier),
        ensures
            self.extends(earlier),
    {
        assert(earlier.views =~= self.views.subrange(0, earlier.views.len() as int));
        assert(earlier.requests =~= self.requests.subrange(0, earlier.requests.len() as int));
    }
}

} // verus!
