//! The two contracts of the layer: what a renderer offers, and what a
//! component does with one. Beside them, the native host that a renderer
//! drives.

use vstd::prelude::*;
use crate::callbacks::Callback;
use crate::element::{ElementId, ViewHandle};
use crate::error::{HostFailure, RenderError};
use crate::model::{HostRequest, RendererModel};

verus! {

/// The native side: builds widgets and puts them on screen.
///
/// Nothing is assumed of a host. Whatever it answers, the renderer that
/// drives it keeps its own books in order. A host may promise more of its
/// own operations than this trait asks; a renderer states of each of its
/// operations which operation of the host it called and with what, so such
/// promises hold of the renderer too.
pub trait NativeHost {
    /// Builds a widget that displays `text`.
    fn create_text(&mut self, text: &str) -> Result<ViewHandle, HostFailure>;

    /// Builds a clickable widget labelled `label`. The host reports its
    /// click under the number `callback`.
    fn create_button(&mut self, label: &str, callback: u32) -> Result<ViewHandle, HostFailure>;

    /// Builds a widget that groups others.
    fn create_container(&mut self) -> Result<ViewHandle, HostFailure>;

    /// Puts the widget `child` under the widget `parent`.
    fn add_child(&mut self, parent: ViewHandle, child: ViewHandle) -> Result<(), HostFailure>;

    /// Makes the widget `root` the active user interface.
    fn install(&mut self, root: ViewHandle) -> Result<(), HostFailure>;
}

/// Creates elements, links them into a tree and publishes the tree.
///
/// Each operation is specified by the function of the same name on the
/// model: for some answer of the host, the result and the renderer afterwards
/// are what that function gives for the answer.
pub trait PlatformRenderer {
    /// The renderer as its contracts see it.
    spec fn model(&self) -> RendererModel;

    /// Creates an element that displays `text`.
    fn create_text(&mut self, text: &str) -> (r: Result<ElementId, RenderError>)
        ensures
            exists|answer: Result<ViewHandle, HostFailure>|
                (final(self).model(), r) == #[trigger] old(self).model().create(
                    HostRequest::CreateText(text@),
                    answer,
                ),
    ;

    /// Creates a button labelled `label` that runs `on_click` when the host
    /// reports its click.
    fn create_button(&mut self, label: &str, on_click: Callback) -> (r: Result<ElementId, RenderError>)
        ensures
            exists|answer: Result<ViewHandle, HostFailure>|
                (final(self).model(), r) == #[trigger] old(self).model().create_button(
                    label@,
                    on_click,
                    answer,
                ),
    ;

    /// Creates an element that groups others.
    fn create_container(&mut self) -> (r: Result<ElementId, RenderError>)
        ensures
            exists|answer: Result<ViewHandle, HostFailure>|
                (final(self).model(), r) == #[trigger] old(self).model().create(
                    HostRequest::CreateContainer,
                    answer,
                ),
    ;

    /// Puts the element `child` under the element `parent`.
    fn add_child(&mut self, parent: ElementId, child: ElementId) -> (r: Result<(), RenderError>)
        ensures
            exists|answer: Result<(), HostFailure>|
                (final(self).model(), r) == #[trigger] old(self).model().add_child(parent, child, answer),
    ;

    /// Publishes the tree under element 0 as the active user interface.
    fn commit(&mut self) -> (r: Result<(), RenderError>)
        ensures
            exists|answer: Result<(), HostFailure>|
                (final(self).model(), r) == #[trigger] old(self).model().commit(answer),
    ;
}

/// A node of the user interface that can put itself into any renderer.
pub trait Component {
    /// Creates this component's elements in `renderer` and returns the one
    /// that stands for the component.
    ///
    /// The element returned is new, and what the renderer held before is
    /// still there. A failure is never a missing element: a component
    /// refers only to elements that it has just created.
    fn render<R: PlatformRenderer>(&self, renderer: &mut R) -> (r: Result<ElementId, RenderError>)
        ensures
            final(renderer).model().extends(old(renderer).model()),
            match r {
                Ok(id) => final(renderer).model().has(id) && !old(renderer).model().has(id),
                Err(e) => !e.is_lookup(),
            },
    ;
}

} // verus!
