//! The text component.

use vstd::prelude::*;
use crate::element::{ElementId, ViewHandle};
use crate::error::{HostFailure, RenderError};
use crate::model::HostRequest;
use crate::platform::{Component, PlatformRenderer};

verus! {

/// A piece of text to display.
pub struct Text {
    pub content: String,
}

impl Text {
    /// A text component that displays `content`.
    pub fn new(content: &str) -> (text: Text)
        ensures
            text.content@ == content@,
    {
        Text { content: content.to_owned() }
    }
}

impl Component for Text {
    /// Creates one text element that displays the content, and nothing else.
    fn render<R: PlatformRenderer>(&self, renderer: &mut R) -> (r: Result<ElementId, RenderError>)
        ensures
            exists|answer: Result<ViewHandle, HostFailure>|
                (final(renderer).model(), r) == #[trigger] old(renderer).model().create(
                    HostRequest::CreateText(self.content@),
                    answer,
                ),
    {
        renderer.create_text(self.content.as_str())
    }
}

} // verus!
