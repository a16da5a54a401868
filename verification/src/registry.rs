//! The registry of native views: which widget stands behind which element.

use vstd::prelude::*;
use ahash::AHashMap;
use crate::element::{ElementId, ViewHandle};
use crate::error::{HostFailure, RenderError};
use crate::tables::{handle_entries, handles_get, handles_insert, handles_new};

verus! {

/// The allocator's counter together with the table it fills.
struct Slots {
    next_id: u32,
    views: AHashMap<u32, u64>,
}

impl Slots {
    /// The table holds exactly the identifiers below the counter.
    spec fn consistent(self) -> bool {
        forall|k: u32| handle_entries(self.views).contains_key(k) <==> k < self.next_id
    }

    /// The handles in order of their identifiers.
    spec fn handles(self) -> Seq<ViewHandle> {
        Seq::new(self.next_id as nat, |i: int| ViewHandle(handle_entries(self.views)[i as u32]))
    }

    fn append(&mut self, handle: ViewHandle) -> (id: ElementId)
        requires
            old(self).consistent(),
            old(self).next_id < u32::MAX,
        ensures
            final(self).consistent(),
            id.0 == old(self).next_id,
            final(self).handles() == old(self).handles().push(handle),
        no_unwind
    {
        let id: u32 = self.next_id;
        let _previous = handles_insert(&mut self.views, id, handle.0);
        self.next_id = id + 1;
        assert(self.handles() =~= old(self).handles().push(handle));
        ElementId(id)
    }
}

/// Maps every element created so far to the native view behind it, and hands
/// out the identifiers.
///
/// As a sequence, the registry is the list of view handles in order of
/// creation: the element with identifier `i` is the one at index `i`.
pub struct ViewRegistry {
    slots: Slots,
}

impl View for ViewRegistry {
    type V = Seq<ViewHandle>;

    closed spec fn view(&self) -> Seq<ViewHandle> {
        self.slots.handles()
    }
}

impl ViewRegistry {
    #[verifier::type_invariant]
    spec fn inv(self) -> bool {
        self.slots.consistent()
    }

    /// An empty registry: the first element registered gets identifier 0.
    pub fn new() -> (registry: ViewRegistry)
        ensures
            registry@ == Seq::<ViewHandle>::empty(),
    {
        let registry = ViewRegistry { slots: Slots { next_id: 0, views: handles_new() } };
        assert(registry@ =~= Seq::<ViewHandle>::empty());
        registry
    }

    /// The number of elements registered so far.
    pub fn len(&self) -> (n: u32)
        ensures
            n == self@.len(),
    {
        self.slots.next_id
    }

    /// Whether every identifier has been handed out.
    pub fn is_full(&self) -> (full: bool)
        ensures
            full == (self@.len() >= u32::MAX),
    {
        self.slots.next_id == u32::MAX
    }

    /// Registers a view under the next free identifier.
    ///
    /// Fails with `Exhausted`, and changes nothing, exactly when all
    /// identifiers are in use.
    pub fn register(&mut self, handle: ViewHandle) -> (r: Result<ElementId, RenderError>)
        ensures
            old(self)@.len() < u32::MAX ==> r == Ok::<ElementId, RenderError>(
                ElementId(old(self)@.len() as u32),
            ) && final(self)@ == old(self)@.push(handle),
            old(self)@.len() >= u32::MAX ==> r == Err::<ElementId, RenderError>(
                RenderError::Exhausted,
            ) && final(self)@ == old(self)@,
    {
        proof {
            use_type_invariant(&*self);
        }
        if self.slots.next_id == u32::MAX {
            return Err(RenderError::Exhausted);
        }
        Ok(self.slots.append(handle))
    }

    /// Records what the host answered to a request for a new widget: a view
    /// is registered as `register` does, a refusal is passed on as `Native`
    /// and changes nothing.
    pub fn record(&mut self, answer: Result<ViewHandle, HostFailure>) -> (r: Result<ElementId, RenderError>)
        ensures
            (final(self)@, r) == Self::recorded(old(self)@, answer),
    {
        match answer {
            Ok(handle) => self.register(handle),
            Err(failure) => Err(RenderError::Native(failure)),
        }
    }

    /// The registry that held `views` and the result, after recording
    /// `answer`.
    pub open spec fn recorded(views: Seq<ViewHandle>, answer: Result<ViewHandle, HostFailure>) -> (
        Seq<ViewHandle>,
        Result<ElementId, RenderError>,
    ) {
        match answer {
            Ok(handle) => if views.len() < u32::MAX {
                (views.push(handle), Ok(ElementId(views.len() as u32)))
            } else {
                (views, Err(RenderError::Exhausted))
            },
            Err(failure) => (views, Err(RenderError::Native(failure))),
        }
    }

    /// The view behind an element, or `MissingElement` naming the element if
    /// this registry never issued it.
    pub fn lookup(&self, id: ElementId) -> (r: Result<ViewHandle, RenderError>)
        ensures
            r == Self::found(self@, id),
    {
        proof {
            use_type_invariant(self);
        }
        match handles_get(&self.slots.views, id.0) {
            Some(handle) => Ok(ViewHandle(handle)),
            None => Err(RenderError::MissingElement(id)),
        }
    }

    /// What looking up `id` gives in a registry that holds `views`.
    pub open spec fn found(views: Seq<ViewHandle>, id: ElementId) -> Result<ViewHandle, RenderError> {
        if id.0 < views.len() {
            Ok(views[id.0 as int])
        } else {
            Err(RenderError::MissingElement(id))
        }
    }

    /// The view of the root element, which is element 0, or `MissingRoot` if
    /// nothing has been registered.
    pub fn root(&self) -> (r: Result<ViewHandle, RenderError>)
        ensures
            r == Self::root_of(self@),
    {
        proof {
            use_type_invariant(self);
        }
        match handles_get(&self.slots.views, 0) {
            Some(handle) => Ok(ViewHandle(handle)),
            None => Err(RenderError::MissingRoot),
        }
    }

    /// The root view of a registry that holds `views`.
    pub open spec fn root_of(views: Seq<ViewHandle>) -> Result<ViewHandle, RenderError> {
        if views.len() > 0 {
            Ok(views[0])
        } else {
            Err(RenderError::MissingRoot)
        }
    }
}

} // verus!
