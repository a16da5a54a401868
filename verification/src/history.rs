//! Histories of a renderer, and what holds of every history.
//!
//! A history is a list of operations, each with the answer that the host
//! gave to the request it led to. Running a history on the model gives the
//! renderer that those operations leave behind.

use vstd::prelude::*;
use crate::callbacks::Callback;
use crate::element::{ElementId, ViewHandle};
use crate::error::{HostFailure, RenderError};
use crate::model::{HostRequest, RendererModel};

verus! {

/// One operation on a renderer, with the host's answer where the host is
/// asked.
pub enum Operation {
    CreateText(Seq<char>, Result<ViewHandle, HostFailure>),
    CreateButton(Seq<char>, Callback, Result<ViewHandle, HostFailure>),
    CreateContainer(Result<ViewHandle, HostFailure>),
    AddChild(ElementId, ElementId, Result<(), HostFailure>),
    Commit(Result<(), HostFailure>),
    HandleCallback(u32),
}

impl Operation {
    /// The renderer after this operation.
    pub open spec fn apply(self, m: RendererModel) -> RendererModel {
        match self {
            Operation::CreateText(text, answer) => m.create(HostRequest::CreateText(text), answer).0,
            Operation::CreateButton(label, on_click, answer) => m.create_button(label, on_click, answer).0,
            Operation::CreateContainer(answer) => m.create(HostRequest::CreateContainer, answer).0,
            Operation::AddChild(parent, child, answer) => m.add_child(parent, child, answer).0,
            Operation::Commit(answer) => m.commit(answer).0,
            Operation::HandleCallback(number) => m.deliver(number).0,
        }
    }

    /// The identifier that this operation returns, if it creates an element.
    pub open spec fn creates(self, m: RendererModel) -> Option<ElementId> {
        match self {
            Operation::CreateText(text, answer) => returned(m.create(HostRequest::CreateText(text), answer).1),
            Operation::CreateButton(label, on_click, answer) => returned(
                m.create_button(label, on_click, answer).1,
            ),
            Operation::CreateContainer(answer) => returned(m.create(HostRequest::CreateContainer, answer).1),
            _ => None,
        }
    }
}

/// The identifier in the result of a creation, if it succeeded.
pub open spec fn returned(r: Result<ElementId, RenderError>) -> Option<ElementId> {
    match r {
        Ok(id) => Some(id),
        Err(_) => None,
    }
}

/// The renderer that a history leaves behind when it is replayed on a fresh
/// renderer.
pub open spec fn replay(history: Seq<Operation>) -> RendererModel
    decreases history.len(),
{
    if history.len() == 0 {
        RendererModel::fresh()
    } else {
        history.last().apply(replay(history.drop_last()))
    }
}

/// The identifiers that the operations of a history returned, in the order
/// in which they were returned.
pub open spec fn created(history: Seq<Operation>) -> Seq<ElementId>
    decreases history.len(),
{
    if history.len() == 0 {
        Seq::empty()
    } else {
        match history.last().creates(replay(history.drop_last())) {
            Some(id) => created(history.drop_last()).push(id),
            None => created(history.drop_last()),
        }
    }
}

/// After any history, the renderer holds one view per identifier returned,
/// the identifiers returned are 0, 1, 2 and so on, and every pending
/// callback has a number that was handed out.
pub proof fn replay_is_consistent(history: Seq<Operation>)
    ensures
        replay(history).views.len() == created(history).len(),
        replay(history).views.len() <= u32::MAX,
        replay(history).callbacks_issued <= u32::MAX,
        forall|k: int| 0 <= k < created(history).len() ==> (#[trigger] created(history)[k]).0 == k,
        forall|number: u32| #[trigger]
            replay(history).pending.contains_key(number) ==> number < replay(history).callbacks_issued,
    decreases history.len(),
{
    if history.len() > 0 {
        replay_is_consistent(history.drop_last());
    }
}

/// Identifiers are unique and strictly increasing from 0: whatever the
/// operations and whatever the host answers, the first element created gets
/// 0, and each element created later gets a higher identifier than each
/// created before it.
pub proof fn ids_increase_from_zero(history: Seq<Operation>)
    ensures
        created(history).len() > 0 ==> created(history)[0] == ElementId(0),
        forall|i: int, j: int|
            0 <= i < j < created(history).len() ==> (#[trigger] created(history)[i]).0 < (
            #[trigger] created(history)[j]).0,
        forall|i: int, j: int|
            0 <= i < created(history).len() && 0 <= j < created(history).len() && i != j
                ==> #[trigger] created(history)[i] != #[trigger] created(history)[j],
{
    replay_is_consistent(history);
}

/// An element is known to the renderer exactly if an earlier operation
/// returned its identifier.
pub proof fn known_iff_created(history: Seq<Operation>, id: ElementId)
    ensures
        replay(history).has(id) <==> created(history).contains(id),
{
    replay_is_consistent(history);
    let ids = created(history);
    if replay(history).has(id) {
        assert(ids[id.0 as int] == id);
    }
}

/// `add_child` succeeds exactly if both identifiers were returned by an
/// earlier creation and the host accepts the request. If one of them was
/// not, it fails with `MissingElement`, asks nothing of the host and
/// changes nothing.
pub proof fn add_child_needs_both(
    history: Seq<Operation>,
    parent: ElementId,
    child: ElementId,
    answer: Result<(), HostFailure>,
)
    ensures
        ({
            let both = created(history).contains(parent) && created(history).contains(child);
            let (after, r) = replay(history).add_child(parent, child, answer);
            &&& r is Ok <==> both && answer is Ok
            &&& !both <==> (r matches Err(e) && e is MissingElement)
            &&& !both ==> after == replay(history)
        }),
{
    known_iff_created(history, parent);
    known_iff_created(history, child);
}

/// `commit` succeeds exactly if element 0 was created and the host accepts
/// the request. If there is no element 0 it fails with `MissingRoot`, asks
/// nothing of the host and changes nothing.
pub proof fn commit_needs_root(history: Seq<Operation>, answer: Result<(), HostFailure>)
    ensures
        ({
            let rooted = created(history).contains(ElementId(0));
            let (after, r) = replay(history).commit(answer);
            &&& r is Ok <==> rooted && answer is Ok
            &&& !rooted <==> r == Err::<(), RenderError>(RenderError::MissingRoot)
            &&& !rooted ==> after == replay(history)
        }),
{
    known_iff_created(history, ElementId(0));
}

/// A callback runs at most once: after the click with some number has been
/// delivered, delivering it again runs nothing and changes nothing.
pub proof fn second_delivery_is_idle(m: RendererModel, number: u32)
    ensures
        m.deliver(number).0.deliver(number) == (m.deliver(number).0, None::<Callback>),
{
    assert(m.pending.remove(number).remove(number) =~= m.pending.remove(number));
}

/// The callback of a button runs exactly once: once the button has been
/// created, the first delivery of its click runs the callback that the
/// button was created with, and a second one runs nothing.
pub proof fn button_click_runs_once(
    history: Seq<Operation>,
    label: Seq<char>,
    on_click: Callback,
    handle: ViewHandle,
)
    requires
        !replay(history).elements_full(),
        !replay(history).callbacks_full(),
    ensures
        ({
            let number = replay(history).callbacks_issued as u32;
            let (with_button, r) = replay(history).create_button(label, on_click, Ok(handle));
            let (clicked, first) = with_button.deliver(number);
            let (again, second) = clicked.deliver(number);
            &&& r is Ok
            &&& !replay(history).pending.contains_key(number)
            &&& first == Some(on_click)
            &&& second == None::<Callback>
            &&& again == clicked
        }),
{
    replay_is_consistent(history);
    let number = replay(history).callbacks_issued as u32;
    let with_button = replay(history).create_button(label, on_click, Ok(handle)).0;
    second_delivery_is_idle(with_button, number);
}

/// Delivering one click leaves the other callbacks waiting: a callback
/// under another number is still pending afterwards, and is the same.
pub proof fn delivery_spares_the_others(m: RendererModel, number: u32, other: u32)
    requires
        other != number,
    ensures
        m.deliver(number).0.deliver(other).1 == m.deliver(other).1,
{
}

} // verus!
