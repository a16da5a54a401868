//! The application shell: the screen it starts with and how it reacts to
//! what the platform reports.

use vstd::prelude::*;
use crate::element::{ElementId, ViewHandle};
use crate::callbacks::Callback;
use crate::error::{HostFailure, RenderError};
use crate::model::{HostRequest, RendererModel};
use crate::platform::{Component, PlatformRenderer};
use crate::text::Text;

verus! {

/// What the platform reports to a running application.
#[derive(Debug, PartialEq, Eq, Copy, Clone, Structural)]
pub enum LifecycleEvent {
    /// The activity is being destroyed.
    Destroy,
    /// Any other event of the main loop.
    Main,
    /// Nothing happened within the polling interval.
    Timeout,
    /// The loop was woken up.
    Wake,
    /// An event of a kind that the application does not know.
    Other,
}

/// What the application does about an event.
#[derive(Debug, PartialEq, Eq, Copy, Clone, Structural)]
pub enum Reaction {
    /// Note the event and end the process.
    Exit,
    /// Note the event and go on.
    Report,
    /// Go on.
    Ignore,
}

/// What the host answers while a screen of lines is shown: to the request
/// for the container, to the two requests for each line (its text, and
/// putting it under the container), and to the installation.
pub struct ScreenAnswers {
    pub container: Result<ViewHandle, HostFailure>,
    pub lines: Seq<(Result<ViewHandle, HostFailure>, Result<(), HostFailure>)>,
    pub install: Result<(), HostFailure>,
}

/// What the host answers while the welcome screen is shown, request by
/// request.
pub struct WelcomeAnswers {
    pub container: Result<ViewHandle, HostFailure>,
    pub greeting: Result<ViewHandle, HostFailure>,
    pub button: Result<ViewHandle, HostFailure>,
    pub first: Result<(), HostFailure>,
    pub second: Result<(), HostFailure>,
    pub install: Result<(), HostFailure>,
}

/// The application.
pub struct App;

impl App {
    /// The reaction to each event: the application ends when its activity
    /// is destroyed, notes the events it knows, and ignores the rest.
    pub open spec fn reaction_to(event: LifecycleEvent) -> Reaction {
        match event {
            LifecycleEvent::Destroy => Reaction::Exit,
            LifecycleEvent::Main | LifecycleEvent::Timeout | LifecycleEvent::Wake => Reaction::Report,
            LifecycleEvent::Other => Reaction::Ignore,
        }
    }

    /// Decides what to do about one event of the main loop.
    pub fn react(event: LifecycleEvent) -> (reaction: Reaction)
        ensures
            reaction == Self::reaction_to(event),
    {
        match event {
            LifecycleEvent::Destroy => Reaction::Exit,
            LifecycleEvent::Main => Reaction::Report,
            LifecycleEvent::Timeout => Reaction::Report,
            LifecycleEvent::Wake => Reaction::Report,
            LifecycleEvent::Other => Reaction::Ignore,
        }
    }

    /// The texts of `lines` as character sequences.
    pub open spec fn texts(lines: Seq<&str>) -> Seq<Seq<char>> {
        Seq::new(lines.len(), |i: int| lines[i]@)
    }

    /// The requests that putting `texts` under a container makes, one text
    /// after the other. The container is element `base` and the texts are
    /// the elements after it; `views` are the native views of them all.
    pub open spec fn line_requests(views: Seq<ViewHandle>, base: int, texts: Seq<Seq<char>>) -> Seq<HostRequest>
        decreases texts.len(),
    {
        if texts.len() == 0 {
            Seq::empty()
        } else {
            Self::line_requests(views, base, texts.drop_last()).push(
                HostRequest::CreateText(texts.last()),
            ).push(HostRequest::AddChild(views[base], views[base + texts.len()]))
        }
    }

    /// The requests that showing `texts` makes in all: the container, the
    /// texts under it, and the installation of element 0.
    pub open spec fn screen_requests(views: Seq<ViewHandle>, base: int, texts: Seq<Seq<char>>) -> Seq<HostRequest> {
        (seq![HostRequest::CreateContainer] + Self::line_requests(views, base, texts)).push(
            HostRequest::Install(views[0]),
        )
    }

    /// The requests for a list of texts use no view beyond those of the
    /// container and the texts.
    proof fn line_requests_stable(shorter: Seq<ViewHandle>, longer: Seq<ViewHandle>, base: int, texts: Seq<Seq<char>>)
        requires
            0 <= base,
            base + texts.len() < shorter.len(),
            shorter.is_prefix_of(longer),
        ensures
            Self::line_requests(shorter, base, texts) == Self::line_requests(longer, base, texts),
        decreases texts.len(),
    {
        if texts.len() > 0 {
            Self::line_requests_stable(shorter, longer, base, texts.drop_last());
        }
    }

    /// The outcome of putting `texts` under `container`, one after the
    /// other, for each list of answers of the host: a text is created and
    /// then put under the container, and the first failure ends the work.
    pub open spec fn lines_outcome(
        m: RendererModel,
        container: ElementId,
        texts: Seq<Seq<char>>,
        answers: Seq<(Result<ViewHandle, HostFailure>, Result<(), HostFailure>)>,
    ) -> (RendererModel, Result<(), RenderError>)
        decreases texts.len(),
    {
        if texts.len() == 0 {
            (m, Ok(()))
        } else {
            let (earlier, done) = Self::lines_outcome(m, container, texts.drop_last(), answers.drop_last());
            match done {
                Err(e) => (earlier, Err(e)),
                Ok(_) => {
                    let (with_text, created) = earlier.create(
                        HostRequest::CreateText(texts.last()),
                        answers.last().0,
                    );
                    match created {
                        Err(e) => (with_text, Err(e)),
                        Ok(id) => with_text.add_child(container, id, answers.last().1),
                    }
                },
            }
        }
    }

    /// The outcome of showing `texts`, for each list of answers of the
    /// host: the container is created, the texts are put under it, and the
    /// tree is published; the first failure ends the work and is the
    /// result.
    pub open spec fn screen_outcome(m: RendererModel, texts: Seq<Seq<char>>, answers: ScreenAnswers) -> (
        RendererModel,
        Result<(), RenderError>,
    ) {
        let (with_container, created) = m.create(HostRequest::CreateContainer, answers.container);
        match created {
            Err(e) => (with_container, Err(e)),
            Ok(container) => {
                let (with_lines, done) = Self::lines_outcome(with_container, container, texts, answers.lines);
                match done {
                    Err(e) => (with_lines, Err(e)),
                    Ok(_) => with_lines.commit(answers.install),
                }
            },
        }
    }

    /// Once a line has failed, the lines after it change nothing.
    proof fn failure_ends_lines(
        m: RendererModel,
        container: ElementId,
        texts: Seq<Seq<char>>,
        answers: Seq<(Result<ViewHandle, HostFailure>, Result<(), HostFailure>)>,
        k: int,
    )
        requires
            0 <= k <= texts.len(),
            answers.len() == texts.len(),
            Self::lines_outcome(m, container, texts.take(k), answers.take(k)).1 is Err,
        ensures
            Self::lines_outcome(m, container, texts, answers) == Self::lines_outcome(
                m,
                container,
                texts.take(k),
                answers.take(k),
            ),
        decreases texts.len() - k,
    {
        if k < texts.len() {
            assert(texts.take(k + 1).drop_last() =~= texts.take(k));
            assert(answers.take(k + 1).drop_last() =~= answers.take(k));
            Self::failure_ends_lines(m, container, texts, answers, k + 1);
        } else {
            assert(texts.take(k) =~= texts);
            assert(answers.take(k) =~= answers);
        }
    }

    /// Answers for `n` lines that the host is never asked about.
    pub open spec fn idle_answers(n: nat) -> Seq<(Result<ViewHandle, HostFailure>, Result<(), HostFailure>)> {
        Seq::new(n, |j: int| (Ok::<ViewHandle, HostFailure>(ViewHandle(0)), Ok::<(), HostFailure>(())))
    }

    /// Shows the given lines of text: creates a container, puts one text
    /// element per line under it, in order, and publishes the tree.
    ///
    /// For some answers of the host, the result and the renderer afterwards
    /// are what `screen_outcome` gives for them: the first failure ends the
    /// work and is returned, and the work succeeds if nothing fails. No
    /// failure is a missing element, and identifiers run out only if the
    /// renderer cannot number one element more per line besides the
    /// container.
    pub fn show_lines<R: PlatformRenderer>(renderer: &mut R, lines: &[&str]) -> (r: Result<(), RenderError>)
        ensures
            exists|answers: ScreenAnswers|
                answers.lines.len() == lines@.len() && (final(renderer).model(), r)
                    == #[trigger] Self::screen_outcome(old(renderer).model(), Self::texts(lines@), answers),
            final(renderer).model().extends(old(renderer).model()),
            final(renderer).model().pending == old(renderer).model().pending,
            final(renderer).model().callbacks_issued == old(renderer).model().callbacks_issued,
            r is Ok ==> {
                &&& final(renderer).model().views.len() == old(renderer).model().views.len() + 1 + lines@.len()
                &&& final(renderer).model().requests == old(renderer).model().requests + Self::screen_requests(
                    final(renderer).model().views,
                    old(renderer).model().views.len() as int,
                    Self::texts(lines@),
                )
            },
            r matches Err(e) ==> (e is Native || e is Exhausted),
            r == Err::<(), RenderError>(RenderError::Exhausted) ==> old(renderer).model().views.len() + 1
                + lines@.len() > u32::MAX,
            old(renderer).model().views.len() + 1 + lines@.len() > u32::MAX ==> r is Err,
    {
        let ghost before = renderer.model();
        let ghost base = before.views.len() as int;
        let ghost texts = Self::texts(lines@);
        let ghost count = lines@.len();
        let made = renderer.create_container();
        let ghost with_container = renderer.model();
        let ghost container_answer = choose|answer: Result<ViewHandle, HostFailure>|
            (with_container, made) == #[trigger] before.create(HostRequest::CreateContainer, answer);
        let container = match made {
            Ok(id) => id,
            Err(e) => {
                proof {
                    let answers = ScreenAnswers {
                        container: container_answer,
                        lines: Self::idle_answers(count),
                        install: Ok(()),
                    };
                    assert((renderer.model(), Err::<(), RenderError>(e)) == Self::screen_outcome(
                        before,
                        texts,
                        answers,
                    ));
                }
                return Err(e);
            },
        };
        let ghost mut answers: Seq<(Result<ViewHandle, HostFailure>, Result<(), HostFailure>)> = Seq::empty();
        let mut i: usize = 0;
        while i < lines.len()
            invariant
                0 <= i <= lines@.len(),
                count == lines@.len(),
                before == old(renderer).model(),
                base == before.views.len(),
                texts == Self::texts(lines@),
                container.0 == base,
                (with_container, Ok::<ElementId, RenderError>(container)) == before.create(
                    HostRequest::CreateContainer,
                    container_answer,
                ),
                answers.len() == i,
                Self::lines_outcome(with_container, container, texts.take(i as int), answers) == (
                    renderer.model(),
                    Ok::<(), RenderError>(()),
                ),
                renderer.model().extends(before),
                renderer.model().pending == before.pending,
                renderer.model().callbacks_issued == before.callbacks_issued,
                renderer.model().views.len() == base + 1 + i,
                renderer.model().views.len() <= u32::MAX,
                renderer.model().requests == (before.requests.push(HostRequest::CreateContainer)
                    + Self::line_requests(renderer.model().views, base, texts.take(i as int))),
            decreases lines@.len() - i,
        {
            let ghost earlier = renderer.model();
            let ghost done = texts.take(i as int);
            let ghost next = texts.take(i as int + 1);
            let text = Text::new(lines[i]);
            let rendered = text.render(renderer);
            let ghost created = renderer.model();
            let ghost text_answer = choose|answer: Result<ViewHandle, HostFailure>|
                (created, rendered) == #[trigger] earlier.create(HostRequest::CreateText(text.content@), answer);
            proof {
                created.extends_transitive(earlier, before);
                assert(next.drop_last() =~= done);
                assert(next.last() == lines@[i as int]@);
            }
            let id = match rendered {
                Ok(id) => id,
                Err(e) => {
                    proof {
                        let step = answers.push((text_answer, Ok::<(), HostFailure>(())));
                        let full = step + Self::idle_answers((count - i - 1) as nat);
                        assert(step.drop_last() =~= answers);
                        assert(full.take(i as int + 1) =~= step);
                        assert(Self::lines_outcome(with_container, container, next, step) == (
                            created,
                            Err::<(), RenderError>(e),
                        ));
                        Self::failure_ends_lines(with_container, container, texts, full, i as int + 1);
                        let all = ScreenAnswers { container: container_answer, lines: full, install: Ok(()) };
                        assert((renderer.model(), Err::<(), RenderError>(e)) == Self::screen_outcome(
                            before,
                            texts,
                            all,
                        ));
                    }
                    return Err(e);
                },
            };
            let attached = renderer.add_child(container, id);
            let ghost add_answer = choose|answer: Result<(), HostFailure>|
                (renderer.model(), attached) == #[trigger] created.add_child(container, id, answer);
            proof {
                renderer.model().extends_transitive(created, before);
                let step = answers.push((text_answer, add_answer));
                assert(step.drop_last() =~= answers);
                assert(Self::lines_outcome(with_container, container, next, step) == (renderer.model(), attached));
            }
            match attached {
                Ok(()) => {},
                Err(e) => {
                    proof {
                        let step = answers.push((text_answer, add_answer));
                        let full = step + Self::idle_answers((count - i - 1) as nat);
                        assert(full.take(i as int + 1) =~= step);
                        Self::failure_ends_lines(with_container, container, texts, full, i as int + 1);
                        let all = ScreenAnswers { container: container_answer, lines: full, install: Ok(()) };
                        assert((renderer.model(), Err::<(), RenderError>(e)) == Self::screen_outcome(
                            before,
                            texts,
                            all,
                        ));
                    }
                    return Err(e);
                },
            }
            proof {
                let now = renderer.model();
                Self::line_requests_stable(earlier.views, now.views, base, done);
                assert(now.requests =~= before.requests.push(HostRequest::CreateContainer)
                    + Self::line_requests(now.views, base, next));
                answers = answers.push((text_answer, add_answer));
            }
            i += 1;
        }
        proof {
            assert(texts.take(i as int) =~= texts);
        }
        let ghost with_lines = renderer.model();
        let r = renderer.commit();
        proof {
            let now = renderer.model();
            let install_answer = choose|answer: Result<(), HostFailure>|
                (now, r) == #[trigger] with_lines.commit(answer);
            let all = ScreenAnswers { container: container_answer, lines: answers, install: install_answer };
            assert((now, r) == Self::screen_outcome(before, texts, all));
            assert(r is Ok ==> now.requests =~= before.requests + Self::screen_requests(now.views, base, texts));
        }
        r
    }

    /// The lines of the start screen.
    pub open spec fn start_lines() -> Seq<Seq<char>> {
        seq!["Hello"@, "from"@, "Rust-native"@]
    }

    /// Shows the start screen: the lines "Hello", "from" and "Rust-native"
    /// in a container, published as the user interface.
    ///
    /// For some answers of the host, the result and the renderer afterwards
    /// are what `screen_outcome` gives for these three lines.
    pub fn main<R: PlatformRenderer>(renderer: &mut R) -> (r: Result<(), RenderError>)
        ensures
            exists|answers: ScreenAnswers|
                answers.lines.len() == 3 && (final(renderer).model(), r) == #[trigger] Self::screen_outcome(
                    old(renderer).model(),
                    Self::start_lines(),
                    answers,
                ),
            final(renderer).model().extends(old(renderer).model()),
            r is Ok ==> {
                &&& final(renderer).model().views.len() == old(renderer).model().views.len() + 4
                &&& final(renderer).model().requests == old(renderer).model().requests + Self::screen_requests(
                    final(renderer).model().views,
                    old(renderer).model().views.len() as int,
                    Self::start_lines(),
                )
            },
            r matches Err(e) ==> (e is Native || e is Exhausted),
            r == Err::<(), RenderError>(RenderError::Exhausted) ==> old(renderer).model().views.len() + 4
                > u32::MAX,
            old(renderer).model().views.len() + 4 > u32::MAX ==> r is Err,
    {
        let lines: [&str; 3] = ["Hello", "from", "Rust-native"];
        proof {
            assert(Self::texts(lines@) =~= Self::start_lines());
        }
        Self::show_lines(renderer, lines.as_slice())
    }

    /// The requests that showing the welcome screen makes: the container,
    /// the greeting, the button with its callback number, both put under
    /// the container, and the installation of element 0.
    pub open spec fn welcome_requests(views: Seq<ViewHandle>, base: int, callback: u32) -> Seq<HostRequest> {
        seq![
            HostRequest::CreateContainer,
            HostRequest::CreateText("Welcome to Rust+iOS"@),
            HostRequest::CreateButton("Click"@, callback),
            HostRequest::AddChild(views[base], views[base + 1]),
            HostRequest::AddChild(views[base], views[base + 2]),
            HostRequest::Install(views[0]),
        ]
    }

    /// The outcome of showing the welcome screen, for each list of answers
    /// of the host: the container, the greeting and the button are created,
    /// the greeting and the button are put under the container, and the
    /// tree is published; the first failure ends the work and is the
    /// result.
    pub open spec fn welcome_outcome(m: RendererModel, on_click: Callback, answers: WelcomeAnswers) -> (
        RendererModel,
        Result<(), RenderError>,
    ) {
        let (with_root, root) = m.create(HostRequest::CreateContainer, answers.container);
        match root {
            Err(e) => (with_root, Err(e)),
            Ok(root) => {
                let (with_greeting, greeting) = with_root.create(
                    HostRequest::CreateText("Welcome to Rust+iOS"@),
                    answers.greeting,
                );
                match greeting {
                    Err(e) => (with_greeting, Err(e)),
                    Ok(greeting) => {
                        let (with_button, button) = with_greeting.create_button("Click"@, on_click, answers.button);
                        match button {
                            Err(e) => (with_button, Err(e)),
                            Ok(button) => {
                                let (with_first, first) = with_button.add_child(root, greeting, answers.first);
                                match first {
                                    Err(e) => (with_first, Err(e)),
                                    Ok(_) => {
                                        let (with_second, second) = with_first.add_child(
                                            root,
                                            button,
                                            answers.second,
                                        );
                                        match second {
                                            Err(e) => (with_second, Err(e)),
                                            Ok(_) => with_second.commit(answers.install),
                                        }
                                    },
                                }
                            },
                        }
                    },
                }
            },
        }
    }

    /// Shows the welcome screen: a greeting and a button labelled "Click"
    /// in a container, published as the user interface. A click on the
    /// button runs `on_click`.
    ///
    /// For some answers of the host, the result and the renderer afterwards
    /// are what `welcome_outcome` gives for them: the first failure ends
    /// the work and is returned, and the work succeeds if nothing fails. No
    /// failure is a missing element, and identifiers run out only if the
    /// renderer cannot number three elements and one callback more.
    pub fn welcome<R: PlatformRenderer>(renderer: &mut R, on_click: Callback) -> (r: Result<(), RenderError>)
        ensures
            exists|answers: WelcomeAnswers|
                (final(renderer).model(), r) == #[trigger] Self::welcome_outcome(
                    old(renderer).model(),
                    on_click,
                    answers,
                ),
            final(renderer).model().extends(old(renderer).model()),
            r is Ok ==> {
                &&& final(renderer).model().views.len() == old(renderer).model().views.len() + 3
                &&& final(renderer).model().callbacks_issued == old(renderer).model().callbacks_issued + 1
                &&& final(renderer).model().pending == old(renderer).model().pending.insert(
                    old(renderer).model().callbacks_issued as u32,
                    on_click,
                )
                &&& final(renderer).model().requests == old(renderer).model().requests + Self::welcome_requests(
                    final(renderer).model().views,
                    old(renderer).model().views.len() as int,
                    old(renderer).model().callbacks_issued as u32,
                )
            },
            r matches Err(e) ==> (e is Native || e is Exhausted),
            r == Err::<(), RenderError>(RenderError::Exhausted) ==> (old(renderer).model().views.len() + 3
                > u32::MAX || old(renderer).model().callbacks_full()),
            (old(renderer).model().views.len() + 3 > u32::MAX || old(renderer).model().callbacks_full())
                ==> r is Err,
    {
        let ghost before = renderer.model();
        let ghost idle = WelcomeAnswers {
            container: Ok(ViewHandle(0)),
            greeting: Ok(ViewHandle(0)),
            button: Ok(ViewHandle(0)),
            first: Ok(()),
            second: Ok(()),
            install: Ok(()),
        };
        let made = renderer.create_container();
        let ghost with_root = renderer.model();
        let ghost container = choose|answer: Result<ViewHandle, HostFailure>|
            (with_root, made) == #[trigger] before.create(HostRequest::CreateContainer, answer);
        let root = match made {
            Ok(id) => id,
            Err(e) => {
                proof {
                    let answers = WelcomeAnswers { container, ..idle };
                    assert((with_root, Err::<(), RenderError>(e)) == Self::welcome_outcome(
                        before,
                        on_click,
                        answers,
                    ));
                }
                return Err(e);
            },
        };
        let made = renderer.create_text("Welcome to Rust+iOS");
        let ghost with_text = renderer.model();
        let ghost greeting = choose|answer: Result<ViewHandle, HostFailure>|
            (with_text, made) == #[trigger] with_root.create(
                HostRequest::CreateText("Welcome to Rust+iOS"@),
                answer,
            );
        proof {
            with_text.extends_transitive(with_root, before);
        }
        let text = match made {
            Ok(id) => id,
            Err(e) => {
                proof {
                    let answers = WelcomeAnswers { container, greeting, ..idle };
                    assert((with_text, Err::<(), RenderError>(e)) == Self::welcome_outcome(
                        before,
                        on_click,
                        answers,
                    ));
                }
                return Err(e);
            },
        };
        let made = renderer.create_button("Click", on_click);
        let ghost with_button = renderer.model();
        let ghost button_answer = choose|answer: Result<ViewHandle, HostFailure>|
            (with_button, made) == #[trigger] with_text.create_button("Click"@, on_click, answer);
        proof {
            with_button.extends_transitive(with_text, before);
        }
        let button = match made {
            Ok(id) => id,
            Err(e) => {
                proof {
                    let answers = WelcomeAnswers { container, greeting, button: button_answer, ..idle };
                    assert((with_button, Err::<(), RenderError>(e)) == Self::welcome_outcome(
                        before,
                        on_click,
                        answers,
                    ));
                }
                return Err(e);
            },
        };
        let added = renderer.add_child(root, text);
        let ghost with_first = renderer.model();
        let ghost first = choose|answer: Result<(), HostFailure>|
            (with_first, added) == #[trigger] with_button.add_child(root, text, answer);
        proof {
            with_first.extends_transitive(with_button, before);
        }
        match added {
            Ok(()) => {},
            Err(e) => {
                proof {
                    let answers = WelcomeAnswers { container, greeting, button: button_answer, first, ..idle };
                    assert((with_first, Err::<(), RenderError>(e)) == Self::welcome_outcome(
                        before,
                        on_click,
                        answers,
                    ));
                }
                return Err(e);
            },
        }
        let added = renderer.add_child(root, button);
        let ghost with_second = renderer.model();
        let ghost second = choose|answer: Result<(), HostFailure>|
            (with_second, added) == #[trigger] with_first.add_child(root, button, answer);
        proof {
            with_second.extends_transitive(with_first, before);
        }
        match added {
            Ok(()) => {},
            Err(e) => {
                proof {
                    let answers = WelcomeAnswers {
                        container,
                        greeting,
                        button: button_answer,
                        first,
                        second,
                        ..idle
                    };
                    assert((with_second, Err::<(), RenderError>(e)) == Self::welcome_outcome(
                        before,
                        on_click,
                        answers,
                    ));
                }
                return Err(e);
            },
        }
        let r = renderer.commit();
        proof {
            let now = renderer.model();
            let install = choose|answer: Result<(), HostFailure>| (now, r) == #[trigger] with_second.commit(answer);
            let answers = WelcomeAnswers { container, greeting, button: button_answer, first, second, install };
            assert((now, r) == Self::welcome_outcome(before, on_click, answers));
            now.extends_transitive(with_second, before);
            assert(r is Ok ==> now.requests =~= before.requests + Self::welcome_requests(
                now.views,
                before.views.len() as int,
                before.callbacks_issued as u32,
            ));
        }
        r
    }
}

} // verus!
