//! The Android host: widgets of `android.widget`, built through the Java
//! runtime.
//!
//! Each operation of the host is specified by a predicate of the same
//! meaning over the host before and after: which Java calls were made, on
//! which objects and with which values, what each returned, and what the
//! operation made of it.

use vstd::prelude::*;
use jni::errors::Error;
use jni::objects::{GlobalRef, JObject, JString, JValueGen};
use jni::JNIEnv;
use crate::callbacks::Callback;
use crate::element::{ElementId, ViewHandle};
use crate::error::{HostFailure, RenderError};
use crate::model::{HostRequest, RendererModel};
use crate::platform::{NativeHost, PlatformRenderer};
use crate::registry::ViewRegistry;
use crate::renderer::Renderer;
use crate::session::{
    called, called_static, constructed, kept_global, made_string, pass_int, pass_object, pass_string,
    passed_int, passed_object, passed_string, read_text, refusal, refused, show_global, shown_global,
    take_object, taken_object, JavaCall, JavaSession,
};

verus! {

/// The class of a text widget.
pub const TEXT_VIEW: &'static str = "android/widget/TextView";

/// The class of a container widget.
pub const LINEAR_LAYOUT: &'static str = "android/widget/LinearLayout";

/// The signature of the constructor of a widget: it takes the context.
pub const WIDGET_CONSTRUCTOR: &'static str = "(Landroid/content/Context;)V";

/// The method that gives the class loader of an activity, and its
/// signature.
pub const GET_CLASS_LOADER: &'static str = "getClassLoader";

pub const GET_CLASS_LOADER_TYPE: &'static str = "()Ljava/lang/ClassLoader;";

/// The method that sets the text of a text widget, and its signature.
pub const SET_TEXT: &'static str = "setText";

pub const SET_TEXT_TYPE: &'static str = "(Ljava/lang/CharSequence;)V";

/// The method that sets the background colour of a widget, and its
/// signature.
pub const SET_BACKGROUND_COLOR: &'static str = "setBackgroundColor";

pub const SET_BACKGROUND_COLOR_TYPE: &'static str = "(I)V";

/// The method that puts a widget under a container, and its signature.
pub const ADD_VIEW: &'static str = "addView";

pub const ADD_VIEW_TYPE: &'static str = "(Landroid/view/View;)V";

/// The method by which a class loader loads a class, and its signature.
pub const LOAD_CLASS: &'static str = "loadClass";

pub const LOAD_CLASS_TYPE: &'static str = "(Ljava/lang/String;)Ljava/lang/Class;";

/// The static method of the helper class that puts a view on screen, and
/// its signature: it takes the activity and the view.
pub const SET_CONTENT_VIEW: &'static str = "setContentViewOnUiThread";

pub const SET_CONTENT_VIEW_TYPE: &'static str = "(Landroid/app/Activity;Landroid/view/View;)V";

/// The method that gives the text of an object, and its signature.
pub const TO_STRING: &'static str = "toString";

pub const TO_STRING_TYPE: &'static str = "()Ljava/lang/String;";

/// The background colour of a container: opaque white, `0xFFFFFFFF` as the
/// signed number that Java takes.
pub const CONTAINER_BACKGROUND: i32 = -1;

/// The Java class whose static method puts a view on screen from the
/// thread that owns the user interface.
pub const UI_HELPER_CLASS: &'static str = "com.rustnative.UiHelper";

/// What the host answers when it is asked for a button.
pub const NO_BUTTONS: &'static str = "buttons are not available on Android";

/// What the host answers when a handle names none of its widgets.
pub const NO_SUCH_VIEW: &'static str = "no such view";

/// Whether `r` is a failure with the given account of it.
pub open spec fn failed_with<T>(r: Result<T, HostFailure>, message: &str) -> bool {
    r matches Err(f) && f.message@ == message@
}

/// A failure with the given account of it.
fn failure<T>(message: &str) -> (r: Result<T, HostFailure>)
    ensures
        failed_with(r, message),
{
    Err(HostFailure { message: message.to_owned() })
}

/// Builds Android widgets for an activity.
///
/// A view handle is the position of the widget among those built so far.
/// The host reaches the Java runtime through a session, which keeps the
/// list of the calls made.
pub struct AndroidHost<'a> {
    session: JavaSession<'a>,
    activity: JObject<'a>,
    class_loader: GlobalRef,
    views: Vec<JObject<'a>>,
}

impl<'a> AndroidHost<'a> {
    /// The widgets built so far, in order: the widget with handle `h` is
    /// the one at index `h`.
    pub closed spec fn widgets(&self) -> Seq<JObject<'a>> {
        self.views@
    }

    /// The number of widgets built so far.
    pub open spec fn count(&self) -> nat {
        self.widgets().len()
    }

    /// The calls made into the Java runtime so far, oldest first.
    pub closed spec fn calls(&self) -> Seq<JavaCall> {
        self.session.calls()
    }

    /// The activity that the host builds its widgets for.
    pub closed spec fn activity(&self) -> JObject<'a> {
        self.activity
    }

    /// The global reference to the class loader of the activity.
    pub closed spec fn class_loader(&self) -> GlobalRef {
        self.class_loader
    }

    /// Whether two hosts are for the same activity, with the same class
    /// loader.
    pub open spec fn same_activity(self, other: AndroidHost<'a>) -> bool {
        self.activity() == other.activity() && self.class_loader() == other.class_loader()
    }

    /// The calls that make a host: the class loader is asked of the
    /// activity and kept in a global reference.
    pub open spec fn start_calls() -> Seq<JavaCall> {
        seq![JavaCall::CallMethod(GET_CLASS_LOADER@, GET_CLASS_LOADER_TYPE@), JavaCall::NewGlobalRef]
    }

    /// The calls that build a text: a `TextView` is constructed, the text
    /// is made a Java string, and `setText` is called.
    pub open spec fn text_calls(text: Seq<char>) -> Seq<JavaCall> {
        seq![
            JavaCall::NewObject(TEXT_VIEW@, WIDGET_CONSTRUCTOR@),
            JavaCall::NewString(text),
            JavaCall::CallMethod(SET_TEXT@, SET_TEXT_TYPE@),
        ]
    }

    /// The calls that build a container: a `LinearLayout` is constructed
    /// and `setBackgroundColor` is called.
    pub open spec fn container_calls() -> Seq<JavaCall> {
        seq![
            JavaCall::NewObject(LINEAR_LAYOUT@, WIDGET_CONSTRUCTOR@),
            JavaCall::CallMethod(SET_BACKGROUND_COLOR@, SET_BACKGROUND_COLOR_TYPE@),
        ]
    }

    /// The call that puts one widget under another: `addView`.
    pub open spec fn child_calls() -> Seq<JavaCall> {
        seq![JavaCall::CallMethod(ADD_VIEW@, ADD_VIEW_TYPE@)]
    }

    /// The calls that put a widget on screen: the name of the helper class
    /// is made a Java string, the class is loaded, and its static method is
    /// called.
    pub open spec fn install_calls() -> Seq<JavaCall> {
        seq![
            JavaCall::NewString(UI_HELPER_CLASS@),
            JavaCall::CallMethod(LOAD_CLASS@, LOAD_CLASS_TYPE@),
            JavaCall::CallStaticMethod(SET_CONTENT_VIEW@, SET_CONTENT_VIEW_TYPE@),
        ]
    }

    /// The calls that ask the class loader what it is: `toString`, and the
    /// text of the string that it returns is read.
    pub open spec fn class_loader_calls() -> Seq<JavaCall> {
        seq![JavaCall::CallMethod(TO_STRING@, TO_STRING_TYPE@), JavaCall::GetString]
    }

    /// The calls that follow a failed installation: the pending Java
    /// exception is printed and then cleared.
    pub open spec fn cleanup_calls() -> Seq<JavaCall> {
        seq![JavaCall::ExceptionDescribe, JavaCall::ExceptionClear]
    }

    /// What `new` does, for the activity given: `getClassLoader` is
    /// called on the activity, what it returns is taken as an object, and a
    /// global reference to that object is asked for. If all three succeed,
    /// the result is a host for the activity that keeps that reference as
    /// its class loader and has built no widget. Otherwise the result is
    /// the failure of the step that failed.
    pub open spec fn started(activity: JObject<'a>, r: Result<AndroidHost<'a>, HostFailure>) -> bool {
        exists|arguments: &[JValueGen<&JObject<'a>>], asked: Result<JValueGen<JObject<'a>>, Error>|
            arguments@.len() == 0 && #[trigger] called(
                &activity,
                GET_CLASS_LOADER,
                GET_CLASS_LOADER_TYPE,
                arguments,
                asked,
            ) && match asked {
                Err(e) => refused(r, e),
                Ok(value) => exists|loader: Result<JObject<'a>, Error>| #[trigger]
                    taken_object(value, loader) && match loader {
                        Err(e) => refused(r, e),
                        Ok(loader) => exists|kept: Result<GlobalRef, Error>| #[trigger]
                            kept_global(&loader, kept) && match kept {
                                Err(e) => refused(r, e),
                                Ok(global) => r matches Ok(host) && host.class_loader() == global
                                    && host.activity() == activity && host.widgets() == Seq::<
                                    JObject<'a>,
                                >::empty() && host.calls() == Self::start_calls(),
                            },
                    },
            }
    }

    /// What `create_text` does: a `TextView` is constructed in the context
    /// of the activity, the text is made a Java string, and `setText` is
    /// called on the new widget with that string. If all three succeed,
    /// the new widget is added and its handle is the result. Otherwise the
    /// calls break off at the one that failed, no widget is added, and the
    /// result is that failure.
    pub open spec fn text_created(
        before: AndroidHost<'a>,
        after: AndroidHost<'a>,
        text: &str,
        r: Result<ViewHandle, HostFailure>,
    ) -> bool {
        let plan = Self::text_calls(text@);
        &&& after.same_activity(before)
        &&& exists|context: &[JValueGen<&JObject<'a>>], built: Result<JObject<'a>, Error>|
            context@.len() == 1 && passed_object(&before.activity(), context@[0]) && #[trigger] constructed(
                TEXT_VIEW,
                WIDGET_CONSTRUCTOR,
                context,
                built,
            ) && match built {
                Err(e) => refused(r, e) && after.widgets() == before.widgets() && after.calls()
                    == before.calls() + plan.take(1),
                Ok(view) => exists|made: Result<JString<'a>, Error>| #[trigger]
                    made_string(text, made) && match made {
                        Err(e) => refused(r, e) && after.widgets() == before.widgets() && after.calls()
                            == before.calls() + plan.take(2),
                        Ok(string) => exists|
                            arguments: &[JValueGen<&JObject<'a>>],
                            set: Result<JValueGen<JObject<'a>>, Error>,
                        |
                            arguments@.len() == 1 && passed_string(&string, arguments@[0]) && #[trigger] called(
                                &view,
                                SET_TEXT,
                                SET_TEXT_TYPE,
                                arguments,
                                set,
                            ) && after.calls() == before.calls() + plan && match set {
                                Err(e) => refused(r, e) && after.widgets() == before.widgets(),
                                Ok(_) => r == Ok::<ViewHandle, HostFailure>(ViewHandle(before.count() as u64))
                                    && after.widgets() == before.widgets().push(view),
                            },
                    },
            }
    }

    /// What `create_button` does: nothing. Buttons are not built on
    /// Android, so the result is a failure that says so.
    pub open spec fn button_refused(
        before: AndroidHost<'a>,
        after: AndroidHost<'a>,
        r: Result<ViewHandle, HostFailure>,
    ) -> bool {
        &&& after.same_activity(before)
        &&& after.widgets() == before.widgets()
        &&& after.calls() == before.calls()
        &&& failed_with(r, NO_BUTTONS)
    }

    /// What `create_container` does: a `LinearLayout` is constructed in
    /// the context of the activity, and `setBackgroundColor` is called on
    /// the new widget with opaque white. If both succeed, the new widget is
    /// added and its handle is the result. Otherwise the calls break off at
    /// the one that failed, no widget is added, and the result is that
    /// failure.
    pub open spec fn container_created(
        before: AndroidHost<'a>,
        after: AndroidHost<'a>,
        r: Result<ViewHandle, HostFailure>,
    ) -> bool {
        let plan = Self::container_calls();
        &&& after.same_activity(before)
        &&& exists|context: &[JValueGen<&JObject<'a>>], built: Result<JObject<'a>, Error>|
            context@.len() == 1 && passed_object(&before.activity(), context@[0]) && #[trigger] constructed(
                LINEAR_LAYOUT,
                WIDGET_CONSTRUCTOR,
                context,
                built,
            ) && match built {
                Err(e) => refused(r, e) && after.widgets() == before.widgets() && after.calls()
                    == before.calls() + plan.take(1),
                Ok(view) => exists|
                    arguments: &[JValueGen<&JObject<'a>>],
                    set: Result<JValueGen<JObject<'a>>, Error>,
                |
                    arguments@.len() == 1 && passed_int(CONTAINER_BACKGROUND, arguments@[0]) && #[trigger] called(
                        &view,
                        SET_BACKGROUND_COLOR,
                        SET_BACKGROUND_COLOR_TYPE,
                        arguments,
                        set,
                    ) && after.calls() == before.calls() + plan && match set {
                        Err(e) => refused(r, e) && after.widgets() == before.widgets(),
                        Ok(_) => r == Ok::<ViewHandle, HostFailure>(ViewHandle(before.count() as u64))
                            && after.widgets() == before.widgets().push(view),
                    },
            }
    }

    /// What `add_child` does: if both handles name widgets of the host,
    /// `addView` is called on the parent's widget with the child's, and the
    /// result is the outcome of that call. Otherwise no call is made and
    /// the result is a failure that says so.
    pub open spec fn child_added(
        before: AndroidHost<'a>,
        after: AndroidHost<'a>,
        parent: ViewHandle,
        child: ViewHandle,
        r: Result<(), HostFailure>,
    ) -> bool {
        &&& after.same_activity(before)
        &&& after.widgets() == before.widgets()
        &&& if parent.0 < before.count() && child.0 < before.count() {
            exists|arguments: &[JValueGen<&JObject<'a>>], added: Result<JValueGen<JObject<'a>>, Error>|
                arguments@.len() == 1 && passed_object(&before.widgets()[child.0 as int], arguments@[0])
                    && #[trigger] called(
                    &before.widgets()[parent.0 as int],
                    ADD_VIEW,
                    ADD_VIEW_TYPE,
                    arguments,
                    added,
                ) && after.calls() == before.calls() + Self::child_calls() && match added {
                    Err(e) => refused(r, e),
                    Ok(_) => r == Ok::<(), HostFailure>(()),
                }
        } else {
            after.calls() == before.calls() && failed_with(r, NO_SUCH_VIEW)
        }
    }

    /// What `install` does: if the handle names a widget of the host, the
    /// name of the helper class is made a Java string, the class loader is
    /// asked to load the class of that name, what it returns is taken as
    /// an object, and the static method of that class is called with the
    /// activity first and the widget second. If all succeed the result is
    /// success. If a step fails the calls break off there, the pending
    /// Java exception is printed and then cleared, and the result is that
    /// failure. If the handle names no widget, no call is made and the
    /// result is a failure that says so.
    pub open spec fn installed(
        before: AndroidHost<'a>,
        after: AndroidHost<'a>,
        root: ViewHandle,
        r: Result<(), HostFailure>,
    ) -> bool {
        let plan = Self::install_calls();
        let cleanup = Self::cleanup_calls();
        &&& after.same_activity(before)
        &&& after.widgets() == before.widgets()
        &&& if root.0 < before.count() {
            exists|made: Result<JString<'a>, Error>| #[trigger]
                made_string(UI_HELPER_CLASS, made) && match made {
                    Err(e) => refused(r, e) && after.calls() == before.calls() + plan.take(1) + cleanup,
                    Ok(name) => exists|
                        loader: &JObject<'static>,
                        arguments: &[JValueGen<&JObject<'a>>],
                        loaded: Result<JValueGen<JObject<'a>>, Error>,
                    |
                        shown_global(&before.class_loader(), loader) && arguments@.len() == 1
                            && passed_string(&name, arguments@[0]) && #[trigger] called(
                            loader,
                            LOAD_CLASS,
                            LOAD_CLASS_TYPE,
                            arguments,
                            loaded,
                        ) && match loaded {
                            Err(e) => refused(r, e) && after.calls() == before.calls() + plan.take(2)
                                + cleanup,
                            Ok(value) => exists|class: Result<JObject<'a>, Error>| #[trigger]
                                taken_object(value, class) && match class {
                                    Err(e) => refused(r, e) && after.calls() == before.calls()
                                        + plan.take(2) + cleanup,
                                    Ok(class) => exists|
                                        pair: &[JValueGen<&JObject<'a>>],
                                        set: Result<JValueGen<JObject<'a>>, Error>,
                                    |
                                        pair@.len() == 2 && passed_object(&before.activity(), pair@[0])
                                            && passed_object(&before.widgets()[root.0 as int], pair@[1])
                                            && #[trigger] called_static(
                                            class,
                                            SET_CONTENT_VIEW,
                                            SET_CONTENT_VIEW_TYPE,
                                            pair,
                                            set,
                                        ) && match set {
                                            Err(e) => refused(r, e) && after.calls() == before.calls()
                                                + plan + cleanup,
                                            Ok(_) => r == Ok::<(), HostFailure>(()) && after.calls()
                                                == before.calls() + plan,
                                        },
                                },
                        },
                }
        } else {
            after.calls() == before.calls() && failed_with(r, NO_SUCH_VIEW)
        }
    }

    /// What `show_classes` does: `toString` is called on the class loader,
    /// what it returns is taken as an object, and the text of that Java
    /// string is read. If all succeed, the result is the text that was
    /// read. Otherwise the calls break off at the step that failed and the
    /// result is that failure. No widget is built.
    pub open spec fn classes_shown(
        before: AndroidHost<'a>,
        after: AndroidHost<'a>,
        r: Result<String, HostFailure>,
    ) -> bool {
        let plan = Self::class_loader_calls();
        &&& after.same_activity(before)
        &&& after.widgets() == before.widgets()
        &&& exists|
            loader: &JObject<'static>,
            arguments: &[JValueGen<&JObject<'a>>],
            described: Result<JValueGen<JObject<'a>>, Error>,
        |
            shown_global(&before.class_loader(), loader) && arguments@.len() == 0 && #[trigger] called(
                loader,
                TO_STRING,
                TO_STRING_TYPE,
                arguments,
                described,
            ) && match described {
                Err(e) => refused(r, e) && after.calls() == before.calls() + plan.take(1),
                Ok(value) => exists|text: Result<JObject<'a>, Error>| #[trigger]
                    taken_object(value, text) && match text {
                        Err(e) => refused(r, e) && after.calls() == before.calls() + plan.take(1),
                        Ok(text) => exists|read: Result<String, Error>| #[trigger]
                            read_text(text, read) && after.calls() == before.calls() + plan && match read {
                                Err(e) => refused(r, e),
                                Ok(name) => r == Ok::<String, HostFailure>(name),
                            },
                    },
            }
    }

    /// A host for the given activity, with no widget built yet.
    ///
    /// Asks the activity for its class loader, through which the helper
    /// class is found later, and keeps a global reference to it; see
    /// `started`.
    pub fn new(env: &'a mut JNIEnv<'a>, activity: JObject<'a>) -> (r: Result<AndroidHost<'a>, HostFailure>)
        ensures
            Self::started(activity, r),
    {
        let mut session = JavaSession::new(env);
        proof {
            reveal_strlit("()Ljava/lang/ClassLoader;");
        }
        let nothing: [JValueGen<&JObject<'a>>; 0] = [];
        let asked = session.invoke(&activity, GET_CLASS_LOADER, GET_CLASS_LOADER_TYPE, nothing.as_slice());
        let value = match asked {
            Ok(value) => value,
            Err(error) => {
                return refusal(error);
            },
        };
        let loader = match take_object(value) {
            Ok(object) => object,
            Err(error) => {
                return refusal(error);
            },
        };
        let kept = session.keep(&loader);
        assert(session.calls() =~= Self::start_calls());
        match kept {
            Ok(class_loader) => Ok(AndroidHost { session, activity, class_loader, views: Vec::new() }),
            Err(error) => refusal(error),
        }
    }

    /// Takes a widget into the table and returns its handle.
    fn adopt(&mut self, view: JObject<'a>) -> (handle: ViewHandle)
        ensures
            handle == ViewHandle(old(self).count() as u64),
            final(self).widgets() == old(self).widgets().push(view),
            final(self).calls() == old(self).calls(),
            final(self).same_activity(*old(self)),
    {
        let handle = self.views.len() as u64;
        self.views.push(view);
        ViewHandle(handle)
    }

    /// The place of the widget that the handle names, if it names one of
    /// this host.
    fn slot(&self, handle: ViewHandle) -> (slot: Option<usize>)
        ensures
            match slot {
                Some(i) => i == handle.0 && handle.0 < self.count(),
                None => handle.0 >= self.count(),
            },
    {
        let count = self.views.len();
        if handle.0 < count as u64 {
            Some(handle.0 as usize)
        } else {
            None
        }
    }
}

impl<'a> NativeHost for AndroidHost<'a> {
    /// Builds a `TextView` and sets its text; see `text_created`.
    fn create_text(&mut self, text: &str) -> (r: Result<ViewHandle, HostFailure>)
        ensures
            Self::text_created(*old(self), *final(self), text, r),
    {
        let ghost plan = Self::text_calls(text@);
        proof {
            reveal_strlit("(Landroid/content/Context;)V");
            reveal_strlit("(Ljava/lang/CharSequence;)V");
        }
        let context = [pass_object(&self.activity)];
        let built = self.session.construct(TEXT_VIEW, WIDGET_CONSTRUCTOR, context.as_slice());
        assert(self.calls() =~= old(self).calls() + plan.take(1));
        let text_view = match built {
            Ok(view) => view,
            Err(error) => {
                return refusal(error);
            },
        };
        let made = self.session.make_string(text);
        assert(self.calls() =~= old(self).calls() + plan.take(2));
        let java_text = match made {
            Ok(string) => string,
            Err(error) => {
                return refusal(error);
            },
        };
        let arguments = [pass_string(&java_text)];
        let set = self.session.invoke(&text_view, SET_TEXT, SET_TEXT_TYPE, arguments.as_slice());
        assert(self.calls() =~= old(self).calls() + plan);
        match set {
            Ok(_) => Ok(self.adopt(text_view)),
            Err(error) => refusal(error),
        }
    }

    /// Buttons are not built on Android; see `button_refused`.
    fn create_button(&mut self, label: &str, callback: u32) -> (r: Result<ViewHandle, HostFailure>)
        ensures
            Self::button_refused(*old(self), *final(self), r),
    {
        failure(NO_BUTTONS)
    }

    /// Builds a `LinearLayout` with a white background; see
    /// `container_created`.
    fn create_container(&mut self) -> (r: Result<ViewHandle, HostFailure>)
        ensures
            Self::container_created(*old(self), *final(self), r),
    {
        let ghost plan = Self::container_calls();
        proof {
            reveal_strlit("(Landroid/content/Context;)V");
            reveal_strlit("(I)V");
        }
        let context = [pass_object(&self.activity)];
        let built = self.session.construct(LINEAR_LAYOUT, WIDGET_CONSTRUCTOR, context.as_slice());
        assert(self.calls() =~= old(self).calls() + plan.take(1));
        let layout = match built {
            Ok(view) => view,
            Err(error) => {
                return refusal(error);
            },
        };
        let colour = [pass_int(CONTAINER_BACKGROUND)];
        let set = self.session.invoke(&layout, SET_BACKGROUND_COLOR, SET_BACKGROUND_COLOR_TYPE, colour.as_slice());
        assert(self.calls() =~= old(self).calls() + plan);
        match set {
            Ok(_) => Ok(self.adopt(layout)),
            Err(error) => refusal(error),
        }
    }

    /// Calls `addView` on the parent's widget with the child's; see
    /// `child_added`.
    fn add_child(&mut self, parent: ViewHandle, child: ViewHandle) -> (r: Result<(), HostFailure>)
        ensures
            Self::child_added(*old(self), *final(self), parent, child, r),
    {
        let (parent_slot, child_slot) = match (self.slot(parent), self.slot(child)) {
            (Some(parent_slot), Some(child_slot)) => (parent_slot, child_slot),
            _ => {
                return failure(NO_SUCH_VIEW);
            },
        };
        proof {
            reveal_strlit("(Landroid/view/View;)V");
        }
        let parent_view = &self.views[parent_slot];
        let child_view = &self.views[child_slot];
        let arguments = [pass_object(child_view)];
        let added = self.session.invoke(parent_view, ADD_VIEW, ADD_VIEW_TYPE, arguments.as_slice());
        assert(self.calls() =~= old(self).calls() + Self::child_calls());
        match added {
            Ok(_) => Ok(()),
            Err(error) => refusal(error),
        }
    }

    /// Loads the helper class and has it set the content view on the
    /// thread that owns the user interface; see `installed`.
    fn install(&mut self, root: ViewHandle) -> (r: Result<(), HostFailure>)
        ensures
            Self::installed(*old(self), *final(self), root, r),
    {
        let root_slot = match self.slot(root) {
            Some(root_slot) => root_slot,
            None => {
                return failure(NO_SUCH_VIEW);
            },
        };
        let ghost plan = Self::install_calls();
        let ghost cleanup = Self::cleanup_calls();
        proof {
            reveal_strlit("(Ljava/lang/String;)Ljava/lang/Class;");
            reveal_strlit("(Landroid/app/Activity;Landroid/view/View;)V");
        }
        let made = self.session.make_string(UI_HELPER_CLASS);
        let class_name = match made {
            Ok(string) => string,
            Err(error) => {
                self.session.clear_exception();
                assert(self.calls() =~= old(self).calls() + plan.take(1) + cleanup);
                return refusal(error);
            },
        };
        let name_argument = [pass_string(&class_name)];
        let loaded = self.session.invoke(
            show_global(&self.class_loader),
            LOAD_CLASS,
            LOAD_CLASS_TYPE,
            name_argument.as_slice(),
        );
        let value = match loaded {
            Ok(value) => value,
            Err(error) => {
                self.session.clear_exception();
                assert(self.calls() =~= old(self).calls() + plan.take(2) + cleanup);
                return refusal(error);
            },
        };
        let helper = match take_object(value) {
            Ok(class) => class,
            Err(error) => {
                self.session.clear_exception();
                assert(self.calls() =~= old(self).calls() + plan.take(2) + cleanup);
                return refusal(error);
            },
        };
        let root_view = &self.views[root_slot];
        let pair = [pass_object(&self.activity), pass_object(root_view)];
        let set = self.session.invoke_static(helper, SET_CONTENT_VIEW, SET_CONTENT_VIEW_TYPE, pair.as_slice());
        match set {
            Ok(_) => {
                assert(self.calls() =~= old(self).calls() + plan);
                Ok(())
            },
            Err(error) => {
                self.session.clear_exception();
                assert(self.calls() =~= old(self).calls() + plan + cleanup);
                refusal(error)
            },
        }
    }
}

/// The text that the class loader of the host's activity gives of
/// itself, for the log; see `AndroidHost::classes_shown`.
pub fn show_classes<'a>(host: &mut AndroidHost<'a>) -> (r: Result<String, HostFailure>)
    ensures
        AndroidHost::classes_shown(*old(host), *final(host), r),
{
    let ghost plan = AndroidHost::class_loader_calls();
    proof {
        reveal_strlit("()Ljava/lang/String;");
    }
    let nothing: [JValueGen<&JObject<'a>>; 0] = [];
    let described = host.session.invoke(show_global(&host.class_loader), TO_STRING, TO_STRING_TYPE, nothing.as_slice());
    assert(host.calls() =~= old(host).calls() + plan.take(1));
    let value = match described {
        Ok(value) => value,
        Err(error) => {
            return refusal(error);
        },
    };
    let text = match take_object(value) {
        Ok(object) => object,
        Err(error) => {
            return refusal(error);
        },
    };
    let read = host.session.read(text);
    assert(host.calls() =~= old(host).calls() + plan);
    match read {
        Ok(name) => Ok(name),
        Err(error) => refusal(error),
    }
}

/// The renderer for Android.
///
/// Each operation is specified twice over: by the model, as for every
/// renderer, and by the predicate of the host operation that it called,
/// with the answer that links the two.
pub struct AndroidRenderer<'a> {
    renderer: Renderer<AndroidHost<'a>>,
}

impl<'a> AndroidRenderer<'a> {
    /// The host that this renderer drives, as it stands now.
    pub closed spec fn native(&self) -> AndroidHost<'a> {
        self.renderer.native()
    }

    /// Whether the renderer and its host agree: the view of the element
    /// with identifier `i` is the handle `i`, which names the `i`-th widget
    /// that the host has built, and the host has built no other.
    ///
    /// A new renderer is consistent and every operation keeps it so.
    pub open spec fn consistent(&self) -> bool {
        &&& self.model().views.len() == self.native().count()
        &&& forall|i: int| 0 <= i < self.model().views.len() ==> (#[trigger] self.model().views[i]).0 == i
    }

    /// A renderer for the given activity that has created nothing yet.
    ///
    /// A host is made for the activity as `AndroidHost::started` says. If
    /// that succeeds the renderer drives that host; if it fails the failure
    /// is returned as `Native`.
    pub fn new(env: &'a mut JNIEnv<'a>, activity: JObject<'a>) -> (r: Result<AndroidRenderer<'a>, RenderError>)
        ensures
            exists|made: Result<AndroidHost<'a>, HostFailure>| #[trigger]
                AndroidHost::started(activity, made) && match made {
                    Ok(host) => r matches Ok(renderer) && renderer.native() == host && renderer.model()
                        == RendererModel::fresh() && renderer.consistent(),
                    Err(f) => r matches Err(e) && e == RenderError::Native(f),
                },
    {
        match AndroidHost::new(env, activity) {
            Ok(host) => Ok(AndroidRenderer { renderer: Renderer::new(host) }),
            Err(refusal) => Err(RenderError::Native(refusal)),
        }
    }

    /// The text that the class loader of the activity gives of itself, for
    /// the log: the host is asked as `AndroidHost::classes_shown` says, and
    /// what the renderer holds stays as it is.
    pub fn show_classes(&mut self) -> (r: Result<String, HostFailure>)
        ensures
            AndroidHost::classes_shown(old(self).native(), final(self).native(), r),
            final(self).model() == old(self).model(),
            old(self).consistent() ==> final(self).consistent(),
    {
        show_classes(self.renderer.host_mut())
    }

    /// The number of elements created so far.
    pub fn len(&self) -> (n: u32)
        ensures
            n == self.model().views.len(),
    {
        self.renderer.len()
    }

    /// Whether this renderer has created the element.
    pub fn contains(&self, id: ElementId) -> (known: bool)
        ensures
            known == self.model().has(id),
    {
        self.renderer.contains(id)
    }

    /// The native view of an element, or `MissingElement` naming it.
    pub fn view_of(&self, id: ElementId) -> (r: Result<ViewHandle, RenderError>)
        ensures
            r == ViewRegistry::found(self.model().views, id),
    {
        self.renderer.view_of(id)
    }
}

impl<'a> PlatformRenderer for AndroidRenderer<'a> {
    closed spec fn model(&self) -> RendererModel {
        self.renderer.model()
    }

    /// With all identifiers in use the host is left alone. Otherwise the
    /// host builds a text as `AndroidHost::text_created` says, and its
    /// answer decides as the model says.
    fn create_text(&mut self, text: &str) -> (r: Result<ElementId, RenderError>)
        ensures
            old(self).consistent() ==> final(self).consistent(),
            if old(self).model().elements_full() {
                final(self).native() == old(self).native()
            } else {
                exists|answer: Result<ViewHandle, HostFailure>| #[trigger]
                    AndroidHost::text_created(old(self).native(), final(self).native(), text, answer) && (
                    final(self).model(),
                    r,
                ) == old(self).model().create(HostRequest::CreateText(text@), answer)
            },
    {
        let r = self.renderer.create_text(text);
        proof {
            let before = old(self).renderer.model();
            if !before.elements_full() {
                let (host, answer) = choose|host: &mut AndroidHost<'a>, answer: Result<ViewHandle, HostFailure>|
                    mut_ref_current(host) == old(self).renderer.native() && mut_ref_future(host)
                        == self.renderer.native() && #[trigger] call_ensures(
                        AndroidHost::create_text,
                        (host, text),
                        answer,
                    ) && (self.renderer.model(), r) == before.create(HostRequest::CreateText(text@), answer);
                assert(AndroidHost::text_created(old(self).native(), self.native(), text, answer));
                assert((self.model(), r) == old(self).model().create(HostRequest::CreateText(text@), answer));
            } else {
                assert((self.model(), r) == old(self).model().create(
                    HostRequest::CreateText(text@),
                    Ok(ViewHandle(0)),
                ));
            }
        }
        r
    }

    /// With all identifiers or callback numbers in use the host is left
    /// alone. Otherwise the host refuses the button as
    /// `AndroidHost::button_refused` says, and the creation fails with that
    /// refusal.
    fn create_button(&mut self, label: &str, on_click: Callback) -> (r: Result<ElementId, RenderError>)
        ensures
            old(self).consistent() ==> final(self).consistent(),
            r is Err,
            if old(self).model().elements_full() || old(self).model().callbacks_full() {
                final(self).native() == old(self).native()
            } else {
                exists|answer: Result<ViewHandle, HostFailure>| #[trigger]
                    AndroidHost::button_refused(old(self).native(), final(self).native(), answer) && (
                    final(self).model(),
                    r,
                ) == old(self).model().create_button(label@, on_click, answer)
            },
    {
        let r = self.renderer.create_button(label, on_click);
        proof {
            let before = old(self).renderer.model();
            if !(before.elements_full() || before.callbacks_full()) {
                let (host, answer) = choose|host: &mut AndroidHost<'a>, answer: Result<ViewHandle, HostFailure>|
                    mut_ref_current(host) == old(self).renderer.native() && mut_ref_future(host)
                        == self.renderer.native() && #[trigger] call_ensures(
                        AndroidHost::create_button,
                        (host, label, before.callbacks_issued as u32),
                        answer,
                    ) && (self.renderer.model(), r) == before.create_button(label@, on_click, answer);
                assert(AndroidHost::button_refused(old(self).native(), self.native(), answer));
                assert((self.model(), r) == old(self).model().create_button(label@, on_click, answer));
            } else {
                assert((self.model(), r) == old(self).model().create_button(label@, on_click, Ok(ViewHandle(0))));
            }
        }
        r
    }

    /// With all identifiers in use the host is left alone. Otherwise the
    /// host builds a container as `AndroidHost::container_created` says,
    /// and its answer decides as the model says.
    fn create_container(&mut self) -> (r: Result<ElementId, RenderError>)
        ensures
            old(self).consistent() ==> final(self).consistent(),
            if old(self).model().elements_full() {
                final(self).native() == old(self).native()
            } else {
                exists|answer: Result<ViewHandle, HostFailure>| #[trigger]
                    AndroidHost::container_created(old(self).native(), final(self).native(), answer) && (
                    final(self).model(),
                    r,
                ) == old(self).model().create(HostRequest::CreateContainer, answer)
            },
    {
        let r = self.renderer.create_container();
        proof {
            let before = old(self).renderer.model();
            if !before.elements_full() {
                let (host, answer) = choose|host: &mut AndroidHost<'a>, answer: Result<ViewHandle, HostFailure>|
                    mut_ref_current(host) == old(self).renderer.native() && mut_ref_future(host)
                        == self.renderer.native() && #[trigger] call_ensures(
                        AndroidHost::create_container,
                        (host,),
                        answer,
                    ) && (self.renderer.model(), r) == before.create(HostRequest::CreateContainer, answer);
                assert(AndroidHost::container_created(old(self).native(), self.native(), answer));
                assert((self.model(), r) == old(self).model().create(HostRequest::CreateContainer, answer));
            } else {
                assert((self.model(), r) == old(self).model().create(
                    HostRequest::CreateContainer,
                    Ok(ViewHandle(0)),
                ));
            }
        }
        r
    }

    /// If an element is missing the host is left alone. Otherwise the
    /// host puts the view of the child under the view of the parent as
    /// `AndroidHost::child_added` says, and its answer decides as the
    /// model says.
    fn add_child(&mut self, parent: ElementId, child: ElementId) -> (r: Result<(), RenderError>)
        ensures
            old(self).consistent() ==> final(self).consistent(),
            if old(self).model().has(parent) && old(self).model().has(child) {
                exists|answer: Result<(), HostFailure>| #[trigger]
                    AndroidHost::child_added(
                        old(self).native(),
                        final(self).native(),
                        old(self).model().views[parent.0 as int],
                        old(self).model().views[child.0 as int],
                        answer,
                    ) && (final(self).model(), r) == old(self).model().add_child(parent, child, answer)
            } else {
                final(self).native() == old(self).native()
            },
    {
        let r = self.renderer.add_child(parent, child);
        proof {
            let before = old(self).renderer.model();
            if before.has(parent) && before.has(child) {
                let (host, answer) = choose|host: &mut AndroidHost<'a>, answer: Result<(), HostFailure>|
                    mut_ref_current(host) == old(self).renderer.native() && mut_ref_future(host)
                        == self.renderer.native() && #[trigger] call_ensures(
                        AndroidHost::add_child,
                        (host, before.views[parent.0 as int], before.views[child.0 as int]),
                        answer,
                    ) && (self.renderer.model(), r) == before.add_child(parent, child, answer);
                assert(AndroidHost::child_added(
                    old(self).native(),
                    self.native(),
                    before.views[parent.0 as int],
                    before.views[child.0 as int],
                    answer,
                ));
                assert((self.model(), r) == old(self).model().add_child(parent, child, answer));
            } else {
                assert((self.model(), r) == old(self).model().add_child(parent, child, Ok(())));
            }
        }
        r
    }

    /// Without an element 0 the host is left alone. Otherwise the host
    /// installs the view of element 0 as `AndroidHost::installed` says, and
    /// its answer decides as the model says: a failed installation is
    /// returned as `Native`, after the pending Java exception has been
    /// printed and cleared.
    fn commit(&mut self) -> (r: Result<(), RenderError>)
        ensures
            old(self).consistent() ==> final(self).consistent(),
            if old(self).model().has(ElementId(0)) {
                exists|answer: Result<(), HostFailure>| #[trigger]
                    AndroidHost::installed(
                        old(self).native(),
                        final(self).native(),
                        old(self).model().views[0],
                        answer,
                    ) && (final(self).model(), r) == old(self).model().commit(answer)
            } else {
                final(self).native() == old(self).native()
            },
    {
        let r = self.renderer.commit();
        proof {
            let before = old(self).renderer.model();
            if before.has(ElementId(0)) {
                let (host, answer) = choose|host: &mut AndroidHost<'a>, answer: Result<(), HostFailure>|
                    mut_ref_current(host) == old(self).renderer.native() && mut_ref_future(host)
                        == self.renderer.native() && #[trigger] call_ensures(
                        AndroidHost::install,
                        (host, before.views[0]),
                        answer,
                    ) && (self.renderer.model(), r) == before.commit(answer);
                assert(AndroidHost::installed(old(self).native(), self.native(), before.views[0], answer));
                assert((self.model(), r) == old(self).model().commit(answer));
            } else {
                assert((self.model(), r) == old(self).model().commit(Ok(())));
            }
        }
        r
    }
}

} // verus!
