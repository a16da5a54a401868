//! A session with the Java runtime: every call that the Android host makes
//! goes through it and is noted.
//!
//! Two things are said of each call. The session's list of calls, which can
//! grow in no other way than by making a call, says which calls were made
//! and in what order. A predicate of this module says on what objects and
//! with what values a call was made and what it returned; such a predicate
//! can be had in no other way than from the function here that makes the
//! call.

use vstd::prelude::*;
use jni::errors::Error;
use jni::objects::{GlobalRef, JObject, JString, JValueGen};
use jni::JNIEnv;
use crate::error::HostFailure;
use crate::java::{
    call_method, call_static_method, describe, exception_clear, exception_describe, flat_signature,
    global_object, int_argument, into_object, new_global_ref, new_object, new_string, object_argument,
    read_string, string_argument,
};

verus! {

/// One call into the Java runtime.
pub enum JavaCall {
    /// Construct an object: class and constructor signature.
    NewObject(Seq<char>, Seq<char>),
    /// Make a Java string of a text.
    NewString(Seq<char>),
    /// Call a method: name and signature.
    CallMethod(Seq<char>, Seq<char>),
    /// Call a static method: name and signature.
    CallStaticMethod(Seq<char>, Seq<char>),
    /// Make a global reference to an object.
    NewGlobalRef,
    /// Read the text of a Java string.
    GetString,
    /// Have the pending exception printed.
    ExceptionDescribe,
    /// Clear the pending exception.
    ExceptionClear,
}

/// `argument` is `object`, made an argument of a call.
pub closed spec fn passed_object<'a, 'b>(object: &'b JObject<'a>, argument: JValueGen<&'b JObject<'a>>) -> bool {
    call_ensures(object_argument, (object,), argument)
}

/// `argument` is the Java string `text`, made an argument of a call.
pub closed spec fn passed_string<'a, 'b>(text: &'b JString<'a>, argument: JValueGen<&'b JObject<'a>>) -> bool {
    call_ensures(string_argument, (text,), argument)
}

/// `argument` is the integer `value`, made an argument of a call.
pub closed spec fn passed_int<'a, 'b>(value: i32, argument: JValueGen<&'b JObject<'a>>) -> bool {
    call_ensures(int_argument, (value,), argument)
}

/// `object` is the object that the global reference refers to.
pub closed spec fn shown_global(global: &GlobalRef, object: &JObject<'static>) -> bool {
    call_ensures(global_object, (global,), object)
}

/// `object` is what came of taking `value`, which a method returned, as
/// an object.
pub closed spec fn taken_object<'a>(value: JValueGen<JObject<'a>>, object: Result<JObject<'a>, Error>) -> bool {
    call_ensures(into_object, (value,), object)
}

/// `message` is the description of `error`.
pub closed spec fn described(error: &Error, message: String) -> bool {
    call_ensures(describe, (error,), message)
}

/// The constructor of `class` with the given signature was called with
/// `arguments` and returned `built`.
pub closed spec fn constructed<'a>(
    class: &str,
    signature: &str,
    arguments: &[JValueGen<&JObject<'_>>],
    built: Result<JObject<'a>, Error>,
) -> bool {
    exists|env: &mut JNIEnv<'a>| #[trigger] call_ensures(new_object, (env, class, signature, arguments), built)
}

/// A Java string was asked for `text`, and `made` came back.
pub closed spec fn made_string<'a>(text: &str, made: Result<JString<'a>, Error>) -> bool {
    exists|env: &mut JNIEnv<'a>| #[trigger] call_ensures(new_string, (env, text), made)
}

/// The method `name` with the given signature was called on `object` with
/// `arguments` and returned `returned`.
pub closed spec fn called<'a>(
    object: &JObject<'_>,
    name: &str,
    signature: &str,
    arguments: &[JValueGen<&JObject<'_>>],
    returned: Result<JValueGen<JObject<'a>>, Error>,
) -> bool {
    exists|env: &mut JNIEnv<'a>| #[trigger]
        call_ensures(call_method, (env, object, name, signature, arguments), returned)
}

/// The static method `name` with the given signature was called on the
/// class `class` with `arguments` and returned `returned`.
pub closed spec fn called_static<'a>(
    class: JObject<'a>,
    name: &str,
    signature: &str,
    arguments: &[JValueGen<&JObject<'_>>],
    returned: Result<JValueGen<JObject<'a>>, Error>,
) -> bool {
    exists|env: &mut JNIEnv<'a>| #[trigger]
        call_ensures(call_static_method, (env, class, name, signature, arguments), returned)
}

/// A global reference to `object` was asked for, and `kept` came back.
pub closed spec fn kept_global(object: &JObject<'_>, kept: Result<GlobalRef, Error>) -> bool {
    exists|env: &mut JNIEnv<'_>| #[trigger] call_ensures(new_global_ref, (env, object), kept)
}

/// The text of the Java string `text` was asked for, and `read` came back.
pub closed spec fn read_text<'a>(text: JObject<'a>, read: Result<String, Error>) -> bool {
    exists|env: &mut JNIEnv<'a>| #[trigger] call_ensures(read_string, (env, text), read)
}

/// Whether `r` is the failure that `error` is reported as: its message is
/// the description of the error.
pub open spec fn refused<T>(r: Result<T, HostFailure>, error: Error) -> bool {
    r matches Err(failure) && described(&error, failure.message)
}

/// Makes `object` an argument of a call.
pub(crate) fn pass_object<'a, 'b>(object: &'b JObject<'a>) -> (argument: JValueGen<&'b JObject<'a>>)
    ensures
        passed_object(object, argument),
{
    object_argument(object)
}

/// Makes the Java string `text` an argument of a call.
pub(crate) fn pass_string<'a, 'b>(text: &'b JString<'a>) -> (argument: JValueGen<&'b JObject<'a>>)
    ensures
        passed_string(text, argument),
{
    string_argument(text)
}

/// Makes the integer `value` an argument of a call.
pub(crate) fn pass_int<'a, 'b>(value: i32) -> (argument: JValueGen<&'b JObject<'a>>)
    ensures
        passed_int(value, argument),
{
    int_argument(value)
}

/// The object that a global reference refers to.
pub(crate) fn show_global(global: &GlobalRef) -> (object: &JObject<'static>)
    ensures
        shown_global(global, object),
{
    global_object(global)
}

/// Takes what a method returned as an object.
pub(crate) fn take_object<'a>(value: JValueGen<JObject<'a>>) -> (object: Result<JObject<'a>, Error>)
    ensures
        taken_object(value, object),
{
    into_object(value)
}

/// The failure that an error of the Java side is reported as.
pub(crate) fn refusal<T>(error: Error) -> (r: Result<T, HostFailure>)
    ensures
        refused(r, error),
{
    let message = describe(&error);
    Err(HostFailure { message })
}

/// The handle on the Java runtime, with the list of the calls made through
/// it.
pub struct JavaSession<'a> {
    env: &'a mut JNIEnv<'a>,
    calls: Ghost<Seq<JavaCall>>,
}

impl<'a> JavaSession<'a> {
    /// The calls made so far, oldest first.
    pub closed spec fn calls(&self) -> Seq<JavaCall> {
        self.calls@
    }

    /// A session through which no call has been made.
    pub(crate) fn new(env: &'a mut JNIEnv<'a>) -> (session: JavaSession<'a>)
        ensures
            session.calls() == Seq::<JavaCall>::empty(),
    {
        JavaSession { env, calls: Ghost(Seq::empty()) }
    }

    /// Constructs an object of the given class: one call, noted, whose
    /// outcome is the result.
    pub(crate) fn construct(&mut self, class: &str, signature: &str, arguments: &[JValueGen<&JObject<'_>>]) -> (built:
        Result<JObject<'a>, Error>)
        requires
            flat_signature(signature@),
        ensures
            final(self).calls() == old(self).calls().push(JavaCall::NewObject(class@, signature@)),
            constructed(class, signature, arguments, built),
    {
        let built = new_object(self.env, class, signature, arguments);
        proof {
            self.calls@ = self.calls@.push(JavaCall::NewObject(class@, signature@));
        }
        built
    }

    /// Makes a Java string of the text: one call, noted, whose outcome is
    /// the result.
    pub(crate) fn make_string(&mut self, text: &str) -> (made: Result<JString<'a>, Error>)
        ensures
            final(self).calls() == old(self).calls().push(JavaCall::NewString(text@)),
            made_string(text, made),
    {
        let made = new_string(self.env, text);
        proof {
            self.calls@ = self.calls@.push(JavaCall::NewString(text@));
        }
        made
    }

    /// Calls a method of `object`: one call, noted, whose outcome is the
    /// result.
    pub(crate) fn invoke(
        &mut self,
        object: &JObject<'_>,
        name: &str,
        signature: &str,
        arguments: &[JValueGen<&JObject<'_>>],
    ) -> (returned: Result<JValueGen<JObject<'a>>, Error>)
        requires
            flat_signature(signature@),
        ensures
            final(self).calls() == old(self).calls().push(JavaCall::CallMethod(name@, signature@)),
            called(object, name, signature, arguments, returned),
    {
        let returned = call_method(self.env, object, name, signature, arguments);
        proof {
            self.calls@ = self.calls@.push(JavaCall::CallMethod(name@, signature@));
        }
        returned
    }

    /// Calls a static method of `class`: one call, noted, whose outcome is
    /// the result.
    pub(crate) fn invoke_static(
        &mut self,
        class: JObject<'a>,
        name: &str,
        signature: &str,
        arguments: &[JValueGen<&JObject<'_>>],
    ) -> (returned: Result<JValueGen<JObject<'a>>, Error>)
        requires
            flat_signature(signature@),
        ensures
            final(self).calls() == old(self).calls().push(JavaCall::CallStaticMethod(name@, signature@)),
            called_static(class, name, signature, arguments, returned),
    {
        let returned = call_static_method(self.env, class, name, signature, arguments);
        proof {
            self.calls@ = self.calls@.push(JavaCall::CallStaticMethod(name@, signature@));
        }
        returned
    }

    /// Makes a global reference to `object`: one call, noted, whose outcome
    /// is the result.
    pub(crate) fn keep(&mut self, object: &JObject<'_>) -> (kept: Result<GlobalRef, Error>)
        ensures
            final(self).calls() == old(self).calls().push(JavaCall::NewGlobalRef),
            kept_global(object, kept),
    {
        let kept = new_global_ref(self.env, object);
        proof {
            self.calls@ = self.calls@.push(JavaCall::NewGlobalRef);
        }
        kept
    }

    /// Reads the text of the Java string `text`: one call, noted, whose
    /// outcome is the result.
    pub(crate) fn read(&mut self, text: JObject<'a>) -> (read: Result<String, Error>)
        ensures
            final(self).calls() == old(self).calls().push(JavaCall::GetString),
            read_text(text, read),
    {
        let read = read_string(self.env, text);
        proof {
            self.calls@ = self.calls@.push(JavaCall::GetString);
        }
        read
    }

    /// Has the pending Java exception printed and then clears it: two
    /// calls, noted in that order.
    pub(crate) fn clear_exception(&mut self)
        ensures
            final(self).calls() == old(self).calls().push(JavaCall::ExceptionDescribe).push(
                JavaCall::ExceptionClear,
            ),
            exists|env: &mut JNIEnv<'a>, described: Result<(), Error>|
                #[trigger] call_ensures(exception_describe, (env,), described),
            exists|env: &mut JNIEnv<'a>, cleared: Result<(), Error>|
                #[trigger] call_ensures(exception_clear, (env,), cleared),
    {
        let _described = exception_describe(self.env);
        let _cleared = exception_clear(self.env);
        proof {
            self.calls@ = self.calls@.push(JavaCall::ExceptionDescribe).push(JavaCall::ExceptionClear);
        }
    }
}

} // verus!
