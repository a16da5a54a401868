//! The calls into the Java runtime that the Android host is made of.
//!
//! Nothing in this file is proved, and nothing is promised of what the Java
//! side answers: each function makes one call of the `jni` crate and hands
//! back what came of it.

use vstd::prelude::*;
use jni::errors::Error;
use jni::objects::{GlobalRef, JClass, JObject, JString, JValueGen};
use jni::JNIEnv;

verus! {

/// `jni::JNIEnv`, the handle on the Java runtime for the current thread.
#[verifier::external_type_specification]
#[verifier::external_body]
pub struct ExJNIEnv<'local>(JNIEnv<'local>);

/// `jni::objects::JObject`, a reference to a Java object.
#[verifier::external_type_specification]
#[verifier::external_body]
pub struct ExJObject<'local>(JObject<'local>);

/// `jni::sys::_jobject`, what a `JObject` points to.
#[verifier::external_type_specification]
#[verifier::external_body]
pub struct ExRawObject(jni::sys::_jobject);

/// `jni::objects::JString`, a reference to a Java string.
#[verifier::external_type_specification]
#[verifier::external_body]
pub struct ExJString<'local>(JString<'local>);

/// `jni::objects::GlobalRef`, a reference that outlives the local frame.
#[verifier::external_type_specification]
#[verifier::external_body]
pub struct ExGlobalRef(GlobalRef);

/// `jni::objects::JValueGen`, an argument or a result of a Java method.
#[verifier::external_type_specification]
#[verifier::external_body]
#[verifier::reject_recursive_types(O)]
pub struct ExJValueGen<O>(JValueGen<O>);

/// `jni::errors::Error`, what a call into the Java runtime fails with.
#[verifier::external_type_specification]
#[verifier::external_body]
pub struct ExJavaError(Error);

/// `JValue::from` on an object: the object as an argument of a call.
#[verifier::external_body]
pub(crate) fn object_argument<'local, 'obj_ref>(object: &'obj_ref JObject<'local>) -> JValueGen<
    &'obj_ref JObject<'local>,
> {
    JValueGen::from(object)
}

/// `JValue::from` on a string: the string as an argument of a call.
#[verifier::external_body]
pub(crate) fn string_argument<'local, 'obj_ref>(text: &'obj_ref JString<'local>) -> JValueGen<
    &'obj_ref JObject<'local>,
> {
    JValueGen::from(text)
}

/// `JValue::Int`: a 32-bit integer as an argument of a call.
#[verifier::external_body]
pub(crate) fn int_argument<'local, 'obj_ref>(value: i32) -> JValueGen<&'obj_ref JObject<'local>> {
    JValueGen::Int(value)
}

/// `GlobalRef::as_obj`: the object that a global reference refers to.
#[verifier::external_body]
pub(crate) fn global_object(global: &GlobalRef) -> &JObject<'static> {
    global.as_obj()
}

/// Whether a method signature names no method type among its parameters:
/// no parenthesis opens after the first character.
///
/// The `jni` crate parses a signature before it makes a call, and takes a
/// whole method signature where a parameter type is expected. A call with
/// such a signature panics; the calls below leave those signatures out.
pub open spec fn flat_signature(signature: Seq<char>) -> bool {
    forall|i: int| 1 <= i < signature.len() ==> signature[i] != '('
}

/// `JNIEnv::new_object`: constructs an object of the named class with the
/// constructor of the given signature. The signature must be flat.
#[verifier::external_body]
pub(crate) fn new_object<'local>(
    env: &mut JNIEnv<'local>,
    class: &str,
    signature: &str,
    arguments: &[JValueGen<&JObject<'_>>],
) -> Result<JObject<'local>, Error>
    requires
        flat_signature(signature@),
{
    env.new_object(class, signature, arguments)
}

/// `JNIEnv::new_string`: makes a Java string of the text.
#[verifier::external_body]
pub(crate) fn new_string<'local>(env: &mut JNIEnv<'local>, text: &str) -> Result<JString<'local>, Error> {
    env.new_string(text)
}

/// `JNIEnv::call_method`: calls the named method of the object. The
/// signature must be flat.
#[verifier::external_body]
pub(crate) fn call_method<'local>(
    env: &mut JNIEnv<'local>,
    target: &JObject<'_>,
    name: &str,
    signature: &str,
    arguments: &[JValueGen<&JObject<'_>>],
) -> Result<JValueGen<JObject<'local>>, Error>
    requires
        flat_signature(signature@),
{
    env.call_method(target, name, signature, arguments)
}

/// `JNIEnv::call_static_method`: calls the named static method of the class
/// that the object is. The signature must be flat.
#[verifier::external_body]
pub(crate) fn call_static_method<'local>(
    env: &mut JNIEnv<'local>,
    class: JObject<'local>,
    name: &str,
    signature: &str,
    arguments: &[JValueGen<&JObject<'_>>],
) -> Result<JValueGen<JObject<'local>>, Error>
    requires
        flat_signature(signature@),
{
    env.call_static_method(&JClass::from(class), name, signature, arguments)
}

/// `JValueOwned::l`: the object that a method returned, or an error if it
/// returned something else.
#[verifier::external_body]
pub(crate) fn into_object<'local>(value: JValueGen<JObject<'local>>) -> Result<JObject<'local>, Error> {
    value.l()
}

/// `JNIEnv::new_global_ref`: a global reference to the object.
#[verifier::external_body]
pub(crate) fn new_global_ref(env: &mut JNIEnv<'_>, object: &JObject<'_>) -> Result<GlobalRef, Error> {
    env.new_global_ref(object)
}

/// `JNIEnv::get_string`: the text of a Java string.
#[verifier::external_body]
pub(crate) fn read_string<'local>(env: &mut JNIEnv<'local>, text: JObject<'local>) -> Result<String, Error> {
    let text = JString::from(text);
    env.get_string(&text).map(String::from)
}

/// `JNIEnv::exception_describe`: has the runtime print the pending Java
/// exception.
#[verifier::external_body]
pub(crate) fn exception_describe(env: &mut JNIEnv<'_>) -> Result<(), Error> {
    env.exception_describe()
}

/// `JNIEnv::exception_clear`: clears the pending Java exception.
#[verifier::external_body]
pub(crate) fn exception_clear(env: &mut JNIEnv<'_>) -> Result<(), Error> {
    env.exception_clear()
}

/// The `Debug` text of an error.
#[verifier::external_body]
pub(crate) fn describe(error: &Error) -> String {
    format!("{:?}", error)
}

} // verus!
