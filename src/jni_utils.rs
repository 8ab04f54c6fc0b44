//! Calls into the platform's managed runtime through JNI: method calls with
//! fixed signatures and the conversion of their results.
use vstd::prelude::*;
use jni::errors::Error as JniFailure;
use jni::objects::{JObject, JValue};
use jni::JNIEnv;

verus! {

/// jni's handle on the managed runtime of the calling thread, carried
/// through unopened.
#[verifier::external_type_specification]
#[verifier::external_body]
pub struct ExJNIEnv<'a>(JNIEnv<'a>);

/// jni's local reference to a managed object, carried through unopened.
#[verifier::external_type_specification]
#[verifier::external_body]
pub struct ExJObject<'a>(JObject<'a>);

/// jni's tagged value returned by a managed method call.
#[verifier::external_type_specification]
#[verifier::external_body]
pub struct ExJValue<'a>(JValue<'a>);

/// jni's error type.
#[verifier::external_type_specification]
#[verifier::external_body]
pub struct ExJniFailure(JniFailure);

/// The raw object type behind `JObject`'s dereference, declared so that
/// `JObject` can be named at all.
#[verifier::external_type_specification]
#[verifier::external_body]
pub struct ExRawObject(jni::sys::_jobject);

/// JNI signature of a method without arguments that returns an `int`.
pub const SIG_RET_INT: &'static str = "()I";

/// JNI signature of a method without arguments that returns a `boolean`.
pub const SIG_RET_BOOL: &'static str = "()Z";

/// JNI signature of a method without arguments that returns an `int[]`.
pub const SIG_RET_INT_ARRAY: &'static str = "()[I";

/// JNI signature of a method without arguments that returns a `String`.
pub const SIG_RET_STRING: &'static str = "()Ljava/lang/String;";

/// JNI signature of a method without arguments that returns a
/// `CharSequence`.
pub const SIG_RET_CHAR_SEQUENCE: &'static str = "()Ljava/lang/CharSequence;";

/// JNI signature of a method that takes a `String` and returns an `Object`.
pub const SIG_STRING_ARG_RET_OBJECT: &'static str = "(Ljava/lang/String;)Ljava/lang/Object;";

/// Relies on `JNIEnv::call_method`: calls `method` of `subject` with JNI
/// signature `sig` and no arguments; what it returns depends on the runtime.
#[verifier::external_body]
fn call_method<'a>(env: &JNIEnv<'a>, subject: JObject<'a>, method: &str, sig: &str) -> Result<JValue<'a>, JniFailure> {
    env.call_method(subject, method, sig, &[])
}

/// Relies on `JNIEnv::call_method`: calls `method` of `subject` with JNI
/// signature `sig` and the single object argument `arg`.
#[verifier::external_body]
fn call_method_with_object<'a>(
    env: &JNIEnv<'a>,
    subject: JObject<'a>,
    method: &str,
    sig: &str,
    arg: JObject<'a>,
) -> Result<JValue<'a>, JniFailure> {
    env.call_method(subject, method, sig, &[arg.into()])
}

/// Relies on `JNIEnv::call_method`: calls `method` of `subject` with JNI
/// signature `sig` and the single `int` argument `arg`.
#[verifier::external_body]
pub(crate) fn call_method_with_int<'a>(
    env: &JNIEnv<'a>,
    subject: JObject<'a>,
    method: &str,
    sig: &str,
    arg: i32,
) -> Result<JValue<'a>, JniFailure> {
    env.call_method(subject, method, sig, &[arg.into()])
}

/// Relies on `JValue::i`: the value as an `int`, an error for another type.
#[verifier::external_body]
fn value_int(v: JValue) -> Result<i32, JniFailure> {
    v.i()
}

/// Relies on `JValue::z`: the value as a `boolean`, an error for another
/// type.
#[verifier::external_body]
fn value_bool(v: JValue) -> Result<bool, JniFailure> {
    v.z()
}

/// Relies on `JValue::l`: the value as an object, an error for another type.
#[verifier::external_body]
pub(crate) fn value_object<'a>(v: JValue<'a>) -> Result<JObject<'a>, JniFailure> {
    v.l()
}

/// Relies on `JNIEnv::new_string`: a new managed string holding `s`.
#[verifier::external_body]
fn new_string<'a>(env: &JNIEnv<'a>, s: &str) -> Result<JObject<'a>, JniFailure> {
    env.new_string(s).map(JObject::from)
}

/// Relies on `JNIEnv::get_string`: the contents of a managed string.
#[verifier::external_body]
fn string_contents<'a>(env: &JNIEnv<'a>, obj: JObject<'a>) -> Result<String, JniFailure> {
    env.get_string(obj.into()).map(String::from)
}

/// Relies on `JNIEnv::get_int_array_region`: copies the first `buf.len()`
/// elements of a managed `int[]` into `buf`, whose length stays.
#[verifier::external_body]
fn int_array_region<'a>(env: &JNIEnv<'a>, array: JObject<'a>, buf: &mut Vec<i32>) -> (r: Result<(), JniFailure>)
    ensures
        final(buf)@.len() == old(buf)@.len(),
{
    env.get_int_array_region(array.into_inner(), 0, buf.as_mut_slice())
}

/// Relies on `JNIEnv::get_array_length`: the length of a managed array.
#[verifier::external_body]
fn array_length<'a>(env: &JNIEnv<'a>, array: JObject<'a>) -> Result<i32, JniFailure> {
    env.get_array_length(array.into_inner())
}

/// Relies on `JNIEnv::delete_local_ref`: releases a local reference.
#[verifier::external_body]
fn delete_local_ref<'a>(env: &JNIEnv<'a>, obj: JObject<'a>) -> Result<(), JniFailure> {
    env.delete_local_ref(obj)
}

/// Calls a method without arguments that returns an `int[]`, and copies the
/// array out.
pub fn call_method_no_args_ret_int_array<'a>(env: &JNIEnv<'a>, subject: JObject<'a>, method: &str) -> Result<Vec<i32>, JniFailure> {
    let array = match call_method(env, subject, method, SIG_RET_INT_ARRAY) {
        Ok(v) => match value_object(v) {
            Ok(a) => a,
            Err(e) => return Err(e),
        },
        Err(e) => return Err(e),
    };
    let result = read_int_array(env, array);
    let released = delete_local_ref(env, array);
    match (result, released) {
        (Ok(values), Ok(())) => Ok(values),
        (Err(e), _) => Err(e),
        (_, Err(e)) => Err(e),
    }
}

fn read_int_array<'a>(env: &JNIEnv<'a>, array: JObject<'a>) -> Result<Vec<i32>, JniFailure> {
    let length = match array_length(env, array) {
        Ok(n) => n,
        Err(e) => return Err(e),
    };
    let mut values: Vec<i32> = Vec::new();
    let mut i: i32 = 0;
    while i < length
        invariant
            0 <= i,
            i <= length || length < 0,
            values@.len() == i,
        decreases length - i,
    {
        values.push(0);
        i = i + 1;
    }
    match int_array_region(env, array, &mut values) {
        Ok(()) => Ok(values),
        Err(e) => Err(e),
    }
}

/// Calls a method without arguments that returns an `int`.
pub fn call_method_no_args_ret_int<'a>(env: &JNIEnv<'a>, subject: JObject<'a>, method: &str) -> Result<i32, JniFailure> {
    match call_method(env, subject, method, SIG_RET_INT) {
        Ok(v) => value_int(v),
        Err(e) => Err(e),
    }
}

/// Calls a method without arguments that returns a `boolean`.
pub fn call_method_no_args_ret_bool<'a>(env: &JNIEnv<'a>, subject: JObject<'a>, method: &str) -> Result<bool, JniFailure> {
    match call_method(env, subject, method, SIG_RET_BOOL) {
        Ok(v) => value_bool(v),
        Err(e) => Err(e),
    }
}

/// Calls a method without arguments that returns a `String`, and copies the
/// string out.
pub fn call_method_no_args_ret_string<'a>(env: &JNIEnv<'a>, subject: JObject<'a>, method: &str) -> Result<String, JniFailure> {
    match call_method(env, subject, method, SIG_RET_STRING) {
        Ok(v) => match value_object(v) {
            Ok(s) => string_contents(env, s),
            Err(e) => Err(e),
        },
        Err(e) => Err(e),
    }
}

/// Calls a method without arguments that returns a `CharSequence`, and
/// copies its `toString()` out.
pub fn call_method_no_args_ret_char_sequence<'a>(env: &JNIEnv<'a>, subject: JObject<'a>, method: &str) -> Result<String, JniFailure> {
    let sequence = match call_method(env, subject, method, SIG_RET_CHAR_SEQUENCE) {
        Ok(v) => match value_object(v) {
            Ok(s) => s,
            Err(e) => return Err(e),
        },
        Err(e) => return Err(e),
    };
    call_method_no_args_ret_string(env, sequence, "toString")
}

/// Calls a method that takes a `String` and returns an `Object`.
pub fn call_method_string_arg_ret_object<'a>(
    env: &JNIEnv<'a>,
    subject: JObject<'a>,
    method: &str,
    arg: &str,
) -> Result<JObject<'a>, JniFailure> {
    let arg_obj = match new_string(env, arg) {
        Ok(s) => s,
        Err(e) => return Err(e),
    };
    match call_method_with_object(env, subject, method, SIG_STRING_ARG_RET_OBJECT, arg_obj) {
        Ok(v) => value_object(v),
        Err(e) => Err(e),
    }
}

/// Looks up a system service of the platform by name.
pub fn get_system_service<'a>(env: &JNIEnv<'a>, subject: JObject<'a>, name: &str) -> Result<JObject<'a>, JniFailure> {
    call_method_string_arg_ret_object(env, subject, "getSystemService", name)
}

} // verus!
