//! Strings hold UTF-8 text: greetings from many scripts are all valid
//! values.

use vstd::prelude::*;
use vstd::string::StringExecFns;

verus! {

/// Builds a greeting in each of several scripts; every one is a valid
/// string.
pub fn valid_strings() {
    let hello = String::from_str("السلام عليكم");
    let hello = String::from_str("Dobrý den");
    let hello = String::from_str("Hello");
    assert(hello@ == "Hello"@);
    let hello = String::from_str("שָׁלוֹם");
    let hello = String::from_str("नमस्ते");
    let hello = String::from_str("こんにちは");
    let hello = String::from_str("안녕하세요");
    let hello = String::from_str("你好");
    let hello = String::from_str("Olá");
    let hello = String::from_str("Здравствуйте");
    let hello = String::from_str("Hola");
    assert(hello@ == "Hola"@);
    let _ = hello;
}

} // verus!
