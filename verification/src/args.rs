//! Host argument strings in the NUL-terminated form that the engine's entry
//! point expects.

use crate::error::Error;
use vstd::prelude::*;
use vstd::utf8::encode_utf8;

verus! {

/// Whether the terminator byte occurs in `bytes`.
pub open spec fn has_nul(bytes: Seq<u8>) -> bool {
    exists|i: int| 0 <= i < bytes.len() && bytes[i] == 0
}

/// Whether `position` is where the first terminator byte of `bytes` stands.
pub open spec fn first_nul_at(bytes: Seq<u8>, position: int) -> bool {
    &&& 0 <= position < bytes.len()
    &&& bytes[position] == 0
    &&& forall|j: int| 0 <= j < position ==> bytes[j] != 0
}

/// `bytes` followed by the terminator.
pub open spec fn terminated(bytes: Seq<u8>) -> Seq<u8> {
    bytes.push(0u8)
}

/// The call of the engine's entry point that a host's arguments stand for.
#[derive(Debug, PartialEq, Eq)]
pub struct EntryCall {
    /// The number of arguments, as the C `int` that the entry point takes.
    pub argc: libc::c_int,
    /// The arguments in order, each in NUL-terminated form.
    pub argv: Vec<Vec<u8>>,
}

/// Whether `argument` is the index of the first of `args` whose bytes hold a
/// terminator.
pub open spec fn first_bad_argument(args: Seq<String>, argument: int) -> bool {
    &&& 0 <= argument < args.len()
    &&& has_nul(encode_utf8(args[argument]@))
    &&& forall|j: int| 0 <= j < argument ==> !has_nul(encode_utf8((#[trigger] args[j])@))
}

/// Converts one string to its NUL-terminated form: the bytes of its UTF-8
/// encoding and one terminator after them. A string that holds a NUL byte has
/// no such form; the offset of its first NUL byte is returned instead.
pub fn to_c_string(arg: &str) -> (r: Result<Vec<u8>, usize>)
    ensures
        match r {
            Ok(c) => !has_nul(encode_utf8(arg@)) && c@ == terminated(encode_utf8(arg@)),
            Err(position) => first_nul_at(encode_utf8(arg@), position as int),
        },
{
    let bytes = arg.as_bytes();
    let mut c: Vec<u8> = Vec::new();
    let mut i: usize = 0;
    while i < bytes.len()
        invariant
            bytes@ == encode_utf8(arg@),
            0 <= i <= bytes.len(),
            c@ == bytes@.take(i as int),
            forall|j: int| 0 <= j < i ==> bytes@[j] != 0,
        decreases bytes.len() - i,
    {
        let b: u8 = bytes[i];
        if b == 0 {
            return Err(i);
        }
        c.push(b);
        i = i + 1;
    }
    c.push(0u8);
    Ok(c)
}

/// The NUL-terminated form of bytes that hold no terminator is one byte
/// longer than they are, and its only terminator is its last byte.
pub proof fn lemma_terminator_is_last(bytes: Seq<u8>)
    requires
        !has_nul(bytes),
    ensures
        terminated(bytes).len() == bytes.len() + 1,
        first_nul_at(terminated(bytes), bytes.len() as int),
{
}

/// Prepares the call of the engine's entry point: converts the host's
/// argument vector, in order, to NUL-terminated strings, and counts it. No
/// argument is cut short: if any holds a NUL byte, the conversion fails
/// before the engine is called, and the error names the first such argument
/// and the offset of its first NUL byte. The count is the length of the
/// vector as a C `int`; a length that a C `int` cannot hold wraps, as the
/// conversion to that type does.
pub fn wasm_opt_main(args: &Vec<String>) -> (r: Result<EntryCall, Error>)
    ensures
        match r {
            Ok(EntryCall { argc, argv }) => {
                &&& argc == args@.len() as i32
                &&& args@.len() <= i32::MAX ==> argc == args@.len()
                &&& argv@.len() == args@.len()
                &&& forall|i: int|
                    0 <= i < args@.len() ==> !has_nul(encode_utf8((#[trigger] args@[i])@))
                &&& forall|i: int|
                    0 <= i < args@.len() ==> (#[trigger] argv@[i])@ == terminated(
                        encode_utf8(args@[i]@),
                    )
            },
            Err(Error::ArgumentConversion { argument, position }) => {
                &&& first_bad_argument(args@, argument as int)
                &&& first_nul_at(encode_utf8(args@[argument as int]@), position as int)
            },
            Err(_) => false,
        },
{
    let mut argv: Vec<Vec<u8>> = Vec::new();
    let mut i: usize = 0;
    while i < args.len()
        invariant
            0 <= i <= args.len(),
            argv@.len() == i,
            forall|j: int| 0 <= j < i ==> !has_nul(encode_utf8((#[trigger] args@[j])@)),
            forall|j: int|
                0 <= j < i ==> (#[trigger] argv@[j])@ == terminated(encode_utf8(args@[j]@)),
        decreases args.len() - i,
    {
        match to_c_string(args[i].as_str()) {
            Ok(c) => {
                argv.push(c);
            },
            Err(position) => {
                return Err(Error::ArgumentConversion { argument: i, position });
            },
        }
        i = i + 1;
    }
    let argc: libc::c_int = #[verifier::truncate] (args.len() as libc::c_int);
    Ok(EntryCall { argc, argv })
}

} // verus!
