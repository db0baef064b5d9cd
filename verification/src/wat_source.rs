//! Turning the contents of a module file, in the text format or already
//! binary, into a binary module.
use vstd::prelude::*;
use vstd::utf8::valid_utf8;

use crate::wat_parse::{wat_binary, wat_parse_bytes, ParseError};

verus! {

/// Whether `bytes` begins with the magic number `\0asm` of a binary.
pub open spec fn starts_with_wasm_magic(bytes: Seq<u8>) -> bool {
    &&& bytes.len() >= 4
    &&& bytes[0] == 0x00u8
    &&& bytes[1] == 0x61u8
    &&& bytes[2] == 0x73u8
    &&& bytes[3] == 0x6du8
}

/// The binary module in the contents `text` of a module file: text in the
/// WebAssembly text format is compiled, and a file that is already binary
/// (it begins with `\0asm`) is taken as it is. Nothing is refused but by
/// the parser: an error is the parser's refusal of these very contents.
pub fn module_from_source(text: &[u8]) -> (res: Result<Vec<u8>, ParseError>)
    ensures
        res matches Err(e) ==> e.source() == text@,
        res matches Ok(b) ==> b@ == wat_binary(text@),
        starts_with_wasm_magic(text@) ==> res is Ok,
        res matches Ok(b) ==> (starts_with_wasm_magic(text@) ==> b@ == text@),
        (!starts_with_wasm_magic(text@) && !valid_utf8(text@)) ==> res is Err,
{
    wat_parse_bytes(text)
}

} // verus!
