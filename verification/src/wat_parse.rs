//! The WebAssembly text parser, and the error that only it gives.
use vstd::prelude::*;
use vstd::utf8::valid_utf8;

use crate::wat_source::starts_with_wasm_magic;

verus! {

/// A name for the binary that `wat::parse_bytes` makes of `text` when it
/// accepts it.
pub uninterp spec fn wat_binary(text: Seq<u8>) -> Seq<u8>;

/// A refusal of the text parser: its message, and the contents that it
/// refused. Only `wat_parse_bytes` makes one, when the parser refuses, so
/// holding one for some contents shows that the parser refused them.
#[derive(Clone, Debug, PartialEq, Eq)]
pub struct ParseError {
    message: String,
    text: Vec<u8>,
}

impl ParseError {
    /// The contents that the parser refused.
    pub closed spec fn source(&self) -> Seq<u8> {
        self.text@
    }

    /// The text of the parser's message.
    pub closed spec fn message_text(&self) -> Seq<char> {
        self.message@
    }

    /// The parser's message.
    pub fn message(&self) -> (res: &str)
        ensures
            res@ == self.message_text(),
    {
        self.message.as_str()
    }
}

/// Trusted: `wat::parse_bytes`. Bytes that begin with `\0asm` are returned
/// as they are. Other bytes must be UTF-8, else the call fails; UTF-8 text
/// in the WebAssembly text format is parsed into a binary, a function of
/// the text, or refused. A refusal is returned as a `ParseError` holding
/// the error's message and the refused contents. For component text,
/// whether the older index syntax is accepted depends on the process
/// environment (`WAST_STRICT_COMPONENT_INDICES`), which decides only
/// acceptance, never the binary; so when text is accepted is left unsaid.
#[verifier::external_body]
pub(crate) fn wat_parse_bytes(text: &[u8]) -> (res: Result<Vec<u8>, ParseError>)
    ensures
        res matches Ok(b) ==> b@ == wat_binary(text@),
        starts_with_wasm_magic(text@) ==> res is Ok,
        res matches Ok(b) ==> (starts_with_wasm_magic(text@) ==> b@ == text@),
        (!starts_with_wasm_magic(text@) && !valid_utf8(text@)) ==> res is Err,
        res matches Err(e) ==> e.source() == text@,
{
    match ::wat::parse_bytes(text) {
        Ok(binary) => Ok(binary.into_owned()),
        Err(e) => Err(ParseError { message: e.to_string(), text: text.to_vec() }),
    }
}

} // verus!
