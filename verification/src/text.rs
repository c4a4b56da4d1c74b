//! The text format: from text to binary and back, done by the `wat` and
//! `wasmprinter` crates.
use vstd::prelude::*;

verus! {

/// What `wat::parse_str` makes of a text: its binary encoding, or the text of its error.
pub uninterp spec fn wat_binary(text: Seq<char>) -> Result<Seq<u8>, Seq<char>>;

/// The input begins with the four bytes that open a binary.
pub open spec fn has_magic(bytes: Seq<u8>) -> bool {
    bytes.len() >= 4 && bytes[0] == 0x00 && bytes[1] == 0x61 && bytes[2] == 0x73 && bytes[3] == 0x6d
}

/// What `wat::parse_bytes` makes of its input, which may be text or binary:
/// a binary is handed back as it is; bytes that are no UTF-8 are an error;
/// anything else is assembled as the text that it encodes.
pub open spec fn wat_or_binary(bytes: Seq<u8>) -> Result<Seq<u8>, Seq<char>> {
    if has_magic(bytes) {
        Ok(bytes)
    } else if vstd::utf8::valid_utf8(bytes) {
        wat_binary(vstd::utf8::decode_utf8(bytes))
    } else {
        Err("input bytes aren't valid utf-8"@)
    }
}

/// What `wasmprinter::print_bytes` makes of a binary: its text, or the text of its error.
pub uninterp spec fn printed(bytes: Seq<u8>) -> Result<Seq<char>, Seq<char>>;

/// A result of bytes with both sides taken by their views.
pub open spec fn bytes_result(r: Result<Vec<u8>, String>) -> Result<Seq<u8>, Seq<char>> {
    match r {
        Ok(bytes) => Ok(bytes@),
        Err(message) => Err(message@),
    }
}

/// A result of text with both sides taken by their views.
pub open spec fn text_result(r: Result<String, String>) -> Result<Seq<char>, Seq<char>> {
    match r {
        Ok(text) => Ok(text@),
        Err(message) => Err(message@),
    }
}

/// Calls `wat::parse_str`; an error is given by its `Display` text.
#[verifier::external_body]
fn assemble(text: &str) -> (r: Result<Vec<u8>, String>)
    ensures
        bytes_result(r) == wat_binary(text@),
{
    match wat::parse_str(text) {
        Ok(bytes) => Ok(bytes),
        Err(error) => Err(error.to_string()),
    }
}

/// Calls `wat::parse_bytes`; an error is given by its `Display` text. By its
/// source the call hands a binary back unchanged, fails on bytes that are no
/// UTF-8 with a fixed message, and otherwise does what `wat::parse_str` does.
#[verifier::external_body]
fn assemble_bytes(bytes: &[u8]) -> (r: Result<Vec<u8>, String>)
    ensures
        bytes_result(r) == wat_or_binary(bytes@),
{
    match wat::parse_bytes(bytes) {
        Ok(binary) => Ok(binary.into_owned()),
        Err(error) => Err(error.to_string()),
    }
}

/// Calls `wasmprinter::print_bytes`; an error is given by its `Display` text.
#[verifier::external_body]
fn print(bytes: &[u8]) -> (r: Result<String, String>)
    ensures
        text_result(r) == printed(bytes@),
{
    match wasmprinter::print_bytes(bytes) {
        Ok(text) => Ok(text),
        Err(error) => Err(error.to_string()),
    }
}

/// A module in both forms: its binary encoding and its canonical text.
#[derive(Debug)]
pub struct DesugarResult {
    pub bytes: Vec<u8>,
    pub wat: String,
}

/// What [`desugar_wat`] gives for a text: its binary together with the text
/// printed from that binary, or the first error on the way.
pub open spec fn desugared(text: Seq<char>) -> Result<(Seq<u8>, Seq<char>), Seq<char>> {
    match wat_binary(text) {
        Err(message) => Err(message),
        Ok(bytes) => match printed(bytes) {
            Err(message) => Err(message),
            Ok(wat) => Ok((bytes, wat)),
        },
    }
}

/// A desugaring result with both sides taken by their views.
pub open spec fn desugar_result(r: Result<DesugarResult, String>) -> Result<(Seq<u8>, Seq<char>), Seq<char>> {
    match r {
        Ok(d) => Ok((d.bytes@, d.wat@)),
        Err(message) => Err(message@),
    }
}

/// Assembles text to binary and prints the binary back as text.
pub fn desugar_wat(str: String) -> (r: Result<DesugarResult, String>)
    ensures
        desugar_result(r) == desugared(str@),
{
    let bytes = match assemble(str.as_str()) {
        Ok(bytes) => bytes,
        Err(message) => {
            return Err(message);
        },
    };
    match print(bytes.as_slice()) {
        Ok(wat) => Ok(DesugarResult { bytes, wat }),
        Err(message) => Err(message),
    }
}

/// Assembles text to binary.
pub fn parse_wat(str: String) -> (r: Result<Vec<u8>, String>)
    ensures
        bytes_result(r) == wat_binary(str@),
{
    assemble(str.as_str())
}

/// Assembles text given as bytes to binary; a binary passes through.
pub fn parse_bytes(bytes: Vec<u8>) -> (r: Result<Vec<u8>, String>)
    ensures
        bytes_result(r) == wat_or_binary(bytes@),
{
    assemble_bytes(bytes.as_slice())
}

/// Prints a binary as text.
pub fn print_bytes(bytes: Vec<u8>) -> (r: Result<String, String>)
    ensures
        text_result(r) == printed(bytes@),
{
    print(bytes.as_slice())
}

} // verus!
