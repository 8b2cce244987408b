//! The errors a compile or a link can surface.
//!
//! Each error carries the driver's diagnostic log verbatim, as the bytes the
//! driver wrote: the payload is never truncated or reformatted. The `text`
//! methods render it for a reader.

use vstd::prelude::*;

verus! {

/// Whether every byte is plain ASCII.
pub open spec fn all_ascii(s: Seq<u8>) -> bool {
    forall|j: int| 0 <= j < s.len() ==> s[j] < 0x80
}

/// The characters that a sequence of ASCII bytes spells.
pub open spec fn ascii_chars(s: Seq<u8>) -> Seq<char> {
    s.map_values(|b: u8| b as char)
}

/// Relies on `String::from_utf8_lossy`: bytes that are valid UTF-8 decode to
/// themselves — so ASCII bytes decode to the characters they spell — and
/// every invalid sequence becomes at least one replacement character, so a
/// non-empty log never comes back empty.
#[verifier::external_body]
fn utf8_lossy(bytes: &[u8]) -> (s: String)
    ensures
        bytes@.len() == 0 ==> s@.len() == 0,
        bytes@.len() > 0 ==> s@.len() > 0,
        all_ascii(bytes@) ==> s@ == ascii_chars(bytes@),
{
    String::from_utf8_lossy(bytes).into_owned()
}

/// The driver rejected a shader's source; `log` is its diagnostic text.
#[derive(Debug)]
pub struct CompileError {
    pub log: Vec<u8>,
}

/// The driver rejected a program's stage combination; `log` is its
/// diagnostic text.
#[derive(Debug)]
pub struct LinkError {
    pub log: Vec<u8>,
}

/// What can go wrong while making a shader from a source file: the driver
/// can reject the source, or the file cannot be read at all.
#[derive(Debug)]
pub enum ShaderError {
    /// The source was submitted and rejected.
    Compile(CompileError),
    /// The source never reached the driver; the message says why.
    Io(String),
}

impl CompileError {
    /// The diagnostic log as text. Empty exactly when the log is empty, and
    /// for an ASCII log — which driver logs are — the log verbatim.
    pub fn text(&self) -> (s: String)
        ensures
            self.log@.len() == 0 <==> s@.len() == 0,
            all_ascii(self.log@) ==> s@ == ascii_chars(self.log@),
    {
        utf8_lossy(self.log.as_slice())
    }
}

impl LinkError {
    /// The diagnostic log as text. Empty exactly when the log is empty, and
    /// for an ASCII log — which driver logs are — the log verbatim.
    pub fn text(&self) -> (s: String)
        ensures
            self.log@.len() == 0 <==> s@.len() == 0,
            all_ascii(self.log@) ==> s@ == ascii_chars(self.log@),
    {
        utf8_lossy(self.log.as_slice())
    }
}

impl ShaderError {
    /// The error rendered as text: the driver's log for a rejected source,
    /// the host's message for an unreadable file.
    pub fn text(&self) -> (s: String)
        ensures
            self matches ShaderError::Compile(e) ==> {
                &&& (e.log@.len() == 0 <==> s@.len() == 0)
                &&& (all_ascii(e.log@) ==> s@ == ascii_chars(e.log@))
            },
            self matches ShaderError::Io(m) ==> s@ == m@,
    {
        match self {
            ShaderError::Compile(e) => e.text(),
            ShaderError::Io(m) => m.clone(),
        }
    }
}

} // verus!
