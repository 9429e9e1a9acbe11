//! A minimal text bridge: one synthesis operation that hands its caller an
//! owned, NUL-terminated byte buffer holding a fixed diagnostic message, and
//! a paired release operation that takes the buffer back.
//!
//! The bridge is stateless: every call allocates an independent buffer whose
//! contents are pinned byte for byte, whatever the input was. The input is a
//! borrowed byte sequence or nothing at all; its content, well encoded or
//! not, is read by nobody and never freed here.

use vstd::prelude::*;

verus! {

/// The fixed diagnostic text that every synthesis call produces.
pub open spec fn diagnostic_text() -> Seq<char> {
    "Rust synthesis not implemented in freemium placeholder"@
}

/// The diagnostic text as bytes: it is ASCII, one byte per character.
pub open spec fn diagnostic_bytes() -> Seq<u8> {
    Seq::new(diagnostic_text().len(), |i: int| diagnostic_text()[i] as u8)
}

/// The exact contents of every output buffer: the diagnostic bytes followed
/// by one terminating NUL.
pub open spec fn output_bytes() -> Seq<u8> {
    diagnostic_bytes().push(0)
}

/// A byte sequence is the image of a C string: non-empty, ending in NUL,
/// with no interior NUL.
pub open spec fn nul_terminated(s: Seq<u8>) -> bool {
    &&& s.len() >= 1
    &&& s[s.len() - 1] == 0
    &&& forall|i: int| 0 <= i < s.len() - 1 ==> s[i] != 0
}

/// Every character of the diagnostic text is printable ASCII: above NUL and
/// at most 0x7f.
proof fn lemma_diagnostic_text_ascii()
    ensures
        forall|i: int| 0 <= i < diagnostic_text().len()
            ==> '\0' < #[trigger] diagnostic_text()[i] <= '\u{7f}',
{
    reveal_strlit("Rust synthesis not implemented in freemium placeholder");
}

/// Law: the output of synthesis is a well-formed C string image, one byte
/// longer than the diagnostic text it carries.
pub proof fn lemma_output_well_formed()
    ensures
        nul_terminated(output_bytes()),
        output_bytes().len() == diagnostic_text().len() + 1,
        output_bytes().subrange(0, diagnostic_text().len() as int) == diagnostic_bytes(),
{
    lemma_diagnostic_text_ascii();
    assert(output_bytes().subrange(0, diagnostic_text().len() as int) =~= diagnostic_bytes());
}

/// An owned output buffer: a NUL-terminated byte sequence that the bridge
/// allocates and whose ownership passes to the caller, to be given back
/// exactly once through [`release`].
pub struct OwnedText {
    bytes: Vec<u8>,
}

impl View for OwnedText {
    type V = Seq<u8>;

    closed spec fn view(&self) -> Seq<u8> {
        self.bytes@
    }
}

impl OwnedText {
    /// The buffer is the image of a C string: NUL at the end and nowhere else.
    pub open spec fn wf(&self) -> bool {
        nul_terminated(self@)
    }

    /// Read access to the whole buffer, terminator included.
    pub fn as_bytes(&self) -> (r: &[u8])
        ensures
            r@ == self@,
    {
        self.bytes.as_slice()
    }

    /// The buffer's length in bytes, terminator included.
    pub fn len(&self) -> (n: usize)
        ensures
            n == self@.len(),
    {
        self.bytes.len()
    }

    /// Gives up the buffer as a plain byte vector, terminator included.
    pub fn into_bytes(self) -> (r: Vec<u8>)
        ensures
            r@ == self@,
    {
        self.bytes
    }
}

/// The diagnostic message as owned text, without the terminator.
pub fn diagnostic_message() -> (r: String)
    ensures
        r@ == diagnostic_text(),
{
    String::from_str("Rust synthesis not implemented in freemium placeholder")
}

/// Synthesis: returns a freshly allocated buffer holding exactly the
/// diagnostic bytes and their terminating NUL, whatever the input was.
///
/// The input is a borrowed byte sequence, or `None` where the caller passed
/// no input at all. Any content is accepted — malformed encodings included —
/// and ignored; the buffer that comes back is the same for every input.
pub fn synthesize_reasoning(_input: Option<&[u8]>) -> (r: OwnedText)
    ensures
        r.wf(),
        r@ == output_bytes(),
{
    let message = "Rust synthesis not implemented in freemium placeholder";
    proof {
        lemma_diagnostic_text_ascii();
        assert(message@ == diagnostic_text());
        assert(vstd::utf8::is_ascii_chars(message@));
        vstd::string::is_ascii_spec_bytes(message);
    }
    let mut bytes = message.as_bytes_vec();
    proof {
        assert(bytes@ =~= diagnostic_bytes());
    }
    bytes.push(0);
    proof {
        lemma_output_well_formed();
    }
    OwnedText { bytes }
}

/// Release: takes an output buffer back from the caller and destroys it.
/// Ownership moves into the call, so each buffer can be given back at most
/// once, and nothing of it remains afterwards.
pub fn release(buffer: OwnedText) {
    let _ = buffer;
}

/// Law: any two output buffers of synthesis hold the same bytes — the result
/// is stable across calls and independent of every input, and each buffer is
/// a well-formed C string image of its own.
pub proof fn lemma_outputs_agree(a: OwnedText, b: OwnedText)
    requires
        a@ == output_bytes(),
        b@ == output_bytes(),
    ensures
        a@ == b@,
        a.wf(),
        b.wf(),
{
    lemma_output_well_formed();
}

} // verus!
