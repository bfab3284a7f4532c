//! Text on its way to and from the native client library.
//!
//! Outbound text becomes a zero-terminated byte string; a zero byte inside it
//! is an error value, never a crash. Inbound text arrives as the bytes in
//! front of the terminator, or as nothing at all where the native side handed
//! back a null pointer, and is decoded with replacement of what is not UTF-8.

use vstd::prelude::*;
use vstd::slice::slice_to_vec;
use vstd::string::StringSliceAdditionalSpecFns;
use vstd::utf8::{char_is_scalar, encode_utf8_decode_utf8, encode_utf8_valid_utf8};
use vstd::utf8::{decode_utf8, encode_scalar, encode_utf8, is_scalar, valid_utf8};

verus! {

/// `bytes` holds a zero byte somewhere.
pub open spec fn has_nul(bytes: Seq<u8>) -> bool {
    exists|i: int| 0 <= i < bytes.len() && bytes[i] == 0u8
}

/// `at` is the place of the first zero byte of `bytes`.
pub open spec fn first_nul_at(bytes: Seq<u8>, at: int) -> bool {
    &&& 0 <= at < bytes.len()
    &&& bytes[at] == 0u8
    &&& forall|j: int| 0 <= j < at ==> bytes[j] != 0u8
}

/// `chars` holds the character U+0000 somewhere.
pub open spec fn has_nul_char(chars: Seq<char>) -> bool {
    exists|i: int| 0 <= i < chars.len() && chars[i] == '\0'
}

/// The bytes that cross the boundary for the content `bytes`: the content and
/// one terminating zero.
pub open spec fn terminated(bytes: Seq<u8>) -> Seq<u8> {
    bytes.push(0u8)
}

/// Outbound text was refused because it holds a zero byte.
#[derive(Debug)]
pub struct MarshalError {
    position: usize,
    bytes: Vec<u8>,
}

impl MarshalError {
    #[verifier::type_invariant]
    spec fn points_at_first_nul(&self) -> bool {
        first_nul_at(self.bytes@, self.position as int)
    }

    /// The bytes that were refused.
    pub closed spec fn refused(&self) -> Seq<u8> {
        self.bytes@
    }

    /// The place of the first zero byte among the refused bytes.
    pub closed spec fn position(&self) -> int {
        self.position as int
    }

    /// Where the first zero byte stands.
    pub fn nul_position(&self) -> (at: usize)
        ensures
            at == self.position(),
            first_nul_at(self.refused(), at as int),
    {
        proof {
            use_type_invariant(self);
        }
        self.position
    }

    /// Gives back the bytes that were refused.
    pub fn into_vec(self) -> (bytes: Vec<u8>)
        ensures
            bytes@ == self.refused(),
            has_nul(bytes@),
    {
        proof {
            use_type_invariant(&self);
        }
        self.bytes
    }
}

/// Looks for the first zero byte.
pub fn find_nul(bytes: &[u8]) -> (found: Option<usize>)
    ensures
        match found {
            Some(at) => first_nul_at(bytes@, at as int),
            None => !has_nul(bytes@),
        },
{
    let mut i: usize = 0;
    while i < bytes.len()
        invariant
            i <= bytes.len(),
            forall|j: int| 0 <= j < i ==> bytes@[j] != 0u8,
        decreases bytes.len() - i,
    {
        if bytes[i] == 0 {
            return Some(i);
        }
        i += 1;
    }
    None
}

/// Text in the form the native library takes: content free of zero bytes,
/// followed by one terminating zero.
#[derive(Debug)]
pub struct CText {
    bytes: Vec<u8>,
}

impl View for CText {
    type V = Seq<u8>;

    /// The content, without the terminator.
    closed spec fn view(&self) -> Seq<u8> {
        self.bytes@.drop_last()
    }
}

/// `r` is what marshalling makes of `bytes`: the text with these bytes as
/// content where they hold no zero byte, else the error that gives them back
/// and points at their first zero.
pub open spec fn marshals(bytes: Seq<u8>, r: Result<CText, MarshalError>) -> bool {
    match r {
        Ok(text) => !has_nul(bytes) && text@ == bytes,
        Err(e) => e.refused() == bytes && first_nul_at(bytes, e.position()),
    }
}

impl CText {
    #[verifier::type_invariant]
    spec fn well_formed(&self) -> bool {
        &&& self.bytes@.len() > 0
        &&& self.bytes@.last() == 0u8
        &&& !has_nul(self.bytes@.drop_last())
    }

    /// Marshals raw bytes: `Ok` exactly when they hold no zero byte, else the
    /// error that gives the bytes back and points at their first zero.
    pub fn from_vec(bytes: Vec<u8>) -> (r: Result<CText, MarshalError>)
        ensures
            marshals(bytes@, r),
    {
        match find_nul(bytes.as_slice()) {
            Some(position) => Err(MarshalError { position, bytes }),
            None => {
                let ghost content = bytes@;
                let mut bytes = bytes;
                bytes.push(0);
                assert(bytes@.drop_last() =~= content);
                Ok(CText { bytes })
            },
        }
    }

    /// Marshals host text: its UTF-8 bytes, refused exactly when one of them
    /// is zero, which is when the text holds U+0000.
    pub fn new(s: &str) -> (r: Result<CText, MarshalError>)
        ensures
            marshals(s.spec_bytes(), r),
            r is Ok <==> !has_nul_char(s@),
    {
        proof {
            lemma_nul_byte_is_nul_char(s@);
        }
        CText::from_vec(slice_to_vec(s.as_bytes()))
    }

    /// The content, without the terminator.
    pub fn as_bytes(&self) -> (content: &[u8])
        ensures
            content@ == self@,
            !has_nul(content@),
    {
        proof {
            use_type_invariant(self);
        }
        let n: usize = self.bytes.len() - 1;
        let content = vstd::slice::slice_subrange(self.bytes.as_slice(), 0, n);
        assert(content@ =~= self.bytes@.drop_last());
        content
    }

    /// The bytes to hand to the native library, terminator included.
    pub fn as_bytes_with_nul(&self) -> (wire: &[u8])
        ensures
            wire@ == terminated(self@),
            first_nul_at(wire@, self@.len() as int),
    {
        proof {
            use_type_invariant(self);
            assert(self.bytes@ =~= self.bytes@.drop_last().push(0u8));
        }
        self.bytes.as_slice()
    }
}

/// A file that the native side is to open and write: its path and the mode
/// of the opening, which is always `w`, to start from an empty file.
#[derive(Debug)]
pub struct FileTarget {
    pub path: CText,
    pub mode: CText,
}

impl FileTarget {
    /// Marshals the path of a file to write. The only error is a zero byte
    /// in the path.
    pub fn for_writing(path: &str) -> (r: Result<FileTarget, MarshalError>)
        ensures
            r is Ok <==> !has_nul_char(path@),
            match r {
                Ok(target) => {
                    &&& !has_nul(path.spec_bytes())
                    &&& target.path@ == path.spec_bytes()
                    &&& target.mode@ == seq![119u8]
                },
                Err(e) => marshals(path.spec_bytes(), Err(e)),
            },
    {
        let path = match CText::new(path) {
            Ok(text) => text,
            Err(e) => {
                return Err(e);
            },
        };
        let mut w: Vec<u8> = Vec::new();
        w.push(119u8);
        assert(w@ =~= seq![119u8]);
        match CText::from_vec(w) {
            Ok(mode) => Ok(FileTarget { path, mode }),
            Err(e) => {
                // The one byte of the mode is not zero: this is never reached.
                assert(false);
                Err(e)
            },
        }
    }
}

/// What the permissive decoder of the standard library makes of `bytes`.
pub uninterp spec fn lossy_text(bytes: Seq<u8>) -> Seq<char>;

/// The text that inbound bytes stand for: where they are UTF-8, the
/// characters they encode; elsewhere, what permissive decoding makes of them.
pub open spec fn inbound_text(bytes: Seq<u8>) -> Seq<char> {
    if valid_utf8(bytes) {
        decode_utf8(bytes)
    } else {
        lossy_text(bytes)
    }
}

/// The text of a field that may be absent: none for a null pointer.
pub open spec fn inbound_field(raw: Option<Seq<u8>>) -> Option<Seq<char>> {
    match raw {
        None => None,
        Some(bytes) => Some(inbound_text(bytes)),
    }
}

/// The text of a message that may be absent: empty for a null pointer.
pub open spec fn inbound_message(raw: Option<Seq<u8>>) -> Seq<char> {
    match raw {
        None => Seq::<char>::empty(),
        Some(bytes) => inbound_text(bytes),
    }
}

/// The bytes behind an optional borrowed slice.
pub open spec fn raw_bytes(raw: Option<&[u8]>) -> Option<Seq<u8>> {
    match raw {
        None => None,
        Some(bytes) => Some(bytes@),
    }
}

/// Borrows the bytes of a text that was kept as it came in.
pub(crate) fn as_raw(kept: &Option<Vec<u8>>) -> (raw: Option<&[u8]>)
    ensures
        raw_bytes(raw) == kept.deep_view(),
{
    match kept {
        Some(bytes) => {
            assert(bytes.deep_view() =~= bytes@);
            Some(bytes.as_slice())
        },
        None => None,
    }
}

/// Calls `String::from_utf8_lossy` and takes ownership of what it returns.
/// Trusted: the result is named `lossy_text` of the bytes, and for bytes that
/// are valid UTF-8 it is the text they encode, as the standard library
/// documents (such input comes back unchanged).
#[verifier::external_body]
fn decode_lossy(bytes: &[u8]) -> (text: String)
    ensures
        text@ == lossy_text(bytes@),
        valid_utf8(bytes@) ==> text@ == decode_utf8(bytes@),
{
    String::from_utf8_lossy(bytes).into_owned()
}

/// Decodes inbound bytes; what is not UTF-8 is replaced, never fatal.
pub fn text(bytes: &[u8]) -> (decoded: String)
    ensures
        decoded@ == inbound_text(bytes@),
{
    decode_lossy(bytes)
}

/// Decodes an inbound message; a null pointer reads as the empty string.
pub fn text_or_empty(raw: Option<&[u8]>) -> (decoded: String)
    ensures
        decoded@ == inbound_message(raw_bytes(raw)),
{
    match raw {
        None => String::new(),
        Some(bytes) => text(bytes),
    }
}

/// Decodes an inbound field; a null pointer reads as absent.
pub fn text_or_absent(raw: Option<&[u8]>) -> (decoded: Option<String>)
    ensures
        match decoded {
            None => raw is None,
            Some(s) => inbound_field(raw_bytes(raw)) == Some(s@),
        },
{
    match raw {
        None => None,
        Some(bytes) => Some(text(bytes)),
    }
}

/// A run of bytes holds a zero exactly when one of its two parts does.
pub proof fn lemma_nul_in_parts(a: Seq<u8>, b: Seq<u8>)
    ensures
        has_nul(a + b) <==> has_nul(a) || has_nul(b),
{
    if has_nul(a) {
        let i = choose|i: int| 0 <= i < a.len() && a[i] == 0u8;
        assert((a + b)[i] == 0u8);
    }
    if has_nul(b) {
        let i = choose|i: int| 0 <= i < b.len() && b[i] == 0u8;
        assert((a + b)[a.len() + i] == 0u8);
    }
    if has_nul(a + b) {
        let i = choose|i: int| 0 <= i < (a + b).len() && (a + b)[i] == 0u8;
        if i < a.len() {
            assert(a[i] == 0u8);
        } else {
            assert(b[i - a.len()] == 0u8);
        }
    }
}

/// A text holds U+0000 exactly when one of its two parts does.
pub proof fn lemma_nul_char_in_parts(a: Seq<char>, b: Seq<char>)
    ensures
        has_nul_char(a + b) <==> has_nul_char(a) || has_nul_char(b),
{
    if has_nul_char(a) {
        let i = choose|i: int| 0 <= i < a.len() && a[i] == '\0';
        assert((a + b)[i] == '\0');
    }
    if has_nul_char(b) {
        let i = choose|i: int| 0 <= i < b.len() && b[i] == '\0';
        assert((a + b)[a.len() + i] == '\0');
    }
    if has_nul_char(a + b) {
        let i = choose|i: int| 0 <= i < (a + b).len() && (a + b)[i] == '\0';
        if i < a.len() {
            assert(a[i] == '\0');
        } else {
            assert(b[i - a.len()] == '\0');
        }
    }
}

proof fn lemma_first_byte_of_one(s: u32)
    by (bit_vector)
    requires
        s <= 0x7F,
    ensures
        ((s & 0x7F) as u8 == 0u8) <==> s == 0,
{
}

proof fn lemma_leading_bytes_are_not_zero(s: u32)
    by (bit_vector)
    ensures
        0xC0u8 | ((s >> 6) & 0x1F) as u8 != 0u8,
        0xE0u8 | ((s >> 12) & 0x0F) as u8 != 0u8,
        0xF0u8 | ((s >> 18) & 0x7) as u8 != 0u8,
        0x80u8 | (s & 0x3F) as u8 != 0u8,
        0x80u8 | ((s >> 6) & 0x3F) as u8 != 0u8,
        0x80u8 | ((s >> 12) & 0x3F) as u8 != 0u8,
{
}

/// Only U+0000 has a zero byte in its encoding.
proof fn lemma_nul_in_one_char(c: char)
    ensures
        has_nul(encode_scalar(c as u32)) <==> c == '\0',
{
    let s = c as u32;
    char_is_scalar(c);
    assert(is_scalar(s));
    let bytes = encode_scalar(s);
    lemma_leading_bytes_are_not_zero(s);
    if s <= 0x7F {
        lemma_first_byte_of_one(s);
        assert(bytes.len() == 1);
        if s == 0 {
            assert(bytes[0] == 0u8);
        }
    }
    if c == '\0' {
        assert(s == 0);
    }
}

/// The bytes of a text hold a zero exactly when the text holds U+0000: no
/// other character has a zero byte in its encoding.
pub proof fn lemma_nul_byte_is_nul_char(chars: Seq<char>)
    ensures
        has_nul(encode_utf8(chars)) <==> has_nul_char(chars),
    decreases chars.len(),
{
    if chars.len() > 0 {
        let rest = chars.drop_first();
        lemma_nul_byte_is_nul_char(rest);
        lemma_nul_in_one_char(chars[0]);
        lemma_nul_in_parts(encode_scalar(chars[0] as u32), encode_utf8(rest));
        assert(chars =~= seq![chars[0]] + rest);
        lemma_nul_char_in_parts(seq![chars[0]], rest);
        if chars[0] == '\0' {
            assert(seq![chars[0]][0] == '\0');
        }
    }
}

/// Text that was marshalled reads back as itself: the bytes of any text are
/// UTF-8, and decoding them gives the text again.
pub proof fn lemma_outbound_reads_back(chars: Seq<char>)
    ensures
        inbound_text(encode_utf8(chars)) == chars,
{
    encode_utf8_valid_utf8(chars);
    encode_utf8_decode_utf8(chars);
}

} // verus!
