use crate::error::ConfigError;
use vstd::prelude::*;
use vstd::slice::slice_subrange;
use vstd::utf8::{char_is_scalar, char_u32_cast, encode_scalar, encode_utf8, is_scalar};

verus! {

/// Whether `bytes` holds a zero byte anywhere.
pub open spec fn has_terminator(bytes: Seq<u8>) -> bool {
    exists|i: int| 0 <= i < bytes.len() && bytes[i] == 0u8
}

/// An owned byte string in terminated form: the content, which holds no
/// zero byte, followed by a single zero byte.
#[derive(Debug)]
pub struct EncodedText {
    bytes: Vec<u8>,
}

impl View for EncodedText {
    type V = Seq<u8>;

    /// The content, without the terminator.
    closed spec fn view(&self) -> Seq<u8> {
        self.bytes@.drop_last()
    }
}

impl EncodedText {
    #[verifier::type_invariant]
    spec fn terminated(&self) -> bool {
        &&& self.bytes@.len() >= 1
        &&& self.bytes@.last() == 0u8
        &&& !has_terminator(self.bytes@.drop_last())
    }

    /// The encoding of the empty text.
    pub fn empty() -> (text: EncodedText)
        ensures
            text@ == Seq::<u8>::empty(),
    {
        let mut bytes: Vec<u8> = Vec::new();
        bytes.push(0u8);
        assert(bytes@.drop_last() =~= Seq::<u8>::empty());
        EncodedText { bytes }
    }

    /// Encodes `text` as its UTF-8 bytes followed by a terminator. Fails
    /// exactly when those bytes already hold a zero byte.
    pub fn new(text: &str) -> (encoded: Result<EncodedText, ConfigError>)
        ensures
            encoded is Err <==> has_terminator(encode_utf8(text@)),
            encoded matches Err(e) ==> e == ConfigError::InvalidConfig,
            encoded matches Ok(t) ==> t@ == encode_utf8(text@),
    {
        let source = text.as_bytes();
        let mut bytes: Vec<u8> = Vec::new();
        let mut i: usize = 0;
        while i < source.len()
            invariant
                source@ == encode_utf8(text@),
                i <= source@.len(),
                bytes@ == source@.take(i as int),
                !has_terminator(bytes@),
            decreases source@.len() - i,
        {
            let byte: u8 = source[i];
            if byte == 0u8 {
                assert(source@[i as int] == 0u8);
                return Err(ConfigError::InvalidConfig);
            }
            bytes.push(byte);
            i += 1;
            assert(bytes@ =~= source@.take(i as int));
        }
        assert(bytes@ =~= source@);
        bytes.push(0u8);
        assert(bytes@.drop_last() =~= source@);
        Ok(EncodedText { bytes })
    }

    /// Whether the content is empty.
    pub fn is_empty(&self) -> (empty: bool)
        ensures
            empty == (self@.len() == 0),
    {
        proof {
            use_type_invariant(self);
        }
        self.bytes.len() == 1
    }

    /// The content, without the terminator. It never holds a zero byte.
    pub fn as_bytes(&self) -> (content: &[u8])
        ensures
            content@ == self@,
            !has_terminator(content@),
    {
        proof {
            use_type_invariant(self);
        }
        let n: usize = self.bytes.len();
        let content = slice_subrange(self.bytes.as_slice(), 0, n - 1);
        assert(content@ =~= self.bytes@.drop_last());
        content
    }

    /// The whole buffer: the content followed by the terminator.
    pub fn as_bytes_with_nul(&self) -> (buffer: &[u8])
        ensures
            buffer@ == self@.push(0u8),
    {
        proof {
            use_type_invariant(self);
            assert(self.bytes@ =~= self.bytes@.drop_last().push(0u8));
        }
        self.bytes.as_slice()
    }
}

impl Clone for EncodedText {
    fn clone(&self) -> (copy: EncodedText)
        ensures
            copy@ == self@,
    {
        proof {
            use_type_invariant(self);
        }
        let bytes = self.bytes.clone();
        assert(bytes@ =~= self.bytes@);
        EncodedText { bytes }
    }
}

/// Whether `text` holds the character with code zero anywhere.
pub open spec fn has_nul_char(text: Seq<char>) -> bool {
    exists|i: int| 0 <= i < text.len() && text[i] == '\0'
}

proof fn lemma_leading_bytes_nonzero(scalar: u32)
    by (bit_vector)
    ensures
        scalar <= 0x7F ==> (((scalar & 0x7F) as u8 == 0u8) <==> scalar == 0),
        0xC0u8 | ((scalar >> 6) & 0x1F) as u8 != 0u8,
        0xE0u8 | ((scalar >> 12) & 0x0F) as u8 != 0u8,
        0xF0u8 | ((scalar >> 18) & 0x7) as u8 != 0u8,
        0x80u8 | (scalar & 0x3F) as u8 != 0u8,
        0x80u8 | ((scalar >> 6) & 0x3F) as u8 != 0u8,
        0x80u8 | ((scalar >> 12) & 0x3F) as u8 != 0u8,
{
}

proof fn lemma_scalar_terminator(scalar: u32)
    requires
        is_scalar(scalar),
    ensures
        has_terminator(encode_scalar(scalar)) <==> scalar == 0,
{
    lemma_leading_bytes_nonzero(scalar);
    let bytes = encode_scalar(scalar);
    if scalar == 0 {
        assert(bytes[0] == 0u8);
    } else {
        assert forall|i: int| 0 <= i < bytes.len() implies bytes[i] != 0u8 by {}
    }
}

proof fn lemma_terminator_in_concat(front: Seq<u8>, back: Seq<u8>)
    ensures
        has_terminator(front + back) <==> has_terminator(front) || has_terminator(back),
{
    let whole = front + back;
    if has_terminator(front) {
        let i = choose|i: int| 0 <= i < front.len() && front[i] == 0u8;
        assert(whole[i] == 0u8);
    }
    if has_terminator(back) {
        let i = choose|i: int| 0 <= i < back.len() && back[i] == 0u8;
        assert(whole[front.len() + i] == 0u8);
    }
    if has_terminator(whole) {
        let i = choose|i: int| 0 <= i < whole.len() && whole[i] == 0u8;
        if i < front.len() {
            assert(front[i] == 0u8);
        } else {
            assert(back[i - front.len()] == 0u8);
        }
    }
}

/// The UTF-8 form of a text holds a zero byte exactly when the text holds
/// the character with code zero: no other character contributes one.
pub proof fn lemma_terminator_iff_nul_char(text: Seq<char>)
    ensures
        has_terminator(encode_utf8(text)) <==> has_nul_char(text),
    decreases text.len(),
{
    if text.len() == 0 {
        assert(encode_utf8(text) =~= Seq::<u8>::empty());
    } else {
        let head = text[0];
        let tail = text.drop_first();
        let code = head as u32;
        lemma_terminator_iff_nul_char(tail);
        char_is_scalar(head);
        lemma_scalar_terminator(code);
        lemma_terminator_in_concat(encode_scalar(code), encode_utf8(tail));
        assert(code == 0 <==> head == '\0') by {
            char_u32_cast(head, code);
            char_u32_cast('\0', 0u32);
        }
        if has_nul_char(text) {
            let i = choose|i: int| 0 <= i < text.len() && text[i] == '\0';
            if i > 0 {
                assert(tail[i - 1] == '\0');
            }
        }
        if has_nul_char(tail) {
            let i = choose|i: int| 0 <= i < tail.len() && tail[i] == '\0';
            assert(text[i + 1] == '\0');
        }
        if head == '\0' {
            assert(text[0] == '\0');
        }
    }
}

} // verus!
