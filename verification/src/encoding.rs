//! The text encoding that the native glyph lookups expect.
use vstd::prelude::*;
use vstd::utf8::{
    char_u32_cast, decode_utf8, encode_scalar, encode_utf8, encode_utf8_decode_utf8,
    encode_utf8_valid_utf8, valid_utf8,
};

verus! {

/// First codepoint of the glyph set that is rasterised when a font is
/// created.
pub const FIRST_DEFAULT_CODE: u8 = 32;

/// Last codepoint of the glyph set that is rasterised when a font is
/// created.
pub const LAST_DEFAULT_CODE: u8 = 254;

/// The byte that ends a text handed to the native library.
pub const CODE_TERMINATOR: u8 = 0;

/// Number of bytes in the text that is requested when a font is created,
/// its terminator included.
pub const DEFAULT_CODES_LEN: usize = 351;

/// The UTF-8 bytes of one character.
pub open spec fn utf8_of(c: char) -> Seq<u8> {
    encode_scalar(c as u32)
}

/// One character as the native library reads it: its UTF-8 bytes and the
/// terminator.
pub open spec fn c_code_of(c: char) -> Seq<u8> {
    utf8_of(c).push(CODE_TERMINATOR)
}

/// The characters rasterised when a font is created: every codepoint from
/// the first to the last default one, in rising order.
pub open spec fn default_chars() -> Seq<char> {
    Seq::new(
        (LAST_DEFAULT_CODE - FIRST_DEFAULT_CODE + 1) as nat,
        |i: int| ((FIRST_DEFAULT_CODE + i) as u8) as char,
    )
}

/// The text requested at font creation: the default characters in UTF-8,
/// then the terminator.
pub open spec fn default_codes() -> Seq<u8> {
    encode_utf8(default_chars()).push(CODE_TERMINATOR)
}

proof fn lemma_two_bytes(v: u32)
    by (bit_vector)
    requires
        0x80 <= v <= 0x7FF,
    ensures
        (v >> 6) & 0x1F == v >> 6,
        (v >> 6) < 0x20,
        (v & 0x3F) < 0x40,
        0xC0u8 | (((v >> 6) & 0x1F) as u8) != 0,
        0x80u8 | ((v & 0x3F) as u8) != 0,
{
}

proof fn lemma_three_bytes(v: u32)
    by (bit_vector)
    requires
        0x800 <= v <= 0xFFFF,
    ensures
        ((v >> 12) & 0x0F) < 0x10,
        ((v >> 6) & 0x3F) < 0x40,
        (v & 0x3F) < 0x40,
        0xE0u8 | (((v >> 12) & 0x0F) as u8) != 0,
        0x80u8 | (((v >> 6) & 0x3F) as u8) != 0,
        0x80u8 | ((v & 0x3F) as u8) != 0,
{
}

proof fn lemma_four_bytes(v: u32)
    by (bit_vector)
    requires
        0x10000 <= v <= 0x10FFFF,
    ensures
        ((v >> 18) & 0x7) < 0x8,
        ((v >> 12) & 0x3F) < 0x40,
        ((v >> 6) & 0x3F) < 0x40,
        (v & 0x3F) < 0x40,
        0xF0u8 | (((v >> 18) & 0x7) as u8) != 0,
        0x80u8 | (((v >> 12) & 0x3F) as u8) != 0,
        0x80u8 | (((v >> 6) & 0x3F) as u8) != 0,
        0x80u8 | ((v & 0x3F) as u8) != 0,
{
}

proof fn lemma_one_byte(v: u32)
    by (bit_vector)
    requires
        v <= 0x7F,
    ensures
        (v & 0x7F) == v,
        ((v & 0x7F) as u8) == 0 <==> v == 0,
{
}

/// Encodes one character as the bytes that a native lookup reads.
pub fn char_to_utf8(c: char) -> (bytes: Vec<u8>)
    ensures
        bytes@ == utf8_of(c),
{
    let v: u32 = c as u32;
    let mut bytes: Vec<u8> = Vec::new();
    if v <= 0x7F {
        proof {
            lemma_one_byte(v);
        }
        bytes.push((v & 0x7F) as u8);
    } else if v <= 0x7FF {
        proof {
            lemma_two_bytes(v);
        }
        bytes.push(0xC0u8 | (((v >> 6) & 0x1F) as u8));
        bytes.push(0x80u8 | ((v & 0x3F) as u8));
    } else if v <= 0xFFFF {
        proof {
            lemma_three_bytes(v);
        }
        bytes.push(0xE0u8 | (((v >> 12) & 0x0F) as u8));
        bytes.push(0x80u8 | (((v >> 6) & 0x3F) as u8));
        bytes.push(0x80u8 | ((v & 0x3F) as u8));
    } else {
        proof {
            lemma_four_bytes(v);
        }
        bytes.push(0xF0u8 | (((v >> 18) & 0x7) as u8));
        bytes.push(0x80u8 | (((v >> 12) & 0x3F) as u8));
        bytes.push(0x80u8 | (((v >> 6) & 0x3F) as u8));
        bytes.push(0x80u8 | ((v & 0x3F) as u8));
    }
    assert(bytes@ =~= utf8_of(c));
    bytes
}

/// A character is sent as one to four bytes, and no byte of a character
/// other than NUL is zero, so a terminator can follow the bytes without
/// cutting them short.
pub proof fn lemma_utf8_shape(c: char)
    ensures
        1 <= utf8_of(c).len() <= 4,
        c as u32 != 0 ==> forall|i: int| 0 <= i < utf8_of(c).len() ==> utf8_of(c)[i] != 0,
        c as u32 == 0 ==> utf8_of(c) == seq![0u8],
{
    let v: u32 = c as u32;
    if v <= 0x7F {
        lemma_one_byte(v);
    } else if v <= 0x7FF {
        lemma_two_bytes(v);
    } else if v <= 0xFFFF {
        lemma_three_bytes(v);
    } else {
        lemma_four_bytes(v);
    }
    if v == 0 {
        assert(utf8_of(c) =~= seq![0u8]);
    }
}

proof fn lemma_nul_is_zero(c: char)
    ensures
        c == '\0' <==> c as u32 == 0u32,
{
    char_u32_cast(c, c as u32);
    char_u32_cast('\0', 0u32);
}

/// The UTF-8 bytes of a text hold a zero byte exactly when the text holds
/// the character NUL, so a text without NUL can be closed with a terminator
/// and is read whole.
pub proof fn lemma_zero_byte_is_nul(text: Seq<char>)
    ensures
        encode_utf8(text).contains(0u8) <==> text.contains('\0'),
    decreases text.len(),
{
    let bytes = encode_utf8(text);
    if text.len() > 0 {
        let first = utf8_of(text[0]);
        let rest = encode_utf8(text.drop_first());
        lemma_utf8_shape(text[0]);
        lemma_zero_byte_is_nul(text.drop_first());
        assert(bytes == first + rest);
        if bytes.contains(0u8) {
            let i = choose|i: int| 0 <= i < bytes.len() && bytes[i] == 0u8;
            if i < first.len() {
                assert(first[i] == 0u8);
                lemma_nul_is_zero(text[0]);
            } else {
                assert(rest[i - first.len()] == 0u8);
                assert(rest.contains(0u8));
                let j = choose|j: int|
                    0 <= j < text.drop_first().len() && text.drop_first()[j] == '\0';
                assert(text[j + 1] == '\0');
            }
        }
        if text.contains('\0') {
            let j = choose|j: int| 0 <= j < text.len() && text[j] == '\0';
            if j == 0 {
                lemma_nul_is_zero(text[0]);
                assert(first[0] == 0u8);
                assert(bytes[0] == 0u8);
            } else {
                assert(text.drop_first()[j - 1] == '\0');
                assert(text.drop_first().contains('\0'));
                let i = choose|i: int| 0 <= i < rest.len() && rest[i] == 0u8;
                assert(bytes[first.len() + i] == 0u8);
            }
        }
    }
}

/// Encoding a text and one more character gives the bytes of the text
/// followed by the bytes of the character.
pub proof fn lemma_encode_push(text: Seq<char>, c: char)
    ensures
        encode_utf8(text.push(c)) == encode_utf8(text) + utf8_of(c),
    decreases text.len(),
{
    let longer = text.push(c);
    if text.len() == 0 {
        assert(longer.drop_first() =~= Seq::<char>::empty());
        assert(encode_utf8(longer.drop_first()) =~= Seq::<u8>::empty());
        assert(encode_utf8(text) =~= Seq::<u8>::empty());
        assert(encode_utf8(longer) =~= encode_utf8(text) + utf8_of(c));
    } else {
        assert(longer.drop_first() =~= text.drop_first().push(c));
        lemma_encode_push(text.drop_first(), c);
        assert(encode_utf8(longer) =~= encode_utf8(text) + utf8_of(c));
    }
}

/// Where in the default text the bytes of its character number `index`
/// begin: the characters up to U+007F take one byte each, those from
/// U+0080 on two.
pub open spec fn default_code_offset(index: int) -> int {
    if FIRST_DEFAULT_CODE + index <= 0x80 {
        index
    } else {
        2 * index - (0x80 - FIRST_DEFAULT_CODE)
    }
}

proof fn lemma_default_prefix(count: int)
    requires
        0 <= count <= default_chars().len(),
    ensures
        encode_utf8(default_chars().take(count)).len() == default_code_offset(count),
        forall|k: int|
            0 <= k < count ==> #[trigger] encode_utf8(default_chars().take(count)).subrange(
                default_code_offset(k),
                default_code_offset(k + 1),
            ) == utf8_of(default_chars()[k]),
    decreases count,
{
    if count == 0 {
        assert(default_chars().take(0) =~= Seq::<char>::empty());
    } else {
        let shorter = default_chars().take(count - 1);
        let c = default_chars()[count - 1];
        lemma_default_prefix(count - 1);
        assert(default_chars().take(count) =~= shorter.push(c));
        lemma_encode_push(shorter, c);
        let v = c as u32;
        assert(v == FIRST_DEFAULT_CODE + count - 1);
        if v > 0x7F {
            lemma_two_bytes(v);
        }
        let before = encode_utf8(shorter);
        let bytes = encode_utf8(default_chars().take(count));
        assert(bytes == before + utf8_of(c));
        assert forall|k: int| 0 <= k < count implies #[trigger] bytes.subrange(
            default_code_offset(k),
            default_code_offset(k + 1),
        ) == utf8_of(default_chars()[k]) by {
            let from = default_code_offset(k);
            let to = default_code_offset(k + 1);
            if k < count - 1 {
                assert(bytes.subrange(from, to) =~= before.subrange(from, to));
            } else {
                assert(bytes.subrange(from, to) =~= utf8_of(c));
            }
        }
    }
}

/// Each default character stands in the default text once, at its own
/// place and in UTF-8: the bytes from its offset to the next character's
/// are its encoding.
pub proof fn lemma_default_code_at(index: int)
    requires
        0 <= index < default_chars().len(),
    ensures
        default_chars()[index] as u32 == FIRST_DEFAULT_CODE + index,
        0 <= default_code_offset(index) < default_code_offset(index + 1) < default_codes().len(),
        default_codes().subrange(default_code_offset(index), default_code_offset(index + 1))
            == utf8_of(default_chars()[index]),
{
    let chars = default_chars();
    let bytes = encode_utf8(chars);
    assert(chars.take(chars.len() as int) =~= chars);
    lemma_default_prefix(chars.len() as int);
    let from = default_code_offset(index);
    let to = default_code_offset(index + 1);
    assert(bytes.subrange(from, to) == utf8_of(chars[index]));
    assert(default_codes().subrange(from, to) =~= bytes.subrange(from, to));
}

/// The default text asks for each codepoint from the first to the last
/// default one once, in UTF-8, and for no other. A reader of UTF-8 gets
/// back exactly those characters, and since no zero byte comes before the
/// terminator, the native library reads the text whole.
pub proof fn lemma_default_codes_cover(c: char)
    ensures
        default_chars().contains(c) <==> FIRST_DEFAULT_CODE <= c as u32 <= LAST_DEFAULT_CODE,
        forall|i: int, j: int|
            0 <= i < j < default_chars().len() ==> default_chars()[i] != default_chars()[j],
        default_codes().drop_last() == encode_utf8(default_chars()),
        valid_utf8(default_codes().drop_last()),
        decode_utf8(default_codes().drop_last()) == default_chars(),
        default_codes().len() == DEFAULT_CODES_LEN,
        default_codes().last() == CODE_TERMINATOR,
        forall|i: int| 0 <= i < default_codes().len() - 1 ==> default_codes()[i] != 0u8,
{
    let chars = default_chars();
    let bytes = encode_utf8(chars);
    if FIRST_DEFAULT_CODE <= c as u32 <= LAST_DEFAULT_CODE {
        let i = (c as u32) - FIRST_DEFAULT_CODE;
        char_u32_cast(c, c as u32);
        char_u32_cast(chars[i], c as u32);
        assert(chars[i] == c);
    }
    assert forall|i: int, j: int| 0 <= i < j < chars.len() implies chars[i] != chars[j] by {
        assert(chars[i] as u32 != chars[j] as u32);
    }
    assert(default_codes().drop_last() =~= bytes);
    encode_utf8_valid_utf8(chars);
    encode_utf8_decode_utf8(chars);
    assert(chars.take(chars.len() as int) =~= chars);
    lemma_default_prefix(chars.len() as int);
    lemma_zero_byte_is_nul(chars);
    lemma_nul_is_zero('\0');
    assert(!chars.contains('\0'));
    assert forall|i: int| 0 <= i < default_codes().len() - 1 implies default_codes()[i]
        != 0u8 by {
        if default_codes()[i] == 0u8 {
            assert(bytes[i] == 0u8);
            assert(bytes.contains(0u8));
        }
    }
}

/// Builds the text that is requested when a font is created.
pub fn default_glyph_codes() -> (codes: Vec<u8>)
    ensures
        codes@ == default_codes(),
{
    let mut codes: Vec<u8> = Vec::new();
    let mut code: u8 = FIRST_DEFAULT_CODE;
    while code <= LAST_DEFAULT_CODE
        invariant
            FIRST_DEFAULT_CODE <= code <= LAST_DEFAULT_CODE + 1,
            codes@ == encode_utf8(default_chars().take(code - FIRST_DEFAULT_CODE)),
        decreases LAST_DEFAULT_CODE + 1 - code,
    {
        let c = code as char;
        let mut bytes = char_to_utf8(c);
        proof {
            let done = default_chars().take(code - FIRST_DEFAULT_CODE);
            assert(default_chars().take(code - FIRST_DEFAULT_CODE + 1) =~= done.push(c));
            lemma_encode_push(done, c);
        }
        codes.append(&mut bytes);
        code = code + 1;
    }
    assert(default_chars().take(default_chars().len() as int) =~= default_chars());
    codes.push(CODE_TERMINATOR);
    codes
}

/// Encodes one character as the terminated text that a native lookup
/// reads.
pub fn char_to_c_code(c: char) -> (bytes: Vec<u8>)
    ensures
        bytes@ == c_code_of(c),
{
    let mut bytes = char_to_utf8(c);
    bytes.push(CODE_TERMINATOR);
    bytes
}

} // verus!
