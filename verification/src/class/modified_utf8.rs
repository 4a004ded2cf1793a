//! The modified UTF-8 decoder (JVMS 4.4.7): the JVM's internal string
//! encoding. NUL is encoded as the two-byte sequence `C0 80` rather
//! than as a bare `0x00`, and supplementary code points are encoded as
//! two surrogates in a six-byte form whose both halves start with
//! `0xED`.
use vstd::prelude::*;
use vstd::utf8::is_scalar;

verus! {

/// Why a byte sequence is not modified UTF-8.
#[derive(Clone, Copy, Debug, PartialEq, Eq, Structural)]
pub enum ModifiedUtf8Error {
    /// A multi-byte sequence ran past the end of the input.
    Truncated,
    /// A byte that cannot begin an encoded code point, carried along.
    DisallowedLeadByte(u8),
    /// A bare `0x00`, which modified UTF-8 never contains.
    UnexpectedNul,
}

/// A lead byte of the one-byte form: code points 0x0001 to 0x007F.
pub open spec fn is_one_byte_lead(b: u8) -> bool {
    b > 0 && b & 0x80 == 0
}

/// A lead byte of the two-byte form, `110xxxxx`: NUL and code points
/// 0x0080 to 0x07FF.
pub open spec fn is_two_byte_lead(b: u8) -> bool {
    b & 0xE0 == 0xC0
}

/// A lead byte of the three-byte form, `1110xxxx`, except `0xED`,
/// which introduces the six-byte surrogate form: code points 0x0800 to
/// 0xFFFF outside the surrogate mechanism.
pub open spec fn is_three_byte_lead(b: u8) -> bool {
    b & 0xF0 == 0xE0 && b != 0xED
}

/// The code point carried by a two-byte form.
pub open spec fn two_byte_val(x: u8, y: u8) -> u32 {
    (((x & 0x1F) as u32) << 6) | ((y & 0x3F) as u32)
}

/// The code point carried by a three-byte form.
pub open spec fn three_byte_val(x: u8, y: u8, z: u8) -> u32 {
    (((x & 0x0F) as u32) << 12) | (((y & 0x3F) as u32) << 6) | ((z & 0x3F) as u32)
}

/// The code point carried by a six-byte surrogate form; `v` and `w`
/// follow the first `0xED`, `y` and `z` follow the second.
pub open spec fn supplementary_val(v: u8, w: u8, y: u8, z: u8) -> u32 {
    (0x10000 + ((((v & 0x0F) as u32) << 16) as int) + ((((w & 0x3F) as u32) << 10) as int)
        + ((((y & 0x0F) as u32) << 6) as int) + (((z & 0x3F) as u32) as int)) as u32
}

/// The decoding of a modified UTF-8 byte sequence (JVMS 4.4.7): the
/// character sequence it denotes, or the first fault found reading
/// left to right.
pub open spec fn mutf8_decode(bytes: Seq<u8>) -> Result<Seq<char>, ModifiedUtf8Error>
    decreases bytes.len(),
{
    if bytes.len() == 0 {
        Ok(Seq::empty())
    } else {
        let b = bytes[0];
        if is_one_byte_lead(b) {
            prepend_char(((b as u32) as char), mutf8_decode(bytes.skip(1)))
        } else if is_two_byte_lead(b) {
            if bytes.len() < 2 {
                Err(ModifiedUtf8Error::Truncated)
            } else {
                prepend_char((two_byte_val(b, bytes[1]) as char), mutf8_decode(bytes.skip(2)))
            }
        } else if is_three_byte_lead(b) {
            if bytes.len() < 3 {
                Err(ModifiedUtf8Error::Truncated)
            } else {
                prepend_char(
                    (three_byte_val(b, bytes[1], bytes[2]) as char),
                    mutf8_decode(bytes.skip(3)),
                )
            }
        } else if b == 0xED {
            if bytes.len() < 6 {
                Err(ModifiedUtf8Error::Truncated)
            } else {
                prepend_char(
                    (supplementary_val(bytes[1], bytes[2], bytes[4], bytes[5]) as char),
                    mutf8_decode(bytes.skip(6)),
                )
            }
        } else if b == 0 {
            Err(ModifiedUtf8Error::UnexpectedNul)
        } else {
            Err(ModifiedUtf8Error::DisallowedLeadByte(b))
        }
    }
}

/// Puts one decoded character in front of the rest of a decoding.
pub open spec fn prepend_char(c: char, r: Result<Seq<char>, ModifiedUtf8Error>) -> Result<
    Seq<char>,
    ModifiedUtf8Error,
> {
    match r {
        Ok(t) => Ok(seq![c] + t),
        Err(e) => Err(e),
    }
}

/// Puts an already-decoded prefix in front of the rest of a decoding.
pub open spec fn prepend_chars(prefix: Seq<char>, r: Result<Seq<char>, ModifiedUtf8Error>) -> Result<
    Seq<char>,
    ModifiedUtf8Error,
> {
    match r {
        Ok(t) => Ok(prefix + t),
        Err(e) => Err(e),
    }
}

/// The modified UTF-8 encoding of one character (JVMS 4.4.7): NUL and
/// the code points up to 0x07FF in the two-byte form, one byte for the
/// rest of the ASCII range, three bytes up to 0xFFFF, and two
/// three-byte surrogate halves for the supplementary code points.
pub open spec fn mutf8_encode_char(c: char) -> Seq<u8> {
    let v = c as u32;
    if 1 <= v <= 0x7F {
        seq![v as u8]
    } else if v <= 0x7FF {
        seq![(0xC0 | (v >> 6)) as u8, (0x80 | (v & 0x3F)) as u8]
    } else if v <= 0xFFFF {
        seq![
            (0xE0 | (v >> 12)) as u8,
            (0x80 | ((v >> 6) & 0x3F)) as u8,
            (0x80 | (v & 0x3F)) as u8,
        ]
    } else {
        let d = (v - 0x10000) as u32;
        let hi = 0xD800 | (d >> 10);
        let lo = 0xDC00 | (d & 0x3FF);
        seq![
            (0xE0 | (hi >> 12)) as u8,
            (0x80 | ((hi >> 6) & 0x3F)) as u8,
            (0x80 | (hi & 0x3F)) as u8,
            (0xE0 | (lo >> 12)) as u8,
            (0x80 | ((lo >> 6) & 0x3F)) as u8,
            (0x80 | (lo & 0x3F)) as u8,
        ]
    }
}

/// The modified UTF-8 encoding of a character sequence.
pub open spec fn mutf8_encode(s: Seq<char>) -> Seq<u8>
    decreases s.len(),
{
    if s.len() == 0 {
        Seq::empty()
    } else {
        mutf8_encode_char(s[0]) + mutf8_encode(s.drop_first())
    }
}

/// Relies on char::from_u32: `Some` exactly on Unicode scalar values,
/// returning the character with that value.
#[verifier::external_body]
fn char_from_u32(v: u32) -> (r: Option<char>)
    ensures
        r is Some <==> is_scalar(v),
        r matches Some(c) ==> c as u32 == v,
{
    char::from_u32(v)
}

/// Relies on String::push: appends one character.
#[verifier::external_body]
fn push_char(s: &mut String, c: char)
    ensures
        final(s)@ == old(s)@.push(c),
{
    s.push(c);
}

/// A byte string in the JVM's modified UTF-8 encoding.
pub struct ModifiedUtf8String {
    pub bytes: Vec<u8>,
}

impl ModifiedUtf8String {
    /// The byte that introduces each half of the six-byte surrogate
    /// form.
    pub const WIDE_CHARACTER_PADDING: u8 = 0xED;

    pub fn new(bytes: Vec<u8>) -> (s: Self)
        ensures
            s.bytes == bytes,
    {
        Self { bytes }
    }

    /// Whether a byte is the one-byte form of a code point in
    /// 0x0001 to 0x007F (JVMS 4.4.7).
    pub fn is_ascii_range(byte: u8) -> (r: bool)
        ensures
            r == is_one_byte_lead(byte),
    {
        (byte > 0) && ((byte & 0x80) == 0)
    }

    /// Whether a byte leads the two-byte form, covering NUL (via
    /// `C0 80`) and 0x0080 to 0x07FF (JVMS 4.4.7).
    pub fn is_null_or_80_to_7ff(byte: u8) -> (r: bool)
        ensures
            r == is_two_byte_lead(byte),
    {
        (byte & 0xE0) == 0xC0
    }

    /// Whether a byte leads the three-byte form, covering 0x0800 to
    /// 0xFFFF outside the surrogate mechanism (JVMS 4.4.7).
    pub fn is_0800_to_ffff(byte: u8) -> (r: bool)
        ensures
            r == is_three_byte_lead(byte),
    {
        ((byte & 0xF0) == 0xE0) && byte != Self::WIDE_CHARACTER_PADDING
    }

    /// Decodes a two-byte form (JVMS 4.4.7).
    pub fn get_null_or_80_to_7ff(x: u8, y: u8) -> (c: char)
        ensures
            c as u32 == two_byte_val(x, y),
    {
        let encoded_value: u32 = (((x & 0x1F) as u32) << 6) | ((y & 0x3F) as u32);
        proof {
            assert(encoded_value <= 0x7FF && is_scalar(encoded_value)) by (bit_vector)
                requires encoded_value == (((x & 0x1F) as u32) << 6) | ((y & 0x3F) as u32);
        }
        match char_from_u32(encoded_value) {
            Some(c) => c,
            None => vstd::pervasive::unreached(),
        }
    }

    /// Decodes a three-byte form (JVMS 4.4.7). The lead byte must not
    /// be `0xED`: the values that byte would carry are the surrogates,
    /// which are not characters.
    pub fn get_0800_to_ffff(x: u8, y: u8, z: u8) -> (c: char)
        requires
            is_three_byte_lead(x),
        ensures
            c as u32 == three_byte_val(x, y, z),
    {
        let encoded_value: u32 = (((x & 0x0F) as u32) << 12) | (((y & 0x3F) as u32) << 6) | ((z
            & 0x3F) as u32);
        proof {
            assert(encoded_value <= 0xFFFF && !(0xD800 <= encoded_value <= 0xDFFF)) by (bit_vector)
                requires
                    encoded_value == (((x & 0x0F) as u32) << 12) | (((y & 0x3F) as u32) << 6) | ((z
                        & 0x3F) as u32),
                    x & 0xF0 == 0xE0 && x != 0xED,
            ;
        }
        match char_from_u32(encoded_value) {
            Some(c) => c,
            None => vstd::pervasive::unreached(),
        }
    }

    /// Decodes a six-byte surrogate form (JVMS 4.4.7). The first and
    /// fourth bytes are the two `0xED` introducers and carry no data.
    pub fn get_supplementary(_u: u8, v: u8, w: u8, _x: u8, y: u8, z: u8) -> (c: char)
        ensures
            c as u32 == supplementary_val(v, w, y, z),
    {
        let high: u32 = ((v & 0x0F) as u32) << 16;
        let mid: u32 = ((w & 0x3F) as u32) << 10;
        let low: u32 = ((y & 0x0F) as u32) << 6;
        let last: u32 = (z & 0x3F) as u32;
        proof {
            assert(high <= 0xF0000 && mid <= 0xFC00 && low <= 0x3C0 && last <= 0x3F)
                by (bit_vector)
                requires
                    high == ((v & 0x0F) as u32) << 16,
                    mid == ((w & 0x3F) as u32) << 10,
                    low == ((y & 0x0F) as u32) << 6,
                    last == (z & 0x3F) as u32,
            ;
        }
        let encoded_value: u32 = 0x10000 + high + mid + low + last;
        proof {
            assert(encoded_value == supplementary_val(v, w, y, z));
            assert(is_scalar(encoded_value));
        }
        match char_from_u32(encoded_value) {
            Some(c) => c,
            None => vstd::pervasive::unreached(),
        }
    }

    /// Parses this modified UTF-8 string into an ordinary string,
    /// implementing the algorithm of JVMS 4.4.7, or reports the first
    /// fault: a truncated multi-byte sequence, a disallowed lead byte,
    /// or a bare NUL byte.
    pub fn parse(&self) -> (r: Result<String, ModifiedUtf8Error>)
        ensures
            match r {
                Ok(s) => mutf8_decode(self.bytes@) == Ok::<Seq<char>, ModifiedUtf8Error>(s@),
                Err(e) => mutf8_decode(self.bytes@) == Err::<Seq<char>, ModifiedUtf8Error>(e),
            },
    {
        let ghost whole = self.bytes@;
        let mut output = String::new();
        let mut i: usize = 0;
        proof {
            assert(whole.skip(0) =~= whole);
            match mutf8_decode(whole) {
                Ok(t) => {
                    assert(output@ + t =~= t);
                },
                Err(_) => {},
            }
        }
        while i < self.bytes.len()
            invariant
                i <= self.bytes@.len(),
                self.bytes@ == whole,
                mutf8_decode(whole) == prepend_chars(output@, mutf8_decode(whole.skip(i as int))),
            decreases self.bytes@.len() - i,
        {
            let ghost rest = whole.skip(i as int);
            let ghost out_pre = output@;
            let remaining = self.bytes.len() - i;
            let b = self.bytes[i];
            proof {
                assert(rest.len() == remaining);
                assert(rest[0] == b);
            }
            if Self::is_ascii_range(b) {
                proof {
                    assert(b <= 0x7F) by (bit_vector)
                        requires b & 0x80 == 0;
                    assert(is_scalar(b as u32));
                }
                let c = match char_from_u32(b as u32) {
                    Some(c) => c,
                    None => vstd::pervasive::unreached(),
                };
                push_char(&mut output, c);
                proof {
                    vstd::utf8::char_u32_cast(c, b as u32);
                    assert(whole.skip(i as int).skip(1) =~= whole.skip(i as int + 1));
                    assert(mutf8_decode(rest) == prepend_char(c, mutf8_decode(whole.skip(i as int + 1))));
                    Self::lemma_step(whole, i as int, out_pre, c, 1);
                }
                i = i + 1;
            } else if Self::is_null_or_80_to_7ff(b) {
                if remaining < 2 {
                    return Err(ModifiedUtf8Error::Truncated);
                }
                let y = self.bytes[i + 1];
                let c = Self::get_null_or_80_to_7ff(b, y);
                push_char(&mut output, c);
                proof {
                    assert(rest[1] == y);
                    vstd::utf8::char_u32_cast(c, two_byte_val(b, y));
                    assert(whole.skip(i as int).skip(2) =~= whole.skip(i as int + 2));
                    assert(mutf8_decode(rest) == prepend_char(c, mutf8_decode(whole.skip(i as int + 2))));
                    Self::lemma_step(whole, i as int, out_pre, c, 2);
                }
                i = i + 2;
            } else if Self::is_0800_to_ffff(b) {
                if remaining < 3 {
                    return Err(ModifiedUtf8Error::Truncated);
                }
                let y = self.bytes[i + 1];
                let z = self.bytes[i + 2];
                let c = Self::get_0800_to_ffff(b, y, z);
                push_char(&mut output, c);
                proof {
                    assert(rest[1] == y && rest[2] == z);
                    vstd::utf8::char_u32_cast(c, three_byte_val(b, y, z));
                    assert(whole.skip(i as int).skip(3) =~= whole.skip(i as int + 3));
                    assert(mutf8_decode(rest) == prepend_char(c, mutf8_decode(whole.skip(i as int + 3))));
                    Self::lemma_step(whole, i as int, out_pre, c, 3);
                }
                i = i + 3;
            } else if b == Self::WIDE_CHARACTER_PADDING {
                if remaining < 6 {
                    return Err(ModifiedUtf8Error::Truncated);
                }
                let v = self.bytes[i + 1];
                let w = self.bytes[i + 2];
                let x2 = self.bytes[i + 3];
                let y = self.bytes[i + 4];
                let z = self.bytes[i + 5];
                let c = Self::get_supplementary(b, v, w, x2, y, z);
                push_char(&mut output, c);
                proof {
                    assert(rest[1] == v && rest[2] == w && rest[4] == y && rest[5] == z);
                    vstd::utf8::char_u32_cast(c, supplementary_val(v, w, y, z));
                    assert(whole.skip(i as int).skip(6) =~= whole.skip(i as int + 6));
                    assert(mutf8_decode(rest) == prepend_char(c, mutf8_decode(whole.skip(i as int + 6))));
                    Self::lemma_step(whole, i as int, out_pre, c, 6);
                }
                i = i + 6;
            } else if b == 0 {
                return Err(ModifiedUtf8Error::UnexpectedNul);
            } else {
                return Err(ModifiedUtf8Error::DisallowedLeadByte(b));
            }
        }
        proof {
            assert(whole.skip(whole.len() as int) =~= Seq::<u8>::empty());
            assert(output@ + Seq::<char>::empty() =~= output@);
        }
        Ok(output)
    }

    /// One decoding step: when the bytes at `i` decode to `c` and the
    /// whole decoding is `prefix` followed by the decoding at `i`,
    /// then it is also `prefix` plus `c` followed by the decoding
    /// after the consumed bytes.
    proof fn lemma_step(whole: Seq<u8>, i: int, prefix: Seq<char>, c: char, width: int)
        requires
            0 <= i,
            i + width <= whole.len(),
            mutf8_decode(whole) == prepend_chars(prefix, mutf8_decode(whole.skip(i))),
            mutf8_decode(whole.skip(i)) == prepend_char(c, mutf8_decode(whole.skip(i + width))),
        ensures
            mutf8_decode(whole) == prepend_chars(prefix.push(c), mutf8_decode(whole.skip(i + width))),
    {
        match mutf8_decode(whole.skip(i + width)) {
            Ok(t) => {
                assert(prefix + (seq![c] + t) =~= prefix.push(c) + t);
            },
            Err(_) => {},
        }
    }
}

/// Decoding the encoding of one character, with anything after it,
/// yields that character followed by the decoding of the remainder.
/// The characters 0xD000 to 0xD7FF are excluded: their three-byte
/// forms start with `0xED`, which this decoder reserves for the
/// six-byte surrogate form.
proof fn lemma_mutf8_decode_one(c: char, rest: Seq<u8>)
    requires
        !(0xD000 <= c as u32 <= 0xD7FF),
    ensures
        mutf8_decode(mutf8_encode_char(c) + rest) == prepend_char(c, mutf8_decode(rest)),
{
    let v = c as u32;
    vstd::utf8::char_is_scalar(c);
    vstd::utf8::char_u32_cast(c, v);
    let e = mutf8_encode_char(c);
    let all = e + rest;
    assert(all.len() == e.len() + rest.len());
    if 1 <= v && v <= 0x7F {
        let b0: u8 = v as u8;
        assert(all[0] == b0);
        assert(b0 > 0 && b0 & 0x80 == 0 && (b0 as u32) == v) by (bit_vector)
            requires b0 == v as u8, 1 <= v && v <= 0x7F;
        assert(all.skip(1) =~= rest);
    } else if v <= 0x7FF {
        let b0: u8 = (0xC0 | (v >> 6)) as u8;
        let b1: u8 = (0x80 | (v & 0x3F)) as u8;
        assert(all[0] == b0 && all[1] == b1);
        assert((b0 & 0x80 != 0) && (b0 & 0xE0 == 0xC0)
            && ((((b0 & 0x1F) as u32) << 6) | ((b1 & 0x3F) as u32)) == v) by (bit_vector)
            requires
                b0 == (0xC0 | (v >> 6)) as u8,
                b1 == (0x80 | (v & 0x3F)) as u8,
                v <= 0x7FF,
        ;
        assert(two_byte_val(b0, b1) == v);
        assert(all.skip(2) =~= rest);
    } else if v <= 0xFFFF {
        let b0: u8 = (0xE0 | (v >> 12)) as u8;
        let b1: u8 = (0x80 | ((v >> 6) & 0x3F)) as u8;
        let b2: u8 = (0x80 | (v & 0x3F)) as u8;
        assert(all[0] == b0 && all[1] == b1 && all[2] == b2);
        assert((b0 & 0x80 != 0) && (b0 & 0xE0 != 0xC0) && (b0 & 0xF0 == 0xE0) && b0 != 0xED
            && ((((b0 & 0x0F) as u32) << 12) | (((b1 & 0x3F) as u32) << 6) | ((b2
                & 0x3F) as u32)) == v) by (bit_vector)
            requires
                b0 == (0xE0 | (v >> 12)) as u8,
                b1 == (0x80 | ((v >> 6) & 0x3F)) as u8,
                b2 == (0x80 | (v & 0x3F)) as u8,
                0x800 <= v && v <= 0xFFFF,
                !(0xD000 <= v && v <= 0xD7FF),
                !(0xD800 <= v && v <= 0xDFFF),
        ;
        assert(three_byte_val(b0, b1, b2) == v);
        assert(all.skip(3) =~= rest);
    } else {
        let d = (v - 0x10000) as u32;
        let hi = 0xD800 | (d >> 10);
        let lo = 0xDC00 | (d & 0x3FF);
        let b0: u8 = (0xE0 | (hi >> 12)) as u8;
        let b1: u8 = (0x80 | ((hi >> 6) & 0x3F)) as u8;
        let b2: u8 = (0x80 | (hi & 0x3F)) as u8;
        let b3: u8 = (0xE0 | (lo >> 12)) as u8;
        let b4: u8 = (0x80 | ((lo >> 6) & 0x3F)) as u8;
        let b5: u8 = (0x80 | (lo & 0x3F)) as u8;
        assert(all[0] == b0 && all[1] == b1 && all[2] == b2 && all[4] == b4 && all[5] == b5);
        let a16: u32 = ((b1 & 0x0F) as u32) << 16;
        let a10: u32 = ((b2 & 0x3F) as u32) << 10;
        let a6: u32 = ((b4 & 0x0F) as u32) << 6;
        let a0: u32 = (b5 & 0x3F) as u32;
        assert(b0 == 0xED && (b0 & 0x80 != 0) && (b0 & 0xE0 != 0xC0)
            && (a16 <= 0xF0000) && (a10 <= 0xFC00) && (a6 <= 0x3C0) && (a0 <= 0x3F)
            && 0x10000 + a16 + a10 + a6 + a0 == v) by (bit_vector)
            requires
                b0 == (0xE0 | ((0xD800u32 | (((v - 0x10000) as u32) >> 10)) >> 12)) as u8,
                b1 == (0x80 | (((0xD800u32 | (((v - 0x10000) as u32) >> 10)) >> 6) & 0x3F)) as u8,
                b2 == (0x80 | ((0xD800u32 | (((v - 0x10000) as u32) >> 10)) & 0x3F)) as u8,
                b4 == (0x80 | (((0xDC00u32 | (((v - 0x10000) as u32) & 0x3FF)) >> 6) & 0x3F)) as u8,
                b5 == (0x80 | ((0xDC00u32 | (((v - 0x10000) as u32) & 0x3FF)) & 0x3F)) as u8,
                a16 == ((b1 & 0x0F) as u32) << 16,
                a10 == ((b2 & 0x3F) as u32) << 10,
                a6 == ((b4 & 0x0F) as u32) << 6,
                a0 == (b5 & 0x3F) as u32,
                0x10000 <= v && v <= 0x10FFFF,
        ;
        assert(supplementary_val(b1, b2, b4, b5) == v);
        assert(all.skip(6) =~= rest);
    }
}

/// Decoding an encoded character sequence yields the original
/// sequence: the round trip of the modified UTF-8 coder. The
/// characters 0xD000 to 0xD7FF are excluded, as in
/// [`lemma_mutf8_decode_one`].
pub proof fn lemma_mutf8_round_trip(s: Seq<char>)
    requires
        forall|i: int| 0 <= i < s.len() ==> !(0xD000 <= #[trigger] (s[i] as u32) <= 0xD7FF),
    ensures
        mutf8_decode(mutf8_encode(s)) == Ok::<Seq<char>, ModifiedUtf8Error>(s),
    decreases s.len(),
{
    if s.len() == 0 {
        assert(mutf8_encode(s).len() == 0);
        assert(s =~= Seq::<char>::empty());
    } else {
        lemma_mutf8_decode_one(s[0], mutf8_encode(s.drop_first()));
        lemma_mutf8_round_trip(s.drop_first());
        assert(seq![s[0]] + s.drop_first() =~= s);
    }
}

/// The decoder never takes a bare `0x00` for a literal NUL: a byte
/// sequence led by `0x00` is rejected outright.
pub proof fn lemma_mutf8_rejects_bare_nul(bytes: Seq<u8>)
    requires
        bytes.len() > 0,
        bytes[0] == 0,
    ensures
        mutf8_decode(bytes) == Err::<Seq<char>, ModifiedUtf8Error>(ModifiedUtf8Error::UnexpectedNul),
{
    let b: u8 = bytes[0];
    assert(!(b > 0) && b & 0xE0 != 0xC0 && b & 0xF0 != 0xE0 && b != 0xED) by (bit_vector)
        requires b == 0;
}

} // verus!
