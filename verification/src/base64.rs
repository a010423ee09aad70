//! Base64 with the standard alphabet and `=` padding.

use vstd::prelude::*;

verus! {

/// The character of each six-bit value.
pub const ALPHABET: [char; 64] = [
    'A', 'B', 'C', 'D', 'E', 'F', 'G', 'H', 'I', 'J', 'K', 'L', 'M', 'N', 'O', 'P',
    'Q', 'R', 'S', 'T', 'U', 'V', 'W', 'X', 'Y', 'Z', 'a', 'b', 'c', 'd', 'e', 'f',
    'g', 'h', 'i', 'j', 'k', 'l', 'm', 'n', 'o', 'p', 'q', 'r', 's', 't', 'u', 'v',
    'w', 'x', 'y', 'z', '0', '1', '2', '3', '4', '5', '6', '7', '8', '9', '+', '/',
];

/// The character of a six-bit value.
#[verifier::opaque]
pub open spec fn sextet_char(v: int) -> char {
    ALPHABET@[v]
}

/// Byte `i`, or zero past the end.
pub open spec fn byte_or_zero(bytes: Seq<u8>, i: int) -> int {
    if 0 <= i < bytes.len() {
        bytes[i] as int
    } else {
        0
    }
}

/// Group `g` of three bytes, read as one big-endian 24-bit number.
pub open spec fn group_value(bytes: Seq<u8>, g: int) -> int {
    byte_or_zero(bytes, 3 * g) * 65536 + byte_or_zero(bytes, 3 * g + 1) * 256 + byte_or_zero(
        bytes,
        3 * g + 2,
    )
}

/// Six-bit piece `r` of a 24-bit number, counted from its high end.
pub open spec fn sextet(value: int, r: int) -> int {
    if r == 0 {
        value / 262144
    } else if r == 1 {
        value / 4096 % 64
    } else if r == 2 {
        value / 64 % 64
    } else {
        value % 64
    }
}

/// Character `k` of the encoding: piece `k % 4` of group `k / 4`, or `=` where
/// that piece lies wholly past the last byte.
pub open spec fn encoded_char(bytes: Seq<u8>, k: int) -> char {
    if 3 * (k / 4) + k % 4 > bytes.len() {
        '='
    } else {
        sextet_char(sextet(group_value(bytes, k / 4), k % 4))
    }
}

/// The padded Base64 text of a byte sequence: four characters for each started
/// group of three bytes.
pub open spec fn encoded(bytes: Seq<u8>) -> Seq<char> {
    Seq::new(((bytes.len() + 2) / 3 * 4) as nat, |k: int| encoded_char(bytes, k))
}

/// Shifting and masking three joined bytes takes their six-bit pieces.
proof fn lemma_sextets(b0: u8, b1: u8, b2: u8)
    ensures
        ({
            let triple = (b0 as u32) << 16 | (b1 as u32) << 8 | b2 as u32;
            let value = b0 * 65536 + b1 * 256 + b2;
            &&& (triple >> 18) & 0x3F == sextet(value, 0)
            &&& (triple >> 12) & 0x3F == sextet(value, 1)
            &&& (triple >> 6) & 0x3F == sextet(value, 2)
            &&& triple & 0x3F == sextet(value, 3)
        }),
{
    let (x0, x1, x2) = (b0 as u32, b1 as u32, b2 as u32);
    let triple = x0 << 16 | x1 << 8 | x2;
    assert(triple == x0 * 65536 + x1 * 256 + x2) by (bit_vector)
        requires
            triple == x0 << 16 | x1 << 8 | x2,
            x0 < 256,
            x1 < 256,
            x2 < 256,
    ;
    assert((triple >> 18) & 0x3F == triple / 262144 && (triple >> 12) & 0x3F == triple / 4096 % 64
        && (triple >> 6) & 0x3F == triple / 64 % 64 && triple & 0x3F == triple % 64) by (bit_vector)
        requires
            triple < 0x1000000,
    ;
}

/// The six-bit value of an alphabet character; zero for every other character.
pub open spec fn char_value(c: char) -> int {
    if 'A' <= c <= 'Z' {
        c as int - 'A' as int
    } else if 'a' <= c <= 'z' {
        c as int - 'a' as int + 26
    } else if '0' <= c <= '9' {
        c as int - '0' as int + 52
    } else if c == '+' {
        62
    } else if c == '/' {
        63
    } else {
        0
    }
}

/// Group `g` of four characters, read as one big-endian 24-bit number.
pub open spec fn quad_value(text: Seq<char>, g: int) -> int {
    char_value(text[4 * g]) * 262144 + char_value(text[4 * g + 1]) * 4096 + char_value(
        text[4 * g + 2],
    ) * 64 + char_value(text[4 * g + 3])
}

/// How many `=` end a text, as far as two.
pub open spec fn padding(text: Seq<char>) -> int {
    if text.len() == 0 || text[text.len() - 1] != '=' {
        0
    } else if text.len() == 1 || text[text.len() - 2] != '=' {
        1
    } else {
        2
    }
}

/// The bytes that a padded Base64 text stands for.
pub open spec fn decoded(text: Seq<char>) -> Seq<u8> {
    Seq::new(
        (text.len() / 4 * 3 - padding(text)) as nat,
        |i: int|
            {
                let value = quad_value(text, i / 3);
                if i % 3 == 0 {
                    (value / 65536) as u8
                } else if i % 3 == 1 {
                    (value / 256 % 256) as u8
                } else {
                    (value % 256) as u8
                }
            },
    )
}

proof fn lemma_sextet_char(v: int)
    requires
        0 <= v < 64,
    ensures
        char_value(sextet_char(v)) == v,
        sextet_char(v) != '=',
        ALPHABET@.contains(sextet_char(v)),
{
    reveal(sextet_char);
    assert(ALPHABET@[v] == sextet_char(v));
}

/// A 24-bit number falls apart into its bytes and into its six-bit pieces.
proof fn lemma_pieces(b0: u8, b1: u8, b2: u8)
    ensures
        ({
            let value = b0 * 65536 + b1 * 256 + b2;
            &&& 0 <= value < 0x1000000
            &&& value / 65536 == b0
            &&& value / 256 % 256 == b1
            &&& value % 256 == b2
            &&& 0 <= sextet(value, 0) < 64
            &&& 0 <= sextet(value, 1) < 64
            &&& 0 <= sextet(value, 2) < 64
            &&& 0 <= sextet(value, 3) < 64
            &&& sextet(value, 0) * 262144 + sextet(value, 1) * 4096 + sextet(value, 2) * 64
                + sextet(value, 3) == value
            &&& b1 == 0 && b2 == 0 ==> sextet(value, 2) == 0
            &&& b2 == 0 ==> sextet(value, 3) == 0
        }),
{
    let (x0, x1, x2) = (b0 as u32, b1 as u32, b2 as u32);
    let v = (x0 * 65536 + x1 * 256 + x2) as u32;
    assert(v / 65536 == x0 && v / 256 % 256 == x1 && v % 256 == x2 && (v / 262144) * 262144 + (v
        / 4096 % 64) * 4096 + (v / 64 % 64) * 64 + v % 64 == v && v / 262144 < 64 && (x1 == 0 && x2
        == 0 ==> v / 64 % 64 == 0) && (x2 == 0 ==> v % 64 == 0)) by (bit_vector)
        requires
            v == x0 * 65536 + x1 * 256 + x2,
            x0 < 256,
            x1 < 256,
            x2 < 256,
    ;
}

/// The pieces of a group; those past the last byte are zero.
proof fn lemma_group(bytes: Seq<u8>, g: int)
    ensures
        ({
            let value = group_value(bytes, g);
            &&& value / 65536 == byte_or_zero(bytes, 3 * g)
            &&& value / 256 % 256 == byte_or_zero(bytes, 3 * g + 1)
            &&& value % 256 == byte_or_zero(bytes, 3 * g + 2)
            &&& 0 <= sextet(value, 0) < 64
            &&& 0 <= sextet(value, 1) < 64
            &&& 0 <= sextet(value, 2) < 64
            &&& 0 <= sextet(value, 3) < 64
            &&& sextet(value, 0) * 262144 + sextet(value, 1) * 4096 + sextet(value, 2) * 64
                + sextet(value, 3) == value
            &&& 3 * g + 2 > bytes.len() ==> sextet(value, 2) == 0
            &&& 3 * g + 3 > bytes.len() ==> sextet(value, 3) == 0
        }),
{
    lemma_pieces(
        byte_or_zero(bytes, 3 * g) as u8,
        byte_or_zero(bytes, 3 * g + 1) as u8,
        byte_or_zero(bytes, 3 * g + 2) as u8,
    );
}

proof fn lemma_quad_char(bytes: Seq<u8>, g: int, r: int)
    requires
        0 <= g,
        3 * g < bytes.len(),
        0 <= r < 4,
    ensures
        char_value(encoded(bytes)[4 * g + r]) == sextet(group_value(bytes, g), r),
{
    let k = 4 * g + r;
    assert(k / 4 == g && k % 4 == r);
    lemma_group(bytes, g);
    lemma_sextet_char(sextet(group_value(bytes, g), r));
    assert(encoded(bytes)[k] == encoded_char(bytes, k));
}

proof fn lemma_quad(bytes: Seq<u8>, g: int)
    requires
        0 <= g,
        3 * g < bytes.len(),
    ensures
        quad_value(encoded(bytes), g) == group_value(bytes, g),
{
    lemma_group(bytes, g);
    lemma_quad_char(bytes, g, 0);
    lemma_quad_char(bytes, g, 1);
    lemma_quad_char(bytes, g, 2);
    lemma_quad_char(bytes, g, 3);
}

/// The padding tells how many bytes the last group has.
proof fn lemma_padding(bytes: Seq<u8>)
    ensures
        encoded(bytes).len() / 4 * 3 - padding(encoded(bytes)) == bytes.len(),
{
    let text = encoded(bytes);
    if bytes.len() > 0 {
        let g = (bytes.len() - 1) / 3;
        let value = group_value(bytes, g);
        lemma_group(bytes, g);
        lemma_sextet_char(sextet(value, 2));
        lemma_sextet_char(sextet(value, 3));
        assert(text.len() == 4 * g + 4);
        assert(text[4 * g + 2] == encoded_char(bytes, 4 * g + 2));
        assert(text[4 * g + 3] == encoded_char(bytes, 4 * g + 3));
        assert((4 * g + 2) / 4 == g && (4 * g + 2) % 4 == 2);
        assert((4 * g + 3) / 4 == g && (4 * g + 3) % 4 == 3);
    }
}

/// Decoding an encoding gives back the bytes that were encoded.
pub proof fn law_decode_inverts_encode(bytes: Seq<u8>)
    ensures
        decoded(encoded(bytes)) == bytes,
{
    let text = encoded(bytes);
    lemma_padding(bytes);
    assert forall|i: int| 0 <= i < bytes.len() implies decoded(text)[i] == bytes[i] by {
        lemma_quad(bytes, i / 3);
        lemma_group(bytes, i / 3);
        assert(i == 3 * (i / 3) + i % 3);
    }
    assert(decoded(text) =~= bytes);
}

/// Two byte sequences with the same encoding are the same.
pub proof fn law_encoding_is_injective(a: Seq<u8>, b: Seq<u8>)
    requires
        encoded(a) == encoded(b),
    ensures
        a == b,
{
    law_decode_inverts_encode(a);
    law_decode_inverts_encode(b);
}

/// An encoding has four characters for each started group of three bytes, and
/// holds only characters of the alphabet, save for at most two `=` at its end.
pub proof fn law_encoding_is_well_formed(bytes: Seq<u8>)
    ensures
        encoded(bytes).len() == (bytes.len() + 2) / 3 * 4,
        forall|k: int|
            0 <= k < encoded(bytes).len() ==> ALPHABET@.contains(#[trigger] encoded(bytes)[k]) || (
            encoded(bytes)[k] == '=' && k >= encoded(bytes).len() - 2),
{
    assert forall|k: int| 0 <= k < encoded(bytes).len() implies ALPHABET@.contains(
        #[trigger] encoded(bytes)[k],
    ) || (encoded(bytes)[k] == '=' && k >= encoded(bytes).len() - 2) by {
        lemma_group(bytes, k / 4);
        lemma_sextet_char(sextet(group_value(bytes, k / 4), k % 4));
        assert(encoded(bytes)[k] == encoded_char(bytes, k));
    }
}

/// The character of a six-bit value.
fn alphabet_char(v: u32) -> (c: char)
    requires
        v < 64,
    ensures
        c == sextet_char(v as int),
{
    reveal(sextet_char);
    ALPHABET[v as usize]
}

/// The four characters of one group, side by side.
proof fn lemma_encode_group(bytes: Seq<u8>, g: int)
    requires
        0 <= g,
        3 * g < bytes.len(),
    ensures
        ({
            let value = group_value(bytes, g);
            encoded(bytes).subrange(4 * g, 4 * g + 4) =~= seq![
                sextet_char(sextet(value, 0)),
                sextet_char(sextet(value, 1)),
                if 3 * g + 2 > bytes.len() { '=' } else { sextet_char(sextet(value, 2)) },
                if 3 * g + 3 > bytes.len() { '=' } else { sextet_char(sextet(value, 3)) },
            ]
        }),
{
    assert forall|r: int| 0 <= r < 4 implies #[trigger] encoded(bytes)[4 * g + r] == encoded_char(
        bytes,
        4 * g + r,
    ) && (4 * g + r) / 4 == g && (4 * g + r) % 4 == r by {}
    assert(encoded(bytes)[4 * g + 0] == encoded_char(bytes, 4 * g));
}

/// Appends the four characters of a group of one to three bytes; a missing
/// byte is given as zero.
fn push_group(output: &mut String, b0: u8, b1: u8, b2: u8, len: usize)
    requires
        1 <= len <= 3,
    ensures
        ({
            let value = b0 * 65536 + b1 * 256 + b2;
            final(output)@ == old(output)@ + seq![
                sextet_char(sextet(value, 0)),
                sextet_char(sextet(value, 1)),
                if len < 2 { '=' } else { sextet_char(sextet(value, 2)) },
                if len < 3 { '=' } else { sextet_char(sextet(value, 3)) },
            ]
        }),
{
    let triple: u32 = (b0 as u32) << 16 | (b1 as u32) << 8 | b2 as u32;
    proof {
        lemma_sextets(b0, b1, b2);
        lemma_pieces(b0, b1, b2);
    }
    output.push(alphabet_char((triple >> 18) & 0x3F));
    output.push(alphabet_char((triple >> 12) & 0x3F));
    if len >= 2 {
        output.push(alphabet_char((triple >> 6) & 0x3F));
    } else {
        output.push('=');
    }
    if len >= 3 {
        output.push(alphabet_char(triple & 0x3F));
    } else {
        output.push('=');
    }
}

/// Encodes bytes as Base64.
pub fn base64_encode(input: &[u8]) -> (output: String)
    ensures
        output@ == encoded(input@),
{
    let mut output = String::new();
    let mut i: usize = 0;
    while input.len() - i >= 3
        invariant
            i % 3 == 0,
            i <= input@.len(),
            output@ == encoded(input@).take(i / 3 * 4),
        decreases input@.len() - i,
    {
        push_group(&mut output, input[i], input[i + 1], input[i + 2], 3);
        proof {
            lemma_encode_group(input@, i as int / 3);
        }
        i = i + 3;
        assert(output@ =~= encoded(input@).take(i / 3 * 4));
    }
    let left: usize = input.len() - i;
    if left == 2 {
        push_group(&mut output, input[i], input[i + 1], 0, 2);
        proof {
            lemma_encode_group(input@, i as int / 3);
        }
    } else if left == 1 {
        push_group(&mut output, input[i], 0, 0, 1);
        proof {
            lemma_encode_group(input@, i as int / 3);
        }
    }
    assert(output@ =~= encoded(input@));
    output
}

/// The alphabet, from the value zero up.
pub proof fn law_alphabet_is_the_standard_one()
    ensures
        ALPHABET@ == "ABCDEFGHIJKLMNOPQRSTUVWXYZabcdefghijklmnopqrstuvwxyz0123456789+/"@,
{
    reveal_strlit("ABCDEFGHIJKLMNOPQRSTUVWXYZabcdefghijklmnopqrstuvwxyz0123456789+/");
    assert(ALPHABET@ =~= "ABCDEFGHIJKLMNOPQRSTUVWXYZabcdefghijklmnopqrstuvwxyz0123456789+/"@);
}

proof fn lemma_bytes_to_sextets(a: u8, b: u8, c: u8)
    ensures
        ({
            let value = a * 65536 + b * 256 + c;
            &&& sextet(value, 0) == a / 4
            &&& sextet(value, 1) == a % 4 * 16 + b / 16
            &&& sextet(value, 2) == b % 16 * 4 + c / 64
            &&& sextet(value, 3) == c % 64
        }),
{
    let (x0, x1, x2) = (a as u32, b as u32, c as u32);
    let v = (x0 * 65536 + x1 * 256 + x2) as u32;
    assert(v / 262144 == x0 / 4 && v / 4096 % 64 == x0 % 4 * 16 + x1 / 16 && v / 64 % 64 == x1 % 16
        * 4 + x2 / 64 && v % 64 == x2 % 64) by (bit_vector)
        requires
            v == x0 * 65536 + x1 * 256 + x2,
            x0 < 256,
            x1 < 256,
            x2 < 256,
    ;
}

/// Each three bytes become four characters, six bits each; two bytes at the end become
/// three characters and one `=`, one byte becomes two characters and two `=`.
pub proof fn law_each_group_becomes_four_characters(bytes: Seq<u8>, g: int)
    requires
        0 <= g,
        3 * g < bytes.len(),
    ensures
        encoded(bytes).len() >= 4 * g + 4,
        ({
            let (text, left) = (encoded(bytes).skip(4 * g), bytes.len() - 3 * g);
            let a = bytes[3 * g];
            let b = if left > 1 {
                bytes[3 * g + 1]
            } else {
                0
            };
            let c = if left > 2 {
                bytes[3 * g + 2]
            } else {
                0
            };
            &&& text[0] == ALPHABET@[a as int / 4]
            &&& text[1] == ALPHABET@[a as int % 4 * 16 + b as int / 16]
            &&& left > 1 ==> text[2] == ALPHABET@[b as int % 16 * 4 + c as int / 64]
            &&& left > 2 ==> text[3] == ALPHABET@[c as int % 64]
            &&& left <= 1 ==> text[2] == '='
            &&& left <= 2 ==> text[3] == '='
            &&& left <= 3 ==> text.len() == 4
        }),
{
    reveal(sextet_char);
    let left = bytes.len() - 3 * g;
    let b = if left > 1 {
        bytes[3 * g + 1]
    } else {
        0
    };
    let c = if left > 2 {
        bytes[3 * g + 2]
    } else {
        0
    };
    lemma_bytes_to_sextets(bytes[3 * g], b, c);
    lemma_encode_group(bytes, g);
    let text = encoded(bytes).skip(4 * g);
    let quad = encoded(bytes).subrange(4 * g, 4 * g + 4);
    assert(text[0] == quad[0] && text[1] == quad[1] && text[2] == quad[2] && text[3] == quad[3]);
}

} // verus!
