use vstd::prelude::*;

verus! {

/// `hex::FromHexError`, the error of `hex::decode`, carried as an opaque value.
#[verifier::external_type_specification]
#[verifier::external_body]
pub struct ExFromHexError(hex::FromHexError);

/// The value of one hexadecimal digit, upper or lower case.
pub open spec fn hex_digit_value(c: u8) -> Option<u8> {
    if 0x30 <= c && c <= 0x39 {
        Some((c - 0x30) as u8)
    } else if 0x61 <= c && c <= 0x66 {
        Some((c - 0x61 + 10) as u8)
    } else if 0x41 <= c && c <= 0x46 {
        Some((c - 0x41 + 10) as u8)
    } else {
        None
    }
}

/// The bytes that a string of hexadecimal digit pairs denotes: `None` for an odd
/// number of digits or a character that is not a digit.
pub open spec fn hex_decoded(s: Seq<u8>) -> Option<Seq<u8>> {
    if s.len() % 2 == 1 || exists|i: int| 0 <= i < s.len() && #[trigger] hex_digit_value(s[i]) is None {
        None
    } else {
        Some(
            Seq::new(
                s.len() / 2,
                |k: int|
                    (hex_digit_value(s[2 * k])->Some_0 * 16 + hex_digit_value(
                        s[2 * k + 1],
                    )->Some_0) as u8,
            ),
        )
    }
}

/// Relies on `hex::decode`: it accepts an even number of hexadecimal digits of either
/// case, and turns each pair, high digit first, into one byte.
#[verifier::external_body]
fn hex_decode(token: &Vec<u8>) -> (r: Result<Vec<u8>, hex::FromHexError>)
    ensures
        r is Ok <==> hex_decoded(token@) is Some,
        r matches Ok(bytes) ==> bytes@ == hex_decoded(token@)->Some_0,
{
    hex::decode(token)
}

/// The characters with the Unicode `White_Space` property, which separate the tokens
/// of an image.
pub open spec fn is_white_space(c: char) -> bool {
    ('\u{9}' <= c && c <= '\u{d}') || c == ' ' || c == '\u{85}' || c == '\u{a0}' || c
        == '\u{1680}' || ('\u{2000}' <= c && c <= '\u{200a}') || c == '\u{2028}' || c
        == '\u{2029}' || c == '\u{202f}' || c == '\u{205f}' || c == '\u{3000}'
}

fn is_white_space_char(c: char) -> (r: bool)
    ensures
        r == is_white_space(c),
{
    ('\u{9}' <= c && c <= '\u{d}') || c == ' ' || c == '\u{85}' || c == '\u{a0}' || c
        == '\u{1680}' || ('\u{2000}' <= c && c <= '\u{200a}') || c == '\u{2028}' || c
        == '\u{2029}' || c == '\u{202f}' || c == '\u{205f}' || c == '\u{3000}'
}

/// The characters of `text`, in order.
fn chars_of(text: &str) -> (r: Vec<char>)
    ensures
        r@ == text@,
{
    let mut v: Vec<char> = Vec::new();
    for c in it: text.chars()
        invariant
            v@ == it.seq().take(it.index() as int),
    {
        v.push(c);
    }
    assert(v@ =~= text@);
    v
}

/// True when every character of `t` is ASCII.
pub open spec fn all_ascii(t: Seq<char>) -> bool {
    forall|i: int| 0 <= i < t.len() ==> (#[trigger] t[i] as u32) < 0x80
}

/// The bytes of an ASCII token.
pub open spec fn ascii_bytes(t: Seq<char>) -> Seq<u8> {
    t.map_values(|c: char| c as u8)
}

/// The bytes a token denotes: `None` unless it is an even number of hex digits.
pub open spec fn token_bytes(t: Seq<char>) -> Option<Seq<u8>> {
    if all_ascii(t) {
        hex_decoded(ascii_bytes(t))
    } else {
        None
    }
}

/// The length of the run of non-whitespace bytes at the start of `s`.
pub open spec fn token_len(s: Seq<char>) -> nat
    decreases s.len(),
{
    if s.len() == 0 || is_white_space(s[0]) {
        0
    } else {
        1 + token_len(s.drop_first())
    }
}

/// A token never runs past the end of the text.
pub proof fn lemma_token_len_bound(s: Seq<char>)
    ensures
        token_len(s) <= s.len(),
    decreases s.len(),
{
    if s.len() > 0 && !is_white_space(s[0]) {
        lemma_token_len_bound(s.drop_first());
    }
}

/// Prepends `prefix` to a successful outcome, and moves an error position `n` bytes on.
pub open spec fn after(r: Result<Seq<u8>, int>, prefix: Seq<u8>, n: int) -> Result<Seq<u8>, int> {
    match r {
        Ok(rest) => Ok(prefix + rest),
        Err(p) => Err(p + n),
    }
}

proof fn lemma_after_after(r: Result<Seq<u8>, int>, a: Seq<u8>, n: int, b: Seq<u8>, m: int)
    ensures
        after(after(r, a, n), b, m) == after(r, b + a, n + m),
{
    if let Ok(x) = r {
        assert(b + (a + x) =~= (b + a) + x);
    }
}

/// What an image text decodes to: the concatenated bytes of its whitespace-separated
/// tokens, or the character offset of the first token that is not valid hex.
pub open spec fn image_bytes(s: Seq<char>) -> Result<Seq<u8>, int>
    decreases s.len(),
{
    if s.len() == 0 {
        Ok(seq![])
    } else if is_white_space(s[0]) {
        after(image_bytes(s.drop_first()), seq![], 1)
    } else {
        let n = token_len(s);
        proof {
            lemma_token_len_bound(s);
        }
        match token_bytes(s.take(n as int)) {
            Some(b) => after(image_bytes(s.skip(n as int)), b, n as int),
            None => Err(0),
        }
    }
}

/// A token of an image text that is not valid hex.
#[derive(Debug, Clone, Copy, PartialEq, Eq, Structural)]
pub struct InvalidHexToken {
    /// Offset of the token's first character in the text.
    pub position: usize,
}

proof fn lemma_token_len_of_run(s: Seq<char>, n: int)
    requires
        0 <= n <= s.len(),
        forall|k: int| 0 <= k < n ==> !is_white_space(#[trigger] s[k]),
        n == s.len() || is_white_space(s[n]),
    ensures
        token_len(s) == n,
    decreases n,
{
    if n > 0 {
        let t = s.drop_first();
        assert forall|k: int| 0 <= k < n - 1 implies !is_white_space(#[trigger] t[k]) by {
            assert(t[k] == s[k + 1]);
        }
        lemma_token_len_of_run(t, n - 1);
    }
}

/// Decodes a ROM or RAM image: hexadecimal byte pairs in tokens separated by whitespace.
pub fn decode_image(text: &str) -> (r: Result<Vec<u8>, InvalidHexToken>)
    ensures
        image_bytes(text@) matches Ok(b) ==> r matches Ok(v) && v@ == b,
        image_bytes(text@) matches Err(p) ==> r == Err::<Vec<u8>, _>(
            InvalidHexToken { position: p as usize },
        ),
{
    let chars = chars_of(text);
    let mut bytes: Vec<u8> = Vec::new();
    let mut i: usize = 0;
    proof {
        assert(chars@.skip(0) =~= chars@);
        if let Ok(x) = image_bytes(chars@) {
            assert(seq![] + x =~= x);
        }
    }
    while i < chars.len()
        invariant
            chars@ == text@,
            0 <= i <= chars@.len(),
            image_bytes(chars@) == after(image_bytes(chars@.skip(i as int)), bytes@, i as int),
        decreases chars.len() - i,
    {
        let rest = Ghost(chars@.skip(i as int));
        if is_white_space_char(chars[i]) {
            assert(rest@.drop_first() =~= chars@.skip(i + 1));
            proof {
                lemma_after_after(image_bytes(chars@.skip(i + 1)), seq![], 1, bytes@, i as int);
                assert(bytes@ + seq![] =~= bytes@);
            }
            i = i + 1;
        } else {
            let start = i;
            let mut token: Vec<u8> = Vec::new();
            let mut ascii = true;
            while i < chars.len() && !is_white_space_char(chars[i])
                invariant
                    start <= i <= chars@.len(),
                    token@ == ascii_bytes(chars@.subrange(start as int, i as int)),
                    ascii == all_ascii(chars@.subrange(start as int, i as int)),
                    forall|k: int| start <= k < i ==> !is_white_space(#[trigger] chars@[k]),
                decreases chars.len() - i,
            {
                let c = chars[i];
                token.push(c as u8);
                ascii = ascii && (c as u32) < 0x80;
                i = i + 1;
                proof {
                    let t = chars@.subrange(start as int, i as int);
                    assert(t.drop_last() =~= chars@.subrange(start as int, i - 1));
                    assert(token@ =~= ascii_bytes(t));
                    assert(all_ascii(t) == (all_ascii(t.drop_last()) && (t.last() as u32) < 0x80));
                }
            }
            proof {
                lemma_token_len_of_run(rest@, i - start);
                assert(rest@.take(i - start) =~= chars@.subrange(start as int, i as int));
                assert(rest@.skip(i - start) =~= chars@.skip(i as int));
            }
            if !ascii {
                return Err(InvalidHexToken { position: start });
            }
            match hex_decode(&token) {
                Ok(mut decoded) => {
                    proof {
                        lemma_after_after(
                            image_bytes(chars@.skip(i as int)),
                            decoded@,
                            i - start,
                            bytes@,
                            start as int,
                        );
                    }
                    bytes.append(&mut decoded);
                },
                Err(_) => return Err(InvalidHexToken { position: start }),
            }
        }
    }
    assert(chars@.skip(i as int) =~= seq![]);
    Ok(bytes)
}

} // verus!
