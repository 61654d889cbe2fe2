//! Building text: hexadecimal and decimal numerals, UTF-8 decoding and
//! white-space trimming.

use vstd::prelude::*;

verus! {

/// Uppercase hexadecimal digit for `0..=15`.
pub open spec fn hex_digit(d: int) -> char {
    if d < 10 { (48 + d) as char } else { (55 + d) as char }
}

/// `v` written with exactly `width` uppercase hex digits (most significant first),
/// keeping the low `width` digits.
pub open spec fn hex_chars(v: nat, width: nat) -> Seq<char>
    decreases width,
{
    if width == 0 {
        Seq::empty()
    } else {
        hex_chars(v / 16, (width - 1) as nat).push(hex_digit((v % 16) as int))
    }
}

/// Decimal digit for `0..=9`.
pub open spec fn dec_digit(d: int) -> char {
    (48 + d) as char
}

/// `v` written in decimal without leading zeros.
pub open spec fn dec_chars(v: nat) -> Seq<char>
    decreases v,
{
    if v < 10 {
        seq![dec_digit(v as int)]
    } else {
        dec_chars(v / 10).push(dec_digit((v % 10) as int))
    }
}

/// One-character string for a hex digit.
pub fn hex_digit_str(d: u8) -> (r: &'static str)
    requires
        d < 16,
    ensures
        r@ == seq![hex_digit(d as int)],
{
    proof {
        reveal_strlit("0");
        reveal_strlit("1");
        reveal_strlit("2");
        reveal_strlit("3");
        reveal_strlit("4");
        reveal_strlit("5");
        reveal_strlit("6");
        reveal_strlit("7");
        reveal_strlit("8");
        reveal_strlit("9");
        reveal_strlit("A");
        reveal_strlit("B");
        reveal_strlit("C");
        reveal_strlit("D");
        reveal_strlit("E");
        reveal_strlit("F");
    }
    match d {
        0 => "0",
        1 => "1",
        2 => "2",
        3 => "3",
        4 => "4",
        5 => "5",
        6 => "6",
        7 => "7",
        8 => "8",
        9 => "9",
        10 => "A",
        11 => "B",
        12 => "C",
        13 => "D",
        14 => "E",
        _ => "F",
    }
}

/// Append `v` as exactly `width` uppercase hex digits.
pub fn push_hex(s: &mut String, v: u64, width: u32)
    ensures
        final(s)@ == old(s)@ + hex_chars(v as nat, width as nat),
    decreases width,
{
    if width == 0 {
        assert(hex_chars(v as nat, 0) =~= Seq::<char>::empty());
        assert(old(s)@ + Seq::<char>::empty() =~= old(s)@);
        return;
    }
    push_hex(s, v / 16, width - 1);
    let d: u8 = (v % 16) as u8;
    s.append(hex_digit_str(d));
    assert(final(s)@ =~= old(s)@ + hex_chars(v as nat, width as nat));
}

/// Append `v` in decimal without leading zeros.
pub fn push_dec(s: &mut String, v: u64)
    ensures
        final(s)@ == old(s)@ + dec_chars(v as nat),
    decreases v,
{
    if v >= 10 {
        push_dec(s, v / 10);
    }
    let d: u8 = (v % 10) as u8;
    s.append(hex_digit_str(d));
    assert(final(s)@ =~= old(s)@ + dec_chars(v as nat));
}


/// Unicode `White_Space` characters (the set `char::is_whitespace` tests).
pub open spec fn is_white_space(c: char) -> bool {
    let u = c as u32;
    ||| 0x09 <= u <= 0x0D
    ||| u == 0x20
    ||| u == 0x85
    ||| u == 0xA0
    ||| u == 0x1680
    ||| 0x2000 <= u <= 0x200A
    ||| u == 0x2028
    ||| u == 0x2029
    ||| u == 0x202F
    ||| u == 0x205F
    ||| u == 0x3000
}

/// `s` without its leading white space.
pub open spec fn trim_start_spec(s: Seq<char>) -> Seq<char>
    decreases s.len(),
{
    if s.len() > 0 && is_white_space(s[0]) {
        trim_start_spec(s.drop_first())
    } else {
        s
    }
}

/// `s` without its trailing white space.
pub open spec fn trim_end_spec(s: Seq<char>) -> Seq<char>
    decreases s.len(),
{
    if s.len() > 0 && is_white_space(s.last()) {
        trim_end_spec(s.drop_last())
    } else {
        s
    }
}

/// `s` without leading and trailing white space.
pub open spec fn trim_spec(s: Seq<char>) -> Seq<char> {
    trim_end_spec(trim_start_spec(s))
}

/// Characters of a byte sequence read as ASCII.
pub open spec fn ascii_chars(bytes: Seq<u8>) -> Seq<char> {
    bytes.map_values(|b: u8| b as char)
}

/// Text decoded from bytes by `String::from_utf8_lossy` (invalid sequences become U+FFFD).
pub uninterp spec fn lossy_utf8(bytes: Seq<u8>) -> Seq<char>;

/// `String::from_utf8_lossy`: decodes UTF-8, replacing invalid sequences.
///
/// Claimed: the result is a function of the bytes alone, and bytes that are all
/// ASCII decode to one character per byte (valid UTF-8 is copied unchanged).
#[verifier::external_body]
pub(crate) fn utf8_lossy(bytes: &[u8]) -> (r: String)
    ensures
        r@ == lossy_utf8(bytes@),
        (forall|i: int| 0 <= i < bytes@.len() ==> bytes@[i] < 128) ==> r@ == ascii_chars(bytes@),
{
    String::from_utf8_lossy(bytes).into_owned()
}

/// `str::trim`: removes leading and trailing Unicode white space.
#[verifier::external_body]
pub(crate) fn trim(s: &str) -> (r: &str)
    ensures
        r@ == trim_spec(s@),
{
    s.trim()
}

/// `s` holds no line break.
pub open spec fn no_newline(s: Seq<char>) -> bool {
    forall|i: int| 0 <= i < s.len() ==> #[trigger] s[i] != '\n'
}

/// Joining two texts without line breaks gives one without.
pub proof fn lemma_no_newline_concat(a: Seq<char>, b: Seq<char>)
    requires
        no_newline(a),
        no_newline(b),
    ensures
        no_newline(a + b),
{
    assert forall|i: int| 0 <= i < (a + b).len() implies #[trigger] (a + b)[i] != '\n' by {
        if i < a.len() {
            assert((a + b)[i] == a[i]);
        } else {
            assert((a + b)[i] == b[i - a.len()]);
        }
    }
}

/// Hex numerals hold no line break.
pub proof fn lemma_hex_chars_no_newline(v: nat, width: nat)
    ensures
        no_newline(hex_chars(v, width)),
    decreases width,
{
    if width > 0 {
        lemma_hex_chars_no_newline(v / 16, (width - 1) as nat);
        let d = hex_digit((v % 16) as int);
        assert(no_newline(seq![d]));
        lemma_no_newline_concat(hex_chars(v / 16, (width - 1) as nat), seq![d]);
        assert(hex_chars(v / 16, (width - 1) as nat).push(d) =~= hex_chars(v / 16, (width - 1) as nat) + seq![d]);
    }
}

/// Decimal numerals hold no line break.
pub proof fn lemma_dec_chars_no_newline(v: nat)
    ensures
        no_newline(dec_chars(v)),
    decreases v,
{
    let d = dec_digit((v % 10) as int);
    assert(no_newline(seq![d]));
    if v >= 10 {
        lemma_dec_chars_no_newline(v / 10);
        lemma_no_newline_concat(dec_chars(v / 10), seq![d]);
        assert(dec_chars(v / 10).push(d) =~= dec_chars(v / 10) + seq![d]);
    } else {
        assert(no_newline(seq![dec_digit(v as int)]));
    }
}

/// Joining two texts without line breaks gives one without (applied
/// wherever such a join appears).
pub broadcast proof fn lemma_no_newline_add(a: Seq<char>, b: Seq<char>)
    requires
        no_newline(a),
        no_newline(b),
    ensures
        #[trigger] no_newline(a + b),
{
    lemma_no_newline_concat(a, b);
}

} // verus!
