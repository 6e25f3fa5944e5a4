//! Text: decoding it from bytes, trimming white space off it, comparing it,
//! and writing numbers as text.

use vstd::prelude::*;
use vstd::utf8::*;

verus! {

/// The characters that Unicode gives the property `White_Space`.
pub open spec fn is_white_space(c: char) -> bool {
    let n = c as u32;
    ||| 0x09 <= n <= 0x0D
    ||| n == 0x20
    ||| n == 0x85
    ||| n == 0xA0
    ||| n == 0x1680
    ||| 0x2000 <= n <= 0x200A
    ||| n == 0x2028
    ||| n == 0x2029
    ||| n == 0x202F
    ||| n == 0x205F
    ||| n == 0x3000
}

/// Holds of a text that is made of white space alone; the empty text is one.
pub open spec fn all_white_space(s: Seq<char>) -> bool {
    forall|i: int| 0 <= i < s.len() ==> is_white_space(#[trigger] s[i])
}

/// `s` without the white space it starts with.
pub open spec fn trim_start(s: Seq<char>) -> Seq<char>
    decreases s.len(),
{
    if s.len() > 0 && is_white_space(s[0]) {
        trim_start(s.drop_first())
    } else {
        s
    }
}

/// `s` without the white space it ends with.
pub open spec fn trim_end(s: Seq<char>) -> Seq<char>
    decreases s.len(),
{
    if s.len() > 0 && is_white_space(s.last()) {
        trim_end(s.drop_last())
    } else {
        s
    }
}

/// `s` without the white space at either end.
pub open spec fn trimmed(s: Seq<char>) -> Seq<char> {
    trim_end(trim_start(s))
}

/// `core::str::Utf8Error`, which says where bytes stop being UTF-8. It is
/// carried through unread.
#[verifier::external_type_specification]
#[verifier::external_body]
pub struct ExUtf8Error(core::str::Utf8Error);

/// `core::str::from_utf8` accepts a slice exactly when it is valid UTF-8,
/// and the string it then returns is made of the characters that the bytes
/// encode.
pub assume_specification[ core::str::from_utf8 ](bytes: &[u8]) -> (text: Result<
    &str,
    core::str::Utf8Error,
>)
    ensures
        text is Ok <==> valid_utf8(bytes@),
        text matches Ok(s) ==> s@ == decode_utf8(bytes@),
;

/// `str::trim` returns the slice without leading and trailing white space,
/// where white space is what Unicode's `White_Space` property says.
pub assume_specification[ str::trim ](text: &str) -> (inner: &str)
    ensures
        inner@ == trimmed(text@),
;

/// Tells whether two texts are made of the same characters, by comparing
/// their bytes.
pub fn same_text(a: &str, b: &str) -> (same: bool)
    ensures
        same == (a@ == b@),
{
    let x = a.as_bytes();
    let y = b.as_bytes();
    proof {
        encode_utf8_decode_utf8(a@);
        encode_utf8_decode_utf8(b@);
    }
    if x.len() != y.len() {
        return false;
    }
    let mut i: usize = 0;
    while i < x.len()
        invariant
            i <= x.len(),
            x.len() == y.len(),
            forall|k: int| 0 <= k < i ==> x@[k] == y@[k],
            x@ == encode_utf8(a@),
            y@ == encode_utf8(b@),
        decreases x.len() - i,
    {
        if x[i] != y[i] {
            return false;
        }
        i += 1;
    }
    assert(x@ =~= y@);
    true
}

/// The character that stands for a decimal digit.
pub open spec fn digit(d: nat) -> char {
    if d == 0 {
        '0'
    } else if d == 1 {
        '1'
    } else if d == 2 {
        '2'
    } else if d == 3 {
        '3'
    } else if d == 4 {
        '4'
    } else if d == 5 {
        '5'
    } else if d == 6 {
        '6'
    } else if d == 7 {
        '7'
    } else if d == 8 {
        '8'
    } else {
        '9'
    }
}

/// A number in decimal notation, without sign or leading zeros.
pub open spec fn decimal(n: nat) -> Seq<char>
    decreases n,
{
    if n < 10 {
        seq![digit(n)]
    } else {
        decimal(n / 10).push(digit(n % 10))
    }
}

fn digit_text(d: u64) -> (text: &'static str)
    requires
        d < 10,
    ensures
        text@ == seq![digit(d as nat)],
{
    proof {
        reveal_strlit("0");
        reveal_strlit("1");
        reveal_strlit("2");
        reveal_strlit("3");
        reveal_strlit("4");
        reveal_strlit("5");
        reveal_strlit("6");
        reveal_strlit("7");
        reveal_strlit("8");
        reveal_strlit("9");
    }
    match d {
        0 => "0",
        1 => "1",
        2 => "2",
        3 => "3",
        4 => "4",
        5 => "5",
        6 => "6",
        7 => "7",
        8 => "8",
        _ => "9",
    }
}

/// Writes a number in decimal notation.
pub fn decimal_text(n: u64) -> (text: String)
    ensures
        text@ == decimal(n as nat),
    decreases n,
{
    if n < 10 {
        digit_text(n).to_owned()
    } else {
        let mut text = decimal_text(n / 10);
        text.append(digit_text(n % 10));
        text
    }
}

/// A text of white space alone has nothing left once its start is trimmed.
pub proof fn lemma_trim_start_of_white_space(s: Seq<char>)
    requires
        all_white_space(s),
    ensures
        trim_start(s) == Seq::<char>::empty(),
    decreases s.len(),
{
    if s.len() > 0 {
        lemma_trim_start_of_white_space(s.drop_first());
    }
}

/// White space appended to a text is cut off again when the end is trimmed.
pub proof fn lemma_trim_end_drops_padding(s: Seq<char>, padding: Seq<char>)
    requires
        all_white_space(padding),
    ensures
        trim_end(s + padding) == trim_end(s),
    decreases padding.len(),
{
    if padding.len() > 0 {
        assert((s + padding).drop_last() =~= s + padding.drop_last());
        lemma_trim_end_drops_padding(s, padding.drop_last());
    }
}

/// Trimming the start of a padded text leaves the padding in place, unless
/// the text before it was white space too.
proof fn lemma_trim_start_keeps_padding(s: Seq<char>, padding: Seq<char>)
    requires
        all_white_space(padding),
    ensures
        trim_start(s + padding) == if all_white_space(s) {
            Seq::<char>::empty()
        } else {
            trim_start(s) + padding
        },
    decreases s.len(),
{
    if s.len() == 0 {
        lemma_trim_start_of_white_space(padding);
    } else if is_white_space(s[0]) {
        let rest = s.drop_first();
        assert((s + padding).drop_first() =~= rest + padding);
        assert(all_white_space(s) <==> all_white_space(rest)) by {
            if all_white_space(rest) {
                assert forall|i: int| 0 <= i < s.len() implies is_white_space(#[trigger] s[i]) by {
                    if i > 0 {
                        assert(s[i] == rest[i - 1]);
                    }
                }
            }
            if all_white_space(s) {
                assert forall|i: int| 0 <= i < rest.len() implies is_white_space(
                    #[trigger] rest[i],
                ) by {}
            }
        }
        lemma_trim_start_keeps_padding(rest, padding);
    }
}

/// White space at the end of a text does not change what trimming leaves.
pub proof fn lemma_trimmed_ignores_trailing_white_space(s: Seq<char>, padding: Seq<char>)
    requires
        all_white_space(padding),
    ensures
        trimmed(s + padding) == trimmed(s),
{
    lemma_trim_start_keeps_padding(s, padding);
    if all_white_space(s) {
        lemma_trim_start_of_white_space(s);
    } else {
        lemma_trim_end_drops_padding(trim_start(s), padding);
    }
}

/// White space at the start of a text does not change what trimming leaves.
pub proof fn lemma_trimmed_ignores_leading_white_space(padding: Seq<char>, s: Seq<char>)
    requires
        all_white_space(padding),
    ensures
        trimmed(padding + s) == trimmed(s),
    decreases padding.len(),
{
    if padding.len() > 0 {
        assert((padding + s).drop_first() =~= padding.drop_first() + s);
        lemma_trimmed_ignores_leading_white_space(padding.drop_first(), s);
    }
}

/// What is left of a trimmed start is the text itself or begins with a
/// character that is no white space.
proof fn lemma_trim_start_shape(s: Seq<char>)
    ensures
        trim_start(s).len() > 0 ==> !is_white_space(trim_start(s)[0]),
    decreases s.len(),
{
    if s.len() > 0 && is_white_space(s[0]) {
        lemma_trim_start_shape(s.drop_first());
    }
}

/// Trimming the end keeps the first character and leaves no white space at
/// the end.
proof fn lemma_trim_end_shape(s: Seq<char>)
    ensures
        trim_end(s).len() <= s.len(),
        trim_end(s).len() > 0 ==> trim_end(s)[0] == s[0] && !is_white_space(trim_end(s).last()),
    decreases s.len(),
{
    if s.len() > 0 && is_white_space(s.last()) {
        lemma_trim_end_shape(s.drop_last());
    }
}

/// Trimming a trimmed text changes nothing.
pub proof fn lemma_trimmed_is_idempotent(s: Seq<char>)
    ensures
        trimmed(trimmed(s)) == trimmed(s),
{
    lemma_trim_start_shape(s);
    lemma_trim_end_shape(trim_start(s));
}

/// Decoding two valid UTF-8 sequences laid end to end gives the two texts
/// laid end to end.
pub proof fn lemma_decode_utf8_concat(first: Seq<u8>, second: Seq<u8>)
    requires
        valid_utf8(first),
        valid_utf8(second),
    ensures
        valid_utf8(first + second),
        decode_utf8(first + second) == decode_utf8(first) + decode_utf8(second),
    decreases first.len(),
{
    valid_utf8_concat(first, second);
    if first.len() > 0 {
        let rest = pop_first_scalar(first);
        assert(pop_first_scalar(first + second) =~= rest + second);
        lemma_decode_utf8_concat(rest, second);
    }
}

} // verus!
