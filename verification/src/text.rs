use vstd::prelude::*;
use vstd::string::StringSliceAdditionalSpecFns;
use vstd::string::StrSliceExecFns;
use vstd::utf8::{decode_utf8, encode_utf8_decode_utf8, valid_utf8};

verus! {

/// The character of a decimal digit.
pub open spec fn digit_char(d: nat) -> char {
    if d == 0 {
        '0'
    } else if d == 1 {
        '1'
    } else if d == 2 {
        '2'
    } else if d == 3 {
        '3'
    } else if d == 4 {
        '4'
    } else if d == 5 {
        '5'
    } else if d == 6 {
        '6'
    } else if d == 7 {
        '7'
    } else if d == 8 {
        '8'
    } else {
        '9'
    }
}

/// The decimal representation of a natural number, without leading zeros
/// (zero itself is "0").
pub open spec fn decimal(n: nat) -> Seq<char>
    decreases n,
{
    if n < 10 {
        seq![digit_char(n)]
    } else {
        decimal(n / 10) + seq![digit_char(n % 10)]
    }
}

/// The number that a string of decimal digits spells.
pub open spec fn decimal_value(s: Seq<char>) -> int
    decreases s.len(),
{
    if s.len() == 0 {
        0
    } else {
        decimal_value(s.drop_last()) * 10 + (s.last() as int - '0' as int)
    }
}

/// Each digit's character is the ASCII digit of its value.
pub proof fn lemma_digit_char_is_ascii_digit(d: nat)
    requires
        d < 10,
    ensures
        digit_char(d) as int == '0' as int + d,
{
}

/// The decimal text of a number is made of ASCII digits, spells the number
/// back, and has no leading zero unless the number is zero.
pub proof fn lemma_decimal_spells_the_number(n: nat)
    ensures
        decimal_value(decimal(n)) == n,
        forall|i: int| 0 <= i < decimal(n).len() ==> '0' <= #[trigger] decimal(n)[i] <= '9',
        n > 0 ==> decimal(n)[0] != '0',
        decimal(n).len() >= 1,
    decreases n,
{
    if n < 10 {
        assert(decimal(n) =~= seq![digit_char(n)]);
        assert(decimal(n).drop_last() =~= Seq::<char>::empty());
        lemma_digit_char_is_ascii_digit(n);
        assert(decimal_value(Seq::<char>::empty()) == 0);
    } else {
        let q = n / 10;
        let r = n % 10;
        lemma_decimal_spells_the_number(q);
        assert(n == q * 10 + r) by (nonlinear_arith)
            requires
                q == n / 10,
                r == n % 10,
        ;
        let s = decimal(n);
        assert(s =~= decimal(q) + seq![digit_char(r)]);
        assert(s.drop_last() =~= decimal(q));
        lemma_digit_char_is_ascii_digit(r);
        assert(decimal_value(s) == decimal_value(decimal(q)) * 10 + r);
        assert forall|i: int| 0 <= i < s.len() implies '0' <= #[trigger] s[i] <= '9' by {
            if i < decimal(q).len() {
                assert(s[i] == decimal(q)[i]);
            }
        }
        assert(q > 0);
        assert(s[0] == decimal(q)[0]);
    }
}

fn digit_str(d: u64) -> (s: &'static str)
    requires
        d < 10,
    ensures
        s@ == seq![digit_char(d as nat)],
{
    proof {
        reveal_strlit("0");
        reveal_strlit("1");
        reveal_strlit("2");
        reveal_strlit("3");
        reveal_strlit("4");
        reveal_strlit("5");
        reveal_strlit("6");
        reveal_strlit("7");
        reveal_strlit("8");
        reveal_strlit("9");
    }
    if d == 0 {
        "0"
    } else if d == 1 {
        "1"
    } else if d == 2 {
        "2"
    } else if d == 3 {
        "3"
    } else if d == 4 {
        "4"
    } else if d == 5 {
        "5"
    } else if d == 6 {
        "6"
    } else if d == 7 {
        "7"
    } else if d == 8 {
        "8"
    } else {
        "9"
    }
}

/// Appends the decimal representation of `n` to `s`.
pub fn push_decimal(s: &mut String, n: u64)
    ensures
        final(s)@ == old(s)@ + decimal(n as nat),
    decreases n,
{
    if n < 10 {
        s.append(digit_str(n));
    } else {
        push_decimal(s, n / 10);
        s.append(digit_str(n % 10));
        assert(decimal(n as nat) == decimal((n / 10) as nat) + seq![digit_char((n % 10) as nat)]);
    }
}

/// The decimal representation of `n` as a new string.
pub fn decimal_string(n: u64) -> (s: String)
    ensures
        s@ == decimal(n as nat),
{
    let mut s = String::new();
    push_decimal(&mut s, n);
    assert(s@ =~= decimal(n as nat));
    s
}

/// The pieces of `s` between separators, when `cur` has already been read
/// into the current piece.
pub open spec fn split_pieces(s: Seq<char>, sep: char, cur: Seq<char>) -> Seq<Seq<char>>
    decreases s.len(),
{
    if s.len() == 0 {
        seq![cur]
    } else if s[0] == sep {
        seq![cur] + split_pieces(s.drop_first(), sep, Seq::empty())
    } else {
        split_pieces(s.drop_first(), sep, cur.push(s[0]))
    }
}

/// The pieces of `s` between the separators, in order; a text without a
/// separator is one piece, and empty pieces are kept.
pub open spec fn split_on(s: Seq<char>, sep: char) -> Seq<Seq<char>> {
    split_pieces(s, sep, Seq::empty())
}

/// Splits `s` at every `sep`, as `str::split` does with a character pattern.
pub fn split_on_char(s: &str, sep: char) -> (r: Vec<String>)
    ensures
        r@.map_values(|p: String| p@) == split_on(s@, sep),
{
    let n = s.unicode_len();
    let mut out: Vec<String> = Vec::new();
    let mut start: usize = 0;
    let mut i: usize = 0;
    assert(s@.skip(0) =~= s@);
    assert(s@.subrange(0, 0) =~= Seq::<char>::empty());
    assert(out@.map_values(|p: String| p@) =~= Seq::<Seq<char>>::empty());
    while i < n
        invariant
            n == s@.len(),
            start <= i <= n,
            out@.map_values(|p: String| p@) + split_pieces(s@.skip(i as int), sep, s@.subrange(
                start as int,
                i as int,
            )) == split_on(s@, sep),
        decreases n - i,
    {
        let c = s.get_char(i);
        let ghost rest = s@.skip(i as int);
        assert(rest[0] == c);
        assert(rest.drop_first() =~= s@.skip(i + 1));
        if c == sep {
            let piece = s.substring_char(start, i);
            let ghost before = out@;
            out.push(String::from_str(piece));
            assert(out@.map_values(|p: String| p@) =~= before.map_values(|p: String| p@) + seq![
                s@.subrange(start as int, i as int),
            ]);
            assert(s@.subrange((i + 1) as int, (i + 1) as int) =~= Seq::<char>::empty());
            start = i + 1;
        } else {
            assert(s@.subrange(start as int, i as int).push(c) =~= s@.subrange(
                start as int,
                (i + 1) as int,
            ));
        }
        i = i + 1;
    }
    let last = s.substring_char(start, n);
    let ghost before = out@;
    out.push(String::from_str(last));
    assert(s@.skip(n as int) =~= Seq::<char>::empty());
    assert(out@.map_values(|p: String| p@) =~= before.map_values(|p: String| p@) + seq![
        s@.subrange(start as int, n as int),
    ]);
    out
}

/// Converts bytes into a string slice with `std::str::from_utf8`, which,
/// as its documentation says, gives the slice over the same bytes when they
/// are valid UTF-8 and an error otherwise.
#[verifier::external_body]
fn str_from_utf8(bytes: &[u8]) -> (r: Option<&str>)
    ensures
        r is Some <==> valid_utf8(bytes@),
        r matches Some(s) ==> s.spec_bytes() == bytes@,
{
    std::str::from_utf8(bytes).ok()
}

/// The text that valid UTF-8 bytes encode; none for bytes that are not valid UTF-8.
pub fn utf8_text(bytes: &[u8]) -> (r: Option<String>)
    ensures
        r is Some <==> valid_utf8(bytes@),
        r matches Some(s) ==> s@ == decode_utf8(bytes@),
{
    match str_from_utf8(bytes) {
        Some(s) => {
            proof {
                encode_utf8_decode_utf8(s@);
            }
            Some(String::from_str(s))
        },
        None => None,
    }
}

/// Whether `n` is the position of the first NUL byte.
pub open spec fn is_first_nul(bytes: Seq<u8>, n: int) -> bool {
    &&& 0 <= n < bytes.len()
    &&& bytes[n] == 0
    &&& forall|j: int| 0 <= j < n ==> bytes[j] != 0
}

/// Whether the bytes hold a NUL byte.
pub open spec fn has_nul(bytes: Seq<u8>) -> bool {
    exists|j: int| 0 <= j < bytes.len() && bytes[j] == 0
}

/// The position of the first NUL byte, if any: the length of the C string
/// that the bytes start with.
pub fn first_nul(bytes: &[u8]) -> (r: Option<usize>)
    ensures
        r matches Some(n) ==> is_first_nul(bytes@, n as int),
        r is None <==> !has_nul(bytes@),
{
    let mut i: usize = 0;
    while i < bytes.len()
        invariant
            i <= bytes@.len(),
            forall|j: int| 0 <= j < i ==> bytes@[j] != 0,
        decreases bytes@.len() - i,
    {
        if bytes[i] == 0 {
            return Some(i);
        }
        i = i + 1;
    }
    None
}

/// Why the bytes of a C string buffer hold no text.
#[derive(Clone, Copy, Debug, PartialEq, Eq, Structural)]
pub enum CTextError {
    /// No NUL byte ends the string.
    NotTerminated,
    /// The bytes before the NUL are not valid UTF-8.
    InvalidUtf8,
}

/// The text of the C string at the start of a buffer: the bytes before the
/// first NUL, decoded, when they are valid UTF-8.
pub open spec fn c_text_of(bytes: Seq<u8>) -> Result<Seq<char>, CTextError> {
    if !has_nul(bytes) {
        Err(CTextError::NotTerminated)
    } else {
        let n = choose|n: int| is_first_nul(bytes, n);
        if valid_utf8(bytes.subrange(0, n)) {
            Ok(decode_utf8(bytes.subrange(0, n)))
        } else {
            Err(CTextError::InvalidUtf8)
        }
    }
}

/// The text of the C string at the start of a buffer: the bytes before the
/// first NUL, which must be valid UTF-8.
pub fn c_text(bytes: &[u8]) -> (r: Result<String, CTextError>)
    ensures
        match r {
            Ok(s) => c_text_of(bytes@) == Ok::<Seq<char>, CTextError>(s@),
            Err(e) => c_text_of(bytes@) == Err::<Seq<char>, CTextError>(e),
        },
{
    match first_nul(bytes) {
        None => Err(CTextError::NotTerminated),
        Some(n) => {
            let prefix = vstd::slice::slice_subrange(bytes, 0, n);
            proof {
                assert forall|m: int| #[trigger] is_first_nul(bytes@, m) implies m == n by {
                    if m < n {
                        assert(bytes@[m] != 0);
                    } else if m > n {
                        assert(bytes@[n as int] != 0);
                    }
                }
                assert(is_first_nul(bytes@, n as int));
            }
            match utf8_text(prefix) {
                Some(s) => Ok(s),
                None => Err(CTextError::InvalidUtf8),
            }
        },
    }
}

/// A NUL byte inside a text that is to become a C string, at this position.
#[derive(Clone, Copy, Debug, PartialEq, Eq, Structural)]
pub struct NulError(pub usize);

/// The bytes of a C string for a text: its UTF-8 bytes followed by a NUL.
/// A text that holds a NUL byte has no C string; the error gives the
/// position of its first NUL.
pub fn c_string(s: &str) -> (r: Result<Vec<u8>, NulError>)
    ensures
        !has_nul(s.spec_bytes()) ==> (r matches Ok(v) && v@ == s.spec_bytes().push(0u8)),
        has_nul(s.spec_bytes()) ==> (r matches Err(NulError(n)) && is_first_nul(
            s.spec_bytes(),
            n as int,
        )),
{
    let bytes = s.as_bytes();
    match first_nul(bytes) {
        Some(n) => Err(NulError(n)),
        None => {
            let mut v = vstd::slice::slice_to_vec(bytes);
            v.push(0u8);
            Ok(v)
        },
    }
}

} // verus!
