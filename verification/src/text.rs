use vstd::prelude::*;

verus! {

/// `needle` occurs in `hay` as a contiguous run of characters (the empty
/// run occurs everywhere).
pub open spec fn seq_contains(hay: Seq<char>, needle: Seq<char>) -> bool {
    exists|i: int|
        0 <= i && i + needle.len() <= hay.len() && #[trigger] hay.subrange(i, i + needle.len())
            == needle
}

/// The lowercase form of a string, as `str::to_lowercase` computes it
/// (Unicode's Lowercase mapping, independent of any locale).
pub uninterp spec fn spec_lowercase(s: Seq<char>) -> Seq<char>;

/// Calls `str::to_lowercase`. Trusted: its result is taken to be
/// `spec_lowercase` of the argument's characters; nothing more is claimed.
#[verifier::external_body]
fn to_lowercase_std(s: &str) -> (r: String)
    ensures
        r@ == spec_lowercase(s@),
{
    s.to_lowercase()
}

/// The lowercase form of `s`.
pub fn lowercase(s: &str) -> (r: String)
    ensures
        r@ == spec_lowercase(s@),
{
    to_lowercase_std(s)
}

/// The characters of `s`, one by one.
pub fn chars_of(s: &str) -> (v: Vec<char>)
    ensures
        v@ == s@,
{
    let mut v: Vec<char> = Vec::new();
    for c in it: s.chars()
        invariant
            v@ == it.seq().take(it.index() as int),
            it.seq() == s@,
    {
        v.push(c);
    }
    v
}

/// Whether `needle` occurs in `hay` at position `at`.
fn occurs_at(hay: &Vec<char>, needle: &Vec<char>, at: usize) -> (b: bool)
    requires
        at + needle@.len() <= hay@.len(),
    ensures
        b == (hay@.subrange(at as int, at + needle@.len()) == needle@),
{
    let n = needle.len();
    let h = hay.len();
    let mut j: usize = 0;
    while j < n
        invariant
            j <= n,
            n == needle@.len(),
            h == hay@.len(),
            at + n <= hay@.len(),
            forall|k: int| 0 <= k < j ==> hay@[at + k] == needle@[k],
        decreases n - j,
    {
        if hay[at + j] != needle[j] {
            assert(hay@.subrange(at as int, at + n)[j as int] != needle@[j as int]);
            return false;
        }
        j = j + 1;
    }
    assert(hay@.subrange(at as int, at + n) =~= needle@);
    true
}

/// Whether the characters of `needle` occur contiguously in `hay`.
pub fn chars_contain(hay: &Vec<char>, needle: &Vec<char>) -> (b: bool)
    ensures
        b == seq_contains(hay@, needle@),
{
    let h = hay.len();
    let n = needle.len();
    if n > h {
        return false;
    }
    let mut i: usize = 0;
    loop
        invariant
            n <= h,
            h == hay@.len(),
            n == needle@.len(),
            i <= h - n,
            forall|k: int| 0 <= k < i ==> #[trigger] hay@.subrange(k, k + n) != needle@,
        decreases h - n - i,
    {
        if occurs_at(hay, needle, i) {
            return true;
        }
        if i == h - n {
            return false;
        }
        i = i + 1;
    }
}

/// Whether `needle` occurs in `hay`, as `str::contains` with a string
/// pattern decides it.
pub fn str_contains(hay: &str, needle: &str) -> (b: bool)
    ensures
        b == seq_contains(hay@, needle@),
{
    let h = chars_of(hay);
    let n = chars_of(needle);
    chars_contain(&h, &n)
}

/// The text that a label of at most `max_len` characters shows: the text
/// itself when it fits, else its first `max_len - 3` characters and "...".
pub open spec fn spec_truncate(text: Seq<char>, max_len: nat) -> Seq<char> {
    if text.len() > max_len {
        text.take(max_len - 3) + seq!['.', '.', '.']
    } else {
        text
    }
}

/// Shortens `text` to at most `max_len` characters, marking a cut with "...".
pub fn truncate_text(text: &str, max_len: usize) -> (r: String)
    requires
        text@.len() <= max_len || max_len >= 3,
    ensures
        r@ == spec_truncate(text@, max_len as nat),
        r@.len() <= max_len || r@ == text@,
{
    let count = text.unicode_len();
    if count > max_len {
        let head = text.substring_char(0, max_len - 3);
        let mut r = String::from_str(head);
        r.append("...");
        proof {
            reveal_strlit("...");
            assert(text@.subrange(0, max_len - 3) =~= text@.take(max_len - 3));
        }
        r
    } else {
        String::from_str(text)
    }
}

/// The decimal digit for `d`.
pub open spec fn digit_char(d: nat) -> char {
    seq!['0', '1', '2', '3', '4', '5', '6', '7', '8', '9'][d as int]
}

/// The decimal digits of `n`, most significant first, without leading zeros.
pub open spec fn spec_digits(n: nat) -> Seq<char>
    decreases n,
{
    if n < 10 {
        seq![digit_char(n)]
    } else {
        spec_digits(n / 10).push(digit_char(n % 10))
    }
}

/// The decimal notation of `n`, with a leading '-' when it is negative.
pub open spec fn spec_decimal(n: int) -> Seq<char> {
    if n < 0 {
        seq!['-'] + spec_digits((-n) as nat)
    } else {
        spec_digits(n as nat)
    }
}

fn digit_str(d: u64) -> (s: &'static str)
    requires
        d < 10,
    ensures
        s@ == seq![digit_char(d as nat)],
{
    proof {
        reveal_strlit("0");
        reveal_strlit("1");
        reveal_strlit("2");
        reveal_strlit("3");
        reveal_strlit("4");
        reveal_strlit("5");
        reveal_strlit("6");
        reveal_strlit("7");
        reveal_strlit("8");
        reveal_strlit("9");
    }
    match d {
        0 => "0",
        1 => "1",
        2 => "2",
        3 => "3",
        4 => "4",
        5 => "5",
        6 => "6",
        7 => "7",
        8 => "8",
        _ => "9",
    }
}

fn digits_string(n: u64) -> (s: String)
    ensures
        s@ == spec_digits(n as nat),
    decreases n,
{
    if n < 10 {
        String::from_str(digit_str(n))
    } else {
        let mut s = digits_string(n / 10);
        s.append(digit_str(n % 10));
        s
    }
}

/// The decimal notation of `n`, as `format!("{}", n)` writes it.
pub fn decimal_string(n: i64) -> (s: String)
    ensures
        s@ == spec_decimal(n as int),
{
    if n < 0 {
        let magnitude: u64 = (0i128 - (n as i128)) as u64;
        let mut s = String::from_str("-");
        proof {
            reveal_strlit("-");
        }
        let digits = digits_string(magnitude);
        s.append(digits.as_str());
        s
    } else {
        digits_string(n as u64)
    }
}

} // verus!
