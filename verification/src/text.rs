//! Character-level text utilities over `Seq<char>`, with the executable
//! counterparts that the parsers and message builders use.
use vstd::prelude::*;

verus! {

// ---------------------------------------------------------------------------
// Conversions between strings and character vectors
// ---------------------------------------------------------------------------

/// Appends one character to a `String` (std `String::push`).
#[verifier::external_body]
pub(crate) fn push_char(s: &mut String, c: char)
    ensures
        final(s)@ == old(s)@.push(c),
{
    s.push(c);
}

/// The characters of a string slice, in order.
pub fn chars_of(s: &str) -> (r: Vec<char>)
    ensures
        r@ == s@,
{
    let mut r: Vec<char> = Vec::new();
    for c in it: s.chars()
        invariant
            it.seq() == s@,
            r@ == it.seq().take(it.index() as int),
    {
        r.push(c);
        assert(it.seq().take(it.index() + 1) =~= it.seq().take(it.index() as int).push(c));
    }
    assert(s@.take(s@.len() as int) =~= s@);
    r
}

/// A string holding exactly the given characters.
pub fn string_of(v: &[char]) -> (r: String)
    ensures
        r@ == v@,
{
    let mut r = String::new();
    let mut i: usize = 0;
    while i < v.len()
        invariant
            i <= v@.len(),
            r@ == v@.take(i as int),
        decreases v@.len() - i,
    {
        push_char(&mut r, v[i]);
        assert(v@.take(i + 1) =~= v@.take(i as int).push(v@[i as int]));
        i += 1;
    }
    assert(v@.take(v@.len() as int) =~= v@);
    r
}

/// A copy of a string.
pub fn copy_string(s: &String) -> (r: String)
    ensures
        r@ == s@,
{
    s.clone()
}

/// A copy of an optional string.
pub fn copy_opt_string(s: &Option<String>) -> (r: Option<String>)
    ensures
        opt_view(r) == opt_view(*s),
{
    match s {
        Some(v) => Some(v.clone()),
        None => None,
    }
}

/// The view of an optional string.
pub open spec fn opt_view(s: Option<String>) -> Option<Seq<char>> {
    match s {
        Some(v) => Some(v@),
        None => None,
    }
}

/// The characters `v[a..b]`.
pub fn subvec(v: &[char], a: usize, b: usize) -> (r: Vec<char>)
    requires
        a <= b <= v@.len(),
    ensures
        r@ == v@.subrange(a as int, b as int),
{
    let mut r: Vec<char> = Vec::new();
    let mut i: usize = a;
    while i < b
        invariant
            a <= i <= b <= v@.len(),
            r@ == v@.subrange(a as int, i as int),
        decreases b - i,
    {
        r.push(v[i]);
        assert(v@.subrange(a as int, i + 1) =~= v@.subrange(a as int, i as int).push(v@[i as int]));
        i += 1;
    }
    r
}

/// `a` followed by `b`.
pub fn join_chars(a: &[char], b: &[char]) -> (r: Vec<char>)
    ensures
        r@ == a@ + b@,
{
    let mut r = subvec(a, 0, a.len());
    let mut i: usize = 0;
    while i < b.len()
        invariant
            i <= b@.len(),
            r@ == a@ + b@.take(i as int),
        decreases b@.len() - i,
    {
        r.push(b[i]);
        assert(b@.take(i + 1) =~= b@.take(i as int).push(b@[i as int]));
        i += 1;
    }
    assert(b@.take(b@.len() as int) =~= b@);
    assert(a@.subrange(0, a@.len() as int) =~= a@);
    r
}

/// The string `a` followed by `b`.
pub fn concat_str(a: &str, b: &str) -> (r: String)
    ensures
        r@ == a@ + b@,
{
    let mut r = String::from_str(a);
    r.append(b);
    r
}

/// Concatenation of three strings.
pub fn concat3(a: &str, b: &str, c: &str) -> (r: String)
    ensures
        r@ == a@ + b@ + c@,
{
    let mut r = String::from_str(a);
    r.append(b);
    r.append(c);
    r
}

// ---------------------------------------------------------------------------
// Whitespace and trimming
// ---------------------------------------------------------------------------

/// Unicode `White_Space`, the property that `char::is_whitespace` tests.
pub open spec fn is_ws(c: char) -> bool {
    ||| ('\u{9}' <= c && c <= '\u{d}')
    ||| c == ' '
    ||| c == '\u{85}'
    ||| c == '\u{a0}'
    ||| c == '\u{1680}'
    ||| ('\u{2000}' <= c && c <= '\u{200a}')
    ||| c == '\u{2028}'
    ||| c == '\u{2029}'
    ||| c == '\u{202f}'
    ||| c == '\u{205f}'
    ||| c == '\u{3000}'
}

/// Whether a character is Unicode whitespace.
pub fn is_whitespace(c: char) -> (r: bool)
    ensures
        r == is_ws(c),
{
    ('\u{9}' <= c && c <= '\u{d}') || c == ' ' || c == '\u{85}' || c == '\u{a0}' || c
        == '\u{1680}' || ('\u{2000}' <= c && c <= '\u{200a}') || c == '\u{2028}' || c
        == '\u{2029}' || c == '\u{202f}' || c == '\u{205f}' || c == '\u{3000}'
}

/// `s` without its leading whitespace.
pub open spec fn trim_start(s: Seq<char>) -> Seq<char>
    decreases s.len(),
{
    if s.len() > 0 && is_ws(s[0]) {
        trim_start(s.drop_first())
    } else {
        s
    }
}

/// `s` without its trailing whitespace.
pub open spec fn trim_end(s: Seq<char>) -> Seq<char>
    decreases s.len(),
{
    if s.len() > 0 && is_ws(s.last()) {
        trim_end(s.drop_last())
    } else {
        s
    }
}

/// `s` without leading and trailing whitespace (`str::trim`).
pub open spec fn trim(s: Seq<char>) -> Seq<char> {
    trim_end(trim_start(s))
}

/// `s` without any leading or trailing occurrence of `c` (`str::trim_matches`).
pub open spec fn trim_char(s: Seq<char>, c: char) -> Seq<char> {
    trim_end_char(trim_start_char(s, c), c)
}

/// `s` without leading occurrences of `c`.
pub open spec fn trim_start_char(s: Seq<char>, c: char) -> Seq<char>
    decreases s.len(),
{
    if s.len() > 0 && s[0] == c {
        trim_start_char(s.drop_first(), c)
    } else {
        s
    }
}

/// `s` without trailing occurrences of `c` (`str::trim_end_matches`).
pub open spec fn trim_end_char(s: Seq<char>, c: char) -> Seq<char>
    decreases s.len(),
{
    if s.len() > 0 && s.last() == c {
        trim_end_char(s.drop_last(), c)
    } else {
        s
    }
}

/// The index range `[a, b)` of `s[lo..hi]` that remains after trimming whitespace.
fn trim_range(s: &[char], lo: usize, hi: usize) -> (r: (usize, usize))
    requires
        lo <= hi <= s@.len(),
    ensures
        lo <= r.0 <= r.1 <= hi,
        s@.subrange(r.0 as int, r.1 as int) == trim(s@.subrange(lo as int, hi as int)),
{
    let mut a = lo;
    while a < hi && is_whitespace(s[a])
        invariant
            lo <= a <= hi <= s@.len(),
            trim_start(s@.subrange(lo as int, hi as int)) == trim_start(
                s@.subrange(a as int, hi as int),
            ),
        decreases hi - a,
    {
        assert(s@.subrange(a as int, hi as int).drop_first() =~= s@.subrange(a + 1, hi as int));
        a += 1;
    }
    let mut b = hi;
    while b > a && is_whitespace(s[b - 1])
        invariant
            lo <= a <= b <= hi <= s@.len(),
            trim_end(s@.subrange(a as int, hi as int)) == trim_end(
                s@.subrange(a as int, b as int),
            ),
        decreases b,
    {
        assert(s@.subrange(a as int, b as int).drop_last() =~= s@.subrange(a as int, b - 1));
        b -= 1;
    }
    (a, b)
}

/// `s` without leading and trailing whitespace.
pub fn trim_chars(s: &[char]) -> (r: Vec<char>)
    ensures
        r@ == trim(s@),
{
    let (a, b) = trim_range(s, 0, s.len());
    assert(s@.subrange(0, s@.len() as int) =~= s@);
    subvec(s, a, b)
}

/// `s` without leading and trailing occurrences of `c`.
pub fn trim_char_chars(s: &[char], c: char) -> (r: Vec<char>)
    ensures
        r@ == trim_char(s@, c),
{
    let mut a: usize = 0;
    assert(s@.subrange(0, s@.len() as int) =~= s@);
    while a < s.len() && s[a] == c
        invariant
            a <= s@.len(),
            trim_start_char(s@, c) == trim_start_char(s@.subrange(a as int, s@.len() as int), c),
        decreases s@.len() - a,
    {
        assert(s@.subrange(a as int, s@.len() as int).drop_first() =~= s@.subrange(
            a + 1,
            s@.len() as int,
        ));
        a += 1;
    }
    let t = subvec(s, a, s.len());
    trim_end_char_chars(&t, c)
}

/// `s` without trailing occurrences of `c`.
pub fn trim_end_char_chars(s: &[char], c: char) -> (r: Vec<char>)
    ensures
        r@ == trim_end_char(s@, c),
{
    let mut b: usize = s.len();
    assert(s@.subrange(0, s@.len() as int) =~= s@);
    while b > 0 && s[b - 1] == c
        invariant
            b <= s@.len(),
            trim_end_char(s@, c) == trim_end_char(s@.subrange(0, b as int), c),
        decreases b,
    {
        assert(s@.subrange(0, b as int).drop_last() =~= s@.subrange(0, b - 1));
        b -= 1;
    }
    subvec(s, 0, b)
}


// ---------------------------------------------------------------------------
// Searching
// ---------------------------------------------------------------------------

/// `needle` occurs in `hay` starting at index `i`.
pub open spec fn occurs_at(hay: Seq<char>, needle: Seq<char>, i: int) -> bool {
    0 <= i && i + needle.len() <= hay.len() && hay.subrange(i, i + needle.len()) == needle
}

/// The first index at or after `i` at which `needle` occurs in `hay`.
pub open spec fn first_occurrence_from(hay: Seq<char>, needle: Seq<char>, i: int) -> Option<int>
    decreases hay.len() + 1 - i,
{
    if i < 0 || i > hay.len() {
        None
    } else if occurs_at(hay, needle, i) {
        Some(i)
    } else {
        first_occurrence_from(hay, needle, i + 1)
    }
}

/// The first index at which `needle` occurs in `hay` (`str::find`, counted in characters).
pub open spec fn first_occurrence(hay: Seq<char>, needle: Seq<char>) -> Option<int> {
    first_occurrence_from(hay, needle, 0)
}

/// `needle` occurs somewhere in `hay` (`str::contains`).
pub open spec fn contains(hay: Seq<char>, needle: Seq<char>) -> bool {
    first_occurrence(hay, needle) is Some
}

proof fn lemma_first_occurrence_from(hay: Seq<char>, needle: Seq<char>, i: int)
    requires
        0 <= i,
    ensures
        first_occurrence_from(hay, needle, i) matches Some(k) ==> i <= k && occurs_at(
            hay,
            needle,
            k,
        ),
        first_occurrence_from(hay, needle, i) is None ==> forall|j: int|
            i <= j ==> !occurs_at(hay, needle, j),
    decreases hay.len() + 1 - i,
{
    if i <= hay.len() && !occurs_at(hay, needle, i) {
        lemma_first_occurrence_from(hay, needle, i + 1);
        assert forall|j: int| i <= j && first_occurrence_from(hay, needle, i) is None implies !occurs_at(
            hay,
            needle,
            j,
        ) by {
            if j > i {
            }
        }
    }
}

/// Where `needle` first occurs, it occurs, and it fits in `hay`.
pub proof fn lemma_first_occurrence(hay: Seq<char>, needle: Seq<char>)
    ensures
        first_occurrence(hay, needle) matches Some(k) ==> 0 <= k && k + needle.len() <= hay.len()
            && hay.subrange(k, k + needle.len()) == needle,
{
    lemma_first_occurrence_from(hay, needle, 0);
}

/// Whether `needle` occurs at index `i` of `hay`.
fn matches_at(hay: &[char], needle: &[char], i: usize) -> (r: bool)
    ensures
        r == occurs_at(hay@, needle@, i as int),
{
    if i > hay.len() || needle.len() > hay.len() - i {
        return false;
    }
    let mut k: usize = 0;
    while k < needle.len()
        invariant
            i + needle@.len() <= hay@.len(),
            i + needle.len() <= hay.len(),
            k <= needle@.len(),
            forall|m: int| 0 <= m < k ==> hay@[i + m] == needle@[m],
        decreases needle@.len() - k,
    {
        if hay[i + k] != needle[k] {
            assert(hay@.subrange(i as int, i + needle@.len())[k as int] != needle@[k as int]);
            return false;
        }
        k += 1;
    }
    assert(hay@.subrange(i as int, i + needle@.len()) =~= needle@);
    true
}

/// The first index at which `needle` occurs in `hay`.
pub fn find_chars(hay: &[char], needle: &[char]) -> (r: Option<usize>)
    ensures
        r matches Some(i) ==> first_occurrence(hay@, needle@) == Some(i as int),
        r is None ==> first_occurrence(hay@, needle@) is None,
        r is Some <==> contains(hay@, needle@),
        r matches Some(i) ==> i + needle@.len() <= hay@.len() && hay@.subrange(
            i as int,
            i + needle@.len(),
        ) == needle@,
{
    proof {
        lemma_first_occurrence(hay@, needle@);
    }
    let mut i: usize = 0;
    loop
        invariant
            i <= hay@.len(),
            first_occurrence(hay@, needle@) == first_occurrence_from(hay@, needle@, i as int),
        ensures
            first_occurrence(hay@, needle@) is None,
        decreases hay@.len() - i,
    {
        if matches_at(hay, needle, i) {
            return Some(i);
        }
        if i == hay.len() {
            assert(first_occurrence_from(hay@, needle@, i + 1) is None);
            break;
        }
        i += 1;
    }
    None
}

/// Whether `needle` occurs in `hay`.
pub fn contains_chars(hay: &[char], needle: &[char]) -> (r: bool)
    ensures
        r == contains(hay@, needle@),
{
    find_chars(hay, needle).is_some()
}

/// Whether the literal `needle` occurs in `hay`.
pub fn contains_str(hay: &[char], needle: &str) -> (r: bool)
    ensures
        r == contains(hay@, needle@),
{
    let n = chars_of(needle);
    contains_chars(hay, &n)
}

// ---------------------------------------------------------------------------
// Lines
// ---------------------------------------------------------------------------

/// Distance from `i` to the next `'\n'` at or after `i`, or to the end of `s`.
pub open spec fn nl_dist(s: Seq<char>, i: int) -> nat
    decreases s.len() - i,
{
    if i < 0 || i >= s.len() || s[i] == '\n' {
        0
    } else {
        1 + nl_dist(s, i + 1)
    }
}

/// A line without the `'\r'` of a `"\r\n"` ending.
pub open spec fn strip_cr(l: Seq<char>) -> Seq<char> {
    if l.len() > 0 && l.last() == '\r' {
        l.drop_last()
    } else {
        l
    }
}

/// The lines of `s[i..]`, split as `str::lines` splits them.
pub open spec fn lines_from(s: Seq<char>, i: int) -> Seq<Seq<char>>
    decreases s.len() - i,
{
    if i < 0 || i >= s.len() {
        seq![]
    } else {
        let k = i + nl_dist(s, i);
        if k >= s.len() {
            seq![s.subrange(i, s.len() as int)]
        } else {
            seq![strip_cr(s.subrange(i, k))] + lines_from(s, k + 1)
        }
    }
}

/// The lines of `s`: split at `'\n'`, a `"\r\n"` ending counted as one, and a
/// final line ending not starting another line (`str::lines`).
pub open spec fn lines(s: Seq<char>) -> Seq<Seq<char>> {
    lines_from(s, 0)
}

proof fn lemma_nl_dist(s: Seq<char>, i: int)
    requires
        0 <= i <= s.len(),
    ensures
        i + nl_dist(s, i) <= s.len(),
        i + nl_dist(s, i) < s.len() ==> s[i + nl_dist(s, i)] == '\n',
        forall|j: int| i <= j < i + nl_dist(s, i) ==> s[j] != '\n',
    decreases s.len() - i,
{
    if i < s.len() && s[i] != '\n' {
        lemma_nl_dist(s, i + 1);
    }
}

/// The views of a sequence of character vectors.
pub open spec fn views(r: Seq<Vec<char>>) -> Seq<Seq<char>> {
    r.map_values(|v: Vec<char>| v@)
}

/// The lines of `s`, each as a character vector.
pub fn lines_of(s: &[char]) -> (r: Vec<Vec<char>>)
    ensures
        views(r@) == lines(s@),
{
    let mut r: Vec<Vec<char>> = Vec::new();
    let mut i: usize = 0;
    while i < s.len()
        invariant
            i <= s@.len(),
            views(r@) + lines_from(s@, i as int) == lines(s@),
        decreases s@.len() - i,
    {
        let mut k = i;
        while k < s.len() && s[k] != '\n'
            invariant
                i <= k <= s@.len(),
                forall|j: int| i <= j < k ==> s@[j] != '\n',
            decreases s@.len() - k,
        {
            k += 1;
        }
        proof {
            lemma_nl_dist(s@, i as int);
            if i + nl_dist(s@, i as int) < k {
                assert(s@[i + nl_dist(s@, i as int)] == '\n');
            }
            if k < i + nl_dist(s@, i as int) {
                assert(s@[k as int] != '\n');
            }
            assert(k == i + nl_dist(s@, i as int));
        }
        let ghost old_r = views(r@);
        if k >= s.len() {
            let line = subvec(s, i, k);
            r.push(line);
            assert(views(r@) =~= old_r.push(s@.subrange(i as int, s@.len() as int)));
            assert(lines_from(s@, k as int) =~= Seq::<Seq<char>>::empty());
            assert(views(r@) + lines_from(s@, k as int) =~= old_r + lines_from(s@, i as int));
            i = k;
        } else {
            let mut e = k;
            if e > i && s[e - 1] == '\r' {
                e = e - 1;
            }
            let line = subvec(s, i, e);
            assert(line@ == strip_cr(s@.subrange(i as int, k as int))) by {
                if k > i && s@[k - 1] == '\r' {
                    assert(s@.subrange(i as int, k as int).drop_last() =~= s@.subrange(
                        i as int,
                        k - 1,
                    ));
                }
            }
            r.push(line);
            assert(views(r@) =~= old_r.push(strip_cr(s@.subrange(i as int, k as int))));
            assert(views(r@) + lines_from(s@, k + 1) =~= old_r + lines_from(s@, i as int));
            i = k + 1;
        }
    }
    assert(lines_from(s@, i as int) =~= Seq::<Seq<char>>::empty());
    assert(views(r@) + lines_from(s@, i as int) =~= views(r@));
    r
}


// ---------------------------------------------------------------------------
// Decimal numbers
// ---------------------------------------------------------------------------

/// An ASCII decimal digit.
pub open spec fn is_digit(c: char) -> bool {
    '0' <= c && c <= '9'
}

/// The character of a decimal digit `d < 10`.
pub open spec fn digit_char(d: nat) -> char {
    ((48 + d) as u8) as char
}

/// The value of an ASCII digit.
pub open spec fn digit_value(c: char) -> nat {
    ((c as int) - 48) as nat
}

/// The decimal representation of `n`, without leading zeros (`u64`'s `Display`).
pub open spec fn decimal(n: nat) -> Seq<char>
    decreases n,
{
    if n < 10 {
        seq![digit_char(n)]
    } else {
        decimal(n / 10).push(digit_char(n % 10))
    }
}

/// The decimal representation of a signed integer (`i64`'s `Display`).
pub open spec fn signed_decimal(n: int) -> Seq<char> {
    if n < 0 {
        seq!['-'] + decimal((-n) as nat)
    } else {
        decimal(n as nat)
    }
}

fn digit_to_char(d: u64) -> (c: char)
    requires
        d < 10,
    ensures
        c == digit_char(d as nat),
{
    ((d as u8) + 48u8) as char
}

fn decimal_chars(n: u64) -> (r: Vec<char>)
    ensures
        r@ == decimal(n as nat),
    decreases n,
{
    if n < 10 {
        let mut v: Vec<char> = Vec::new();
        v.push(digit_to_char(n));
        assert(v@ =~= seq![digit_char(n as nat)]);
        v
    } else {
        let mut v = decimal_chars(n / 10);
        v.push(digit_to_char(n % 10));
        v
    }
}

/// The decimal representation of an unsigned integer.
pub fn u64_to_string(n: u64) -> (r: String)
    ensures
        r@ == decimal(n as nat),
{
    let v = decimal_chars(n);
    string_of(&v)
}

/// The decimal representation of a signed integer.
pub fn i64_to_string(n: i64) -> (r: String)
    ensures
        r@ == signed_decimal(n as int),
{
    if n < 0 {
        let m: u64 = if n == i64::MIN {
            9223372036854775808u64
        } else {
            (-n) as u64
        };
        let v = decimal_chars(m);
        let mut r = String::from_str("-");
        proof {
            reveal_strlit("-");
        }
        let t = string_of(&v);
        r.append(t.as_str());
        assert(r@ =~= seq!['-'] + decimal((-n) as nat));
        r
    } else {
        u64_to_string(n as u64)
    }
}

/// The value of a string of ASCII digits.
pub open spec fn digits_value(s: Seq<char>) -> nat
    decreases s.len(),
{
    if s.len() == 0 {
        0
    } else {
        digits_value(s.drop_last()) * 10 + digit_value(s.last())
    }
}

/// All characters of `s` are ASCII digits.
pub open spec fn all_digits(s: Seq<char>) -> bool {
    forall|i: int| 0 <= i < s.len() ==> is_digit(#[trigger] s[i])
}

/// What `u64::from_str` gives for a string of ASCII digits: its value when `s`
/// is non-empty and the value fits in 64 bits.
pub open spec fn parse_digits(s: Seq<char>) -> Option<u64> {
    if s.len() > 0 && all_digits(s) && digits_value(s) <= u64::MAX {
        Some(digits_value(s) as u64)
    } else {
        None
    }
}

proof fn lemma_digits_value_prefix(s: Seq<char>, i: int)
    requires
        0 <= i <= s.len(),
        all_digits(s),
    ensures
        digits_value(s.take(i)) <= digits_value(s),
    decreases s.len() - i,
{
    if i < s.len() {
        lemma_digits_value_prefix(s, i + 1);
        assert(s.take(i + 1).drop_last() =~= s.take(i));
        assert(digits_value(s.take(i + 1)) == digits_value(s.take(i)) * 10 + digit_value(
            s[i],
        ));
    } else {
        assert(s.take(i) =~= s);
    }
}

/// Parses a string of ASCII digits as `u64::from_str` does.
pub fn parse_u64_digits(s: &[char]) -> (r: Option<u64>)
    requires
        all_digits(s@),
    ensures
        r == parse_digits(s@),
{
    if s.len() == 0 {
        return None;
    }
    let mut v: u64 = 0;
    let mut i: usize = 0;
    while i < s.len()
        invariant
            i <= s@.len(),
            all_digits(s@),
            v == digits_value(s@.take(i as int)),
        decreases s@.len() - i,
    {
        let c = s[i];
        assert(is_digit(s@[i as int]));
        let d = (c as u32 - 48) as u64;
        assert(s@.take(i + 1).drop_last() =~= s@.take(i as int));
        match v.checked_mul(10) {
            Some(m) => match m.checked_add(d) {
                Some(n) => {
                    v = n;
                },
                None => {
                    proof {
                        lemma_digits_value_prefix(s@, i + 1);
                    }
                    return None;
                },
            },
            None => {
                proof {
                    lemma_digits_value_prefix(s@, i + 1);
                }
                return None;
            },
        }
        i += 1;
    }
    assert(s@.take(s@.len() as int) =~= s@);
    Some(v)
}

// ---------------------------------------------------------------------------
// ASCII case
// ---------------------------------------------------------------------------

/// `char::to_ascii_lowercase`.
pub open spec fn ascii_lower(c: char) -> char {
    if 'A' <= c && c <= 'Z' {
        ((c as int + 32) as u8) as char
    } else {
        c
    }
}

/// `str::to_ascii_lowercase`.
pub open spec fn ascii_lowercase(s: Seq<char>) -> Seq<char> {
    s.map_values(|c: char| ascii_lower(c))
}

/// `str::eq_ignore_ascii_case`.
pub open spec fn eq_ignore_ascii_case(a: Seq<char>, b: Seq<char>) -> bool {
    ascii_lowercase(a) == ascii_lowercase(b)
}

/// The ASCII lowercase of a character.
pub fn to_ascii_lower(c: char) -> (r: char)
    ensures
        r == ascii_lower(c),
{
    if 'A' <= c && c <= 'Z' {
        ((c as u8) + 32u8) as char
    } else {
        c
    }
}

/// The ASCII lowercase of a string.
pub fn ascii_lowercase_chars(s: &[char]) -> (r: Vec<char>)
    ensures
        r@ == ascii_lowercase(s@),
{
    let mut r: Vec<char> = Vec::new();
    let mut i: usize = 0;
    while i < s.len()
        invariant
            i <= s@.len(),
            r@ == ascii_lowercase(s@.take(i as int)),
        decreases s@.len() - i,
    {
        r.push(to_ascii_lower(s[i]));
        assert(ascii_lowercase(s@.take(i + 1)) =~= ascii_lowercase(s@.take(i as int)).push(
            ascii_lower(s@[i as int]),
        ));
        i += 1;
    }
    assert(s@.take(s@.len() as int) =~= s@);
    r
}

/// Whether two strings are equal up to ASCII case.
pub fn eq_ignore_ascii_case_chars(a: &[char], b: &[char]) -> (r: bool)
    ensures
        r == eq_ignore_ascii_case(a@, b@),
{
    if a.len() != b.len() {
        assert(ascii_lowercase(a@).len() != ascii_lowercase(b@).len());
        return false;
    }
    let mut i: usize = 0;
    while i < a.len()
        invariant
            a@.len() == b@.len(),
            i <= a@.len(),
            forall|j: int| 0 <= j < i ==> ascii_lower(a@[j]) == ascii_lower(b@[j]),
        decreases a@.len() - i,
    {
        if to_ascii_lower(a[i]) != to_ascii_lower(b[i]) {
            assert(ascii_lowercase(a@)[i as int] != ascii_lowercase(b@)[i as int]);
            return false;
        }
        i += 1;
    }
    assert(ascii_lowercase(a@) =~= ascii_lowercase(b@));
    true
}


// ---------------------------------------------------------------------------
// String-level helpers
// ---------------------------------------------------------------------------

/// `s.trim()` as an owned string.
pub fn trim_string(s: &str) -> (r: String)
    ensures
        r@ == trim(s@),
{
    let c = chars_of(s);
    let t = trim_chars(&c);
    string_of(&t)
}

/// `s.trim_end_matches(c)` as an owned string.
pub fn trim_end_matches_string(s: &str, c: char) -> (r: String)
    ensures
        r@ == trim_end_char(s@, c),
{
    let v = chars_of(s);
    let t = trim_end_char_chars(&v, c);
    string_of(&t)
}

/// Whether two strings are equal.
pub fn str_eq(a: &str, b: &str) -> (r: bool)
    ensures
        r == (a@ == b@),
{
    let x = String::from_str(a);
    let y = String::from_str(b);
    x == y
}

/// The first of two optional strings that is present, else `default`.
pub open spec fn first_present(a: Option<Seq<char>>, b: Option<Seq<char>>, default: Seq<char>) -> Seq<
    char,
> {
    match a {
        Some(x) => x,
        None => match b {
            Some(y) => y,
            None => default,
        },
    }
}

/// The first of two optional strings that is present, else `default`.
pub fn first_present_string(a: &Option<String>, b: &Option<String>, default: &str) -> (r: String)
    ensures
        r@ == first_present(opt_view(*a), opt_view(*b), default@),
{
    match a {
        Some(x) => copy_string(x),
        None => match b {
            Some(y) => copy_string(y),
            None => String::from_str(default),
        },
    }
}

// ---------------------------------------------------------------------------
// The order of strings
// ---------------------------------------------------------------------------

/// `a` comes before `b` when compared from index `i` on: at the first index
/// where they differ the character of `a` has the smaller code point, or `a`
/// ends there while `b` goes on.
pub open spec fn text_lt_from(a: Seq<char>, b: Seq<char>, i: int) -> bool
    decreases a.len() - i,
{
    if i < 0 {
        false
    } else if i >= a.len() {
        i < b.len()
    } else if i >= b.len() {
        false
    } else if a[i] != b[i] {
        (a[i] as u32) < (b[i] as u32)
    } else {
        text_lt_from(a, b, i + 1)
    }
}

/// `a` comes before `b` in the order of `str` (by code point, a proper prefix
/// first; UTF-8 bytes compare in the same order).
pub open spec fn text_lt(a: Seq<char>, b: Seq<char>) -> bool {
    text_lt_from(a, b, 0)
}

/// Whether `a` comes before `b` in the order of `str`.
pub fn text_lt_chars(a: &[char], b: &[char]) -> (r: bool)
    ensures
        r == text_lt(a@, b@),
{
    let mut i: usize = 0;
    loop
        invariant
            i <= a@.len(),
            i <= b@.len(),
            text_lt(a@, b@) == text_lt_from(a@, b@, i as int),
        decreases a@.len() - i,
    {
        if i == a.len() {
            return i < b.len();
        }
        if i == b.len() {
            return false;
        }
        if a[i] != b[i] {
            return (a[i] as u32) < (b[i] as u32);
        }
        i += 1;
    }
}

/// No text comes before itself, and of two texts at most one comes first.
pub proof fn lemma_text_lt_asymmetric(a: Seq<char>, b: Seq<char>, i: int)
    requires
        0 <= i,
    ensures
        text_lt_from(a, b, i) ==> !text_lt_from(b, a, i),
    decreases a.len() - i,
{
    if i < a.len() && i < b.len() && a[i] == b[i] {
        lemma_text_lt_asymmetric(a, b, i + 1);
    }
}

/// The order is transitive.
pub proof fn lemma_text_lt_transitive(a: Seq<char>, b: Seq<char>, c: Seq<char>, i: int)
    requires
        0 <= i,
        text_lt_from(a, b, i),
        text_lt_from(b, c, i),
    ensures
        text_lt_from(a, c, i),
    decreases a.len() - i,
{
    if i < a.len() && i < b.len() && i < c.len() && a[i] == b[i] && b[i] == c[i] {
        lemma_text_lt_transitive(a, b, c, i + 1);
    }
}

/// The order is total: two texts that agree before index `i`, neither coming
/// first from `i` on, are equal.
pub proof fn lemma_text_lt_total(a: Seq<char>, b: Seq<char>, i: int)
    requires
        0 <= i <= a.len(),
        i <= b.len(),
        forall|k: int| 0 <= k < i ==> a[k] == b[k],
        !text_lt_from(a, b, i),
        !text_lt_from(b, a, i),
    ensures
        a == b,
    decreases a.len() - i,
{
    if i < a.len() && i < b.len() {
        if a[i] == b[i] {
            lemma_text_lt_total(a, b, i + 1);
        } else {
            vstd::utf8::char_u32_cast(a[i], a[i] as u32);
            vstd::utf8::char_u32_cast(b[i], b[i] as u32);
        }
    } else {
        assert(a =~= b);
    }
}

// ---------------------------------------------------------------------------
// Facts about trimming
// ---------------------------------------------------------------------------

/// Every character of `s` is whitespace.
pub open spec fn all_ws(s: Seq<char>) -> bool {
    forall|i: int| 0 <= i < s.len() ==> #[trigger] is_ws(s[i])
}

/// Trailing whitespace is dropped by `trim_end`.
pub proof fn lemma_trim_end_ws_suffix(s: Seq<char>, ws: Seq<char>)
    requires
        all_ws(ws),
    ensures
        trim_end(s + ws) == trim_end(s),
    decreases ws.len(),
{
    if ws.len() == 0 {
        assert(s + ws =~= s);
    } else {
        assert(is_ws(ws[ws.len() - 1]));
        assert((s + ws).drop_last() =~= s + ws.drop_last());
        lemma_trim_end_ws_suffix(s, ws.drop_last());
    }
}

/// Trimming a text that neither starts nor ends with whitespace leaves it as it is.
pub proof fn lemma_trim_unchanged(s: Seq<char>)
    requires
        s.len() > 0,
        !is_ws(s[0]),
        !is_ws(s.last()),
    ensures
        trim(s) == s,
{
}

/// Trimming whitespace from a text that starts with no whitespace only drops
/// its trailing whitespace.
pub proof fn lemma_trim_ws_suffix(s: Seq<char>, ws: Seq<char>)
    requires
        s.len() > 0,
        !is_ws(s[0]),
        !is_ws(s.last()),
        all_ws(ws),
    ensures
        trim(s + ws) == s,
{
    assert((s + ws)[0] == s[0]);
    assert(trim_start(s + ws) == s + ws);
    lemma_trim_end_ws_suffix(s, ws);
}

/// Searching from `i` within a prefix free of the needle's first character
/// finds the needle right after the prefix.
proof fn lemma_first_occurrence_from_after_prefix(
    pre: Seq<char>,
    needle: Seq<char>,
    rest: Seq<char>,
    i: int,
)
    requires
        needle.len() > 0,
        0 <= i <= pre.len(),
        forall|k: int| 0 <= k < pre.len() ==> pre[k] != needle[0],
    ensures
        first_occurrence_from(pre + needle + rest, needle, i) == Some(pre.len() as int),
    decreases pre.len() - i,
{
    let hay = pre + needle + rest;
    if i == pre.len() {
        assert(hay.subrange(i, i + needle.len()) =~= needle);
    } else {
        assert(hay[i] == pre[i]);
        assert(hay.subrange(i, i + needle.len())[0] == hay[i]);
        lemma_first_occurrence_from_after_prefix(pre, needle, rest, i + 1);
    }
}

/// A needle first occurs right after a prefix that does not hold its first character.
pub proof fn lemma_first_occurrence_after_prefix(pre: Seq<char>, needle: Seq<char>, rest: Seq<char>)
    requires
        needle.len() > 0,
        forall|k: int| 0 <= k < pre.len() ==> pre[k] != needle[0],
    ensures
        first_occurrence(pre + needle + rest, needle) == Some(pre.len() as int),
{
    lemma_first_occurrence_from_after_prefix(pre, needle, rest, 0);
}

} // verus!
