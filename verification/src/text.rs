//! Text helpers: decimal rendering, substring search, NUL truncation, and
//! the two pieces of std text processing (Debug quoting, upper-casing) that
//! the library relies on.

use vstd::prelude::*;

verus! {

/// The text of one decimal digit.
pub open spec fn digit_text(d: nat) -> Seq<char> {
    if d == 0 {
        "0"@
    } else if d == 1 {
        "1"@
    } else if d == 2 {
        "2"@
    } else if d == 3 {
        "3"@
    } else if d == 4 {
        "4"@
    } else if d == 5 {
        "5"@
    } else if d == 6 {
        "6"@
    } else if d == 7 {
        "7"@
    } else if d == 8 {
        "8"@
    } else {
        "9"@
    }
}

/// The decimal representation of `n`, most significant digit first, with
/// no leading zeros (`0` renders as "0").
pub open spec fn decimal(n: nat) -> Seq<char>
    decreases n,
{
    if n < 10 {
        digit_text(n)
    } else {
        decimal(n / 10) + digit_text(n % 10)
    }
}

/// The decimal representation of a signed integer: a leading '-' for
/// negative values.
pub open spec fn signed_decimal(n: int) -> Seq<char> {
    if n < 0 {
        "-"@ + decimal((-n) as nat)
    } else {
        decimal(n as nat)
    }
}

fn push_digit(s: &mut String, d: u64)
    requires
        d < 10,
    ensures
        final(s)@ == old(s)@ + digit_text(d as nat),
{
    if d == 0 {
        s.append("0");
    } else if d == 1 {
        s.append("1");
    } else if d == 2 {
        s.append("2");
    } else if d == 3 {
        s.append("3");
    } else if d == 4 {
        s.append("4");
    } else if d == 5 {
        s.append("5");
    } else if d == 6 {
        s.append("6");
    } else if d == 7 {
        s.append("7");
    } else if d == 8 {
        s.append("8");
    } else {
        s.append("9");
    }
}

/// Appends the decimal representation of `n` to `s`.
pub fn push_decimal(s: &mut String, n: u64)
    ensures
        final(s)@ == old(s)@ + decimal(n as nat),
    decreases n,
{
    if n >= 10 {
        push_decimal(s, n / 10);
        push_digit(s, n % 10);
        assert(s@ =~= old(s)@ + (decimal((n / 10) as nat) + digit_text((n % 10) as nat)));
    } else {
        push_digit(s, n);
    }
}

/// Appends the decimal representation of a signed `n` to `s`.
pub fn push_signed_decimal(s: &mut String, n: i64)
    ensures
        final(s)@ == old(s)@ + signed_decimal(n as int),
{
    if n < 0 {
        s.append("-");
        let magnitude: u64 = if n == i64::MIN {
            9223372036854775808u64
        } else {
            (-n) as u64
        };
        push_decimal(s, magnitude);
        assert(s@ =~= old(s)@ + ("-"@ + decimal((-n) as nat)));
    } else {
        push_decimal(s, n as u64);
    }
}

/// Whether `needle` occurs as a contiguous run inside `hay`.
pub open spec fn has_infix(hay: Seq<char>, needle: Seq<char>) -> bool {
    exists|i: int|
        0 <= i && i + needle.len() <= hay.len() && #[trigger] hay.subrange(i, i + needle.len())
            == needle
}

/// The characters of `s`, one per element.
pub fn chars_of(s: &str) -> (v: Vec<char>)
    ensures
        v@ == s@,
{
    let n = s.unicode_len();
    let mut v: Vec<char> = Vec::new();
    let mut i: usize = 0;
    while i < n
        invariant
            n == s@.len(),
            i <= n,
            v@ == s@.subrange(0, i as int),
        decreases n - i,
    {
        let c = s.get_char(i);
        v.push(c);
        i = i + 1;
        assert(v@ =~= s@.subrange(0, i as int));
    }
    assert(v@ =~= s@);
    v
}

/// Whether `needle` occurs inside `hay`.
pub fn contains_text(hay: &str, needle: &str) -> (r: bool)
    ensures
        r == has_infix(hay@, needle@),
{
    let h = chars_of(hay);
    let nd = chars_of(needle);
    let n = h.len();
    let m = nd.len();
    if m > n {
        assert forall|i: int|
            0 <= i && i + needle@.len() <= hay@.len() implies #[trigger] hay@.subrange(
            i,
            i + needle@.len(),
        ) != needle@ by {}
        return false;
    }
    let mut i: usize = 0;
    while i <= n - m
        invariant
            h@ == hay@,
            nd@ == needle@,
            n == h.len(),
            m == nd.len(),
            m <= n,
            i <= n - m + 1,
            forall|k: int| 0 <= k < i ==> #[trigger] hay@.subrange(k, k + m) != needle@,
        decreases n - m + 1 - i,
    {
        let mut j: usize = 0;
        let mut same = true;
        while j < m && same
            invariant
                h@ == hay@,
                nd@ == needle@,
                n == h.len(),
                m == nd.len(),
                i + m <= n,
                j <= m,
                same ==> forall|t: int| 0 <= t < j ==> h@[i + t] == nd@[t],
                !same ==> j >= 1 && h@[i + j - 1] != nd@[j - 1],
            decreases m - j,
        {
            if h[i + j] != nd[j] {
                same = false;
            }
            j = j + 1;
        }
        if same {
            assert(hay@.subrange(i as int, i + m) =~= needle@);
            return true;
        }
        assert(hay@.subrange(i as int, i + m)[j - 1] != needle@[j - 1]);
        i = i + 1;
    }
    assert forall|i: int|
        0 <= i && i + needle@.len() <= hay@.len() implies #[trigger] hay@.subrange(
        i,
        i + needle@.len(),
    ) != needle@ by {}
    false
}

/// `r` is `s` cut at its first NUL character (all of `s` when it has none).
pub open spec fn is_cut_at_nul(s: Seq<char>, r: Seq<char>) -> bool {
    &&& r.len() <= s.len()
    &&& r == s.subrange(0, r.len() as int)
    &&& forall|i: int| 0 <= i < r.len() ==> r[i] != '\0'
    &&& (r.len() == s.len() || s[r.len() as int] == '\0')
}

/// The text before the first NUL character of `s`: what survives the
/// engine's C-string boundary.
pub fn truncate_at_nul(s: &str) -> (r: String)
    ensures
        is_cut_at_nul(s@, r@),
{
    let n = s.unicode_len();
    let mut i: usize = 0;
    while i < n && s.get_char(i) != '\0'
        invariant
            n == s@.len(),
            i <= n,
            forall|k: int| 0 <= k < i ==> s@[k] != '\0',
        decreases n - i,
    {
        i = i + 1;
    }
    let head = s.substring_char(0, i);
    let r = String::from_str(head);
    r
}

/// What `str::to_uppercase` returns for a text (Unicode upper-casing).
pub uninterp spec fn upper_cased(s: Seq<char>) -> Seq<char>;

/// Calls `str::to_uppercase`; the result is named `upper_cased` of the input.
#[verifier::external_body]
pub(crate) fn to_upper(s: &str) -> (r: String)
    ensures
        r@ == upper_cased(s@),
{
    s.to_uppercase()
}

/// What `format!("{:?}", s)` renders for a text: the Debug form of `str`,
/// double-quoted with Rust escapes.
pub uninterp spec fn debug_quoted(s: Seq<char>) -> Seq<char>;

/// Renders `s` with `<str as Debug>::fmt`; the result is named
/// `debug_quoted` of the input.
#[verifier::external_body]
pub(crate) fn debug_quote(s: &str) -> (r: String)
    ensures
        r@ == debug_quoted(s@),
{
    format!("{:?}", s)
}


/// The index of the first `c` in `s`, if any.
pub open spec fn index_of(s: Seq<char>, c: char) -> Option<int>
    decreases s.len(),
{
    if s.len() == 0 {
        None
    } else if s[0] == c {
        Some(0)
    } else {
        match index_of(s.drop_first(), c) {
            Some(i) => Some(i + 1),
            None => None,
        }
    }
}

/// `s` up to its first `c` (all of it when there is none).
pub open spec fn before(s: Seq<char>, c: char) -> Seq<char> {
    match index_of(s, c) {
        Some(i) => s.take(i),
        None => s,
    }
}

/// What follows the first `c` in `s`; `None` when there is none.
pub open spec fn after(s: Seq<char>, c: char) -> Option<Seq<char>> {
    match index_of(s, c) {
        Some(i) => Some(s.skip(i + 1)),
        None => None,
    }
}

proof fn lemma_index_of(s: Seq<char>, c: char, k: int)
    requires
        0 <= k <= s.len(),
        forall|j: int| 0 <= j < k ==> s[j] != c,
        k == s.len() || s[k] == c,
    ensures
        index_of(s, c) == if k == s.len() {
            None::<int>
        } else {
            Some(k)
        },
    decreases s.len(),
{
    if s.len() > 0 && s[0] != c {
        lemma_index_of(s.drop_first(), c, k - 1);
    }
}

/// The index of the first `c` in `v` at or after `from`, if any.
pub fn find_char(v: &Vec<char>, c: char, from: usize) -> (r: Option<usize>)
    requires
        from <= v@.len(),
    ensures
        match r {
            Some(i) => index_of(v@.skip(from as int), c) == Some(i - from) && from <= i < v@.len(),
            None => index_of(v@.skip(from as int), c) is None,
        },
{
    let mut i = from;
    while i < v.len() && v[i] != c
        invariant
            from <= i <= v@.len(),
            forall|j: int| from <= j < i ==> v@[j] != c,
        decreases v.len() - i,
    {
        i = i + 1;
    }
    proof {
        lemma_index_of(v@.skip(from as int), c, i - from);
    }
    if i < v.len() {
        Some(i)
    } else {
        None
    }
}

/// Unicode's White_Space property, the whitespace `str::trim` removes.
pub open spec fn is_white_space(c: char) -> bool {
    let n = c as u32;
    ||| 0x9 <= n <= 0xd
    ||| n == 0x20
    ||| n == 0x85
    ||| n == 0xa0
    ||| n == 0x1680
    ||| 0x2000 <= n <= 0x200a
    ||| n == 0x2028
    ||| n == 0x2029
    ||| n == 0x202f
    ||| n == 0x205f
    ||| n == 0x3000
}

/// `s` without the white space it starts with.
pub open spec fn trim_start(s: Seq<char>) -> Seq<char>
    decreases s.len(),
{
    if s.len() > 0 && is_white_space(s[0]) {
        trim_start(s.drop_first())
    } else {
        s
    }
}

/// `s` without the white space it ends with.
pub open spec fn trim_end(s: Seq<char>) -> Seq<char>
    decreases s.len(),
{
    if s.len() > 0 && is_white_space(s.last()) {
        trim_end(s.drop_last())
    } else {
        s
    }
}

/// What `str::trim` returns: the text without white space at either end.
pub open spec fn trimmed(s: Seq<char>) -> Seq<char> {
    trim_end(trim_start(s))
}

/// Whether `c` has Unicode's White_Space property.
fn white_space(c: char) -> (r: bool)
    ensures
        r == is_white_space(c),
{
    let n = c as u32;
    (0x9 <= n && n <= 0xd) || n == 0x20 || n == 0x85 || n == 0xa0 || n == 0x1680 || (0x2000 <= n
        && n <= 0x200a) || n == 0x2028 || n == 0x2029 || n == 0x202f || n == 0x205f || n == 0x3000
}

/// The text without white space at either end, as `str::trim` gives it.
pub(crate) fn trim_text(s: &str) -> (r: String)
    ensures
        r@ == trimmed(s@),
{
    let v = chars_of(s);
    let n = v.len();
    let mut i: usize = 0;
    assert(v@.subrange(0, n as int) =~= v@);
    while i < n && white_space(v[i])
        invariant
            i <= n,
            n == v@.len(),
            trim_start(v@) == trim_start(v@.subrange(i as int, n as int)),
        decreases n - i,
    {
        assert(v@.subrange(i as int, n as int).drop_first() =~= v@.subrange(i + 1, n as int));
        i = i + 1;
    }
    assert(trim_start(v@.subrange(i as int, n as int)) == v@.subrange(i as int, n as int));
    let mut j: usize = n;
    while j > i && white_space(v[j - 1])
        invariant
            i <= j <= n,
            n == v@.len(),
            trim_end(v@.subrange(i as int, n as int)) == trim_end(v@.subrange(i as int, j as int)),
        decreases j,
    {
        assert(v@.subrange(i as int, j as int).drop_last() =~= v@.subrange(i as int, j - 1));
        j = j - 1;
    }
    assert(trim_end(v@.subrange(i as int, j as int)) == v@.subrange(i as int, j as int));
    let t = s.substring_char(i, j);
    String::from_str(t)
}

pub open spec fn is_ascii_digit(c: char) -> bool {
    0x30 <= (c as u32) <= 0x39
}

/// The number a run of ASCII digits writes in base ten.
pub open spec fn digits_value(s: Seq<char>) -> nat
    decreases s.len(),
{
    if s.len() == 0 {
        0
    } else {
        digits_value(s.drop_last()) * 10 + ((s.last() as u32) - 0x30) as nat
    }
}

/// The text after an optional leading `+`.
pub open spec fn unsigned_digits(s: Seq<char>) -> Seq<char> {
    if s.len() > 0 && s[0] == '+' {
        s.drop_first()
    } else {
        s
    }
}

/// Whether every character is an ASCII digit.
pub open spec fn all_ascii_digits(d: Seq<char>) -> bool {
    forall|i: int| 0 <= i < d.len() ==> is_ascii_digit(#[trigger] d[i])
}

/// What `str::parse::<u32>` returns: an optional `+` followed by one or
/// more ASCII digits whose value fits in a `u32` gives that value; any
/// other text (empty, other characters, overflow) is an error (`None`).
pub open spec fn parsed_u32(s: Seq<char>) -> Option<u32> {
    let digits = unsigned_digits(s);
    if digits.len() > 0 && all_ascii_digits(digits) && digits_value(digits) <= u32::MAX {
        Some(digits_value(digits) as u32)
    } else {
        None
    }
}

/// Appending a digit to a run of digits multiplies its value by ten and
/// adds the digit.
proof fn lemma_digits_step(v: Seq<char>, a: int, i: int)
    requires
        0 <= a <= i < v.len(),
    ensures
        digits_value(v.subrange(a, i + 1)) == digits_value(v.subrange(a, i)) * 10 + ((v[i] as u32)
            - 0x30) as nat,
{
    assert(v.subrange(a, i + 1).drop_last() =~= v.subrange(a, i));
}

/// A longer run of digits is worth at least as much as its prefix.
proof fn lemma_digits_grow(v: Seq<char>, a: int, i: int, j: int)
    requires
        0 <= a <= i <= j <= v.len(),
        forall|k: int| a <= k < j ==> is_ascii_digit(#[trigger] v[k]),
    ensures
        digits_value(v.subrange(a, i)) <= digits_value(v.subrange(a, j)),
    decreases j - i,
{
    if i < j {
        lemma_digits_grow(v, a, i, j - 1);
        lemma_digits_step(v, a, j - 1);
        assert(is_ascii_digit(v[j - 1]));
    }
}

/// What `str::parse::<u32>` gives, the error as `None`: an optional `+`,
/// then one or more ASCII digits whose value fits in a `u32`.
pub(crate) fn parse_u32(s: &str) -> (r: Option<u32>)
    ensures
        r == parsed_u32(s@),
{
    let v = chars_of(s);
    let n = v.len();
    let start: usize = if n > 0 && v[0] == '+' {
        1
    } else {
        0
    };
    let ghost digits = v@.subrange(start as int, n as int);
    assert(digits =~= unsigned_digits(s@));
    if start >= n {
        return None;
    }
    let mut value: u64 = 0;
    let mut i: usize = start;
    assert(v@.subrange(start as int, start as int) =~= Seq::<char>::empty());
    while i < n
        invariant
            start <= i <= n,
            start < n,
            n == v@.len(),
            digits == v@.subrange(start as int, n as int),
            v@ == s@,
            digits == unsigned_digits(s@),
            forall|k: int| start <= k < i ==> is_ascii_digit(#[trigger] v@[k]),
            value == digits_value(v@.subrange(start as int, i as int)),
            value <= u32::MAX,
        decreases n - i,
    {
        let code = v[i] as u32;
        if code < 0x30 || code > 0x39 {
            assert(!is_ascii_digit(digits[i - start]));
            assert(!all_ascii_digits(digits));
            return None;
        }
        proof {
            lemma_digits_step(v@, start as int, i as int);
        }
        let next: u64 = value * 10 + (code - 0x30) as u64;
        if next > 0xffff_ffff {
            proof {
                if all_ascii_digits(digits) {
                    assert forall|k: int| start <= k < n implies is_ascii_digit(#[trigger] v@[k]) by {
                        assert(digits[k - start] == v@[k]);
                    }
                    lemma_digits_grow(v@, start as int, i + 1, n as int);
                }
            }
            return None;
        }
        value = next;
        i = i + 1;
    }
    assert forall|k: int| 0 <= k < digits.len() implies is_ascii_digit(#[trigger] digits[k]) by {
        assert(digits[k] == v@[start + k]);
    }
    assert(all_ascii_digits(digits));
    Some(value as u32)
}

} // verus!
