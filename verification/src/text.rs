//! Character-level text utilities with exact specifications over `Seq<char>`.

use vstd::prelude::*;
use vstd::string::*;

verus! {

broadcast use vstd::string::group_string_axioms;

/// The Unicode `White_Space` property, which is what `char::is_whitespace` tests.
pub open spec fn is_white_space_spec(c: char) -> bool {
    let u = c as u32;
    ||| 0x09 <= u <= 0x0D
    ||| u == 0x20
    ||| u == 0x85
    ||| u == 0xA0
    ||| u == 0x1680
    ||| 0x2000 <= u <= 0x200A
    ||| u == 0x2028
    ||| u == 0x2029
    ||| u == 0x202F
    ||| u == 0x205F
    ||| u == 0x3000
}

/// Whether `c` has the Unicode `White_Space` property.
pub fn is_white_space(c: char) -> (res: bool)
    ensures
        res == is_white_space_spec(c),
{
    let u = c as u32;
    (0x09 <= u && u <= 0x0D) || u == 0x20 || u == 0x85 || u == 0xA0 || u == 0x1680 || (0x2000
        <= u && u <= 0x200A) || u == 0x2028 || u == 0x2029 || u == 0x202F || u == 0x205F || u
        == 0x3000
}

/// Appends one character to a `String` (`String::push`).
#[verifier::external_body]
pub(crate) fn push_char(s: &mut String, c: char)
    ensures
        final(s)@ == old(s)@.push(c),
{
    s.push(c);
}

/// The characters of `s`, in order.
pub fn chars_of(s: &str) -> (v: Vec<char>)
    ensures
        v@ == s@,
{
    let mut v: Vec<char> = Vec::new();
    for c in it: s.chars()
        invariant
            it.seq() == s@,
            v@ == it.seq().take(it.index() as int),
    {
        v.push(c);
    }
    v
}

/// The string made of `v[from..to]`.
pub fn string_from_chars(v: &Vec<char>, from: usize, to: usize) -> (s: String)
    requires
        from <= to <= v.len(),
    ensures
        s@ == v@.subrange(from as int, to as int),
{
    let mut s = String::new();
    let mut i = from;
    while i < to
        invariant
            from <= i <= to <= v.len(),
            s@ == v@.subrange(from as int, i as int),
        decreases to - i,
    {
        push_char(&mut s, v[i]);
        assert(v@.subrange(from as int, i + 1) == v@.subrange(from as int, i as int).push(v@[i as int]));
        i = i + 1;
    }
    s
}


/// `s` without its leading white space.
pub open spec fn trim_start_view(s: Seq<char>) -> Seq<char>
    decreases s.len(),
{
    if s.len() > 0 && is_white_space_spec(s[0]) {
        trim_start_view(s.drop_first())
    } else {
        s
    }
}

/// `s` without its trailing white space.
pub open spec fn trim_end_view(s: Seq<char>) -> Seq<char>
    decreases s.len(),
{
    if s.len() > 0 && is_white_space_spec(s.last()) {
        trim_end_view(s.drop_last())
    } else {
        s
    }
}

/// `s` without leading and trailing white space (`str::trim`).
pub open spec fn trim_view(s: Seq<char>) -> Seq<char> {
    trim_end_view(trim_start_view(s))
}

/// Trimming from the front leaves a suffix that is empty or starts with a
/// non-white-space character.
pub proof fn lemma_trim_start_shape(s: Seq<char>)
    ensures
        trim_start_view(s) == s.skip(s.len() - trim_start_view(s).len()),
        trim_start_view(s).len() <= s.len(),
        trim_start_view(s).len() == 0 || !is_white_space_spec(trim_start_view(s)[0]),
    decreases s.len(),
{
    if s.len() > 0 && is_white_space_spec(s[0]) {
        lemma_trim_start_shape(s.drop_first());
        assert(s.drop_first().skip(s.drop_first().len() - trim_start_view(s).len()) =~= s.skip(
            s.len() - trim_start_view(s).len(),
        ));
    } else {
        assert(s.skip(0) =~= s);
    }
}

/// Trimming from the back leaves a prefix that is empty or ends with a
/// non-white-space character.
pub proof fn lemma_trim_end_shape(s: Seq<char>)
    ensures
        trim_end_view(s) == s.take(trim_end_view(s).len() as int),
        trim_end_view(s).len() <= s.len(),
        trim_end_view(s).len() == 0 || !is_white_space_spec(trim_end_view(s).last()),
    decreases s.len(),
{
    if s.len() > 0 && is_white_space_spec(s.last()) {
        lemma_trim_end_shape(s.drop_last());
        assert(s.drop_last().take(trim_end_view(s).len() as int) =~= s.take(
            trim_end_view(s).len() as int,
        ));
    } else {
        assert(s.take(s.len() as int) =~= s);
    }
}

/// A trimmed text neither begins nor ends with white space, and trimming it
/// again changes nothing.
pub proof fn lemma_trim_is_trimmed(s: Seq<char>)
    ensures
        trim_view(s).len() == 0 || (!is_white_space_spec(trim_view(s)[0])
            && !is_white_space_spec(trim_view(s).last())),
        trim_view(trim_view(s)) == trim_view(s),
{
    let t = trim_start_view(s);
    let r = trim_end_view(t);
    lemma_trim_start_shape(s);
    lemma_trim_end_shape(t);
    if r.len() > 0 {
        assert(r[0] == t[0]);
    }
    assert(trim_start_view(r) == r);
    assert(trim_end_view(r) == r);
}

/// Bounds `(a, b)` such that `v[a..b]` is `v[from..to]` trimmed.
pub fn trim_bounds(v: &Vec<char>, from: usize, to: usize) -> (res: (usize, usize))
    requires
        from <= to <= v.len(),
    ensures
        from <= res.0 <= res.1 <= to,
        v@.subrange(res.0 as int, res.1 as int) == trim_view(v@.subrange(from as int, to as int)),
{
    let mut i = from;
    while i < to && is_white_space(v[i])
        invariant
            from <= i <= to <= v.len(),
            trim_start_view(v@.subrange(from as int, to as int)) == trim_start_view(
                v@.subrange(i as int, to as int),
            ),
        decreases to - i,
    {
        assert(v@.subrange(i as int, to as int).drop_first() == v@.subrange(i + 1, to as int));
        i = i + 1;
    }
    let mut j = to;
    while j > i && is_white_space(v[j - 1])
        invariant
            from <= i <= j <= to <= v.len(),
            trim_start_view(v@.subrange(from as int, to as int)) == v@.subrange(i as int, to as int),
            trim_view(v@.subrange(from as int, to as int)) == trim_end_view(
                v@.subrange(i as int, j as int),
            ),
        decreases j - i,
    {
        assert(v@.subrange(i as int, j as int).drop_last() == v@.subrange(i as int, j - 1));
        j = j - 1;
    }
    (i, j)
}

/// `s` without leading and trailing white space.
pub fn trim(s: &str) -> (res: String)
    ensures
        res@ == trim_view(s@),
{
    let v = chars_of(s);
    let (a, b) = trim_bounds(&v, 0, v.len());
    assert(v@.subrange(0, v@.len() as int) == v@);
    string_from_chars(&v, a, b)
}

/// Whether `s` begins with `p`.
pub open spec fn has_prefix(s: Seq<char>, p: Seq<char>) -> bool {
    p.len() <= s.len() && s.take(p.len() as int) == p
}

/// Whether `s` ends with `p`.
pub open spec fn has_suffix(s: Seq<char>, p: Seq<char>) -> bool {
    p.len() <= s.len() && s.skip(s.len() - p.len()) == p
}

/// `s` with every leading copy of a non-empty `p` removed (`str::trim_start_matches`).
pub open spec fn strip_prefixes_view(s: Seq<char>, p: Seq<char>) -> Seq<char>
    decreases s.len(),
{
    if p.len() > 0 && has_prefix(s, p) {
        strip_prefixes_view(s.skip(p.len() as int), p)
    } else {
        s
    }
}

/// `s` with every trailing copy of a non-empty `p` removed (`str::trim_end_matches`).
pub open spec fn strip_suffixes_view(s: Seq<char>, p: Seq<char>) -> Seq<char>
    decreases s.len(),
{
    if p.len() > 0 && has_suffix(s, p) {
        strip_suffixes_view(s.take(s.len() - p.len()), p)
    } else {
        s
    }
}

/// Whether `v[from..to]` begins with `p`.
pub fn starts_with_at(v: &Vec<char>, from: usize, to: usize, p: &Vec<char>) -> (res: bool)
    requires
        from <= to <= v.len(),
    ensures
        res == has_prefix(v@.subrange(from as int, to as int), p@),
{
    if p.len() > to - from {
        return false;
    }
    let mut k: usize = 0;
    while k < p.len()
        invariant
            from <= to <= v.len(),
            p.len() <= to - from,
            k <= p.len(),
            forall|m: int| 0 <= m < k ==> v@[from + m] == p@[m],
        decreases p.len() - k,
    {
        if v[from + k] != p[k] {
            assert(v@.subrange(from as int, to as int).take(p.len() as int)[k as int] != p@[k as int]);
            return false;
        }
        k = k + 1;
    }
    assert(v@.subrange(from as int, to as int).take(p.len() as int) =~= p@);
    true
}

/// Whether `v[from..to]` ends with `p`.
pub fn ends_with_at(v: &Vec<char>, from: usize, to: usize, p: &Vec<char>) -> (res: bool)
    requires
        from <= to <= v.len(),
    ensures
        res == has_suffix(v@.subrange(from as int, to as int), p@),
{
    if p.len() > to - from {
        return false;
    }
    let start = to - p.len();
    let mut k: usize = 0;
    while k < p.len()
        invariant
            from <= start <= to <= v.len(),
            start + p.len() == to,
            k <= p.len(),
            forall|m: int| 0 <= m < k ==> v@[start + m] == p@[m],
        decreases p.len() - k,
    {
        if v[start + k] != p[k] {
            let ghost w = v@.subrange(from as int, to as int);
            assert(w.skip(w.len() - p.len())[k as int] != p@[k as int]);
            return false;
        }
        k = k + 1;
    }
    let ghost w = v@.subrange(from as int, to as int);
    assert(w.skip(w.len() - p.len()) =~= p@);
    true
}

/// Whether `s` begins with `p` (`str::starts_with`).
pub fn starts_with(s: &str, p: &str) -> (res: bool)
    ensures
        res == has_prefix(s@, p@),
{
    let v = chars_of(s);
    let pv = chars_of(p);
    assert(v@.subrange(0, v@.len() as int) == v@);
    starts_with_at(&v, 0, v.len(), &pv)
}

/// Whether `s` ends with `p` (`str::ends_with`).
pub fn ends_with(s: &str, p: &str) -> (res: bool)
    ensures
        res == has_suffix(s@, p@),
{
    let v = chars_of(s);
    let pv = chars_of(p);
    assert(v@.subrange(0, v@.len() as int) == v@);
    ends_with_at(&v, 0, v.len(), &pv)
}

/// Start index in `v` after removing from `v[from..to]` every leading copy of `p`.
pub fn strip_prefixes_at(v: &Vec<char>, from: usize, to: usize, p: &Vec<char>) -> (res: usize)
    requires
        from <= to <= v.len(),
        p.len() > 0,
    ensures
        from <= res <= to,
        v@.subrange(res as int, to as int) == strip_prefixes_view(
            v@.subrange(from as int, to as int),
            p@,
        ),
{
    let mut i = from;
    while starts_with_at(v, i, to, p)
        invariant
            from <= i <= to <= v.len(),
            p.len() > 0,
            strip_prefixes_view(v@.subrange(i as int, to as int), p@) == strip_prefixes_view(
                v@.subrange(from as int, to as int),
                p@,
            ),
        decreases to - i,
    {
        assert(v@.subrange(i as int, to as int).skip(p.len() as int) == v@.subrange(
            i + p.len(),
            to as int,
        ));
        i = i + p.len();
    }
    i
}

/// End index in `v` after removing from `v[from..to]` every trailing copy of `p`.
pub fn strip_suffixes_at(v: &Vec<char>, from: usize, to: usize, p: &Vec<char>) -> (res: usize)
    requires
        from <= to <= v.len(),
        p.len() > 0,
    ensures
        from <= res <= to,
        v@.subrange(from as int, res as int) == strip_suffixes_view(
            v@.subrange(from as int, to as int),
            p@,
        ),
{
    let mut j = to;
    while ends_with_at(v, from, j, p)
        invariant
            from <= j <= to <= v.len(),
            p.len() > 0,
            strip_suffixes_view(v@.subrange(from as int, j as int), p@) == strip_suffixes_view(
                v@.subrange(from as int, to as int),
                p@,
            ),
        decreases j - from,
    {
        assert(v@.subrange(from as int, j as int).take(j - from - p.len()) == v@.subrange(
            from as int,
            j - p.len(),
        ));
        j = j - p.len();
    }
    j
}


/// `s` with every non-overlapping occurrence of a non-empty `p`, scanned from the
/// left, replaced by `r` (`str::replace`).
pub open spec fn replace_view(s: Seq<char>, p: Seq<char>, r: Seq<char>) -> Seq<char>
    decreases s.len(),
{
    if s.len() == 0 || p.len() == 0 {
        s
    } else if has_prefix(s, p) {
        r + replace_view(s.skip(p.len() as int), p, r)
    } else {
        seq![s[0]] + replace_view(s.drop_first(), p, r)
    }
}

/// Replaces every occurrence of the non-empty pattern `p` in `s` by `r`.
pub fn replace_all(s: &str, p: &str, r: &str) -> (res: String)
    requires
        p@.len() > 0,
    ensures
        res@ == replace_view(s@, p@, r@),
{
    let v = chars_of(s);
    let pv = chars_of(p);
    let n = v.len();
    let mut out = String::new();
    let mut i: usize = 0;
    assert(v@.subrange(0, n as int) == s@);
    assert(Seq::<char>::empty() + replace_view(s@, p@, r@) == replace_view(s@, p@, r@));
    while i < n
        invariant
            n == v.len(),
            i <= n,
            pv@ == p@,
            p@.len() > 0,
            replace_view(s@, p@, r@) == out@ + replace_view(v@.subrange(i as int, n as int), p@, r@),
            v@ == s@,
        decreases n - i,
    {
        let ghost rest = v@.subrange(i as int, n as int);
        if starts_with_at(&v, i, n, &pv) {
            out.append(r);
            assert(rest.skip(p@.len() as int) == v@.subrange(i + p@.len(), n as int));
            i = i + pv.len();
        } else {
            push_char(&mut out, v[i]);
            assert(rest.drop_first() == v@.subrange(i + 1, n as int));
            i = i + 1;
        }
    }
    assert(v@.subrange(n as int, n as int) =~= Seq::<char>::empty());
    assert(out@ + Seq::<char>::empty() == out@);
    out
}

/// The ASCII digit for `d < 10`.
pub open spec fn digit_char(d: nat) -> char {
    (d + 48) as char
}

/// The decimal representation of `n`, without sign or leading zeros.
pub open spec fn decimal_view(n: nat) -> Seq<char>
    decreases n,
{
    if n < 10 {
        seq![digit_char(n)]
    } else {
        decimal_view(n / 10).push(digit_char(n % 10))
    }
}

/// The decimal representation of `n`.
pub fn decimal_string(n: u64) -> (res: String)
    ensures
        res@ == decimal_view(n as nat),
    decreases n,
{
    if n < 10 {
        let mut s = String::new();
        push_char(&mut s, ((n as u8) + 48) as char);
        s
    } else {
        let mut s = decimal_string(n / 10);
        push_char(&mut s, (((n % 10) as u8) + 48) as char);
        s
    }
}

/// Every character of a decimal representation is an ASCII digit, and there is
/// at least one.
pub proof fn lemma_decimal_digits(n: nat)
    ensures
        decimal_view(n).len() >= 1,
        forall|i: int| 0 <= i < decimal_view(n).len() ==> is_ascii_digit(#[trigger] decimal_view(n)[i]),
    decreases n,
{
    if n >= 10 {
        lemma_decimal_digits(n / 10);
        let d = decimal_view(n / 10);
        assert forall|i: int| 0 <= i < decimal_view(n).len() implies is_ascii_digit(
            #[trigger] decimal_view(n)[i],
        ) by {
            if i < d.len() {
                assert(decimal_view(n)[i] == d[i]);
            }
        }
    }
}

/// Reading a decimal representation back gives the number it was written from.
pub proof fn lemma_decimal_reads_back(n: nat)
    ensures
        digits_value(decimal_view(n)) == n,
        unsigned_value(decimal_view(n)) == Some(n),
    decreases n,
{
    lemma_decimal_digits(n);
    let s = decimal_view(n);
    if n < 10 {
        assert(s == seq![digit_char(n)]);
        assert(s.drop_last() =~= Seq::<char>::empty());
        assert(digits_value(s.drop_last()) == 0);
        assert(s.last() == digit_char(n));
        assert(digit_char(n) as nat == n + 48);
        assert(digits_value(s) == digits_value(s.drop_last()) * 10 + ((s.last() as nat) - 48) as nat);
    } else {
        lemma_decimal_reads_back(n / 10);
        let d = n % 10;
        assert(s == decimal_view(n / 10).push(digit_char(d)));
        assert(s.drop_last() =~= decimal_view(n / 10));
        assert(s.last() == digit_char(d));
        assert(digit_char(d) as nat == d + 48);
        assert(digits_value(s) == digits_value(s.drop_last()) * 10 + ((s.last() as nat) - 48) as nat);
        assert(digits_value(s) == (n / 10) * 10 + d);
        assert((n / 10) * 10 + n % 10 == n);
    }
    assert(s[0] != '+') by {
        assert(is_ascii_digit(s[0]));
    }
    assert(unsigned_digits(s) == s);
    assert(all_ascii_digits(s));
}

/// Different numbers are written differently.
pub proof fn lemma_decimal_injective(a: nat, b: nat)
    ensures
        decimal_view(a) == decimal_view(b) ==> a == b,
{
    lemma_decimal_reads_back(a);
    lemma_decimal_reads_back(b);
}

/// Whether `c` is one of `0`..`9`.
pub open spec fn is_ascii_digit(c: char) -> bool {
    '0' <= c <= '9'
}

/// The value of a string of ASCII digits.
pub open spec fn digits_value(s: Seq<char>) -> nat
    decreases s.len(),
{
    if s.len() == 0 {
        0
    } else {
        digits_value(s.drop_last()) * 10 + ((s.last() as nat) - 48) as nat
    }
}

/// The digits part of an unsigned decimal: `s` without one leading `+`.
pub open spec fn unsigned_digits(s: Seq<char>) -> Seq<char> {
    if s.len() > 0 && s[0] == '+' {
        s.drop_first()
    } else {
        s
    }
}

/// Whether every character of `d` is an ASCII digit.
pub open spec fn all_ascii_digits(d: Seq<char>) -> bool {
    forall|i: int| 0 <= i < d.len() ==> is_ascii_digit(#[trigger] d[i])
}

/// The number that `s` spells as an unsigned decimal with an optional leading
/// `+` and at least one digit, the grammar of `u64::from_str`; `None` where `s`
/// is not in that form.
pub open spec fn unsigned_value(s: Seq<char>) -> Option<nat> {
    let d = unsigned_digits(s);
    if d.len() > 0 && all_ascii_digits(d) {
        Some(digits_value(d))
    } else {
        None
    }
}

/// A prefix of a digit string is worth no more than the whole.
proof fn lemma_digits_value_prefix(s: Seq<char>, k: int)
    requires
        0 <= k <= s.len(),
        forall|i: int| 0 <= i < s.len() ==> is_ascii_digit(#[trigger] s[i]),
    ensures
        digits_value(s.take(k)) <= digits_value(s),
    decreases s.len(),
{
    if k < s.len() {
        let t = s.drop_last();
        assert(t.take(k) == s.take(k));
        assert forall|i: int| 0 <= i < t.len() implies is_ascii_digit(#[trigger] t[i]) by {
            assert(t[i] == s[i]);
        }
        lemma_digits_value_prefix(t, k);
        assert(is_ascii_digit(s[s.len() - 1]));
        assert(digits_value(t) <= digits_value(t) * 10) by (nonlinear_arith);
    } else {
        assert(s.take(k) == s);
    }
}

/// Parses `s` as a `u64` (`str::parse::<u64>`).
pub fn parse_u64(s: &str) -> (res: Option<u64>)
    ensures
        match unsigned_value(s@) {
            Some(v) => if v <= u64::MAX {
                res == Some(v as u64)
            } else {
                res is None
            },
            None => res is None,
        },
{
    let v = chars_of(s);
    let n = v.len();
    let start: usize = if n > 0 && v[0] == '+' {
        1
    } else {
        0
    };
    let ghost d = v@.subrange(start as int, n as int);
    assert(d == unsigned_digits(s@));
    if start == n {
        return None;
    }
    let mut acc: u64 = 0;
    let mut i = start;
    while i < n
        invariant
            start <= i <= n == v.len(),
            d == v@.subrange(start as int, n as int),
            d == unsigned_digits(s@),
            d.len() > 0,
            acc == digits_value(d.take(i - start)),
            forall|k: int| 0 <= k < i - start ==> is_ascii_digit(#[trigger] d[k]),
        decreases n - i,
    {
        let c = v[i];
        if !('0' <= c && c <= '9') {
            assert(!is_ascii_digit(d[i - start]));
            assert(!all_ascii_digits(d));
            return None;
        }
        let digit = (c as u32 - 48) as u64;
        assert(d.take(i - start + 1).drop_last() == d.take(i - start));
        assert(d.take(i - start + 1).last() == c);
        match acc.checked_mul(10) {
            Some(m) => match m.checked_add(digit) {
                Some(a) => {
                    acc = a;
                },
                None => {
                    proof {
                        assert(digits_value(d.take(i - start + 1)) > u64::MAX);
                        if all_ascii_digits(d) {
                            lemma_digits_value_prefix(d, i - start + 1);
                        }
                    }
                    return None;
                },
            },
            None => {
                proof {
                    assert(digits_value(d.take(i - start + 1)) > u64::MAX);
                    if all_ascii_digits(d) {
                        lemma_digits_value_prefix(d, i - start + 1);
                    }
                }
                return None;
            },
        }
        i = i + 1;
    }
    assert(d.take(n - start) == d);
    Some(acc)
}

/// Parses `s` as a `u32` (`str::parse::<u32>`).
pub fn parse_u32(s: &str) -> (res: Option<u32>)
    ensures
        match unsigned_value(s@) {
            Some(v) => if v <= u32::MAX {
                res == Some(v as u32)
            } else {
                res is None
            },
            None => res is None,
        },
{
    match parse_u64(s) {
        Some(v) => if v <= u32::MAX as u64 {
            Some(v as u32)
        } else {
            None
        },
        None => None,
    }
}


/// What `str::to_lowercase` returns for `s` (full Unicode case mapping).
pub uninterp spec fn lowercase_view(s: Seq<char>) -> Seq<char>;

/// What `str::to_uppercase` returns for `s` (full Unicode case mapping).
pub uninterp spec fn uppercase_view(s: Seq<char>) -> Seq<char>;

/// What the `Debug` format of `str` writes for `s`: the text quoted, with its
/// special characters escaped.
pub uninterp spec fn debug_quoted_view(s: Seq<char>) -> Seq<char>;

/// Calls `str::to_lowercase`; claims that the result is `lowercase_view` of the argument.
#[verifier::external_body]
pub(crate) fn to_lowercase(s: &str) -> (res: String)
    ensures
        res@ == lowercase_view(s@),
{
    s.to_lowercase()
}

/// Calls `str::to_uppercase`; claims that the result is `uppercase_view` of the argument.
#[verifier::external_body]
pub(crate) fn to_uppercase(s: &str) -> (res: String)
    ensures
        res@ == uppercase_view(s@),
{
    s.to_uppercase()
}

/// Formats `s` with `<str as Debug>::fmt`; claims that the result is
/// `debug_quoted_view` of the argument.
#[verifier::external_body]
pub(crate) fn debug_quoted(s: &str) -> (res: String)
    ensures
        res@ == debug_quoted_view(s@),
{
    format!("{:?}", s)
}

/// Whether `a` and `b` hold the same text.
pub fn same_text(a: &str, b: &str) -> (res: bool)
    ensures
        res == (a@ == b@),
{
    a.to_owned() == b.to_owned()
}

} // verus!
