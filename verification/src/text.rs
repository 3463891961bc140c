//! Character-level string helpers with exact specifications.

use vstd::prelude::*;

verus! {

/// `pat` occurs in `s` starting at character position `i`.
pub open spec fn occurs_at(s: Seq<char>, pat: Seq<char>, i: int) -> bool {
    0 <= i && i + pat.len() <= s.len() && s.subrange(i, i + pat.len()) == pat
}

/// `s` starts with `prefix`.
pub open spec fn has_prefix(s: Seq<char>, prefix: Seq<char>) -> bool {
    occurs_at(s, prefix, 0)
}

/// Exact equality of two string slices, character by character.
pub fn str_eq(a: &str, b: &str) -> (r: bool)
    ensures
        r == (a@ == b@),
{
    let n = a.unicode_len();
    if n != b.unicode_len() {
        return false;
    }
    let mut i: usize = 0;
    while i < n
        invariant
            n == a@.len(),
            n == b@.len(),
            i <= n,
            forall|j: int| 0 <= j < i ==> a@[j] == b@[j],
        decreases n - i,
    {
        if a.get_char(i) != b.get_char(i) {
            return false;
        }
        i = i + 1;
    }
    assert(a@ =~= b@);
    true
}


/// Whether `pat` occurs in `s` starting at character position `i`.
pub fn matches_at(s: &str, pat: &str, i: usize) -> (r: bool)
    ensures
        r == occurs_at(s@, pat@, i as int),
{
    let n = s.unicode_len();
    let m = pat.unicode_len();
    if i > n || m > n - i {
        return false;
    }
    let mut j: usize = 0;
    while j < m
        invariant
            n == s@.len(),
            m == pat@.len(),
            i + m <= n,
            j <= m,
            forall|k: int| 0 <= k < j ==> s@[i + k] == pat@[k],
        decreases m - j,
    {
        if s.get_char(i + j) != pat.get_char(j) {
            assert(s@.subrange(i as int, i + m)[j as int] != pat@[j as int]);
            return false;
        }
        j = j + 1;
    }
    assert(s@.subrange(i as int, i + m) =~= pat@);
    true
}

/// `s` starts with `prefix`.
pub fn starts_with(s: &str, prefix: &str) -> (r: bool)
    ensures
        r == has_prefix(s@, prefix@),
{
    matches_at(s, prefix, 0)
}

/// `i` is the first position at which `pat` occurs in `s`.
pub open spec fn is_first_occurrence(s: Seq<char>, pat: Seq<char>, i: int) -> bool {
    &&& occurs_at(s, pat, i)
    &&& forall|j: int| 0 <= j < i ==> !occurs_at(s, pat, j)
}

/// The character position of the first occurrence of `pat` in `s`, if any.
pub fn find(s: &str, pat: &str) -> (r: Option<usize>)
    ensures
        r matches Some(i) ==> is_first_occurrence(s@, pat@, i as int),
        r is None ==> forall|i: int| !occurs_at(s@, pat@, i),
{
    let n = s.unicode_len();
    let mut i: usize = 0;
    while i < n
        invariant
            n == s@.len(),
            i <= n,
            forall|j: int| 0 <= j < i ==> !occurs_at(s@, pat@, j),
        decreases n - i,
    {
        if matches_at(s, pat, i) {
            return Some(i);
        }
        i = i + 1;
    }
    if matches_at(s, pat, n) {
        return Some(n);
    }
    None
}

/// `i` is the last position of character `c` in `s`.
pub open spec fn is_last_char(s: Seq<char>, c: char, i: int) -> bool {
    &&& 0 <= i < s.len()
    &&& s[i] == c
    &&& forall|j: int| i < j < s.len() ==> s[j] != c
}

/// The character position of the last occurrence of `c` in `s`, if any.
pub fn rfind_char(s: &str, c: char) -> (r: Option<usize>)
    ensures
        r matches Some(i) ==> is_last_char(s@, c, i as int),
        r is None ==> forall|i: int| 0 <= i < s@.len() ==> s@[i] != c,
{
    let n = s.unicode_len();
    let mut i: usize = n;
    while i > 0
        invariant
            n == s@.len(),
            i <= n,
            forall|j: int| i <= j < n ==> s@[j] != c,
        decreases i,
    {
        if s.get_char(i - 1) == c {
            return Some(i - 1);
        }
        i = i - 1;
    }
    None
}

/// The character position of the first occurrence of `c` in `s`, if any.
pub fn find_char(s: &str, c: char) -> (r: Option<usize>)
    ensures
        r matches Some(i) ==> i < s@.len() && s@[i as int] == c && forall|j: int|
            0 <= j < i ==> s@[j] != c,
        r is None ==> forall|i: int| 0 <= i < s@.len() ==> s@[i] != c,
{
    let n = s.unicode_len();
    let mut i: usize = 0;
    while i < n
        invariant
            n == s@.len(),
            i <= n,
            forall|j: int| 0 <= j < i ==> s@[j] != c,
        decreases n - i,
    {
        if s.get_char(i) == c {
            return Some(i);
        }
        i = i + 1;
    }
    None
}

/// `s` with `prefix` removed if it starts with it, else `s` itself.
pub open spec fn spec_strip_prefix_or_self(s: Seq<char>, prefix: Seq<char>) -> Seq<char> {
    if has_prefix(s, prefix) {
        s.subrange(prefix.len() as int, s.len() as int)
    } else {
        s
    }
}

/// Removes `prefix` from the front of `s` if it is there.
pub fn strip_prefix_or_self<'a>(s: &'a str, prefix: &str) -> (r: &'a str)
    ensures
        r@ == spec_strip_prefix_or_self(s@, prefix@),
{
    if starts_with(s, prefix) {
        s.substring_char(prefix.unicode_len(), s.unicode_len())
    } else {
        s
    }
}

/// The character of a decimal digit.
pub open spec fn spec_digit(d: nat) -> char {
    "0123456789"@[d as int]
}

/// The decimal form of `n`.
pub open spec fn spec_decimal(n: nat) -> Seq<char>
    decreases n,
{
    if n < 10 {
        seq![spec_digit(n)]
    } else {
        spec_decimal(n / 10).push(spec_digit(n % 10))
    }
}

/// The decimal form of `n`.
pub fn decimal(n: usize) -> (r: String)
    ensures
        r@ == spec_decimal(n as nat),
    decreases n,
{
    let digits = "0123456789";
    proof {
        reveal_strlit("0123456789");
    }
    if n < 10 {
        let d = digits.substring_char(n, n + 1);
        assert(d@ =~= seq![spec_digit(n as nat)]);
        d.to_owned()
    } else {
        let head = decimal(n / 10);
        let d = digits.substring_char(n % 10, n % 10 + 1);
        assert(d@ =~= seq![spec_digit((n % 10) as nat)]);
        let r = head.concat(d);
        assert(r@ =~= spec_decimal(n as nat));
        r
    }
}


/// Whether `c` is an ASCII decimal digit.
pub open spec fn is_digit(c: char) -> bool {
    '0' <= c <= '9'
}

/// The value of a digit character.
pub open spec fn digit_value(c: char) -> nat {
    (c as int - '0' as int) as nat
}

/// The value of a sequence of decimal digits (0 for none).
pub open spec fn digits_value(s: Seq<char>) -> nat
    decreases s.len(),
{
    if s.len() == 0 {
        0
    } else {
        digits_value(s.drop_last()) * 10 + digit_value(s.last())
    }
}

/// `s` without a leading `+`.
pub open spec fn unsigned_digits(s: Seq<char>) -> Seq<char> {
    if s.len() > 0 && s[0] == '+' {
        s.skip(1)
    } else {
        s
    }
}

/// Whether all characters of `t` are decimal digits.
pub open spec fn all_digits(t: Seq<char>) -> bool {
    forall|i: int| 0 <= i < t.len() ==> is_digit(#[trigger] t[i])
}

/// What `u32::from_str` reads from `s`: an optional `+`, then one or more decimal digits whose
/// value fits in `u32`.
pub open spec fn spec_parse_u32(s: Seq<char>) -> Option<nat> {
    let t = unsigned_digits(s);
    if t.len() > 0 && all_digits(t) && digits_value(t) <= u32::MAX {
        Some(digits_value(t))
    } else {
        None
    }
}

proof fn lemma_digits_value_monotone(s: Seq<char>, k: int)
    requires
        0 <= k <= s.len(),
        forall|i: int| 0 <= i < s.len() ==> is_digit(#[trigger] s[i]),
    ensures
        digits_value(s.take(k)) <= digits_value(s),
    decreases s.len() - k,
{
    if k < s.len() {
        lemma_digits_value_monotone(s, k + 1);
        assert(s.take(k + 1).drop_last() =~= s.take(k));
    } else {
        assert(s.take(k) =~= s);
    }
}

/// Reads a `u32` the way `u32::from_str` does.
pub fn parse_u32(s: &str) -> (r: Option<u32>)
    ensures
        match r {
            Some(v) => spec_parse_u32(s@) == Some(v as nat),
            None => spec_parse_u32(s@) is None,
        },
{
    let n = s.unicode_len();
    let start: usize = if n > 0 && s.get_char(0) == '+' {
        1
    } else {
        0
    };
    let ghost t = unsigned_digits(s@);
    assert(t =~= s@.subrange(start as int, n as int));
    if start == n {
        assert(t.len() == 0);
        return None;
    }
    let mut v: u64 = 0;
    let mut i: usize = start;
    while i < n
        invariant
            start <= i <= n,
            n == s@.len(),
            t == s@.subrange(start as int, n as int),
            t == unsigned_digits(s@),
            forall|j: int| 0 <= j < i - start ==> is_digit(#[trigger] t[j]),
            v == digits_value(t.take(i - start)),
            v <= u32::MAX,
        decreases n - i,
    {
        let c = s.get_char(i);
        if !('0' <= c && c <= '9') {
            assert(t[i - start] == c);
            assert(!is_digit(t[i - start]));
            assert(!all_digits(t));
            return None;
        }
        assert(t.take(i - start + 1).drop_last() =~= t.take(i - start));
        assert(t.take(i - start + 1).last() == c);
        let d = (c as u32 - '0' as u32) as u64;
        v = v * 10 + d;
        if v > 4294967295 {
            proof {
                assert forall|j: int| 0 <= j < i - start + 1 implies is_digit(#[trigger] t[j]) by {}
                if all_digits(t) {
                    lemma_digits_value_monotone(t, i - start + 1);
                }
            }
            return None;
        }
        i = i + 1;
    }
    assert(t.take(n - start) =~= t);
    Some(v as u32)
}

/// The pieces of `s` between occurrences of `c`, as `str::split` gives them: one more piece
/// than there are `c`s.
pub open spec fn spec_split(s: Seq<char>, c: char) -> Seq<Seq<char>>
    decreases s.len(),
{
    if s.len() == 0 {
        seq![Seq::empty()]
    } else {
        let p = spec_split(s.drop_last(), c);
        if s.last() == c {
            p.push(Seq::empty())
        } else {
            p.update(p.len() - 1, p.last().push(s.last()))
        }
    }
}

proof fn lemma_split_nonempty(s: Seq<char>, c: char)
    ensures
        spec_split(s, c).len() >= 1,
    decreases s.len(),
{
    if s.len() > 0 {
        lemma_split_nonempty(s.drop_last(), c);
    }
}

/// Splits `s` at every `c`.
pub fn split_char(s: &str, c: char) -> (r: Vec<String>)
    ensures
        r@.map_values(|x: String| x@) == spec_split(s@, c),
{
    let n = s.unicode_len();
    let mut pieces: Vec<String> = Vec::new();
    let mut piece_start: usize = 0;
    let mut i: usize = 0;
    assert(s@.take(0) =~= Seq::<char>::empty());
    assert(s@.subrange(0, 0) =~= Seq::<char>::empty());
    assert(pieces@.map_values(|x: String| x@).push(s@.subrange(0, 0)) =~= spec_split(s@.take(0), c));
    while i < n
        invariant
            n == s@.len(),
            piece_start <= i <= n,
            pieces@.map_values(|x: String| x@).push(s@.subrange(piece_start as int, i as int)) == spec_split(s@.take(i as int), c),
        decreases n - i,
    {
        proof {
            lemma_split_nonempty(s@.take(i as int), c);
        }
        assert(s@.take(i + 1).drop_last() =~= s@.take(i as int));
        let ghost before = pieces@.map_values(|x: String| x@);
        if s.get_char(i) == c {
            let piece = s.substring_char(piece_start, i).to_owned();
            let ghost old_start = piece_start;
            pieces.push(piece);
            piece_start = i + 1;
            assert(pieces@.map_values(|x: String| x@) =~= before.push(s@.subrange(old_start as int, i as int)));
            assert(s@.subrange(piece_start as int, i + 1) =~= Seq::<char>::empty());
            assert(pieces@.map_values(|x: String| x@).push(s@.subrange(piece_start as int, i + 1)) =~= spec_split(s@.take(i + 1), c));
        } else {
            assert(s@.subrange(piece_start as int, i + 1) =~= s@.subrange(piece_start as int, i as int).push(s@[i as int]));
            assert(pieces@.map_values(|x: String| x@).push(s@.subrange(piece_start as int, i + 1)) =~= spec_split(s@.take(i + 1), c));
        }
        i = i + 1;
    }
    let last = s.substring_char(piece_start, n).to_owned();
    pieces.push(last);
    assert(s@.take(n as int) =~= s@);
    assert(pieces@.map_values(|x: String| x@) =~= spec_split(s@, c));
    pieces
}


proof fn lemma_digit(d: nat)
    requires
        d < 10,
    ensures
        is_digit(spec_digit(d)),
        digit_value(spec_digit(d)) == d,
{
    reveal_strlit("0123456789");
    if d == 0 {
    } else if d == 1 {
    } else if d == 2 {
    } else if d == 3 {
    } else if d == 4 {
    } else if d == 5 {
    } else if d == 6 {
    } else if d == 7 {
    } else if d == 8 {
    } else {
    }
}

/// The decimal form of `n` consists of digits whose value is `n`.
pub proof fn lemma_decimal_value(n: nat)
    ensures
        spec_decimal(n).len() >= 1,
        all_digits(spec_decimal(n)),
        digits_value(spec_decimal(n)) == n,
    decreases n,
{
    if n < 10 {
        lemma_digit(n);
        let s = spec_decimal(n);
        assert(s.drop_last() =~= Seq::<char>::empty());
        assert(digits_value(s.drop_last()) == 0);
        assert(s.last() == spec_digit(n));
        assert(digits_value(s) == digits_value(s.drop_last()) * 10 + digit_value(s.last()));
    } else {
        lemma_decimal_value(n / 10);
        lemma_digit(n % 10);
        let s = spec_decimal(n);
        assert(s.drop_last() =~= spec_decimal(n / 10));
        assert(n == (n / 10) * 10 + n % 10) by (nonlinear_arith);
        assert forall|i: int| 0 <= i < s.len() implies is_digit(#[trigger] s[i]) by {
            if i < s.len() - 1 {
                assert(s[i] == spec_decimal(n / 10)[i]);
            }
        }
    }
}

/// Different numbers have different decimal forms.
pub proof fn lemma_decimal_injective(i: nat, j: nat)
    requires
        i != j,
    ensures
        spec_decimal(i) != spec_decimal(j),
{
    lemma_decimal_value(i);
    lemma_decimal_value(j);
}

/// Reading the decimal form of a `u32` gives the number back.
pub proof fn law_parse_decimal_roundtrip(n: nat)
    requires
        n <= u32::MAX,
    ensures
        spec_parse_u32(spec_decimal(n)) == Some(n),
{
    lemma_decimal_value(n);
    let s = spec_decimal(n);
    assert(is_digit(s[0]));
    assert(unsigned_digits(s) == s);
}

/// Concatenation of two string slices into a new string.
pub fn concat2(a: &str, b: &str) -> (r: String)
    ensures
        r@ == a@ + b@,
{
    let s = a.to_owned();
    s.concat(b)
}

/// Concatenation of three string slices into a new string.
pub fn concat3(a: &str, b: &str, c: &str) -> (r: String)
    ensures
        r@ == a@ + b@ + c@,
{
    let s = a.to_owned();
    let s = s.concat(b);
    s.concat(c)
}

} // verus!
