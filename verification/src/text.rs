//! Character-sequence helpers shared by the message handlers: copying
//! strings to and from character vectors, splitting on a separator,
//! prefix/suffix tests, decimal formatting and decimal parsing.

use vstd::prelude::*;
use vstd::string::*;

verus! {

// ---------------------------------------------------------------------
// Conversions
// ---------------------------------------------------------------------

/// Copies the characters of a string slice into a vector.
pub fn chars_of(s: &str) -> (v: Vec<char>)
    ensures
        v@ == s@,
{
    broadcast use vstd::string::group_string_axioms;
    let mut v: Vec<char> = Vec::new();
    for c in it: s.chars()
        invariant
            v@ == it.seq().take(it.index()),
            it.seq() == s@,
    {
        v.push(c);
        assert(it.seq().take(it.index() + 1) == it.seq().take(it.index()).push(c));
    }
    v
}

/// Appends the characters of `s` to `v`.
pub fn push_str(v: &mut Vec<char>, s: &str)
    ensures
        final(v)@ == old(v)@ + s@,
{
    broadcast use vstd::string::group_string_axioms;
    let ghost start = v@;
    for c in it: s.chars()
        invariant
            v@ == start + it.seq().take(it.index()),
            it.seq() == s@,
    {
        v.push(c);
        assert(it.seq().take(it.index() + 1) == it.seq().take(it.index()).push(c));
    }
    assert(s@.take(s@.len() as int) == s@);
}

/// Appends the characters of `s` to `v`.
pub fn push_chars(v: &mut Vec<char>, s: &[char])
    ensures
        final(v)@ == old(v)@ + s@,
{
    let ghost start = v@;
    let mut i: usize = 0;
    while i < s.len()
        invariant
            i <= s.len(),
            v@ == start + s@.take(i as int),
        decreases s.len() - i,
    {
        v.push(s[i]);
        assert(s@.take(i + 1) == s@.take(i as int).push(s@[i as int]));
        i = i + 1;
    }
    assert(s@.take(s@.len() as int) == s@);
}

/// std's `Iterator::collect` of the characters into a `String` (vstd
/// gives `collect` no contract): the string holds exactly these characters,
/// in order.
#[verifier::external_body]
pub(crate) fn string_of(v: &[char]) -> (s: String)
    ensures
        s@ == v@,
{
    v.iter().collect()
}

/// Copies a sub-range of a character slice.
pub fn slice_to_vec(s: &[char], from: usize, to: usize) -> (v: Vec<char>)
    requires
        from <= to <= s.len(),
    ensures
        v@ == s@.subrange(from as int, to as int),
{
    let mut v: Vec<char> = Vec::new();
    let mut i: usize = from;
    while i < to
        invariant
            from <= i <= to <= s.len(),
            v@ == s@.subrange(from as int, i as int),
        decreases to - i,
    {
        v.push(s[i]);
        assert(s@.subrange(from as int, i + 1) == s@.subrange(from as int, i as int).push(s@[i as int]));
        i = i + 1;
    }
    v
}

/// Whether two character slices hold the same characters.
pub fn chars_eq(a: &[char], b: &[char]) -> (r: bool)
    ensures
        r == (a@ == b@),
{
    if a.len() != b.len() {
        return false;
    }
    let mut i: usize = 0;
    while i < a.len()
        invariant
            a.len() == b.len(),
            i <= a.len(),
            forall|j: int| 0 <= j < i ==> a@[j] == b@[j],
        decreases a.len() - i,
    {
        if a[i] != b[i] {
            return false;
        }
        i = i + 1;
    }
    assert(a@ =~= b@);
    true
}

/// Whether the characters of `a` spell out the string `b`.
pub fn chars_eq_str(a: &[char], b: &str) -> (r: bool)
    ensures
        r == (a@ == b@),
{
    let bv = chars_of(b);
    chars_eq(a, bv.as_slice())
}

// ---------------------------------------------------------------------
// Prefixes, suffixes, membership
// ---------------------------------------------------------------------

/// `p` is a prefix of `s`.
pub open spec fn has_prefix(s: Seq<char>, p: Seq<char>) -> bool {
    p.len() <= s.len() && s.take(p.len() as int) == p
}

/// `p` is a suffix of `s`.
pub open spec fn has_suffix(s: Seq<char>, p: Seq<char>) -> bool {
    p.len() <= s.len() && s.skip(s.len() - p.len()) == p
}

/// `p` occurs in `s` starting at position `i`.
pub open spec fn occurs_at(s: Seq<char>, p: Seq<char>, i: int) -> bool {
    0 <= i && i + p.len() <= s.len() && s.subrange(i, i + p.len()) == p
}

/// `p` occurs somewhere in `s`.
pub open spec fn has_infix(s: Seq<char>, p: Seq<char>) -> bool {
    exists|i: int| occurs_at(s, p, i)
}

/// Some character of `s` belongs to `set`.
pub open spec fn contains_any(s: Seq<char>, set: Seq<char>) -> bool {
    exists|i: int| 0 <= i < s.len() && set.contains(#[trigger] s[i])
}

fn matches_at(s: &[char], p: &[char], i: usize) -> (r: bool)
    requires
        i <= s.len(),
    ensures
        r == occurs_at(s@, p@, i as int),
{
    if p.len() > s.len() - i {
        return false;
    }
    let mut j: usize = 0;
    while j < p.len()
        invariant
            i + p.len() <= s.len(),
            j <= p.len(),
            forall|k: int| 0 <= k < j ==> s@[i + k] == p@[k],
        decreases p.len() - j,
    {
        if s[i + j] != p[j] {
            assert(s@.subrange(i as int, i + p.len())[j as int] != p@[j as int]);
            return false;
        }
        j = j + 1;
    }
    assert(s@.subrange(i as int, i + p.len()) =~= p@);
    true
}

/// Whether `s` starts with `p`.
pub fn starts_with(s: &[char], p: &str) -> (r: bool)
    ensures
        r == has_prefix(s@, p@),
{
    let pv = chars_of(p);
    let r = matches_at(s, pv.as_slice(), 0);
    proof {
        if pv@.len() <= s@.len() {
            assert(s@.subrange(0, pv@.len() as int) == s@.take(pv@.len() as int));
        }
    }
    r
}

/// Whether `s` ends with `p`.
pub fn ends_with(s: &[char], p: &str) -> (r: bool)
    ensures
        r == has_suffix(s@, p@),
{
    let pv = chars_of(p);
    if pv.len() > s.len() {
        return false;
    }
    let r = matches_at(s, pv.as_slice(), s.len() - pv.len());
    assert(s@.subrange(s@.len() - pv@.len(), s@.len() as int) == s@.skip(s@.len() - pv@.len()));
    r
}

/// First position at which `p` occurs in `s`.
pub fn find(s: &[char], p: &str) -> (r: Option<usize>)
    ensures
        match r {
            Some(i) => occurs_at(s@, p@, i as int) && forall|j: int| 0 <= j < i ==> !occurs_at(s@, p@, j),
            None => !has_infix(s@, p@),
        },
{
    let pv = chars_of(p);
    let mut i: usize = 0;
    while i < s.len()
        invariant
            i <= s.len(),
            pv@ == p@,
            forall|j: int| 0 <= j < i ==> !occurs_at(s@, p@, j),
        decreases s.len() - i,
    {
        if matches_at(s, pv.as_slice(), i) {
            return Some(i);
        }
        i = i + 1;
    }
    if matches_at(s, pv.as_slice(), s.len()) {
        return Some(s.len());
    }
    assert forall|j: int| !occurs_at(s@, p@, j) by {
        if occurs_at(s@, p@, j) {
            assert(j <= s@.len());
        }
    }
    None
}

/// `p` first occurs in `s` at position `i`.
pub open spec fn first_occurs(s: Seq<char>, p: Seq<char>, i: int) -> bool {
    occurs_at(s, p, i) && forall|j: int| 0 <= j < i ==> !occurs_at(s, p, j)
}

/// The position of the first occurrence of `p` in `s` (`str::find`).
pub open spec fn index_of(s: Seq<char>, p: Seq<char>) -> Option<int> {
    if has_infix(s, p) {
        Some(choose|i: int| first_occurs(s, p, i))
    } else {
        None
    }
}

/// The position of the first occurrence of `p` in `s`.
pub fn index_of_str(s: &[char], p: &str) -> (r: Option<usize>)
    ensures
        match r {
            Some(i) => index_of(s@, p@) == Some(i as int) && first_occurs(s@, p@, i as int),
            None => index_of(s@, p@) is None,
        },
{
    match find(s, p) {
        Some(i) => {
            assert(first_occurs(s@, p@, i as int));
            let ghost c = choose|j: int| first_occurs(s@, p@, j);
            assert(first_occurs(s@, p@, c));
            assert(c == i as int) by {
                if c < i as int {
                    assert(!occurs_at(s@, p@, c));
                } else if c > i as int {
                    assert(!occurs_at(s@, p@, i as int));
                }
            }
            Some(i)
        },
        None => None,
    }
}

/// Whether `p` occurs in `s`.
pub fn contains(s: &[char], p: &str) -> (r: bool)
    ensures
        r == has_infix(s@, p@),
{
    find(s, p).is_some()
}

/// Last position of the character `c` in `s`.
pub fn rfind_char(s: &[char], c: char) -> (r: Option<usize>)
    ensures
        match r {
            Some(i) => i < s.len() && s@[i as int] == c && forall|j: int| i < j < s.len() ==> s@[j] != c,
            None => forall|j: int| 0 <= j < s.len() ==> s@[j] != c,
        },
{
    let mut i: usize = s.len();
    while i > 0
        invariant
            i <= s.len(),
            forall|j: int| i <= j < s.len() ==> s@[j] != c,
        decreases i,
    {
        if s[i - 1] == c {
            return Some(i - 1);
        }
        i = i - 1;
    }
    None
}

/// Whether some character of `s` is among the characters of `set`.
pub fn has_any(s: &[char], set: &str) -> (r: bool)
    ensures
        r == contains_any(s@, set@),
{
    let sv = chars_of(set);
    let mut i: usize = 0;
    while i < s.len()
        invariant
            sv@ == set@,
            i <= s.len(),
            forall|j: int| 0 <= j < i ==> !set@.contains(#[trigger] s@[j]),
        decreases s.len() - i,
    {
        if char_in(s[i], sv.as_slice()) {
            return true;
        }
        i = i + 1;
    }
    false
}

/// Whether `c` is one of the characters of `set`.
pub fn char_in(c: char, set: &[char]) -> (r: bool)
    ensures
        r == set@.contains(c),
{
    let mut i: usize = 0;
    while i < set.len()
        invariant
            i <= set.len(),
            forall|j: int| 0 <= j < i ==> set@[j] != c,
        decreases set.len() - i,
    {
        if set[i] == c {
            return true;
        }
        i = i + 1;
    }
    false
}

// ---------------------------------------------------------------------
// Splitting
// ---------------------------------------------------------------------

/// The pieces of `s` between occurrences of `sep`, as `str::split` with a
/// character pattern yields them: `n` separators give `n + 1` pieces, empty
/// ones included.
pub open spec fn split_on(s: Seq<char>, sep: char) -> Seq<Seq<char>>
    decreases s.len(),
{
    if s.len() == 0 {
        seq![Seq::<char>::empty()]
    } else {
        let rest = split_on(s.drop_last(), sep);
        if s.last() == sep {
            rest.push(Seq::<char>::empty())
        } else {
            rest.update(rest.len() - 1, rest.last().push(s.last()))
        }
    }
}

/// Joins pieces with a separator between each two of them.
pub open spec fn join_with(pieces: Seq<Seq<char>>, sep: char) -> Seq<char>
    decreases pieces.len(),
{
    if pieces.len() == 0 {
        Seq::<char>::empty()
    } else if pieces.len() == 1 {
        pieces[0]
    } else {
        join_with(pieces.drop_last(), sep).push(sep) + pieces.last()
    }
}

/// The number of pieces is one more than the number of separators, and it
/// is never zero.
pub proof fn lemma_split_len(s: Seq<char>, sep: char)
    ensures
        split_on(s, sep).len() >= 1,
        split_on(s, sep).len() <= s.len() + 1,
    decreases s.len(),
{
    if s.len() > 0 {
        lemma_split_len(s.drop_last(), sep);
    }
}

/// Splitting on a separator and joining the pieces with it gives the text
/// back, and no piece contains the separator.
pub proof fn lemma_split_join(s: Seq<char>, sep: char)
    ensures
        join_with(split_on(s, sep), sep) == s,
        forall|k: int, j: int|
            0 <= k < split_on(s, sep).len() && 0 <= j < split_on(s, sep)[k].len()
                ==> split_on(s, sep)[k][j] != sep,
    decreases s.len(),
{
    if s.len() > 0 {
        let t = s.drop_last();
        lemma_split_join(t, sep);
        lemma_split_len(t, sep);
        let rest = split_on(t, sep);
        if s.last() == sep {
            let r2 = rest.push(Seq::<char>::empty());
            assert(r2.drop_last() == rest);
            assert(join_with(r2, sep) == join_with(rest, sep).push(sep) + Seq::<char>::empty());
            assert(s == t.push(sep));
        } else {
            let r2 = rest.update(rest.len() - 1, rest.last().push(s.last()));
            if rest.len() == 1 {
                assert(join_with(r2, sep) == r2[0]);
                assert(rest[0] == t);
                assert(s =~= t.push(s.last()));
            } else {
                assert(r2.drop_last() == rest.drop_last());
                assert(join_with(r2, sep) == join_with(rest.drop_last(), sep).push(sep) + rest.last().push(s.last()));
                assert(join_with(rest, sep) == join_with(rest.drop_last(), sep).push(sep) + rest.last());
                assert(s =~= t.push(s.last()));
                assert(join_with(rest.drop_last(), sep).push(sep) + rest.last().push(s.last())
                    =~= (join_with(rest.drop_last(), sep).push(sep) + rest.last()).push(s.last()));
            }
            assert forall|k: int, j: int|
                0 <= k < r2.len() && 0 <= j < r2[k].len() implies r2[k][j] != sep by {
                if k == rest.len() - 1 {
                    if j < rest.last().len() {
                        assert(r2[k][j] == rest[k][j]);
                    }
                }
            }
        }
    }
}

/// The character sequences held by a vector of character vectors.
pub open spec fn views(v: Seq<Vec<char>>) -> Seq<Seq<char>> {
    v.map_values(|x: Vec<char>| x@)
}

/// Text that splits into two or more pieces holds the separator.
pub proof fn lemma_split_two_has_sep(s: Seq<char>, sep: char)
    ensures
        split_on(s, sep).len() >= 2 ==> exists|j: int| 0 <= j < s.len() && s[j] == sep,
    decreases s.len(),
{
    if s.len() > 0 {
        lemma_split_two_has_sep(s.drop_last(), sep);
        lemma_split_len(s.drop_last(), sep);
        if s.last() != sep && split_on(s, sep).len() >= 2 {
            assert(split_on(s.drop_last(), sep).len() == split_on(s, sep).len());
            let j = choose|j: int| 0 <= j < s.drop_last().len() && s.drop_last()[j] == sep;
            assert(s.drop_last()[j] == s[j]);
        } else if s.last() == sep {
            assert(s[s.len() - 1] == sep);
        }
    }
}

/// Splits a character slice on `sep`.
pub fn split(s: &[char], sep: char) -> (r: Vec<Vec<char>>)
    ensures
        views(r@) == split_on(s@, sep),
{
    let mut r: Vec<Vec<char>> = Vec::new();
    r.push(Vec::new());
    let mut i: usize = 0;
    assert(views(r@) =~= split_on(s@.take(0), sep));
    while i < s.len()
        invariant
            i <= s.len(),
            r.len() >= 1,
            views(r@) == split_on(s@.take(i as int), sep),
        decreases s.len() - i,
    {
        let ghost before = views(r@);
        assert(s@.take(i + 1).drop_last() == s@.take(i as int));
        if s[i] == sep {
            r.push(Vec::new());
            assert(views(r@) =~= before.push(Seq::<char>::empty()));
        } else {
            let mut piece = r.pop().unwrap();
            piece.push(s[i]);
            r.push(piece);
            assert(views(r@) =~= before.update(before.len() - 1, before.last().push(s@[i as int])));
        }
        i = i + 1;
    }
    assert(s@.take(s@.len() as int) == s@);
    r
}

/// Splits a string on spaces.
pub fn split_spaces(s: &str) -> (r: Vec<Vec<char>>)
    ensures
        views(r@) == split_on(s@, ' '),
{
    let v = chars_of(s);
    split(v.as_slice(), ' ')
}

// ---------------------------------------------------------------------
// Decimal numbers
// ---------------------------------------------------------------------

/// An ASCII decimal digit.
pub open spec fn is_digit(c: char) -> bool {
    48 <= (c as int) && (c as int) <= 57
}

/// Value of an ASCII decimal digit.
pub open spec fn digit_value(c: char) -> int {
    (c as int) - 48
}

/// The character of a digit value in `0..10`.
pub open spec fn digit_char(d: int) -> char {
    if d == 0 { '0' }
    else if d == 1 { '1' }
    else if d == 2 { '2' }
    else if d == 3 { '3' }
    else if d == 4 { '4' }
    else if d == 5 { '5' }
    else if d == 6 { '6' }
    else if d == 7 { '7' }
    else if d == 8 { '8' }
    else { '9' }
}

/// Every character is an ASCII digit.
pub open spec fn all_digits(s: Seq<char>) -> bool {
    forall|i: int| 0 <= i < s.len() ==> is_digit(#[trigger] s[i])
}

/// The value of a string of decimal digits.
pub open spec fn digits_value(s: Seq<char>) -> int
    decreases s.len(),
{
    if s.len() == 0 {
        0
    } else {
        digits_value(s.drop_last()) * 10 + digit_value(s.last())
    }
}

/// Decimal digits of a natural number, without leading zeros.
pub open spec fn decimal(n: nat) -> Seq<char>
    decreases n,
{
    if n < 10 {
        seq![digit_char(n as int)]
    } else {
        decimal(n / 10).push(digit_char((n % 10) as int))
    }
}

/// The decimal text of an integer, with a leading `-` when negative, as
/// `Display` writes it.
pub open spec fn int_text(i: int) -> Seq<char> {
    if i < 0 {
        seq!['-'] + decimal((-i) as nat)
    } else {
        decimal(i as nat)
    }
}

/// What `str::parse` gives for a primitive integer type whose values are
/// `lo..=hi`: an optional `+` (or, for signed types, `-`) followed by at
/// least one ASCII digit, and a value in range.
pub open spec fn parse_int(s: Seq<char>, lo: int, hi: int) -> Option<int> {
    if s.len() == 0 {
        None
    } else {
        let signed = lo < 0;
        let neg = s[0] == '-' && signed;
        let body = if s[0] == '+' || neg { s.drop_first() } else { s };
        if body.len() == 0 || !all_digits(body) {
            None
        } else {
            let v = if neg { -digits_value(body) } else { digits_value(body) };
            if lo <= v && v <= hi { Some(v) } else { None }
        }
    }
}

/// `str::parse::<i64>`.
pub open spec fn parse_i64_spec(s: Seq<char>) -> Option<int> {
    parse_int(s, i64::MIN as int, i64::MAX as int)
}

/// `str::parse::<i32>`.
pub open spec fn parse_i32_spec(s: Seq<char>) -> Option<int> {
    parse_int(s, i32::MIN as int, i32::MAX as int)
}

/// `str::parse::<usize>`.
pub open spec fn parse_usize_spec(s: Seq<char>) -> Option<int> {
    parse_int(s, 0, usize::MAX as int)
}

proof fn lemma_digits_value_nonneg(s: Seq<char>)
    requires
        all_digits(s),
    ensures
        digits_value(s) >= 0,
    decreases s.len(),
{
    if s.len() > 0 {
        lemma_digits_value_nonneg(s.drop_last());
    }
}

proof fn lemma_digits_value_prefix(s: Seq<char>, k: int)
    requires
        all_digits(s),
        0 <= k <= s.len(),
    ensures
        digits_value(s) >= digits_value(s.take(k)),
    decreases s.len() - k,
{
    if k < s.len() {
        lemma_digits_value_prefix(s, k + 1);
        let t = s.take(k + 1);
        assert(t.drop_last() == s.take(k));
        lemma_digits_value_nonneg(s.take(k));
        assert(is_digit(t.last()));
        let x = digits_value(s.take(k));
        assert(x * 10 >= x) by (nonlinear_arith) requires x >= 0;
        assert(digit_value(t.last()) >= 0);
        assert(digits_value(t) == x * 10 + digit_value(t.last()));
        assert(digits_value(t) >= x);
        assert(s.take(k + 1) == t);
    } else {
        assert(s.take(k) == s);
    }
}

proof fn lemma_digit_char(d: int)
    requires
        0 <= d < 10,
    ensures
        is_digit(digit_char(d)),
        digit_value(digit_char(d)) == d,
{
}

proof fn lemma_decimal_digits(n: nat)
    ensures
        all_digits(decimal(n)),
        digits_value(decimal(n)) == n,
        decimal(n).len() >= 1,
        decimal(n)[0] != '+' && decimal(n)[0] != '-',
    decreases n,
{
    lemma_digit_char((n % 10) as int);
    if n >= 10 {
        lemma_decimal_digits(n / 10);
        let d = decimal(n / 10).push(digit_char((n % 10) as int));
        assert(d.drop_last() == decimal(n / 10));
        assert(d[0] == decimal(n / 10)[0]);
        assert(all_digits(d));
        assert(digits_value(d) == (n / 10) as int * 10 + (n % 10) as int);
        assert(n as int == (n / 10) as int * 10 + (n % 10) as int);
    } else {
        let d = decimal(n);
        assert(d.drop_last() =~= Seq::<char>::empty());
        assert(digits_value(d.drop_last()) == 0);
        assert(d.last() == digit_char(n as int));
        assert(digits_value(d) == n);
    }
}

/// Decimal text of an integer, parsed back as that integer's type, gives
/// the integer again.
pub proof fn lemma_parse_int_text(i: int, lo: int, hi: int)
    requires
        lo <= i <= hi,
    ensures
        lo < 0 ==> parse_int(int_text(i), lo, hi) == Some(i),
        lo >= 0 ==> (i >= 0 ==> parse_int(int_text(i), lo, hi) == Some(i)),
{
    if i < 0 {
        lemma_decimal_digits((-i) as nat);
        let t = int_text(i);
        assert(t.drop_first() == decimal((-i) as nat));
    } else {
        lemma_decimal_digits(i as nat);
    }
}

/// Text with a space in it is no number.
pub proof fn lemma_spaced_text_is_no_number(s: Seq<char>, lo: int, hi: int)
    requires
        exists|j: int| 0 <= j < s.len() && s[j] == ' ',
    ensures
        parse_int(s, lo, hi) is None,
{
    let j = choose|j: int| 0 <= j < s.len() && s[j] == ' ';
    let neg = s[0] == '-' && lo < 0;
    if s[0] == '+' || neg {
        assert(j > 0);
        assert(s.drop_first()[j - 1] == ' ');
        assert(!is_digit(s.drop_first()[j - 1]));
    } else {
        assert(!is_digit(s[j]));
    }
}

fn digit_to_char(d: u64) -> (c: char)
    requires
        d < 10,
    ensures
        c == digit_char(d as int),
{
    if d == 0 { '0' }
    else if d == 1 { '1' }
    else if d == 2 { '2' }
    else if d == 3 { '3' }
    else if d == 4 { '4' }
    else if d == 5 { '5' }
    else if d == 6 { '6' }
    else if d == 7 { '7' }
    else if d == 8 { '8' }
    else { '9' }
}

/// Appends the decimal digits of `n`.
pub fn push_decimal(v: &mut Vec<char>, n: u64)
    ensures
        final(v)@ == old(v)@ + decimal(n as nat),
    decreases n,
{
    if n >= 10 {
        push_decimal(v, n / 10);
    }
    let c = digit_to_char(n % 10);
    let ghost mid = v@;
    v.push(c);
    proof {
        if n >= 10 {
            assert(decimal(n as nat) == decimal((n / 10) as nat).push(digit_char((n % 10) as int)));
        }
    }
    assert(v@ =~= old(v)@ + decimal(n as nat));
}

/// Appends the decimal text of `n`.
pub fn push_int(v: &mut Vec<char>, n: i64)
    ensures
        final(v)@ == old(v)@ + int_text(n as int),
{
    if n < 0 {
        v.push('-');
        let m: u64 = if n == i64::MIN { 9223372036854775808u64 } else { (-n) as u64 };
        let ghost mid = v@;
        push_decimal(v, m);
        assert(v@ =~= old(v)@ + int_text(n as int));
    } else {
        push_decimal(v, n as u64);
    }
}

/// Decimal text of `n`.
pub fn int_to_text(n: i64) -> (s: Vec<char>)
    ensures
        s@ == int_text(n as int),
{
    let mut v: Vec<char> = Vec::new();
    push_int(&mut v, n);
    assert(v@ =~= int_text(n as int));
    v
}

/// Whether `c` is an ASCII digit.
pub fn is_digit_char(c: char) -> (r: bool)
    ensures
        r == is_digit(c),
{
    let u: u32 = c as u32;
    48 <= u && u <= 57
}

/// Value of an ASCII digit character.
fn digit_of(c: char) -> (d: u32)
    requires
        is_digit(c),
    ensures
        d as int == digit_value(c),
        d < 10,
{
    (c as u32) - 48
}

/// How `str::parse` reads the digits after the sign, left to right: the
/// value, or the first failure, a non-digit (`Err(true)`) or a value above
/// `limit` (`Err(false)`).
pub open spec fn scan_digits(body: Seq<char>, i: int, acc: int, limit: int) -> Result<int, bool>
    decreases body.len() - i,
{
    if i < 0 || i >= body.len() {
        Ok(acc)
    } else if !is_digit(body[i]) {
        Err(true)
    } else if acc * 10 + digit_value(body[i]) > limit {
        Err(false)
    } else {
        scan_digits(body, i + 1, acc * 10 + digit_value(body[i]), limit)
    }
}

/// Why `str::parse` refuses a text (`std::num::IntErrorKind`).
pub enum IntErrorKind {
    Empty,
    InvalidDigit,
    PosOverflow,
    NegOverflow,
}

impl IntErrorKind {
    /// The error's text, as `ParseIntError` displays it.
    pub fn text(&self) -> (r: String)
        ensures
            r@ == int_error_text(*self),
    {
        match self {
            IntErrorKind::Empty => String::from_str("cannot parse integer from empty string"),
            IntErrorKind::InvalidDigit => String::from_str("invalid digit found in string"),
            IntErrorKind::PosOverflow => String::from_str("number too large to fit in target type"),
            IntErrorKind::NegOverflow => String::from_str("number too small to fit in target type"),
        }
    }
}

/// The text of a parse error.
pub open spec fn int_error_text(k: IntErrorKind) -> Seq<char> {
    match k {
        IntErrorKind::Empty => "cannot parse integer from empty string"@,
        IntErrorKind::InvalidDigit => "invalid digit found in string"@,
        IntErrorKind::PosOverflow => "number too large to fit in target type"@,
        IntErrorKind::NegOverflow => "number too small to fit in target type"@,
    }
}

/// Why `str::parse` refuses `s` for a type whose values are `lo..=hi`.
pub open spec fn parse_error_kind(s: Seq<char>, lo: int, hi: int) -> IntErrorKind {
    if s.len() == 0 {
        IntErrorKind::Empty
    } else {
        let neg = s[0] == '-' && lo < 0;
        let body = if s[0] == '+' || neg { s.drop_first() } else { s };
        if body.len() == 0 {
            IntErrorKind::InvalidDigit
        } else {
            match scan_digits(body, 0, 0, if neg { -lo } else { hi }) {
                Err(false) => if neg { IntErrorKind::NegOverflow } else { IntErrorKind::PosOverflow },
                _ => IntErrorKind::InvalidDigit,
            }
        }
    }
}

/// Parses decimal digits (with the sign already removed) into a magnitude
/// of at most `limit`.
fn parse_magnitude(s: &[char], start: usize, limit: u64) -> (r: Result<u64, bool>)
    requires
        start <= s.len(),
    ensures
        match r {
            Ok(m) => all_digits(s@.skip(start as int)) && digits_value(s@.skip(start as int)) == m
                && m <= limit,
            Err(_) => !all_digits(s@.skip(start as int)) || digits_value(s@.skip(start as int)) > limit,
        },
        match r {
            Ok(m) => scan_digits(s@.skip(start as int), 0, 0, limit as int) == Ok::<int, bool>(m as int),
            Err(b) => scan_digits(s@.skip(start as int), 0, 0, limit as int) == Err::<int, bool>(b),
        },
{
    let ghost body = s@.skip(start as int);
    let mut acc: u64 = 0;
    let mut i: usize = start;
    while i < s.len()
        invariant
            start <= i <= s.len(),
            body == s@.skip(start as int),
            all_digits(body.take(i - start)),
            digits_value(body.take(i - start)) == acc,
            acc <= limit,
            scan_digits(body, 0, 0, limit as int) == scan_digits(body, i - start, acc as int, limit as int),
        decreases s.len() - i,
    {
        let c = s[i];
        let ghost k = (i - start) as int;
        assert(body[k] == c);
        if !is_digit_char(c) {
            assert(!is_digit(body[k]));
            return Err(true);
        }
        let d = digit_of(c);
        assert(body.take(k + 1).drop_last() == body.take(k));
        if limit < d as u64 {
            proof {
                let x = acc as int;
                assert(x * 10 >= 0) by (nonlinear_arith) requires x >= 0;
                if all_digits(body) {
                    lemma_digits_value_prefix(body, k + 1);
                    lemma_digits_value_nonneg(body.take(k));
                }
            }
            return Err(false);
        }
        if acc > (limit - d as u64) / 10 {
            assert(acc * 10 + d > limit) by (nonlinear_arith)
                requires acc > (limit - d) / 10, d < 10, limit >= d;
            proof {
                if all_digits(body) {
                    lemma_digits_value_prefix(body, k + 1);
                    assert(digits_value(body.take(k + 1)) == acc * 10 + d);
                }
            }
            return Err(false);
        }
        assert(acc * 10 + d <= limit) by (nonlinear_arith)
            requires acc <= (limit - d) / 10, d < 10, limit >= d;
        acc = acc * 10 + d as u64;
        assert(all_digits(body.take(k + 1)));
        i = i + 1;
    }
    assert(body.take(s.len() - start) == body);
    Ok(acc)
}

/// `str::parse::<i64>` on the characters of `s`.
pub fn parse_i64(s: &[char]) -> (r: Result<i64, IntErrorKind>)
    ensures
        match r {
            Ok(v) => parse_i64_spec(s@) == Some(v as int),
            Err(k) => parse_i64_spec(s@) is None && k == parse_error_kind(s@, i64::MIN as int, i64::MAX as int),
        },
{
    if s.len() == 0 {
        return Err(IntErrorKind::Empty);
    }
    let neg = s[0] == '-';
    let start: usize = if s[0] == '+' || neg { 1 } else { 0 };
    assert(s@.skip(start as int) == (if s@[0] == '+' || neg { s@.drop_first() } else { s@ }));
    if start == 1 && s.len() == 1 {
        return Err(IntErrorKind::InvalidDigit);
    }
    let limit: u64 = if neg { 9223372036854775808u64 } else { 9223372036854775807u64 };
    match parse_magnitude(s, start, limit) {
        Err(true) => Err(IntErrorKind::InvalidDigit),
        Err(false) => if neg { Err(IntErrorKind::NegOverflow) } else { Err(IntErrorKind::PosOverflow) },
        Ok(m) => {
            if neg {
                if m == 9223372036854775808u64 {
                    Ok(i64::MIN)
                } else {
                    Ok(-(m as i64))
                }
            } else {
                Ok(m as i64)
            }
        },
    }
}

/// `str::parse::<i32>` on the characters of `s`.
pub fn parse_i32(s: &[char]) -> (r: Result<i32, IntErrorKind>)
    ensures
        match r {
            Ok(v) => parse_i32_spec(s@) == Some(v as int),
            Err(k) => parse_i32_spec(s@) is None && k == parse_error_kind(s@, i32::MIN as int, i32::MAX as int),
        },
{
    if s.len() == 0 {
        return Err(IntErrorKind::Empty);
    }
    let neg = s[0] == '-';
    let start: usize = if s[0] == '+' || neg { 1 } else { 0 };
    assert(s@.skip(start as int) == (if s@[0] == '+' || neg { s@.drop_first() } else { s@ }));
    if start == 1 && s.len() == 1 {
        return Err(IntErrorKind::InvalidDigit);
    }
    let limit: u64 = if neg { 2147483648u64 } else { 2147483647u64 };
    match parse_magnitude(s, start, limit) {
        Err(true) => Err(IntErrorKind::InvalidDigit),
        Err(false) => if neg { Err(IntErrorKind::NegOverflow) } else { Err(IntErrorKind::PosOverflow) },
        Ok(m) => {
            if neg {
                Ok((-(m as i64)) as i32)
            } else {
                Ok(m as i32)
            }
        },
    }
}

/// `str::parse::<usize>` on the characters of `s`.
pub fn parse_usize(s: &[char]) -> (r: Result<usize, IntErrorKind>)
    ensures
        match r {
            Ok(v) => parse_usize_spec(s@) == Some(v as int),
            Err(k) => parse_usize_spec(s@) is None && k == parse_error_kind(s@, 0, usize::MAX as int),
        },
{
    if s.len() == 0 {
        return Err(IntErrorKind::Empty);
    }
    let start: usize = if s[0] == '+' { 1 } else { 0 };
    assert(s@.skip(start as int) == (if s@[0] == '+' { s@.drop_first() } else { s@ }));
    if start == 1 && s.len() == 1 {
        return Err(IntErrorKind::InvalidDigit);
    }
    match parse_magnitude(s, start, usize::MAX as u64) {
        Err(true) => Err(IntErrorKind::InvalidDigit),
        Err(false) => Err(IntErrorKind::PosOverflow),
        Ok(m) => Ok(m as usize),
    }
}

// ---------------------------------------------------------------------
// Trimming
// ---------------------------------------------------------------------

/// `s` without its last character when that character is in `set`
/// (`strip_suffix` with a character set).
pub open spec fn strip_char_suffix(s: Seq<char>, set: Seq<char>) -> Seq<char> {
    if s.len() > 0 && set.contains(s.last()) { s.drop_last() } else { s }
}

/// `s` without the suffix `p` when it ends with it.
pub open spec fn strip_suffix_or_keep(s: Seq<char>, p: Seq<char>) -> Seq<char> {
    if has_suffix(s, p) { s.take(s.len() - p.len()) } else { s }
}

/// Length of what `trim_end_matches` leaves of `s` when it trims the
/// characters of `set`.
pub open spec fn trimmed_len(s: Seq<char>, set: Seq<char>) -> int
    decreases s.len(),
{
    if s.len() > 0 && set.contains(s.last()) { trimmed_len(s.drop_last(), set) } else { s.len() as int }
}

/// Position of the first character of `s` that is in `set`.
pub open spec fn first_in(s: Seq<char>, set: Seq<char>, i: int) -> bool {
    0 <= i < s.len() && set.contains(s[i]) && forall|j: int| 0 <= j < i ==> !set.contains(#[trigger] s[j])
}

/// Length of `s` once `strip_suffix` removes a last character in `set`.
pub fn strip_char_suffix_len(s: &[char], len: usize, set: &str) -> (r: usize)
    requires
        len <= s.len(),
    ensures
        s@.take(r as int) == strip_char_suffix(s@.take(len as int), set@),
        r <= len,
{
    let sv = chars_of(set);
    if len > 0 && char_in(s[len - 1], sv.as_slice()) {
        assert(s@.take(len as int).drop_last() =~= s@.take(len - 1));
        len - 1
    } else {
        len
    }
}

/// Length of `s` once `strip_suffix` removes the suffix `p`.
pub fn strip_suffix_len(s: &[char], len: usize, p: &str) -> (r: usize)
    requires
        len <= s.len(),
    ensures
        s@.take(r as int) == strip_suffix_or_keep(s@.take(len as int), p@),
        r <= len,
{
    let t = slice_to_vec(s, 0, len);
    assert(t@ =~= s@.take(len as int));
    if ends_with(t.as_slice(), p) {
        let pl = chars_of(p).len();
        assert(s@.take(len - pl) =~= s@.take(len as int).take(len - pl));
        len - pl
    } else {
        len
    }
}

/// Length of `s` once `trim_end_matches` removes the characters of `set`.
pub fn trim_end_len(s: &[char], len: usize, set: &str) -> (r: usize)
    requires
        len <= s.len(),
    ensures
        r as int == trimmed_len(s@.take(len as int), set@),
        r <= len,
{
    let sv = chars_of(set);
    let mut n: usize = len;
    while n > 0 && char_in(s[n - 1], sv.as_slice())
        invariant
            n <= len <= s.len(),
            sv@ == set@,
            trimmed_len(s@.take(len as int), set@) == trimmed_len(s@.take(n as int), set@),
        decreases n,
    {
        assert(s@.take(n as int).drop_last() =~= s@.take(n - 1));
        n = n - 1;
    }
    n
}

/// Position of the first character of `s` that is in `set`.
pub fn find_any(s: &[char], set: &str) -> (r: Option<usize>)
    ensures
        match r {
            Some(i) => first_in(s@, set@, i as int),
            None => !contains_any(s@, set@),
        },
{
    let sv = chars_of(set);
    let mut i: usize = 0;
    while i < s.len()
        invariant
            i <= s.len(),
            sv@ == set@,
            forall|j: int| 0 <= j < i ==> !set@.contains(#[trigger] s@[j]),
        decreases s.len() - i,
    {
        if char_in(s[i], sv.as_slice()) {
            return Some(i);
        }
        i = i + 1;
    }
    None
}

/// Number of bytes of the UTF-8 encoding of a character.
pub open spec fn utf8_width(c: char) -> int {
    if (c as int) < 0x80 { 1 } else if (c as int) < 0x800 { 2 } else if (c as int) < 0x10000 { 3 } else { 4 }
}

/// Number of bytes of the UTF-8 encoding of a text (`str::len`).
pub open spec fn utf8_len(s: Seq<char>) -> int
    decreases s.len(),
{
    if s.len() == 0 { 0 } else { utf8_len(s.drop_last()) + utf8_width(s.last()) }
}

/// Number of bytes of the UTF-8 encoding of `c` (`char::len_utf8`).
pub fn utf8_width_of(c: char) -> (w: usize)
    ensures
        w as int == utf8_width(c),
{
    let u: u32 = c as u32;
    if u < 0x80 {
        1
    } else if u < 0x800 {
        2
    } else if u < 0x10000 {
        3
    } else {
        4
    }
}

/// Whether the UTF-8 encoding of `s` is longer than `limit` bytes.
pub fn utf8_longer_than(s: &[char], limit: usize) -> (r: bool)
    ensures
        r == (utf8_len(s@) > limit),
{
    let mut n: usize = 0;
    let mut i: usize = 0;
    while i < s.len()
        invariant
            i <= s.len(),
            n <= limit,
            n as int == utf8_len(s@.take(i as int)),
        decreases s.len() - i,
    {
        let w: usize = utf8_width_of(s[i]);
        assert(s@.take(i + 1).drop_last() =~= s@.take(i as int));
        assert(s@.take(i + 1).last() == s@[i as int]);
        if w > limit - n {
            proof {
                lemma_utf8_len_prefix(s@, i + 1);
            }
            return true;
        }
        n = n + w;
        i = i + 1;
    }
    assert(s@.take(s.len() as int) =~= s@);
    false
}

proof fn lemma_utf8_len_prefix(s: Seq<char>, k: int)
    requires
        0 <= k <= s.len(),
    ensures
        utf8_len(s) >= utf8_len(s.take(k)),
    decreases s.len() - k,
{
    if k < s.len() {
        lemma_utf8_len_prefix(s, k + 1);
        assert(s.take(k + 1).drop_last() =~= s.take(k));
    } else {
        assert(s.take(k) =~= s);
    }
}

} // verus!
