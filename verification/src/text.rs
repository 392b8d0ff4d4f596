//! Character-level text utilities shared by the formatters, the filter parser
//! and the template engine.
//!
//! Strings are modelled by their view, a `Seq<char>`; every helper here states
//! its result over that view.
use vstd::prelude::*;
use vstd::string::*;

verus! {

// ---------------------------------------------------------------------------
// Specifications
// ---------------------------------------------------------------------------

/// The ASCII digit for a value below ten.
pub open spec fn digit_char(d: nat) -> char {
    if d == 0 { '0' }
    else if d == 1 { '1' }
    else if d == 2 { '2' }
    else if d == 3 { '3' }
    else if d == 4 { '4' }
    else if d == 5 { '5' }
    else if d == 6 { '6' }
    else if d == 7 { '7' }
    else if d == 8 { '8' }
    else { '9' }
}

/// Decimal notation of a natural number, without leading zeros.
pub open spec fn dec(n: nat) -> Seq<char>
    decreases n,
{
    if n < 10 {
        seq![digit_char(n)]
    } else {
        dec(n / 10).push(digit_char(n % 10))
    }
}

/// Decimal notation of an integer, with a leading `-` when negative
/// (what `to_string` gives for Rust integers).
pub open spec fn int_text(n: int) -> Seq<char> {
    if n < 0 {
        seq!['-'] + dec((-n) as nat)
    } else {
        dec(n as nat)
    }
}

/// The views of a sequence of strings.
pub open spec fn views(xs: Seq<String>) -> Seq<Seq<char>> {
    xs.map_values(|s: String| s@)
}

/// The elements of `parts` joined with `sep` between consecutive elements.
pub open spec fn join(parts: Seq<Seq<char>>, sep: Seq<char>) -> Seq<char>
    decreases parts.len(),
{
    if parts.len() == 0 {
        Seq::empty()
    } else if parts.len() == 1 {
        parts[0]
    } else {
        join(parts.drop_last(), sep) + sep + parts.last()
    }
}

/// A character with the Unicode `White_Space` property (`char::is_whitespace`).
pub open spec fn is_ws(c: char) -> bool {
    ||| c == '\t'
    ||| c == '\n'
    ||| c == '\u{0B}'
    ||| c == '\u{0C}'
    ||| c == '\r'
    ||| c == ' '
    ||| c == '\u{85}'
    ||| c == '\u{A0}'
    ||| c == '\u{1680}'
    ||| ('\u{2000}' <= c && c <= '\u{200A}')
    ||| c == '\u{2028}'
    ||| c == '\u{2029}'
    ||| c == '\u{202F}'
    ||| c == '\u{205F}'
    ||| c == '\u{3000}'
}

/// `s` without its leading white space.
pub open spec fn trim_start(s: Seq<char>) -> Seq<char>
    decreases s.len(),
{
    if s.len() > 0 && is_ws(s[0]) {
        trim_start(s.drop_first())
    } else {
        s
    }
}

/// `s` without its trailing white space.
pub open spec fn trim_end(s: Seq<char>) -> Seq<char>
    decreases s.len(),
{
    if s.len() > 0 && is_ws(s.last()) {
        trim_end(s.drop_last())
    } else {
        s
    }
}

/// `s` without leading and trailing white space (`str::trim`).
pub open spec fn trim(s: Seq<char>) -> Seq<char> {
    trim_end(trim_start(s))
}

/// `needle` occurs in `hay` at position `i`.
pub open spec fn occurs_at(hay: Seq<char>, needle: Seq<char>, i: int) -> bool {
    0 <= i && i + needle.len() <= hay.len() && hay.subrange(i, i + needle.len()) == needle
}

/// `needle` occurs somewhere in `hay` (`str::contains`).
pub open spec fn contains(hay: Seq<char>, needle: Seq<char>) -> bool {
    exists|i: int| occurs_at(hay, needle, i)
}

/// The first position at which `needle` occurs in `hay` (`str::find`), counted in
/// characters.
#[verifier::opaque]
pub open spec fn find(hay: Seq<char>, needle: Seq<char>) -> Option<int> {
    if contains(hay, needle) {
        Some(choose|i: int| occurs_at(hay, needle, i) && forall|j: int| 0 <= j < i ==> !occurs_at(hay, needle, j))
    } else {
        None
    }
}

/// `s` starts with `p`.
pub open spec fn starts_with(s: Seq<char>, p: Seq<char>) -> bool {
    p.len() <= s.len() && s.subrange(0, p.len() as int) == p
}

/// `s` ends with `p`.
pub open spec fn ends_with(s: Seq<char>, p: Seq<char>) -> bool {
    p.len() <= s.len() && s.subrange(s.len() - p.len(), s.len() as int) == p
}

/// The pieces of `s` between occurrences of `c` (`str::split` on a character):
/// there is always one more piece than there are occurrences.
pub open spec fn split_char(s: Seq<char>, c: char) -> Seq<Seq<char>>
    decreases s.len(),
{
    if s.len() == 0 {
        seq![Seq::empty()]
    } else {
        let rest = split_char(s.drop_last(), c);
        if s.last() == c {
            rest.push(Seq::empty())
        } else {
            rest.update(rest.len() - 1, rest.last().push(s.last()))
        }
    }
}

/// Value of a string of ASCII digits.
pub open spec fn digits_value(s: Seq<char>) -> nat
    decreases s.len(),
{
    if s.len() == 0 {
        0
    } else {
        digits_value(s.drop_last()) * 10 + ((s.last() as int - '0' as int) as nat)
    }
}

/// Every character of `s` is an ASCII digit.
pub open spec fn all_digits(s: Seq<char>) -> bool {
    forall|i: int| 0 <= i < s.len() ==> '0' <= #[trigger] s[i] && s[i] <= '9'
}

/// The digits that `str::parse::<usize>` reads: an optional leading `+`
/// followed by the digits themselves.
pub open spec fn unsigned_digits(s: Seq<char>) -> Seq<char> {
    if s.len() > 0 && s[0] == '+' { s.drop_first() } else { s }
}

/// What `str::parse::<usize>` gives: `Some(n)` for an optional `+` followed by at
/// least one ASCII digit whose value fits in `usize`, `None` otherwise.
pub open spec fn parse_usize(s: Seq<char>) -> Option<nat> {
    let d = unsigned_digits(s);
    if d.len() > 0 && all_digits(d) && digits_value(d) <= usize::MAX {
        Some(digits_value(d))
    } else {
        None
    }
}

/// The lower-case form that `str::to_lowercase` gives for a string.
pub uninterp spec fn lowercase(s: Seq<char>) -> Seq<char>;

/// Every character of `s` is ASCII and not an upper-case letter.
pub open spec fn is_lower_ascii(s: Seq<char>) -> bool {
    forall|i: int| 0 <= i < s.len() ==> (#[trigger] s[i] as u32) < 128 && !('A' <= s[i] && s[i] <= 'Z')
}

// ---------------------------------------------------------------------------
// Building strings
// ---------------------------------------------------------------------------

/// Appends one character to a `String` (`String::push`).
#[verifier::external_body]
pub(crate) fn push_char(s: &mut String, c: char)
    ensures
        final(s)@ == old(s)@.push(c),
{
    s.push(c);
}

/// Appends a string slice to a `String`.
pub fn push_str(s: &mut String, t: &str)
    ensures
        final(s)@ == old(s)@ + t@,
{
    s.append(t);
}

/// A new `String` holding the characters of `s`.
pub fn owned(s: &str) -> (r: String)
    ensures
        r@ == s@,
{
    s.to_owned()
}

/// The lower-case form of `s` (`str::to_lowercase`).
///
/// Claims: the result is what `lowercase` names for the input, and a string of
/// ASCII characters without upper-case letters is left as it is.
#[verifier::external_body]
pub(crate) fn to_lowercase(s: &str) -> (r: String)
    ensures
        r@ == lowercase(s@),
        is_lower_ascii(s@) ==> r@ == s@,
{
    s.to_lowercase()
}

/// The characters of a string slice, in order.
pub fn chars_of(s: &str) -> (v: Vec<char>)
    ensures
        v@ == s@,
{
    let mut v: Vec<char> = Vec::new();
    for c in it: s.chars()
        invariant
            it.seq() == s@,
            v@ == it.seq().take(it.index() as int),
    {
        v.push(c);
    }
    v
}

/// A `String` made of the characters `v[from..to]`.
pub fn string_of_range(v: &Vec<char>, from: usize, to: usize) -> (r: String)
    requires
        from <= to <= v.len(),
    ensures
        r@ == v@.subrange(from as int, to as int),
{
    let mut r = String::new();
    let mut i = from;
    while i < to
        invariant
            from <= i <= to <= v.len(),
            r@ == v@.subrange(from as int, i as int),
        decreases to - i,
    {
        push_char(&mut r, v[i]);
        i = i + 1;
    }
    r
}

/// A `String` made of all the characters of `v`.
pub fn string_of(v: &Vec<char>) -> (r: String)
    ensures
        r@ == v@,
{
    let r = string_of_range(v, 0, v.len());
    assert(v@.subrange(0, v@.len() as int) =~= v@);
    r
}

/// Appends the decimal notation of `n` to `out`.
pub fn push_nat(out: &mut String, n: u64)
    ensures
        final(out)@ == old(out)@ + dec(n as nat),
    decreases n,
{
    if n >= 10 {
        push_nat(out, n / 10);
    }
    let d = n % 10;
    let c = if d == 0 { '0' } else if d == 1 { '1' } else if d == 2 { '2' } else if d == 3 {
        '3'
    } else if d == 4 { '4' } else if d == 5 { '5' } else if d == 6 { '6' } else if d == 7 {
        '7'
    } else if d == 8 { '8' } else { '9' };
    push_char(out, c);
    proof {
        if n >= 10 {
            assert(dec(n as nat) == dec((n / 10) as nat).push(digit_char((n % 10) as nat)));
        }
    }
}

/// Appends the decimal notation of `n` (with `-` when negative) to `out`.
pub fn push_int(out: &mut String, n: i64)
    ensures
        final(out)@ == old(out)@ + int_text(n as int),
{
    if n < 0 {
        push_char(out, '-');
        let m: u64 = if n == i64::MIN { 9223372036854775808u64 } else { (-n) as u64 };
        push_nat(out, m);
        assert(old(out)@.push('-') + dec(m as nat) =~= old(out)@ + (seq!['-'] + dec(m as nat)));
    } else {
        push_nat(out, n as u64);
    }
}

/// Decimal notation of an unsigned integer (`u64::to_string`).
pub fn nat_text(n: u64) -> (r: String)
    ensures
        r@ == dec(n as nat),
{
    let mut r = String::new();
    push_nat(&mut r, n);
    assert(Seq::<char>::empty() + dec(n as nat) =~= dec(n as nat));
    r
}

/// Decimal notation of a signed integer (`i64::to_string`).
pub fn int_to_text(n: i64) -> (r: String)
    ensures
        r@ == int_text(n as int),
{
    let mut r = String::new();
    push_int(&mut r, n);
    assert(Seq::<char>::empty() + int_text(n as int) =~= int_text(n as int));
    r
}

/// Appends the elements of `parts` to `out`, separated by `sep`.
pub fn push_joined(out: &mut String, parts: &[String], sep: &str)
    ensures
        final(out)@ == old(out)@ + join(views(parts@), sep@),
{
    let ghost vs = views(parts@);
    let ghost start = out@;
    let mut i: usize = 0;
    while i < parts.len()
        invariant
            0 <= i <= parts.len(),
            vs == views(parts@),
            out@ == start + join(vs.take(i as int), sep@),
        decreases parts.len() - i,
    {
        let ghost before = out@;
        if i > 0 {
            push_str(out, sep);
        }
        push_str(out, parts[i].as_str());
        proof {
            let t = vs.take(i as int + 1);
            assert(t.drop_last() =~= vs.take(i as int));
            assert(t.last() == parts@[i as int]@);
            if i == 0 {
                assert(t.len() == 1);
                assert(join(vs.take(0), sep@) =~= Seq::<char>::empty());
                assert(out@ =~= start + join(t, sep@));
            } else {
                assert(out@ =~= start + join(t, sep@));
            }
        }
        i = i + 1;
    }
    assert(vs.take(parts.len() as int) =~= vs);
}

/// The elements of `parts` joined with `sep` (`[String]::join`).
pub fn joined(parts: &[String], sep: &str) -> (r: String)
    ensures
        r@ == join(views(parts@), sep@),
{
    let mut r = String::new();
    push_joined(&mut r, parts, sep);
    assert(Seq::<char>::empty() + join(views(parts@), sep@) =~= join(
        views(parts@),
        sep@,
    ));
    r
}

// ---------------------------------------------------------------------------
// Inspecting strings
// ---------------------------------------------------------------------------

/// `c` has the Unicode `White_Space` property.
pub fn char_is_ws(c: char) -> (r: bool)
    ensures
        r == is_ws(c),
{
    c == '\t' || c == '\n' || c == '\u{0B}' || c == '\u{0C}' || c == '\r' || c == ' ' || c
        == '\u{85}' || c == '\u{A0}' || c == '\u{1680}' || ('\u{2000}' <= c && c <= '\u{200A}')
        || c == '\u{2028}' || c == '\u{2029}' || c == '\u{202F}' || c == '\u{205F}' || c
        == '\u{3000}'
}

proof fn lemma_trim_start_skip(s: Seq<char>, k: int)
    requires
        0 <= k <= s.len(),
        forall|j: int| 0 <= j < k ==> is_ws(#[trigger] s[j]),
    ensures
        trim_start(s) == trim_start(s.subrange(k, s.len() as int)),
    decreases k,
{
    if k > 0 {
        assert(s.drop_first().subrange(k - 1, s.drop_first().len() as int) =~= s.subrange(
            k,
            s.len() as int,
        ));
        lemma_trim_start_skip(s.drop_first(), k - 1);
    } else {
        assert(s.subrange(0, s.len() as int) =~= s);
    }
}

proof fn lemma_trim_end_skip(s: Seq<char>, k: int)
    requires
        0 <= k <= s.len(),
        forall|j: int| k <= j < s.len() ==> is_ws(#[trigger] s[j]),
    ensures
        trim_end(s) == trim_end(s.subrange(0, k)),
    decreases s.len() - k,
{
    if k < s.len() {
        assert(s.drop_last().subrange(0, k) =~= s.subrange(0, k));
        lemma_trim_end_skip(s.drop_last(), k);
    } else {
        assert(s.subrange(0, s.len() as int) =~= s);
    }
}

/// The positions `[lo, hi)` of `v` that remain after trimming white space.
pub fn trim_bounds(v: &Vec<char>, from: usize, to: usize) -> (r: (usize, usize))
    requires
        from <= to <= v.len(),
    ensures
        from <= r.0 <= r.1 <= to,
        v@.subrange(r.0 as int, r.1 as int) == trim(v@.subrange(from as int, to as int)),
{
    let ghost s = v@.subrange(from as int, to as int);
    let mut lo = from;
    while lo < to && char_is_ws(v[lo])
        invariant
            from <= lo <= to <= v.len(),
            s == v@.subrange(from as int, to as int),
            forall|j: int| from <= j < lo ==> is_ws(#[trigger] v@[j]),
        decreases to - lo,
    {
        lo = lo + 1;
    }
    proof {
        assert forall|j: int| 0 <= j < lo - from implies is_ws(#[trigger] s[j]) by {
            assert(s[j] == v@[from + j]);
        }
        lemma_trim_start_skip(s, lo - from);
        assert(s.subrange(lo - from, s.len() as int) =~= v@.subrange(lo as int, to as int));
        let ts = v@.subrange(lo as int, to as int);
        if lo < to {
            assert(!is_ws(ts[0]));
        }
        assert(trim_start(ts) == ts);
    }
    let mut hi = to;
    while hi > lo && char_is_ws(v[hi - 1])
        invariant
            from <= lo <= hi <= to <= v.len(),
            forall|j: int| hi <= j < to ==> is_ws(#[trigger] v@[j]),
        decreases hi,
    {
        hi = hi - 1;
    }
    proof {
        let ts = v@.subrange(lo as int, to as int);
        assert forall|j: int| hi - lo <= j < ts.len() implies is_ws(#[trigger] ts[j]) by {
            assert(ts[j] == v@[lo + j]);
        }
        lemma_trim_end_skip(ts, hi - lo);
        assert(ts.subrange(0, hi - lo) =~= v@.subrange(lo as int, hi as int));
        let te = v@.subrange(lo as int, hi as int);
        if hi > lo {
            assert(!is_ws(te.last()));
        }
        assert(trim_end(te) == te);
    }
    (lo, hi)
}

/// `s` with leading and trailing white space removed (`str::trim`).
pub fn trimmed(s: &str) -> (r: String)
    ensures
        r@ == trim(s@),
{
    let v = chars_of(s);
    let (lo, hi) = trim_bounds(&v, 0, v.len());
    assert(v@.subrange(0, v@.len() as int) =~= v@);
    string_of_range(&v, lo, hi)
}

/// `needle` occurs in `hay` at `i` (executable check).
pub fn occurs_at_exec(hay: &Vec<char>, needle: &Vec<char>, i: usize) -> (r: bool)
    ensures
        r == occurs_at(hay@, needle@, i as int),
{
    if i > hay.len() || needle.len() > hay.len() - i {
        return false;
    }
    let mut k: usize = 0;
    while k < needle.len()
        invariant
            i + needle.len() <= hay.len(),
            0 <= k <= needle.len(),
            forall|j: int| 0 <= j < k ==> hay@[i + j] == needle@[j],
        decreases needle.len() - k,
    {
        if hay[i + k] != needle[k] {
            assert(hay@.subrange(i as int, i + needle.len())[k as int] != needle@[k as int]);
            return false;
        }
        k = k + 1;
    }
    assert(hay@.subrange(i as int, i + needle.len()) =~= needle@);
    true
}

/// The first position of `needle` in `hay`, if any (`str::find`).
pub fn find_in(hay: &Vec<char>, needle: &Vec<char>) -> (r: Option<usize>)
    ensures
        r == (match find(hay@, needle@) {
            Some(i) => Some(i as usize),
            None => None::<usize>,
        }),
        r matches Some(i) ==> occurs_at(hay@, needle@, i as int),
        r is Some <==> contains(hay@, needle@),
        r matches Some(i) ==> find(hay@, needle@) == Some(i as int),
        r is None ==> find(hay@, needle@) is None,
{
    reveal(find);
    let mut i: usize = 0;
    loop
        invariant
            i <= hay.len(),
            forall|j: int| 0 <= j < i ==> !occurs_at(hay@, needle@, j),
        decreases hay.len() - i,
    {
        if occurs_at_exec(hay, needle, i) {
            proof {
                reveal(find);
                let w = choose|k: int| occurs_at(hay@, needle@, k) && forall|j: int| 0 <= j < k ==> !occurs_at(hay@, needle@, j);
                assert(occurs_at(hay@, needle@, i as int) && forall|j: int| 0 <= j < i ==> !occurs_at(hay@, needle@, j));
                assert(w == i);
            }
            return Some(i);
        }
        if i == hay.len() {
            proof {
                reveal(find);
                assert forall|j: int| !occurs_at(hay@, needle@, j) by {
                    if 0 <= j < i {
                    }
                }
            }
            return None;
        }
        i = i + 1;
    }
}

/// `needle` occurs in `hay` (`str::contains`).
pub fn contains_exec(hay: &str, needle: &str) -> (r: bool)
    ensures
        r == contains(hay@, needle@),
{
    let h = chars_of(hay);
    let n = chars_of(needle);
    let f = find_in(&h, &n);
    f.is_some()
}

/// The two strings are equal.
pub fn text_eq(a: &str, b: &str) -> (r: bool)
    ensures
        r == (a@ == b@),
{
    let x = chars_of(a);
    let y = chars_of(b);
    if x.len() != y.len() {
        return false;
    }
    let mut i: usize = 0;
    while i < x.len()
        invariant
            x@ == a@,
            y@ == b@,
            x.len() == y.len(),
            0 <= i <= x.len(),
            forall|j: int| 0 <= j < i ==> x@[j] == y@[j],
        decreases x.len() - i,
    {
        if x[i] != y[i] {
            assert(x@[i as int] != y@[i as int]);
            assert(!(x@ =~= y@));
            return false;
        }
        i = i + 1;
    }
    assert(x@ =~= y@);
    true
}

/// `v[from..to]` equals `lit`.
pub fn range_eq(v: &Vec<char>, from: usize, to: usize, lit: &str) -> (r: bool)
    requires
        from <= to <= v.len(),
    ensures
        r == (v@.subrange(from as int, to as int) == lit@),
{
    let l = chars_of(lit);
    if to - from != l.len() {
        assert(v@.subrange(from as int, to as int).len() != l@.len());
        return false;
    }
    let mut i: usize = 0;
    while i < l.len()
        invariant
            l@ == lit@,
            to - from == l.len(),
            from <= to <= v.len(),
            0 <= i <= l.len(),
            forall|j: int| 0 <= j < i ==> v@[from + j] == l@[j],
        decreases l.len() - i,
    {
        if v[from + i] != l[i] {
            assert(v@.subrange(from as int, to as int)[i as int] == v@[from + i]);
            assert(v@.subrange(from as int, to as int)[i as int] != l@[i as int]);
            assert(!(v@.subrange(from as int, to as int) =~= l@));
            return false;
        }
        i = i + 1;
    }
    assert(v@.subrange(from as int, to as int) =~= l@);
    true
}

/// The last character of `s` is `c`.
pub fn ends_with_char(s: &str, c: char) -> (r: bool)
    ensures
        r == (s@.len() > 0 && s@.last() == c),
{
    let v = chars_of(s);
    v.len() > 0 && v[v.len() - 1] == c
}

/// `str::parse::<usize>` on `v[from..to]`.
pub fn parse_usize_range(v: &Vec<char>, from: usize, to: usize) -> (r: Option<usize>)
    requires
        from <= to <= v.len(),
    ensures
        r == (match parse_usize(v@.subrange(from as int, to as int)) {
            Some(n) => Some(n as usize),
            None => None::<usize>,
        }),
{
    let ghost s = v@.subrange(from as int, to as int);
    let mut start = from;
    if start < to && v[start] == '+' {
        start = start + 1;
    }
    proof {
        assert(unsigned_digits(s) =~= v@.subrange(start as int, to as int));
    }
    if start == to {
        return None;
    }
    let ghost d = v@.subrange(start as int, to as int);
    let mut acc: usize = 0;
    let mut i = start;
    while i < to
        invariant
            from <= start < to <= v.len(),
            start <= i <= to,
            d == v@.subrange(start as int, to as int),
            s == v@.subrange(from as int, to as int),
            unsigned_digits(s) == d,
            d.len() > 0,
            all_digits(v@.subrange(start as int, i as int)),
            acc as nat == digits_value(v@.subrange(start as int, i as int)),
        decreases to - i,
    {
        let c = v[i];
        if c < '0' || c > '9' {
            assert(d[i - start] == c);
            assert(!('0' <= d[i - start] && d[i - start] <= '9'));
            assert(!all_digits(d));
            return None;
        }
        let dv = (c as u32 - '0' as u32) as usize;
        proof {
            let p = v@.subrange(start as int, i as int + 1);
            assert(p.drop_last() =~= v@.subrange(start as int, i as int));
            assert(p.last() == c);
            assert(digits_value(p) == acc * 10 + dv);
            assert(all_digits(p)) by {
                assert forall|j: int| 0 <= j < p.len() implies '0' <= #[trigger] p[j] && p[j] <= '9' by {
                    if j < p.len() - 1 {
                        assert(p[j] == v@.subrange(start as int, i as int)[j]);
                    }
                }
            }
        }
        if acc > (usize::MAX - dv) / 10 {
            proof {
                let p = v@.subrange(start as int, i as int + 1);
                assert(p.drop_last() =~= v@.subrange(start as int, i as int));
                assert(digits_value(p) == acc * 10 + dv);
                assert(d.subrange(0, i - start + 1) =~= v@.subrange(start as int, i as int + 1));
                if all_digits(d) {
                    lemma_digits_value_prefix_le(d, (i - start + 1) as int);
                }
                assert(acc * 10 + dv > usize::MAX) by (nonlinear_arith)
                    requires acc > (usize::MAX - dv) / 10, dv <= 9;
            }
            return None;
        }
        acc = acc * 10 + dv;
        i = i + 1;
    }
    assert(v@.subrange(start as int, to as int) =~= d);
    Some(acc)
}

proof fn lemma_digits_value_prefix_le(d: Seq<char>, k: int)
    requires
        0 <= k <= d.len(),
        all_digits(d),
    ensures
        digits_value(d.subrange(0, k)) <= digits_value(d),
    decreases d.len() - k,
{
    if k < d.len() {
        lemma_digits_value_prefix_le(d.drop_last(), k);
        assert(d.drop_last().subrange(0, k) =~= d.subrange(0, k));
        assert(all_digits(d.drop_last())) by {
            assert forall|j: int| 0 <= j < d.drop_last().len() implies '0' <= #[trigger] d.drop_last()[j] && d.drop_last()[j] <= '9' by {
                assert(d.drop_last()[j] == d[j]);
            }
        }
        assert(d.last() >= '0');
    } else {
        assert(d.subrange(0, k) =~= d);
    }
}

/// The character ranges of the pieces of `v` between occurrences of `c`
/// (see [`split_char`]).
pub fn split_ranges(v: &Vec<char>, c: char) -> (r: Vec<(usize, usize)>)
    ensures
        r@.len() == split_char(v@, c).len(),
        forall|k: int| #![trigger r@[k]] 0 <= k < r@.len() ==> {
            &&& r@[k].0 <= r@[k].1 <= v@.len()
            &&& v@.subrange(r@[k].0 as int, r@[k].1 as int) == split_char(v@, c)[k]
        },
{
    let mut r: Vec<(usize, usize)> = Vec::new();
    r.push((0, 0));
    let mut i: usize = 0;
    proof {
        assert(v@.take(0) =~= Seq::<char>::empty());
        assert(v@.subrange(0, 0) =~= Seq::<char>::empty());
    }
    while i < v.len()
        invariant
            0 <= i <= v.len(),
            r@.len() == split_char(v@.take(i as int), c).len(),
            r@.len() > 0,
            r@.last().1 == i,
            forall|k: int| #![trigger r@[k]] 0 <= k < r@.len() ==> {
                &&& r@[k].0 <= r@[k].1 <= i
                &&& v@.subrange(r@[k].0 as int, r@[k].1 as int) == split_char(v@.take(i as int), c)[k]
            },
        decreases v.len() - i,
    {
        let ghost prev = split_char(v@.take(i as int), c);
        let ghost old_r = r@;
        proof {
            lemma_split_char_nonempty(v@.take(i as int), c);
            assert(v@.take(i as int + 1).drop_last() =~= v@.take(i as int));
            assert(v@.take(i as int + 1).last() == v@[i as int]);
        }
        if v[i] == c {
            r.push((i + 1, i + 1));
            proof {
                let next = split_char(v@.take(i as int + 1), c);
                assert(next == prev.push(Seq::<char>::empty()));
                assert forall|k: int| #![trigger r@[k]] 0 <= k < r@.len() implies {
                    &&& r@[k].0 <= r@[k].1 <= i + 1
                    &&& v@.subrange(r@[k].0 as int, r@[k].1 as int) == next[k]
                } by {
                    if k < old_r.len() {
                        assert(r@[k] == old_r[k]);
                    } else {
                        assert(v@.subrange(i + 1, i + 1) =~= Seq::<char>::empty());
                    }
                }
            }
        } else {
            let last = r.len() - 1;
            let (a, _) = r[last];
            r.set(last, (a, i + 1));
            proof {
                let next = split_char(v@.take(i as int + 1), c);
                assert(next == prev.update(prev.len() - 1, prev.last().push(v@[i as int])));
                assert forall|k: int| #![trigger r@[k]] 0 <= k < r@.len() implies {
                    &&& r@[k].0 <= r@[k].1 <= i + 1
                    &&& v@.subrange(r@[k].0 as int, r@[k].1 as int) == next[k]
                } by {
                    if k < last {
                        assert(r@[k] == old_r[k]);
                    } else {
                        assert(old_r[k].1 == i);
                        assert(v@.subrange(a as int, i + 1) =~= v@.subrange(a as int, i as int).push(v@[i as int]));
                    }
                }
            }
        }
        i = i + 1;
    }
    assert(v@.take(v.len() as int) =~= v@);
    r
}

proof fn lemma_split_char_nonempty(s: Seq<char>, c: char)
    ensures
        split_char(s, c).len() > 0,
    decreases s.len(),
{
    if s.len() > 0 {
        lemma_split_char_nonempty(s.drop_last(), c);
    }
}

/// The concatenation of all the pieces, in order.
pub open spec fn concat(xs: Seq<Seq<char>>) -> Seq<char>
    decreases xs.len(),
{
    if xs.len() == 0 {
        Seq::empty()
    } else {
        concat(xs.drop_last()) + xs.last()
    }
}

/// Extending a prefix of the pieces by one more piece.
pub proof fn lemma_concat_take(xs: Seq<Seq<char>>, i: int)
    requires
        0 <= i < xs.len(),
    ensures
        concat(xs.take(i + 1)) == concat(xs.take(i)) + xs[i],
{
    assert(xs.take(i + 1).drop_last() =~= xs.take(i));
}

/// The whole sequence of pieces is its longest prefix.
pub proof fn lemma_take_all<T>(xs: Seq<T>)
    ensures
        xs.take(xs.len() as int) == xs,
{
    assert(xs.take(xs.len() as int) =~= xs);
}

/// `label`, then `value`, then a newline, when there is a value.
pub open spec fn opt_line(label: Seq<char>, value: Option<String>) -> Seq<char> {
    match value {
        Some(v) => line(label, v@),
        None => Seq::empty(),
    }
}

/// `label`, then `value`, then a newline.
pub open spec fn line(label: Seq<char>, value: Seq<char>) -> Seq<char> {
    label + value + seq!['\n']
}

/// `label`, the pieces joined with `sep`, and a newline, when there are pieces.
pub open spec fn list_line(label: Seq<char>, xs: Seq<Seq<char>>, sep: Seq<char>) -> Seq<char> {
    if xs.len() > 0 {
        label + join(xs, sep) + seq!['\n']
    } else {
        Seq::empty()
    }
}

/// Appends `label`, the pieces joined with `sep`, and a newline, when there
/// are pieces.
pub fn push_list_line(out: &mut String, label: &str, parts: &[String], sep: &str)
    ensures
        final(out)@ == old(out)@ + list_line(label@, views(parts@), sep@),
{
    if parts.len() > 0 {
        push_str(out, label);
        push_joined(out, parts, sep);
        push_char(out, '\n');
        assert(old(out)@ + label@ + join(views(parts@), sep@) + seq!['\n'] =~= old(out)@ + list_line(
            label@,
            views(parts@),
            sep@,
        ));
    } else {
        assert(old(out)@ + Seq::<char>::empty() =~= old(out)@);
    }
}

/// Appends `label`, `value` and a newline.
pub fn push_line(out: &mut String, label: &str, value: &str)
    ensures
        final(out)@ == old(out)@ + line(label@, value@),
{
    push_str(out, label);
    push_str(out, value);
    push_char(out, '\n');
    assert(old(out)@ + label@ + value@ + seq!['\n'] =~= old(out)@ + (label@ + value@ + seq!['\n']));
}

/// Appends `label`, the value and a newline when there is a value.
pub fn push_opt_line(out: &mut String, label: &str, value: &Option<String>)
    ensures
        final(out)@ == old(out)@ + opt_line(label@, *value),
{
    match value {
        Some(v) => push_line(out, label, v.as_str()),
        None => {
            assert(old(out)@ + Seq::<char>::empty() =~= old(out)@);
        },
    }
}

/// What `truncate` gives: strings longer than `max` bytes keep their first
/// `max - 3` bytes followed by `...`.
pub open spec fn truncated(s: Seq<char>, max: nat) -> Seq<char> {
    let b = vstd::utf8::encode_utf8(s);
    if b.len() > max {
        vstd::utf8::decode_utf8(b.take(max - 3)) + "..."@
    } else {
        s
    }
}

/// `truncate` can cut `s` at `max - 3` bytes without splitting a character.
pub open spec fn can_truncate(s: Seq<char>, max: nat) -> bool {
    vstd::utf8::encode_utf8(s).len() > max ==> max >= 3 && vstd::utf8::is_char_boundary(
        vstd::utf8::encode_utf8(s),
        max - 3,
    )
}

/// Shortens `s` to at most `max_len` bytes, marking the cut with `...`.
pub fn truncate(s: &str, max_len: usize) -> (r: String)
    requires
        can_truncate(s@, max_len as nat),
    ensures
        r@ == truncated(s@, max_len as nat),
{
    let byte_len = s.as_bytes().len();
    if byte_len > max_len {
        let (a, _) = s.split_at(max_len - 3);
        proof {
            vstd::utf8::encode_utf8_decode_utf8(a@);
            let b = vstd::utf8::encode_utf8(s@);
            assert(s.spec_bytes() == b);
            assert(a.spec_bytes() == vstd::utf8::encode_utf8(a@));
            assert(b.take(max_len - 3) =~= b.subrange(0, max_len - 3));
            assert(vstd::utf8::encode_utf8(a@) == b.take(max_len - 3));
        }
        let mut r = owned(a);
        push_str(&mut r, "...");
        r
    } else {
        owned(s)
    }
}

/// Copies a list of strings.
pub fn copy_strings(v: &Vec<String>) -> (r: Vec<String>)
    ensures
        r@ == v@,
{
    let mut out: Vec<String> = Vec::new();
    let mut i: usize = 0;
    while i < v.len()
        invariant
            0 <= i <= v.len(),
            out@ == v@.take(i as int),
        decreases v.len() - i,
    {
        out.push(v[i].clone());
        assert(out@ =~= v@.take(i as int + 1));
        i = i + 1;
    }
    assert(v@.take(v@.len() as int) =~= v@);
    out
}

/// Copies an optional string.
pub fn copy_opt(o: &Option<String>) -> (r: Option<String>)
    ensures
        r == *o,
{
    match o {
        Some(s) => Some(s.clone()),
        None => None,
    }
}

/// Copies a list of name/value pairs.
pub fn copy_pairs(v: &Vec<(String, String)>) -> (r: Vec<(String, String)>)
    ensures
        r@ == v@,
{
    let mut out: Vec<(String, String)> = Vec::new();
    let mut i: usize = 0;
    while i < v.len()
        invariant
            0 <= i <= v.len(),
            out@ == v@.take(i as int),
        decreases v.len() - i,
    {
        out.push((v[i].0.clone(), v[i].1.clone()));
        assert(out@ =~= v@.take(i as int + 1));
        i = i + 1;
    }
    assert(v@.take(v@.len() as int) =~= v@);
    out
}

/// `a` comes before `b` in the order of their characters (code point by code
/// point, a proper prefix first), the order in which `str` compares.
pub open spec fn text_lt(a: Seq<char>, b: Seq<char>) -> bool
    decreases a.len(),
{
    if a.len() == 0 {
        b.len() > 0
    } else if b.len() == 0 {
        false
    } else if a[0] != b[0] {
        (a[0] as int) < (b[0] as int)
    } else {
        text_lt(a.drop_first(), b.drop_first())
    }
}

/// Whether `a` comes before `b` (see [`text_lt`]).
pub fn text_before(a: &str, b: &str) -> (r: bool)
    ensures
        r == text_lt(a@, b@),
{
    let x = chars_of(a);
    let y = chars_of(b);
    let mut i: usize = 0;
    assert(x@.skip(0) =~= x@);
    assert(y@.skip(0) =~= y@);
    while i < x.len() && i < y.len() && x[i] == y[i]
        invariant
            i <= x.len(),
            i <= y.len(),
            text_lt(a@, b@) == text_lt(x@.skip(i as int), y@.skip(i as int)),
        decreases x.len() - i,
    {
        assert(x@.skip(i as int).drop_first() =~= x@.skip(i as int + 1));
        assert(y@.skip(i as int).drop_first() =~= y@.skip(i as int + 1));
        i = i + 1;
    }
    if i == x.len() {
        i < y.len()
    } else if i == y.len() {
        false
    } else {
        x[i] < y[i]
    }
}

proof fn lemma_head_tail(a: Seq<char>)
    requires
        a.len() > 0,
    ensures
        a == seq![a[0]] + a.drop_first(),
{
    assert(a =~= seq![a[0]] + a.drop_first());
}

/// No text comes before itself.
pub proof fn lemma_text_lt_irreflexive(a: Seq<char>)
    ensures
        !text_lt(a, a),
    decreases a.len(),
{
    if a.len() > 0 {
        lemma_text_lt_irreflexive(a.drop_first());
    }
}

/// Of two texts, at most one comes before the other.
pub proof fn lemma_text_lt_asymmetric(a: Seq<char>, b: Seq<char>)
    ensures
        !(text_lt(a, b) && text_lt(b, a)),
    decreases a.len(),
{
    if a.len() > 0 && b.len() > 0 && a[0] == b[0] {
        lemma_text_lt_asymmetric(a.drop_first(), b.drop_first());
    }
}

/// The order of texts is transitive.
pub proof fn lemma_text_lt_transitive(a: Seq<char>, b: Seq<char>, c: Seq<char>)
    requires
        text_lt(a, b),
        text_lt(b, c),
    ensures
        text_lt(a, c),
    decreases a.len(),
{
    if a.len() > 0 && b.len() > 0 && c.len() > 0 {
        if a[0] == b[0] && b[0] == c[0] {
            lemma_text_lt_transitive(a.drop_first(), b.drop_first(), c.drop_first());
        }
    }
}

/// Of two different texts, one comes before the other.
pub proof fn lemma_text_lt_total(a: Seq<char>, b: Seq<char>)
    requires
        a != b,
    ensures
        text_lt(a, b) || text_lt(b, a),
    decreases a.len(),
{
    if a.len() == 0 {
        assert(b.len() > 0) by {
            if b.len() == 0 {
                assert(a =~= b);
            }
        }
    } else if b.len() > 0 {
        if a[0] == b[0] {
            lemma_head_tail(a);
            lemma_head_tail(b);
            lemma_text_lt_total(a.drop_first(), b.drop_first());
        } else {
        }
    }
}

} // verus!
