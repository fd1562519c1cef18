//! Character-level helpers shared by the parsers of this crate.
//!
//! Every function here works on the characters of a string, never on its
//! bytes, so the contracts read over `Seq<char>`.

use vstd::prelude::*;

verus! {

/// The characters that carry layout only and are dropped from scraped text.
pub open spec fn is_layout(c: char) -> bool {
    c == '\n' || c == '\t'
}

/// `s` without its line feeds and tabs, every other character kept in order.
pub open spec fn without_layout(s: Seq<char>) -> Seq<char> {
    s.filter(|c: char| !is_layout(c))
}

/// Unicode's `White_Space` property.
pub open spec fn is_space(c: char) -> bool {
    let u = c as u32;
    ||| 0x09 <= u <= 0x0D
    ||| u == 0x20
    ||| u == 0x85
    ||| u == 0xA0
    ||| u == 0x1680
    ||| 0x2000 <= u <= 0x200A
    ||| u == 0x2028
    ||| u == 0x2029
    ||| u == 0x202F
    ||| u == 0x205F
    ||| u == 0x3000
}

/// The two classes of characters that are stripped from the ends of a value.
#[derive(Clone, Copy, PartialEq, Eq, Structural, Debug)]
pub enum Strip {
    /// White space.
    Space,
    /// The double quote.
    Quote,
}

/// Whether `c` belongs to the class `k`.
pub open spec fn strips(k: Strip, c: char) -> bool {
    match k {
        Strip::Space => is_space(c),
        Strip::Quote => c == '"',
    }
}

/// `s` without its longest prefix made of characters of class `k`.
pub open spec fn trim_start_of(s: Seq<char>, k: Strip) -> Seq<char>
    decreases s.len(),
{
    if s.len() > 0 && strips(k, s[0]) {
        trim_start_of(s.drop_first(), k)
    } else {
        s
    }
}

/// `s` without its longest suffix made of characters of class `k`.
pub open spec fn trim_end_of(s: Seq<char>, k: Strip) -> Seq<char>
    decreases s.len(),
{
    if s.len() > 0 && strips(k, s.last()) {
        trim_end_of(s.drop_last(), k)
    } else {
        s
    }
}

/// `s` with the characters of class `k` removed from both ends.
pub open spec fn trim_of(s: Seq<char>, k: Strip) -> Seq<char> {
    trim_end_of(trim_start_of(s, k), k)
}

/// `s` after `key` has been taken off its front as often as it stands there.
pub open spec fn strip_prefix_all(s: Seq<char>, key: Seq<char>) -> Seq<char>
    decreases s.len(),
{
    if key.len() > 0 && key.is_prefix_of(s) {
        strip_prefix_all(s.skip(key.len() as int), key)
    } else {
        s
    }
}

/// The index of the first `sep` in `s`, or `s.len()` if there is none.
pub open spec fn first_index_of(s: Seq<char>, sep: char) -> int
    decreases s.len(),
{
    if s.len() == 0 || s[0] == sep {
        0
    } else {
        1 + first_index_of(s.drop_first(), sep)
    }
}

/// The index of the last `sep` in `s`, or `-1` if there is none.
pub open spec fn last_index_of(s: Seq<char>, sep: char) -> int
    decreases s.len(),
{
    if s.len() == 0 {
        -1
    } else if s.last() == sep {
        s.len() - 1
    } else {
        last_index_of(s.drop_last(), sep)
    }
}

/// The decimal digit for `d`, meant for `0 <= d < 10`.
pub open spec fn digit(d: int) -> char {
    (48 + d) as char
}

/// `n` in decimal, without sign or leading zeros.
pub open spec fn decimal(n: nat) -> Seq<char>
    decreases n,
{
    if n < 10 {
        seq![digit(n as int)]
    } else {
        decimal(n / 10).push(digit((n % 10) as int))
    }
}

/// `v` in decimal, with a leading minus sign when it is negative.
pub open spec fn signed_decimal(v: int) -> Seq<char> {
    if v < 0 {
        seq!['-'] + decimal((-v) as nat)
    } else {
        decimal(v as nat)
    }
}

/// The value of a decimal digit, `None` for any other character.
pub open spec fn digit_value(c: char) -> Option<nat> {
    if '0' <= c && c <= '9' {
        Some((c as u32 - 48) as nat)
    } else {
        None
    }
}

/// The number that the digits of `s` spell, `None` if a character is no digit.
/// The empty sequence spells zero.
pub open spec fn digits_value(s: Seq<char>) -> Option<nat>
    decreases s.len(),
{
    if s.len() == 0 {
        Some(0)
    } else {
        match (digits_value(s.drop_last()), digit_value(s.last())) {
            (Some(high), Some(low)) => Some(high * 10 + low),
            _ => None,
        }
    }
}

/// What `s` parses to as an unsigned 64-bit number: an optional `+`, then one
/// or more decimal digits and nothing else, the value within range.
pub open spec fn parsed_u64(s: Seq<char>) -> Option<u64> {
    let body = if s.len() > 0 && s[0] == '+' {
        s.drop_first()
    } else {
        s
    };
    if body.len() == 0 {
        None
    } else {
        within_u64(digits_value(body))
    }
}

/// `v` as a 64-bit number where it is one, `None` otherwise.
pub open spec fn within_u64(v: Option<nat>) -> Option<u64> {
    match v {
        Some(n) => if n <= u64::MAX {
            Some(n as u64)
        } else {
            None
        },
        None => None,
    }
}

/// `String::push` of std: appends the one character `c` to `s`.
#[verifier::external_body]
fn push_char(s: &mut String, c: char)
    ensures
        final(s)@ == old(s)@.push(c),
{
    s.push(c);
}

/// The characters of `s`, in order.
pub fn chars_of(s: &str) -> (v: Vec<char>)
    ensures
        v@ == s@,
{
    let mut v: Vec<char> = Vec::new();
    for c in it: s.chars()
        invariant
            it.seq() == s@,
            v@ == s@.take(it.index() as int),
    {
        v.push(c);
        assert(s@.take(it.index() + 1) =~= s@.take(it.index() as int).push(c));
    }
    assert(s@.take(s@.len() as int) =~= s@);
    v
}

/// The string made of `v[lo..hi]`.
pub(crate) fn string_of(v: &Vec<char>, lo: usize, hi: usize) -> (s: String)
    requires
        lo <= hi <= v.len(),
    ensures
        s@ == v@.subrange(lo as int, hi as int),
{
    let mut s = String::new();
    let mut i: usize = lo;
    while i < hi
        invariant
            lo <= i <= hi <= v.len(),
            s@ == v@.subrange(lo as int, i as int),
        decreases hi - i,
    {
        push_char(&mut s, v[i]);
        assert(v@.subrange(lo as int, i + 1) =~= v@.subrange(lo as int, i as int).push(v@[i as int]));
        i = i + 1;
    }
    s
}

/// Removes every line feed and tab from `s`.
pub fn strip_layout(s: &str) -> (out: String)
    ensures
        out@ == without_layout(s@),
{
    let mut out = String::new();
    let v = chars_of(s);
    let mut i: usize = 0;
    while i < v.len()
        invariant
            v@ == s@,
            i <= v.len(),
            out@ == without_layout(s@.take(i as int)),
        decreases v.len() - i,
    {
        let c = v[i];
        proof {
            let next = s@.take(i + 1);
            assert(next.drop_last() =~= s@.take(i as int));
            assert(next.last() == c);
            reveal(Seq::filter);
        }
        if c != '\n' && c != '\t' {
            push_char(&mut out, c);
        }
        i = i + 1;
    }
    proof {
        assert(s@.take(v.len() as int) =~= s@);
    }
    out
}

/// Whether `c` is white space.
pub fn is_space_char(c: char) -> (b: bool)
    ensures
        b == is_space(c),
{
    let u: u32 = c as u32;
    (0x09 <= u && u <= 0x0D) || u == 0x20 || u == 0x85 || u == 0xA0 || u == 0x1680 || (0x2000 <= u
        && u <= 0x200A) || u == 0x2028 || u == 0x2029 || u == 0x202F || u == 0x205F || u == 0x3000
}

/// Whether `c` belongs to the class `k`.
pub fn in_class(k: Strip, c: char) -> (b: bool)
    ensures
        b == strips(k, c),
{
    match k {
        Strip::Space => is_space_char(c),
        Strip::Quote => c == '"',
    }
}

/// The start of `v[lo..hi]` once its leading characters of class `k` are gone.
pub(crate) fn trim_front(v: &Vec<char>, lo: usize, hi: usize, k: Strip) -> (r: usize)
    requires
        lo <= hi <= v.len(),
    ensures
        lo <= r <= hi,
        v@.subrange(r as int, hi as int) == trim_start_of(v@.subrange(lo as int, hi as int), k),
{
    let mut r: usize = lo;
    while r < hi && in_class(k, v[r])
        invariant
            lo <= r <= hi <= v.len(),
            trim_start_of(v@.subrange(r as int, hi as int), k) == trim_start_of(
                v@.subrange(lo as int, hi as int),
                k,
            ),
        decreases hi - r,
    {
        assert(v@.subrange(r as int, hi as int).drop_first() =~= v@.subrange(r + 1, hi as int));
        r = r + 1;
    }
    r
}

/// The end of `v[lo..hi]` once its trailing characters of class `k` are gone.
pub(crate) fn trim_back(v: &Vec<char>, lo: usize, hi: usize, k: Strip) -> (r: usize)
    requires
        lo <= hi <= v.len(),
    ensures
        lo <= r <= hi,
        v@.subrange(lo as int, r as int) == trim_end_of(v@.subrange(lo as int, hi as int), k),
{
    let mut r: usize = hi;
    while r > lo && in_class(k, v[r - 1])
        invariant
            lo <= r <= hi <= v.len(),
            trim_end_of(v@.subrange(lo as int, r as int), k) == trim_end_of(
                v@.subrange(lo as int, hi as int),
                k,
            ),
        decreases r - lo,
    {
        assert(v@.subrange(lo as int, r as int).drop_last() =~= v@.subrange(lo as int, r - 1));
        r = r - 1;
    }
    r
}

/// Whether `v[lo..hi]` begins with `key`.
pub(crate) fn starts_with_at(v: &Vec<char>, lo: usize, hi: usize, key: &Vec<char>) -> (b: bool)
    requires
        lo <= hi <= v.len(),
    ensures
        b == key@.is_prefix_of(v@.subrange(lo as int, hi as int)),
{
    if key.len() > hi - lo {
        return false;
    }
    let mut i: usize = 0;
    while i < key.len()
        invariant
            lo <= hi <= v.len(),
            key.len() <= hi - lo,
            i <= key.len(),
            forall|j: int| 0 <= j < i ==> key@[j] == v@[lo + j],
        decreases key.len() - i,
    {
        if key[i] != v[lo + i] {
            assert(v@.subrange(lo as int, hi as int).subrange(0, key@.len() as int)[i as int]
                != key@[i as int]);
            return false;
        }
        i = i + 1;
    }
    assert(key@ =~= v@.subrange(lo as int, hi as int).subrange(0, key@.len() as int));
    true
}

/// The start of `v[lo..hi]` once `key` has been taken off its front as often
/// as it stands there.
pub(crate) fn strip_prefix_front(v: &Vec<char>, lo: usize, hi: usize, key: &Vec<char>) -> (r: usize)
    requires
        lo <= hi <= v.len(),
    ensures
        lo <= r <= hi,
        v@.subrange(r as int, hi as int) == strip_prefix_all(
            v@.subrange(lo as int, hi as int),
            key@,
        ),
{
    let mut r: usize = lo;
    if key.len() == 0 {
        return r;
    }
    while starts_with_at(v, r, hi, key)
        invariant
            lo <= r <= hi <= v.len(),
            key.len() > 0,
            strip_prefix_all(v@.subrange(r as int, hi as int), key@) == strip_prefix_all(
                v@.subrange(lo as int, hi as int),
                key@,
            ),
        decreases hi - r,
    {
        assert(v@.subrange(r as int, hi as int).skip(key@.len() as int) =~= v@.subrange(
            r + key@.len(),
            hi as int,
        ));
        r = r + key.len();
    }
    r
}

/// The index of the first `sep` in `v[lo..hi]`, or `hi` if there is none.
pub(crate) fn find_first(v: &Vec<char>, lo: usize, hi: usize, sep: char) -> (r: usize)
    requires
        lo <= hi <= v.len(),
    ensures
        lo <= r <= hi,
        r - lo == first_index_of(v@.subrange(lo as int, hi as int), sep),
{
    let mut r: usize = lo;
    while r < hi && v[r] != sep
        invariant
            lo <= r <= hi <= v.len(),
            first_index_of(v@.subrange(lo as int, hi as int), sep) == (r - lo) + first_index_of(
                v@.subrange(r as int, hi as int),
                sep,
            ),
        decreases hi - r,
    {
        assert(v@.subrange(r as int, hi as int).drop_first() =~= v@.subrange(r + 1, hi as int));
        r = r + 1;
    }
    r
}

/// The index of the last `sep` in `v[lo..hi]`, `None` if there is none.
pub(crate) fn find_last(v: &Vec<char>, lo: usize, hi: usize, sep: char) -> (r: Option<usize>)
    requires
        lo <= hi <= v.len(),
    ensures
        match r {
            Some(i) => lo <= i < hi && i - lo == last_index_of(
                v@.subrange(lo as int, hi as int),
                sep,
            ),
            None => last_index_of(v@.subrange(lo as int, hi as int), sep) == -1,
        },
{
    let mut r: usize = hi;
    while r > lo
        invariant
            lo <= r <= hi <= v.len(),
            last_index_of(v@.subrange(lo as int, hi as int), sep) == last_index_of(
                v@.subrange(lo as int, r as int),
                sep,
            ),
        decreases r - lo,
    {
        if v[r - 1] == sep {
            return Some(r - 1);
        }
        assert(v@.subrange(lo as int, r as int).drop_last() =~= v@.subrange(lo as int, r - 1));
        r = r - 1;
    }
    None
}

/// Appends `n` in decimal to `out`.
pub fn push_decimal(out: &mut String, n: u64)
    ensures
        final(out)@ == old(out)@ + decimal(n as nat),
    decreases n,
{
    if n >= 10 {
        push_decimal(out, n / 10);
    }
    let d: u8 = (n % 10) as u8;
    let c: char = (48u8 + d) as char;
    assert(c == digit((n % 10) as int));
    push_char(out, c);
    assert(out@ =~= old(out)@ + decimal(n as nat));
}

/// `n` in decimal.
pub fn u64_text(n: u64) -> (s: String)
    ensures
        s@ == decimal(n as nat),
{
    let mut s = String::new();
    push_decimal(&mut s, n);
    assert(s@ =~= decimal(n as nat));
    s
}

/// `v` in decimal, with a minus sign in front when it is negative.
pub fn i64_text(v: i64) -> (s: String)
    ensures
        s@ == signed_decimal(v as int),
{
    let mut s = String::new();
    if v < 0 {
        push_char(&mut s, '-');
        let magnitude: u64 = (-(v + 1)) as u64 + 1;
        push_decimal(&mut s, magnitude);
        assert(s@ =~= signed_decimal(v as int));
    } else {
        push_decimal(&mut s, v as u64);
        assert(s@ =~= signed_decimal(v as int));
    }
    s
}

/// `true` or `false`, spelled out.
pub fn bool_text(b: bool) -> (s: String)
    ensures
        s@ == if b {
            "true"@
        } else {
            "false"@
        },
{
    if b {
        "true".to_owned()
    } else {
        "false".to_owned()
    }
}

/// Where the digits of `s` spell a number, those of each prefix spell one
/// that is no larger.
pub proof fn lemma_digits_prefix(s: Seq<char>, k: int)
    requires
        0 <= k <= s.len(),
        digits_value(s) is Some,
    ensures
        digits_value(s.take(k)) is Some,
        digits_value(s.take(k))->0 <= digits_value(s)->0,
    decreases s.len(),
{
    if k == s.len() {
        assert(s.take(k) =~= s);
    } else {
        lemma_digits_prefix(s.drop_last(), k);
        assert(s.drop_last().take(k) =~= s.take(k));
    }
}

/// Parses an unsigned decimal number: an optional `+`, then digits only.
pub fn parse_u64(s: &str) -> (r: Option<u64>)
    ensures
        r == parsed_u64(s@),
{
    let v = chars_of(s);
    let start: usize = if v.len() > 0 && v[0] == '+' {
        1
    } else {
        0
    };
    if start == v.len() {
        return None;
    }
    let ghost body = v@.subrange(start as int, v.len() as int);
    proof {
        if start == 1 {
            assert(body =~= s@.drop_first());
        } else {
            assert(body =~= s@);
        }
    }
    let mut acc: u64 = 0;
    let mut i: usize = start;
    while i < v.len()
        invariant
            start <= i <= v.len(),
            body == v@.subrange(start as int, v.len() as int),
            parsed_u64(s@) == within_u64(digits_value(body)),
            digits_value(body.take(i - start)) == Some(acc as nat),
        decreases v.len() - i,
    {
        let c = v[i];
        let ghost next = body.take(i - start + 1);
        proof {
            assert(next.drop_last() =~= body.take(i - start));
            assert(next.last() == c);
        }
        if c < '0' || c > '9' {
            proof {
                assert(digits_value(next) is None);
                if digits_value(body) is Some {
                    lemma_digits_prefix(body, i - start + 1);
                }
            }
            return None;
        }
        let d: u64 = (c as u32 - 48) as u64;
        if acc > (u64::MAX - d) / 10 {
            proof {
                assert(digits_value(next) == Some((acc * 10 + d) as nat));
                assert(acc * 10 + d > u64::MAX);
                if digits_value(body) is Some {
                    lemma_digits_prefix(body, i - start + 1);
                }
            }
            return None;
        }
        acc = acc * 10 + d;
        i = i + 1;
    }
    proof {
        assert(body.take(v.len() - start) =~= body);
    }
    Some(acc)
}

/// Whether `a` and `b` hold the same characters.
pub fn same_text(a: &str, b: &str) -> (same: bool)
    ensures
        same == (a@ == b@),
{
    let x = chars_of(a);
    let y = chars_of(b);
    if x.len() != y.len() {
        return false;
    }
    let mut i: usize = 0;
    while i < x.len()
        invariant
            x.len() == y.len(),
            i <= x.len(),
            x@ == a@,
            y@ == b@,
            forall|j: int| 0 <= j < i ==> x@[j] == y@[j],
        decreases x.len() - i,
    {
        if x[i] != y[i] {
            return false;
        }
        i = i + 1;
    }
    assert(x@ =~= y@);
    true
}

} // verus!
