//! Reading the response headers that govern how long a key set stays fresh.
use vstd::prelude::*;
use crate::views;
use vstd::string::StrSliceExecFns;

verus! {

/// The pieces of `s` between occurrences of `sep`, read left to right: a
/// separator closes the current piece and opens an empty one.
pub open spec fn split_on(s: Seq<char>, sep: char) -> Seq<Seq<char>>
    decreases s.len(),
{
    if s.len() == 0 {
        seq![Seq::<char>::empty()]
    } else {
        let prev = split_on(s.drop_last(), sep);
        if s.last() == sep {
            prev.push(Seq::<char>::empty())
        } else {
            prev.update(prev.len() - 1, prev.last().push(s.last()))
        }
    }
}

/// There is always at least one piece, and no more than characters plus one.
pub proof fn lemma_split_on_len(s: Seq<char>, sep: char)
    ensures
        1 <= split_on(s, sep).len() <= s.len() + 1,
    decreases s.len(),
{
    if s.len() > 0 {
        lemma_split_on_len(s.drop_last(), sep);
    }
}

/// The pieces of `s` between occurrences of `sep`, as strings.
pub fn split_char(s: &str, sep: char) -> (r: Vec<String>)
    ensures
        views(r@) == split_on(s@, sep),
{
    let n = s.unicode_len();
    let mut parts: Vec<String> = Vec::new();
    let mut start: usize = 0;
    let mut i: usize = 0;
    assert(views(parts@) =~= Seq::<Seq<char>>::empty());
    assert(s@.subrange(0, 0) =~= Seq::<char>::empty());
    assert(views(parts@).push(s@.subrange(0, 0)) =~= split_on(s@.subrange(0, 0), sep));
    while i < n
        invariant
            n == s@.len(),
            start <= i <= n,
            views(parts@).push(s@.subrange(start as int, i as int)) == split_on(
                s@.subrange(0, i as int),
                sep,
            ),
        decreases n - i,
    {
        let c = s.get_char(i);
        let ghost prefix = s@.subrange(0, i + 1);
        assert(prefix.drop_last() == s@.subrange(0, i as int));
        assert(prefix.last() == c);
        if c == sep {
            let ghost prev = parts@;
            parts.push(s.substring_char(start, i).to_owned());
            assert(views(parts@) =~= views(prev).push(s@.subrange(start as int, i as int)));
            start = i + 1;
            assert(s@.subrange(start as int, i + 1) =~= Seq::<char>::empty());
        } else {
            assert(s@.subrange(start as int, i + 1) =~= s@.subrange(start as int, i as int).push(c));
            assert(views(parts@).push(s@.subrange(start as int, i + 1)) =~= views(parts@).push(
                s@.subrange(start as int, i as int),
            ).update(views(parts@).len() as int, s@.subrange(start as int, i as int).push(c)));
        }
        i = i + 1;
    }
    let ghost prev = parts@;
    parts.push(s.substring_char(start, n).to_owned());
    assert(views(parts@) =~= views(prev).push(s@.subrange(start as int, n as int)));
    assert(s@.subrange(0, n as int) == s@);
    parts
}

/// The characters with Unicode's White_Space property, which `str::trim` removes.
pub open spec fn is_ws(c: char) -> bool {
    let u = c as u32;
    ||| 0x9 <= u <= 0xd
    ||| u == 0x20
    ||| u == 0x85
    ||| u == 0xa0
    ||| u == 0x1680
    ||| 0x2000 <= u <= 0x200a
    ||| u == 0x2028
    ||| u == 0x2029
    ||| u == 0x202f
    ||| u == 0x205f
    ||| u == 0x3000
}

pub fn is_whitespace(c: char) -> (r: bool)
    ensures
        r == is_ws(c),
{
    let u = c as u32;
    (0x9 <= u && u <= 0xd) || u == 0x20 || u == 0x85 || u == 0xa0 || u == 0x1680 || (0x2000 <= u
        && u <= 0x200a) || u == 0x2028 || u == 0x2029 || u == 0x202f || u == 0x205f || u == 0x3000
}

/// `s` without its leading white space.
pub open spec fn trim_start(s: Seq<char>) -> Seq<char>
    decreases s.len(),
{
    if s.len() > 0 && is_ws(s[0]) {
        trim_start(s.drop_first())
    } else {
        s
    }
}

/// `s` without its trailing white space.
pub open spec fn trim_end(s: Seq<char>) -> Seq<char>
    decreases s.len(),
{
    if s.len() > 0 && is_ws(s.last()) {
        trim_end(s.drop_last())
    } else {
        s
    }
}

/// `s` without white space at either end.
pub open spec fn trim(s: Seq<char>) -> Seq<char> {
    trim_end(trim_start(s))
}

/// `s` without white space at either end.
pub fn trim_ws(s: &str) -> (r: &str)
    ensures
        r@ == trim(s@),
{
    let n = s.unicode_len();
    let mut i: usize = 0;
    assert(s@.subrange(0, n as int) =~= s@);
    while i < n && is_whitespace(s.get_char(i))
        invariant
            n == s@.len(),
            i <= n,
            trim_start(s@) == trim_start(s@.subrange(i as int, n as int)),
        decreases n - i,
    {
        assert(s@.subrange(i as int, n as int).drop_first() =~= s@.subrange(i + 1, n as int));
        i = i + 1;
    }
    assert(trim_start(s@.subrange(i as int, n as int)) == s@.subrange(i as int, n as int));
    let mut j: usize = n;
    while j > i && is_whitespace(s.get_char(j - 1))
        invariant
            n == s@.len(),
            i <= j <= n,
            trim(s@) == trim_end(s@.subrange(i as int, j as int)),
        decreases j,
    {
        assert(s@.subrange(i as int, j as int).drop_last() =~= s@.subrange(i as int, j - 1));
        j = j - 1;
    }
    s.substring_char(i, j)
}

/// `c` is the lower-case ASCII letter or sign `t`, in either case.
pub open spec fn ascii_ci_eq(c: char, t: char) -> bool {
    ||| c == t
    ||| ('a' as u32 <= t as u32 <= 'z' as u32 && c as u32 == t as u32 - 32)
}

pub fn ascii_ci_matches(c: char, t: char) -> (r: bool)
    ensures
        r == ascii_ci_eq(c, t),
{
    c == t || ('a' as u32 <= t as u32 && t as u32 <= 'z' as u32 && c as u32 + 32 == t as u32)
}

/// The directive starts with `max-age`, in any case.
pub open spec fn is_max_age_directive(d: Seq<char>) -> bool {
    &&& d.len() >= 7
    &&& ascii_ci_eq(d[0], 'm')
    &&& ascii_ci_eq(d[1], 'a')
    &&& ascii_ci_eq(d[2], 'x')
    &&& ascii_ci_eq(d[3], '-')
    &&& ascii_ci_eq(d[4], 'a')
    &&& ascii_ci_eq(d[5], 'g')
    &&& ascii_ci_eq(d[6], 'e')
}

pub fn starts_with_max_age(d: &str) -> (r: bool)
    ensures
        r == is_max_age_directive(d@),
{
    d.unicode_len() >= 7 && ascii_ci_matches(d.get_char(0), 'm') && ascii_ci_matches(
        d.get_char(1),
        'a',
    ) && ascii_ci_matches(d.get_char(2), 'x') && ascii_ci_matches(d.get_char(3), '-')
        && ascii_ci_matches(d.get_char(4), 'a') && ascii_ci_matches(d.get_char(5), 'g')
        && ascii_ci_matches(d.get_char(6), 'e')
}

/// What follows the first `c` in `s`, if `c` occurs.
pub open spec fn tail_after(s: Seq<char>, c: char) -> Option<Seq<char>>
    decreases s.len(),
{
    if s.len() == 0 {
        None
    } else if s[0] == c {
        Some(s.drop_first())
    } else {
        tail_after(s.drop_first(), c)
    }
}

/// What follows the first `=` in `s`, or all of `s` where there is none.
pub fn after_first_eq(s: &str) -> (r: &str)
    ensures
        r@ == match tail_after(s@, '=') {
            Some(t) => t,
            None => s@,
        },
{
    let n = s.unicode_len();
    let mut i: usize = 0;
    assert(s@.subrange(0, n as int) =~= s@);
    while i < n
        invariant
            n == s@.len(),
            i <= n,
            tail_after(s@, '=') == tail_after(s@.subrange(i as int, n as int), '='),
        decreases n - i,
    {
        assert(s@.subrange(i as int, n as int).drop_first() =~= s@.subrange(i + 1, n as int));
        if s.get_char(i) == '=' {
            return s.substring_char(i + 1, n);
        }
        i = i + 1;
    }
    s
}

/// `c` is an ASCII decimal digit.
pub open spec fn is_digit(c: char) -> bool {
    '0' as u32 <= c as u32 <= '9' as u32
}

/// The value of the decimal digits `s`, most significant first.
pub open spec fn digits_value(s: Seq<char>) -> nat
    decreases s.len(),
{
    if s.len() == 0 {
        0
    } else {
        digits_value(s.drop_last()) * 10 + ((s.last() as u32) - ('0' as u32)) as nat
    }
}

/// `s` without one leading `+`, the sign that an unsigned parse allows.
pub open spec fn unsigned_digits(s: Seq<char>) -> Seq<char> {
    if s.len() > 0 && s[0] == '+' {
        s.drop_first()
    } else {
        s
    }
}

/// What `u64::from_str` gives for `s`: an optional `+`, then one or more
/// decimal digits whose value fits in 64 bits.
pub open spec fn parse_u64_spec(s: Seq<char>) -> Option<u64> {
    let d = unsigned_digits(s);
    if d.len() > 0 && (forall|i: int| 0 <= i < d.len() ==> is_digit(#[trigger] d[i]))
        && digits_value(d) <= u64::MAX {
        Some(digits_value(d) as u64)
    } else {
        None
    }
}

/// A string of digits is worth at least any of its prefixes.
pub proof fn lemma_digits_value_prefix(d: Seq<char>, k: int)
    requires
        0 <= k <= d.len(),
        forall|i: int| 0 <= i < d.len() ==> is_digit(#[trigger] d[i]),
    ensures
        digits_value(d.subrange(0, k)) <= digits_value(d),
    decreases d.len(),
{
    if k < d.len() {
        let p = d.drop_last();
        assert(p.subrange(0, k) == d.subrange(0, k));
        lemma_digits_value_prefix(p, k);
    } else {
        assert(d.subrange(0, k) == d);
    }
}

/// `s` read as an unsigned decimal number, as `u64::from_str` reads it.
pub fn parse_u64(s: &str) -> (r: Option<u64>)
    ensures
        r == parse_u64_spec(s@),
{
    let n = s.unicode_len();
    let mut start: usize = 0;
    if n > 0 && s.get_char(0) == '+' {
        start = 1;
    }
    let ghost d = s@.subrange(start as int, n as int);
    assert(d =~= unsigned_digits(s@));
    if start == n {
        return None;
    }
    let mut v: u64 = 0;
    let mut i: usize = start;
    assert(d.subrange(0, 0) =~= Seq::<char>::empty());
    while i < n
        invariant
            n == s@.len(),
            start < n,
            start <= i <= n,
            d == s@.subrange(start as int, n as int),
            d == unsigned_digits(s@),
            forall|k: int| 0 <= k < i - start ==> is_digit(#[trigger] d[k]),
            v == digits_value(d.subrange(0, i - start)),
        decreases n - i,
    {
        let c = s.get_char(i);
        assert(d[i - start] == c);
        if !('0' as u32 <= c as u32 && c as u32 <= '9' as u32) {
            assert(!is_digit(d[i - start]));
            return None;
        }
        let dv = (c as u32 - '0' as u32) as u64;
        assert(d.subrange(0, i + 1 - start).drop_last() =~= d.subrange(0, i - start));
        if v > (u64::MAX - dv) / 10 {
            assert(v * 10 + dv > u64::MAX) by (nonlinear_arith)
                requires
                    v > (u64::MAX - dv) / 10,
                    dv <= 9,
            ;
            proof {
                if forall|k: int| 0 <= k < d.len() ==> is_digit(#[trigger] d[k]) {
                    lemma_digits_value_prefix(d, i + 1 - start);
                }
            }
            return None;
        }
        assert(v * 10 + dv <= u64::MAX) by (nonlinear_arith)
            requires
                v <= (u64::MAX - dv) / 10,
                dv <= 9,
        ;
        v = v * 10 + dv;
        i = i + 1;
    }
    assert(d.subrange(0, n - start) =~= d);
    Some(v)
}

/// The value of a `max-age` directive: the number after its first `=`,
/// or zero where that is no number.
pub open spec fn directive_value(d: Seq<char>) -> u64 {
    let text = match tail_after(d, '=') {
        Some(t) => t,
        None => d,
    };
    match parse_u64_spec(text) {
        Some(v) => v,
        None => 0,
    }
}

/// The first of the comma-separated directives that is a `max-age`
/// directive once trimmed, trimmed.
pub open spec fn first_max_age(parts: Seq<Seq<char>>) -> Option<Seq<char>>
    decreases parts.len(),
{
    if parts.len() == 0 {
        None
    } else if is_max_age_directive(trim(parts[0])) {
        Some(trim(parts[0]))
    } else {
        first_max_age(parts.drop_first())
    }
}

/// The freshness lifetime, in seconds, that a `Cache-Control` value gives.
pub open spec fn max_age_of(value: Seq<char>) -> u64 {
    match first_max_age(split_on(value, ',')) {
        Some(d) => directive_value(d),
        None => 0,
    }
}

/// The `max-age` of a `Cache-Control` header, in seconds: zero where the
/// header is absent, has no such directive, or gives no number.
pub fn parse_max_age_from_header(val: Option<&str>) -> (r: u64)
    ensures
        r == match val {
            Some(v) => max_age_of(v@),
            None => 0,
        },
{
    let value = match val {
        Some(v) => v,
        None => return 0,
    };
    let parts = split_char(value, ',');
    let ghost all = views(parts@);
    let mut k: usize = 0;
    assert(all.subrange(0, all.len() as int) =~= all);
    while k < parts.len()
        invariant
            all == views(parts@),
            all == split_on(value@, ','),
            val == Some(value),
            k <= parts.len(),
            first_max_age(all) == first_max_age(all.subrange(k as int, all.len() as int)),
        decreases parts.len() - k,
    {
        let d = trim_ws(parts[k].as_str());
        assert(all.len() == parts@.len());
        assert(all.subrange(k as int, all.len() as int)[0] == parts@[k as int]@);
        assert(all.subrange(k as int, all.len() as int).drop_first() =~= all.subrange(
            k + 1,
            all.len() as int,
        ));
        if starts_with_max_age(d) {
            assert(first_max_age(all) == Some(d@));
            let text = after_first_eq(d);
            let r = match parse_u64(text) {
                Some(v) => v,
                None => 0,
            };
            return r;
        }
        k = k + 1;
    }
    0
}

/// The `Age` header, in seconds: zero where it is absent or no number.
pub fn parse_age_from_header(val: Option<&str>) -> (r: u64)
    ensures
        r == match val {
            Some(v) => match parse_u64_spec(v@) {
                Some(a) => a,
                None => 0,
            },
            None => 0,
        },
{
    match val {
        Some(v) => match parse_u64(v) {
            Some(a) => a,
            None => 0,
        },
        None => 0,
    }
}

} // verus!
