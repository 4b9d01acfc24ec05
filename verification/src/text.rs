//! Character-level helpers: whitespace, trimming, decimal digits.
use vstd::prelude::*;

verus! {

/// The Unicode `White_Space` property, the set of characters that
/// `char::is_whitespace` (and so `str::trim`) treats as whitespace.
pub open spec fn is_space(c: char) -> bool {
    let u = c as u32;
    ||| 0x09 <= u <= 0x0D
    ||| u == 0x20
    ||| u == 0x85
    ||| u == 0xA0
    ||| u == 0x1680
    ||| 0x2000 <= u <= 0x200A
    ||| u == 0x2028
    ||| u == 0x2029
    ||| u == 0x202F
    ||| u == 0x205F
    ||| u == 0x3000
}

/// Which characters a trimming operation removes.
#[derive(Clone, Copy)]
pub enum Strip {
    /// Unicode whitespace, as `trim` removes it.
    Space,
    /// Every copy of one character, as `trim_*_matches(c)` removes it.
    Exactly(char),
}

pub open spec fn strips(k: Strip, c: char) -> bool {
    match k {
        Strip::Space => is_space(c),
        Strip::Exactly(d) => c == d,
    }
}

/// `s` with every leading character of class `k` removed.
pub open spec fn strip_start(s: Seq<char>, k: Strip) -> Seq<char>
    decreases s.len(),
{
    if s.len() > 0 && strips(k, s[0]) {
        strip_start(s.drop_first(), k)
    } else {
        s
    }
}

/// `s` with every trailing character of class `k` removed.
pub open spec fn strip_end(s: Seq<char>, k: Strip) -> Seq<char>
    decreases s.len(),
{
    if s.len() > 0 && strips(k, s.last()) {
        strip_end(s.drop_last(), k)
    } else {
        s
    }
}

/// What `str::trim` gives back.
pub open spec fn trim(s: Seq<char>) -> Seq<char> {
    strip_end(strip_start(s, Strip::Space), Strip::Space)
}

pub fn is_space_char(c: char) -> (r: bool)
    ensures
        r == is_space(c),
{
    let u: u32 = c as u32;
    (0x09 <= u && u <= 0x0D) || u == 0x20 || u == 0x85 || u == 0xA0 || u == 0x1680 || (0x2000
        <= u && u <= 0x200A) || u == 0x2028 || u == 0x2029 || u == 0x202F || u == 0x205F || u
        == 0x3000
}

fn strips_char(k: Strip, c: char) -> (r: bool)
    ensures
        r == strips(k, c),
{
    match k {
        Strip::Space => is_space_char(c),
        Strip::Exactly(d) => c == d,
    }
}

/// Appends one character to a `String` (`String::push`).
#[verifier::external_body]
pub fn push_char(s: &mut String, c: char)
    ensures
        final(s)@ == old(s)@.push(c),
{
    s.push(c);
}

/// The characters of `s`, in order.
pub fn chars_of(s: &str) -> (v: Vec<char>)
    ensures
        v@ == s@,
{
    let mut v: Vec<char> = Vec::new();
    for c in it: s.chars()
        invariant
            it.seq() == s@,
            v@ == it.seq().take(it.index() as int),
    {
        v.push(c);
    }
    assert(v@ =~= s@);
    v
}

/// Appends `v[lo..hi]` to `out`.
pub fn push_range(out: &mut String, v: &Vec<char>, lo: usize, hi: usize)
    requires
        lo <= hi <= v@.len(),
    ensures
        final(out)@ == old(out)@ + v@.subrange(lo as int, hi as int),
{
    let mut i: usize = lo;
    while i < hi
        invariant
            lo <= i <= hi <= v@.len(),
            out@ == old(out)@ + v@.subrange(lo as int, i as int),
        decreases hi - i,
    {
        push_char(out, v[i]);
        i = i + 1;
        assert(v@.subrange(lo as int, i as int) =~= v@.subrange(lo as int, i - 1).push(v@[i - 1]));
    }
}

/// Appends all of `s` to `out`.
pub fn push_str(out: &mut String, s: &str)
    ensures
        final(out)@ == old(out)@ + s@,
{
    let v: Vec<char> = chars_of(s);
    let n: usize = v.len();
    push_range(out, &v, 0, n);
    assert(v@.subrange(0, n as int) =~= v@);
}

proof fn lemma_strip_start_at(s: Seq<char>, k: Strip, i: int)
    requires
        0 <= i <= s.len(),
        forall|j: int| 0 <= j < i ==> strips(k, #[trigger] s[j]),
        i == s.len() || !strips(k, s[i]),
    ensures
        strip_start(s, k) == s.subrange(i, s.len() as int),
    decreases i,
{
    if i == 0 {
        assert(s.subrange(0, s.len() as int) =~= s);
    } else {
        let t = s.drop_first();
        assert forall|j: int| 0 <= j < i - 1 implies strips(k, #[trigger] t[j]) by {
            assert(t[j] == s[j + 1]);
        }
        assert(strips(k, s[0]));
        lemma_strip_start_at(t, k, i - 1);
        assert(t.subrange(i - 1, t.len() as int) =~= s.subrange(i, s.len() as int));
    }
}

proof fn lemma_strip_end_at(s: Seq<char>, k: Strip, i: int)
    requires
        0 <= i <= s.len(),
        forall|j: int| i <= j < s.len() ==> strips(k, #[trigger] s[j]),
        i == 0 || !strips(k, s[i - 1]),
    ensures
        strip_end(s, k) == s.subrange(0, i),
    decreases s.len() - i,
{
    if i == s.len() {
        assert(s.subrange(0, i) =~= s);
    } else {
        let t = s.drop_last();
        assert forall|j: int| i <= j < t.len() implies strips(k, #[trigger] t[j]) by {
            assert(t[j] == s[j]);
        }
        assert(strips(k, s.last()));
        lemma_strip_end_at(t, k, i);
        assert(t.subrange(0, i) =~= s.subrange(0, i));
    }
}

/// Index of the first character of `v[lo..]` that class `k` does not remove.
fn first_kept(v: &Vec<char>, k: Strip, lo: usize) -> (i: usize)
    requires
        lo <= v@.len(),
    ensures
        lo <= i <= v@.len(),
        forall|j: int| lo <= j < i ==> strips(k, #[trigger] v@[j]),
        i == v@.len() || !strips(k, v@[i as int]),
{
    let mut i: usize = lo;
    while i < v.len() && strips_char(k, v[i])
        invariant
            lo <= i <= v@.len(),
            forall|j: int| lo <= j < i ==> strips(k, #[trigger] v@[j]),
        decreases v@.len() - i,
    {
        i = i + 1;
    }
    i
}

/// One past the last character of `v[lo..hi]` that class `k` does not remove.
fn last_kept(v: &Vec<char>, k: Strip, lo: usize, hi: usize) -> (i: usize)
    requires
        lo <= hi <= v@.len(),
    ensures
        lo <= i <= hi,
        forall|j: int| i <= j < hi ==> strips(k, #[trigger] v@[j]),
        i == lo || !strips(k, v@[i - 1]),
{
    let mut i: usize = hi;
    while i > lo && strips_char(k, v[i - 1])
        invariant
            lo <= i <= hi <= v@.len(),
            forall|j: int| i <= j < hi ==> strips(k, #[trigger] v@[j]),
        decreases i,
    {
        i = i - 1;
    }
    i
}

/// `s` without its leading characters of class `k`
/// (`str::trim_start_matches` for one character, `str::trim_start` for whitespace).
pub fn trim_start_by(s: &str, k: Strip) -> (r: String)
    ensures
        r@ == strip_start(s@, k),
{
    let v: Vec<char> = chars_of(s);
    let i: usize = first_kept(&v, k, 0);
    proof {
        lemma_strip_start_at(v@, k, i as int);
    }
    let mut r: String = String::new();
    push_range(&mut r, &v, i, v.len());
    assert(r@ =~= v@.subrange(i as int, v@.len() as int));
    r
}

/// `s` without its trailing characters of class `k`
/// (`str::trim_end_matches` for one character, `str::trim_end` for whitespace).
pub fn trim_end_by(s: &str, k: Strip) -> (r: String)
    ensures
        r@ == strip_end(s@, k),
{
    let v: Vec<char> = chars_of(s);
    let n: usize = v.len();
    let i: usize = last_kept(&v, k, 0, n);
    proof {
        lemma_strip_end_at(v@, k, i as int);
    }
    let mut r: String = String::new();
    push_range(&mut r, &v, 0, i);
    assert(r@ =~= v@.subrange(0, i as int));
    r
}

/// `s` without leading and trailing whitespace (`str::trim`).
pub fn trim_space(s: &str) -> (r: String)
    ensures
        r@ == trim(s@),
{
    let a: String = trim_start_by(s, Strip::Space);
    trim_end_by(a.as_str(), Strip::Space)
}

/// After stripping, the string does not end with a stripped character.
pub proof fn lemma_strip_end_clean(s: Seq<char>, k: Strip)
    ensures
        strip_end(s, k).len() > 0 ==> !strips(k, strip_end(s, k).last()),
    decreases s.len(),
{
    if s.len() > 0 && strips(k, s.last()) {
        lemma_strip_end_clean(s.drop_last(), k);
    }
}

/// After stripping, the string does not start with a stripped character.
pub proof fn lemma_strip_start_clean(s: Seq<char>, k: Strip)
    ensures
        strip_start(s, k).len() > 0 ==> !strips(k, strip_start(s, k)[0]),
    decreases s.len(),
{
    if s.len() > 0 && strips(k, s[0]) {
        lemma_strip_start_clean(s.drop_first(), k);
    }
}

/// Stripping a stripped string changes nothing.
pub proof fn lemma_strip_end_idempotent(s: Seq<char>, k: Strip)
    ensures
        strip_end(strip_end(s, k), k) == strip_end(s, k),
{
    lemma_strip_end_clean(s, k);
}

/// The character of a decimal digit.
pub open spec fn digit_char(d: nat) -> char {
    if d == 0 {
        '0'
    } else if d == 1 {
        '1'
    } else if d == 2 {
        '2'
    } else if d == 3 {
        '3'
    } else if d == 4 {
        '4'
    } else if d == 5 {
        '5'
    } else if d == 6 {
        '6'
    } else if d == 7 {
        '7'
    } else if d == 8 {
        '8'
    } else {
        '9'
    }
}

/// Decimal digits of `n`, most significant first, no leading zeros ("0" for zero).
pub open spec fn digits(n: nat) -> Seq<char>
    decreases n,
{
    if n < 10 {
        seq![digit_char(n)]
    } else {
        digits(n / 10).push(digit_char(n % 10))
    }
}

/// Decimal rendering of an integer, as `Display` writes it.
pub open spec fn decimal(i: int) -> Seq<char> {
    if i < 0 {
        seq!['-'] + digits((-i) as nat)
    } else {
        digits(i as nat)
    }
}

/// At least two digits, zero-padded on the left (`{:02}`).
pub open spec fn pad2(n: nat) -> Seq<char> {
    if n < 10 {
        seq!['0'] + digits(n)
    } else {
        digits(n)
    }
}

fn digit_of(d: u64) -> (c: char)
    requires
        d < 10,
    ensures
        c == digit_char(d as nat),
{
    if d == 0 {
        '0'
    } else if d == 1 {
        '1'
    } else if d == 2 {
        '2'
    } else if d == 3 {
        '3'
    } else if d == 4 {
        '4'
    } else if d == 5 {
        '5'
    } else if d == 6 {
        '6'
    } else if d == 7 {
        '7'
    } else if d == 8 {
        '8'
    } else {
        '9'
    }
}

/// Appends the decimal digits of `n`.
pub fn push_digits(out: &mut String, n: u64)
    ensures
        final(out)@ == old(out)@ + digits(n as nat),
    decreases n,
{
    if n >= 10 {
        push_digits(out, n / 10);
    }
    push_char(out, digit_of(n % 10));
    assert(final(out)@ =~= old(out)@ + digits(n as nat));
}

/// Appends the decimal rendering of `i`.
pub fn push_decimal(out: &mut String, i: i64)
    ensures
        final(out)@ == old(out)@ + decimal(i as int),
{
    if i < 0 {
        push_char(out, '-');
        let m: u64 = if i == i64::MIN {
            9223372036854775808u64
        } else {
            (-i) as u64
        };
        push_digits(out, m);
        assert(final(out)@ =~= old(out)@ + decimal(i as int));
    } else {
        push_digits(out, i as u64);
    }
}

/// The decimal rendering of an `i32` (what `to_string` gives).
pub fn decimal_string(i: i32) -> (r: String)
    ensures
        r@ == decimal(i as int),
{
    let mut r: String = String::new();
    push_decimal(&mut r, i as i64);
    assert(r@ =~= decimal(i as int));
    r
}

/// Appends `n` with at least two digits (`{:02}`).
pub fn push_pad2(out: &mut String, n: u64)
    ensures
        final(out)@ == old(out)@ + pad2(n as nat),
{
    if n < 10 {
        push_char(out, '0');
    }
    push_digits(out, n);
    assert(final(out)@ =~= old(out)@ + pad2(n as nat));
}

/// Whether `c` is an ASCII decimal digit.
pub open spec fn is_digit(c: char) -> bool {
    '0' <= c <= '9'
}

/// The value of a string of decimal digits.
pub open spec fn digits_value(s: Seq<char>) -> nat
    decreases s.len(),
{
    if s.len() == 0 {
        0
    } else {
        digits_value(s.drop_last()) * 10 + ((s.last() as u32) - ('0' as u32)) as nat
    }
}

/// Whether every character of `s` is an ASCII digit.
pub open spec fn all_digits(s: Seq<char>) -> bool {
    forall|i: int| 0 <= i < s.len() ==> is_digit(#[trigger] s[i])
}

/// `s` without one leading `+`, if it has one.
pub open spec fn unsigned_body(s: Seq<char>) -> Seq<char> {
    if s.len() > 0 && s[0] == '+' {
        s.drop_first()
    } else {
        s
    }
}

/// What `str::parse::<usize>` accepts: an optional `+`, then one or more
/// ASCII digits whose value fits in `usize`.
pub open spec fn parse_usize_spec(s: Seq<char>) -> Option<usize> {
    let body = unsigned_body(s);
    if body.len() > 0 && all_digits(body) && digits_value(body) <= usize::MAX {
        Some(digits_value(body) as usize)
    } else {
        None
    }
}

proof fn lemma_digits_value_prefix(s: Seq<char>, i: int)
    requires
        0 <= i <= s.len(),
        forall|j: int| 0 <= j < s.len() ==> is_digit(#[trigger] s[j]),
    ensures
        digits_value(s.take(i)) <= digits_value(s),
    decreases s.len() - i,
{
    if i < s.len() {
        let t = s.drop_last();
        assert forall|j: int| 0 <= j < t.len() implies is_digit(#[trigger] t[j]) by {
            assert(t[j] == s[j]);
        }
        lemma_digits_value_prefix(t, i);
        assert(t.take(i) =~= s.take(i));
        assert(digits_value(t) <= digits_value(s));
    } else {
        assert(s.take(i) =~= s);
    }
}

/// `str::parse::<usize>`.
pub fn parse_usize(s: &str) -> (r: Option<usize>)
    ensures
        r == parse_usize_spec(s@),
{
    let v: Vec<char> = chars_of(s);
    let start: usize = if v.len() > 0 && v[0] == '+' {
        1
    } else {
        0
    };
    let ghost body: Seq<char> = unsigned_body(v@);
    assert(body =~= v@.subrange(start as int, v@.len() as int));
    if start == v.len() {
        return None;
    }
    let mut value: usize = 0;
    let mut i: usize = start;
    while i < v.len()
        invariant
            v@ == s@,
            start == 1 || start == 0,
            start == 1 <==> (v@.len() > 0 && v@[0] == '+'),
            start < v@.len(),
            body == unsigned_body(v@),
            start <= i <= v@.len(),
            body =~= v@.subrange(start as int, v@.len() as int),
            forall|j: int| start <= j < i ==> is_digit(#[trigger] v@[j]),
            value as nat == digits_value(v@.subrange(start as int, i as int)),
        decreases v@.len() - i,
    {
        let c: char = v[i];
        if !('0' <= c && c <= '9') {
            assert(!is_digit(body[i - start]));
            assert(!all_digits(body));
            return None;
        }
        let d: usize = ((c as u32) - ('0' as u32)) as usize;
        let ghost prefix: Seq<char> = v@.subrange(start as int, i as int + 1);
        assert(prefix.drop_last() =~= v@.subrange(start as int, i as int));
        let m: Option<usize> = value.checked_mul(10);
        assert(digits_value(prefix) == value * 10 + d);
        match m {
            None => {
                proof {
                    lemma_overflow_is_none(v@, start as int, i as int, body);
                }
                return None;
            },
            Some(m) => {
                let a: Option<usize> = m.checked_add(d);
                match a {
                    None => {
                        proof {
                            lemma_overflow_is_none(v@, start as int, i as int, body);
                        }
                        return None;
                    },
                    Some(a) => {
                        value = a;
                    },
                }
            },
        }
        i = i + 1;
    }
    assert(v@.subrange(start as int, v@.len() as int) =~= body);
    Some(value)
}

/// Once the digits read so far exceed `usize::MAX`, no continuation parses.
proof fn lemma_overflow_is_none(v: Seq<char>, start: int, i: int, body: Seq<char>)
    requires
        0 <= start <= i < v.len(),
        body =~= v.subrange(start, v.len() as int),
        forall|j: int| start <= j <= i ==> is_digit(#[trigger] v[j]),
        digits_value(v.subrange(start, i + 1)) > usize::MAX,
    ensures
        body.len() > 0,
        !all_digits(body) || digits_value(body) > usize::MAX,
{
    if all_digits(body) {
        lemma_digits_value_prefix(body, i + 1 - start);
        assert(body.take(i + 1 - start) =~= v.subrange(start, i + 1));
    }
}

} // verus!
