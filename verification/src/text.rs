//! Character-level helpers shared by the title, report and configuration code.

use vstd::prelude::*;

verus! {

/// The Unicode `White_Space` property, which `char::is_whitespace` tests.
pub open spec fn is_ws(c: char) -> bool {
    let n = c as u32;
    ||| 0x09 <= n <= 0x0D
    ||| n == 0x20
    ||| n == 0x85
    ||| n == 0xA0
    ||| n == 0x1680
    ||| 0x2000 <= n <= 0x200A
    ||| n == 0x2028
    ||| n == 0x2029
    ||| n == 0x202F
    ||| n == 0x205F
    ||| n == 0x3000
}

pub fn is_whitespace(c: char) -> (r: bool)
    ensures
        r == is_ws(c),
{
    let n = c as u32;
    (0x09 <= n && n <= 0x0D) || n == 0x20 || n == 0x85 || n == 0xA0 || n == 0x1680 || (0x2000
        <= n && n <= 0x200A) || n == 0x2028 || n == 0x2029 || n == 0x202F || n == 0x205F || n
        == 0x3000
}

/// The decimal digit character for `d < 10`.
pub open spec fn digit_char(d: nat) -> char {
    (48 + d) as char
}

/// Decimal rendering of a natural number, most significant digit first.
pub open spec fn decimal(n: nat) -> Seq<char>
    decreases n,
{
    if n < 10 {
        seq![digit_char(n)]
    } else {
        decimal(n / 10).push(digit_char(n % 10))
    }
}

/// Decimal rendering of a signed integer, with a leading `-` when negative.
pub open spec fn signed_decimal(n: int) -> Seq<char> {
    if n < 0 {
        seq!['-'] + decimal((-n) as nat)
    } else {
        decimal(n as nat)
    }
}

/// Appends the decimal digits of `n` to `out`.
pub fn push_decimal(out: &mut Vec<char>, n: u64)
    ensures
        final(out)@ == old(out)@ + decimal(n as nat),
    decreases n,
{
    if n >= 10 {
        push_decimal(out, n / 10);
    }
    let d = (n % 10) as u8;
    let c = (48u8 + d) as char;
    assert(c == digit_char((n % 10) as nat));
    out.push(c);
    proof {
        if n >= 10 {
            assert(decimal(n as nat) == decimal((n / 10) as nat).push(digit_char((n % 10) as nat)));
        }
    }
    assert(out@ =~= old(out)@ + decimal(n as nat)) by {
        if n < 10 {
            assert(decimal(n as nat) == seq![digit_char(n as nat)]);
        }
    }
}

/// Appends the decimal rendering of a signed integer to `out`.
pub fn push_signed_decimal(out: &mut Vec<char>, n: i64)
    ensures
        final(out)@ == old(out)@ + signed_decimal(n as int),
{
    if n < 0 {
        out.push('-');
        let magnitude: u64 = if n == i64::MIN {
            9223372036854775808u64
        } else {
            (-n) as u64
        };
        push_decimal(out, magnitude);
        assert(out@ =~= old(out)@ + signed_decimal(n as int));
    } else {
        push_decimal(out, n as u64);
    }
}

/// The characters of `s`, in order.
#[verifier::external_body]
pub(crate) fn chars_of(s: &str) -> (r: Vec<char>)
    ensures
        r@ == s@,
{
    s.chars().collect()
}

/// The string made of the characters of `v`, in order.
#[verifier::external_body]
pub(crate) fn string_of(v: &Vec<char>) -> (r: String)
    ensures
        r@ == v@,
{
    v.iter().collect()
}

/// Appends the characters of `s` to `out`.
pub fn push_str(out: &mut Vec<char>, s: &str)
    ensures
        final(out)@ == old(out)@ + s@,
{
    let cs = chars_of(s);
    push_all(out, &cs);
}

/// Appends the characters of `cs` to `out`.
pub fn push_all(out: &mut Vec<char>, cs: &Vec<char>)
    ensures
        final(out)@ == old(out)@ + cs@,
{
    let mut i: usize = 0;
    while i < cs.len()
        invariant
            i <= cs.len(),
            out@ == old(out)@ + cs@.subrange(0, i as int),
        decreases cs.len() - i,
    {
        out.push(cs[i]);
        i = i + 1;
        assert(out@ =~= old(out)@ + cs@.subrange(0, i as int));
    }
    assert(cs@.subrange(0, cs.len() as int) =~= cs@);
}

/// The characters of `v` from index `start` up to (not including) `end`.
pub fn copy_range(v: &Vec<char>, start: usize, end: usize) -> (r: Vec<char>)
    requires
        start <= end <= v.len(),
    ensures
        r@ == v@.subrange(start as int, end as int),
{
    let mut r: Vec<char> = Vec::new();
    let mut i = start;
    while i < end
        invariant
            start <= i <= end <= v.len(),
            r@ == v@.subrange(start as int, i as int),
        decreases end - i,
    {
        r.push(v[i]);
        i = i + 1;
        assert(r@ =~= v@.subrange(start as int, i as int));
    }
    r
}

/// `s` without its leading whitespace.
pub closed spec fn trim_start(s: Seq<char>) -> Seq<char>
    decreases s.len(),
{
    if s.len() > 0 && is_ws(s[0]) {
        trim_start(s.drop_first())
    } else {
        s
    }
}

/// `s` without its trailing whitespace.
pub closed spec fn trim_end(s: Seq<char>) -> Seq<char>
    decreases s.len(),
{
    if s.len() > 0 && is_ws(s.last()) {
        trim_end(s.drop_last())
    } else {
        s
    }
}

/// `s` without leading and trailing whitespace, as `str::trim` gives it.
pub open spec fn trim(s: Seq<char>) -> Seq<char> {
    trim_end(trim_start(s))
}

proof fn lemma_trim_start_skip(s: Seq<char>, i: int)
    requires
        0 <= i <= s.len(),
        forall|j: int| 0 <= j < i ==> is_ws(#[trigger] s[j]),
    ensures
        trim_start(s) == trim_start(s.skip(i)),
    decreases i,
{
    if i > 0 {
        assert(is_ws(s[0]));
        let t = s.drop_first();
        assert forall|j: int| 0 <= j < i - 1 implies is_ws(#[trigger] t[j]) by {
            assert(t[j] == s[j + 1]);
        }
        lemma_trim_start_skip(t, i - 1);
        assert(t.skip(i - 1) =~= s.skip(i));
    } else {
        assert(s.skip(0) =~= s);
    }
}

proof fn lemma_trim_end_take(s: Seq<char>, k: int)
    requires
        0 <= k <= s.len(),
        forall|j: int| k <= j < s.len() ==> is_ws(#[trigger] s[j]),
    ensures
        trim_end(s) == trim_end(s.take(k)),
    decreases s.len() - k,
{
    if k < s.len() {
        assert(is_ws(s.last()));
        let t = s.drop_last();
        assert forall|j: int| k <= j < t.len() implies is_ws(#[trigger] t[j]) by {
            assert(t[j] == s[j]);
        }
        lemma_trim_end_take(t, k);
        assert(t.take(k) =~= s.take(k));
    } else {
        assert(s.take(k) =~= s);
    }
}

/// `s` without its leading whitespace.
pub fn trim_start_chars(v: &Vec<char>) -> (r: Vec<char>)
    ensures
        r@ == trim_start(v@),
{
    let mut i: usize = 0;
    while i < v.len() && is_whitespace(v[i])
        invariant
            i <= v.len(),
            forall|j: int| 0 <= j < i ==> is_ws(#[trigger] v@[j]),
        decreases v.len() - i,
    {
        i = i + 1;
    }
    proof {
        lemma_trim_start_skip(v@, i as int);
        assert(v@.skip(i as int) =~= v@.subrange(i as int, v.len() as int));
    }
    copy_range(v, i, v.len())
}

/// `s` without its trailing whitespace.
pub fn trim_end_chars(v: &Vec<char>) -> (r: Vec<char>)
    ensures
        r@ == trim_end(v@),
{
    let mut k: usize = v.len();
    while k > 0 && is_whitespace(v[k - 1])
        invariant
            k <= v.len(),
            forall|j: int| k <= j < v.len() ==> is_ws(#[trigger] v@[j]),
        decreases k,
    {
        k = k - 1;
    }
    proof {
        lemma_trim_end_take(v@, k as int);
        assert(v@.take(k as int) =~= v@.subrange(0, k as int));
        let t = v@.take(k as int);
        assert(trim_end(t) == t);
    }
    copy_range(v, 0, k)
}

/// `s` without leading and trailing whitespace.
pub fn trim_chars(v: &Vec<char>) -> (r: Vec<char>)
    ensures
        r@ == trim(v@),
{
    let a = trim_start_chars(v);
    trim_end_chars(&a)
}

/// One step of whitespace collapsing: whitespace only marks a gap, and a
/// gap becomes a single space once a further word follows it.
pub open spec fn collapse_step(acc: (Seq<char>, bool), c: char) -> (Seq<char>, bool) {
    if is_ws(c) {
        (acc.0, true)
    } else if acc.1 && acc.0.len() > 0 {
        (acc.0.push(' ').push(c), false)
    } else {
        (acc.0.push(c), false)
    }
}

pub closed spec fn collapse_state(s: Seq<char>) -> (Seq<char>, bool)
    decreases s.len(),
{
    if s.len() == 0 {
        (Seq::empty(), false)
    } else {
        collapse_step(collapse_state(s.drop_last()), s.last())
    }
}

/// The whitespace-separated words of `s` joined by single spaces, as
/// `s.split_whitespace().collect::<Vec<_>>().join(" ")` gives them.
pub open spec fn collapse_whitespace(s: Seq<char>) -> Seq<char> {
    collapse_state(s).0
}

/// The whitespace-separated words of `v` joined by single spaces.
pub fn collapse_whitespace_chars(v: &Vec<char>) -> (r: Vec<char>)
    ensures
        r@ == collapse_whitespace(v@),
{
    let mut out: Vec<char> = Vec::new();
    let mut gap = false;
    let mut i: usize = 0;
    while i < v.len()
        invariant
            i <= v.len(),
            (out@, gap) == collapse_state(v@.subrange(0, i as int)),
        decreases v.len() - i,
    {
        let c = v[i];
        proof {
            let p = v@.subrange(0, i as int + 1);
            assert(p.drop_last() =~= v@.subrange(0, i as int));
            assert(p.last() == c);
        }
        if is_whitespace(c) {
            gap = true;
        } else if gap && out.len() > 0 {
            out.push(' ');
            out.push(c);
            gap = false;
        } else {
            out.push(c);
            gap = false;
        }
        i = i + 1;
    }
    assert(v@.subrange(0, v.len() as int) =~= v@);
    out
}

/// Every whitespace character of `s` is a single space, with no other
/// whitespace beside it.
pub open spec fn single_spaced(s: Seq<char>) -> bool {
    forall|i: int|
        0 <= i < s.len() && #[trigger] is_ws(s[i]) ==> s[i] == ' ' && (i > 0 ==> !is_ws(s[i - 1])) && (i + 1
            < s.len() ==> !is_ws(s[i + 1]))
}

/// `s` is in collapsed form: single-spaced, with no whitespace at either
/// end.
pub open spec fn collapsed_form(s: Seq<char>) -> bool {
    &&& single_spaced(s)
    &&& s.len() > 0 ==> !is_ws(s[0]) && !is_ws(s.last())
}

/// The state of collapsing `s` is collapsed text, and the only characters
/// it holds are spaces and characters of `s`.
proof fn lemma_collapse_state_form(s: Seq<char>)
    ensures
        collapsed_form(collapse_state(s).0),
        forall|i: int|
            0 <= i < collapse_state(s).0.len() ==> #[trigger] collapse_state(s).0[i] == ' ' || s.contains(
                collapse_state(s).0[i],
            ),
    decreases s.len(),
{
    if s.len() > 0 {
        let p = s.drop_last();
        lemma_collapse_state_form(p);
        let acc = collapse_state(p);
        let c = s.last();
        let out = collapse_state(s).0;
        assert(forall|x: char| p.contains(x) ==> s.contains(x)) by {
            assert forall|x: char| p.contains(x) implies s.contains(x) by {
                let j = choose|j: int| 0 <= j < p.len() && p[j] == x;
                assert(s[j] == x);
            }
        }
        assert(s.contains(c)) by {
            assert(s[s.len() - 1] == c);
        }
        if !is_ws(c) {
            assert forall|i: int| 0 <= i < out.len() implies #[trigger] out[i] == ' ' || s.contains(out[i]) by {
                if i < acc.0.len() {
                    assert(out[i] == acc.0[i]);
                }
            }
            assert forall|i: int| 0 <= i < out.len() && #[trigger] is_ws(out[i]) implies out[i] == ' ' && (i > 0
                ==> !is_ws(out[i - 1])) && (i + 1 < out.len() ==> !is_ws(out[i + 1])) by {
                if i + 1 < acc.0.len() {
                    assert(out[i] == acc.0[i] && out[i + 1] == acc.0[i + 1]);
                    if i > 0 {
                        assert(out[i - 1] == acc.0[i - 1]);
                    }
                } else if i + 1 == acc.0.len() {
                    assert(out[i] == acc.0.last());
                } else if i == acc.0.len() {
                } else {
                }
            }
        }
    }
}

/// Collapsing gives collapsed text.
pub proof fn lemma_collapse_form(s: Seq<char>)
    ensures
        collapsed_form(collapse_whitespace(s)),
        forall|i: int|
            0 <= i < collapse_whitespace(s).len() ==> #[trigger] collapse_whitespace(s)[i] == ' '
                || s.contains(collapse_whitespace(s)[i]),
{
    lemma_collapse_state_form(s);
}

proof fn lemma_collapse_state_prefix(s: Seq<char>, k: int)
    requires
        collapsed_form(s),
        0 <= k <= s.len(),
    ensures
        collapse_state(s.take(k)) == if k > 0 && s[k - 1] == ' ' {
            (s.take(k - 1), true)
        } else {
            (s.take(k), false)
        },
    decreases k,
{
    if k > 0 {
        lemma_collapse_state_prefix(s, k - 1);
        let t = s.take(k);
        assert(t.drop_last() =~= s.take(k - 1));
        assert(t.last() == s[k - 1]);
        if is_ws(s[k - 1]) {
            assert(s[k - 1] == ' ');
            assert(k - 1 > 0);
            assert(!is_ws(s[k - 2]));
        } else {
            if k >= 2 && s[k - 2] == ' ' {
                assert(is_ws(s[k - 2]));
                assert(k - 2 > 0);
                assert(s.take(k - 2).push(' ').push(s[k - 1]) =~= s.take(k));
            } else {
                if k >= 2 {
                    assert(!is_ws(s[k - 2])) by {
                        if is_ws(s[k - 2]) {
                            assert(s[k - 2] == ' ');
                        }
                    }
                }
                assert(s.take(k - 1).push(s[k - 1]) =~= s.take(k));
            }
        }
    } else {
        assert(s.take(0) =~= Seq::<char>::empty());
    }
}

/// Collapsed text collapses to itself.
pub proof fn lemma_collapse_fixed(s: Seq<char>)
    requires
        collapsed_form(s),
    ensures
        collapse_whitespace(s) == s,
{
    lemma_collapse_state_prefix(s, s.len() as int);
    assert(s.take(s.len() as int) =~= s);
    if s.len() > 0 {
        assert(!is_ws(s.last()));
        assert(s[s.len() - 1] != ' ');
    }
}

/// Trimming single-spaced text drops at most one space at each end and
/// leaves collapsed text.
pub proof fn lemma_trim_single_spaced(s: Seq<char>)
    requires
        single_spaced(s),
    ensures
        collapsed_form(trim(s)),
        exists|a: int, b: int|
            0 <= a <= b <= s.len() && trim(s) == s.subrange(a, b) && a <= 1 && b >= s.len() - 1,
{
    let a: int = if s.len() > 0 && is_ws(s[0]) { 1 } else { 0 };
    let t = s.skip(a);
    assert(trim_start(s) == t) by {
        if a == 1 {
            let d = s.drop_first();
            assert(d =~= t);
            reveal_with_fuel(trim_start, 2);
            if d.len() > 0 {
                assert(d[0] == s[1]);
                assert(!is_ws(s[1]));
            }
        } else {
            assert(s.skip(0) =~= s);
        }
    }
    let b: int = if t.len() > 0 && is_ws(t.last()) { s.len() - 1 } else { s.len() as int };
    let u = s.subrange(a, b);
    assert(trim_end(t) == u) by {
        if b == s.len() - 1 {
            let d = t.drop_last();
            assert(d =~= u);
            reveal_with_fuel(trim_end, 2);
            if d.len() > 0 {
                assert(d.last() == s[s.len() - 2]);
                assert(t.last() == s[s.len() - 1]);
                assert(!is_ws(s[s.len() - 2]));
            }
        } else {
            assert(t =~= u);
        }
    }
    assert forall|i: int| 0 <= i < u.len() && #[trigger] is_ws(u[i]) implies u[i] == ' ' && (i > 0 ==> !is_ws(
        u[i - 1])) && (i + 1 < u.len() ==> !is_ws(u[i + 1])) by {
        assert(u[i] == s[a + i]);
        assert(is_ws(s[a + i]));
        if i > 0 {
            assert(u[i - 1] == s[a + i - 1]);
        }
        if i + 1 < u.len() {
            assert(u[i + 1] == s[a + i + 1]);
        }
    }
    if u.len() > 0 {
        assert(u[0] == s[a]);
        assert(u.last() == s[b - 1]);
        if is_ws(s[a]) {
            if a == 1 {
                assert(!is_ws(s[1]));
            }
        }
    }
}

/// A subrange of single-spaced text is single-spaced.
pub proof fn lemma_single_spaced_subrange(s: Seq<char>, a: int, b: int)
    requires
        single_spaced(s),
        0 <= a <= b <= s.len(),
    ensures
        single_spaced(s.subrange(a, b)),
{
    let u = s.subrange(a, b);
    assert forall|i: int| 0 <= i < u.len() && #[trigger] is_ws(u[i]) implies u[i] == ' ' && (i > 0 ==> !is_ws(
        u[i - 1])) && (i + 1 < u.len() ==> !is_ws(u[i + 1])) by {
        assert(u[i] == s[a + i]);
        assert(is_ws(s[a + i]));
        if i > 0 {
            assert(u[i - 1] == s[a + i - 1]);
        }
        if i + 1 < u.len() {
            assert(u[i + 1] == s[a + i + 1]);
        }
    }
}

/// Collapsed text is its own trim.
pub proof fn lemma_trim_collapsed(s: Seq<char>)
    requires
        collapsed_form(s),
    ensures
        trim(s) == s,
{
    reveal_with_fuel(trim_start, 2);
    reveal_with_fuel(trim_end, 2);
}

/// ASCII lower-casing of one character, as `char::to_ascii_lowercase` does it.
pub open spec fn ascii_lower(c: char) -> char {
    if 'A' <= c <= 'Z' {
        ((c as u32) + 32) as char
    } else {
        c
    }
}

pub fn ascii_lower_char(c: char) -> (r: char)
    ensures
        r == ascii_lower(c),
{
    if 'A' <= c && c <= 'Z' {
        let b = c as u8;
        (b + 32) as char
    } else {
        c
    }
}

/// ASCII lower-casing of every character of `v`.
pub fn ascii_lower_chars(v: &Vec<char>) -> (r: Vec<char>)
    ensures
        r@ == v@.map_values(|c: char| ascii_lower(c)),
{
    let mut r: Vec<char> = Vec::new();
    let mut i: usize = 0;
    while i < v.len()
        invariant
            i <= v.len(),
            r@ == v@.subrange(0, i as int).map_values(|c: char| ascii_lower(c)),
        decreases v.len() - i,
    {
        r.push(ascii_lower_char(v[i]));
        i = i + 1;
        assert(r@ =~= v@.subrange(0, i as int).map_values(|c: char| ascii_lower(c)));
    }
    assert(v@.subrange(0, v.len() as int) =~= v@);
    r
}

/// `needle` occurs in `hay` at position `i`.
pub open spec fn occurs_at(hay: Seq<char>, needle: Seq<char>, i: int) -> bool {
    0 <= i && i + needle.len() <= hay.len() && hay.subrange(i, i + needle.len()) == needle
}

/// `needle` occurs somewhere in `hay`, as `str::contains` tests it.
pub open spec fn contains_seq(hay: Seq<char>, needle: Seq<char>) -> bool {
    exists|i: int| occurs_at(hay, needle, i)
}

/// The first position of `needle` in `hay`, as `str::find` returns it.
pub closed spec fn first_occurrence(hay: Seq<char>, needle: Seq<char>) -> Option<int> {
    if contains_seq(hay, needle) {
        Some(choose|i: int| occurs_at(hay, needle, i) && forall|j: int| 0 <= j < i ==> !occurs_at(hay, needle, j))
    } else {
        None
    }
}

proof fn lemma_occurs_char(s: Seq<char>, c: char, i: int)
    ensures
        occurs_at(s, seq![c], i) <==> (0 <= i < s.len() && s[i] == c),
{
    if 0 <= i < s.len() {
        if s[i] == c {
            assert(s.subrange(i, i + 1) =~= seq![c]);
        } else {
            assert(s.subrange(i, i + 1)[0] == s[i]);
        }
    }
}

/// The first position of one character is where it first occurs.
pub proof fn lemma_first_char(s: Seq<char>, c: char)
    ensures
        match first_occurrence(s, seq![c]) {
            Some(i) => 0 <= i < s.len() && s[i] == c && forall|j: int| 0 <= j < i ==> s[j] != c,
            None => forall|j: int| 0 <= j < s.len() ==> s[j] != c,
        },
{
    assert forall|i: int| occurs_at(s, seq![c], i) <==> (0 <= i < s.len() && s[i] == c) by {
        lemma_occurs_char(s, c, i);
    }
    if contains_seq(s, seq![c]) {
        let i = choose|i: int| occurs_at(s, seq![c], i) && forall|j: int| 0 <= j < i ==> !occurs_at(s, seq![c], j);
        let k0 = choose|k: int| occurs_at(s, seq![c], k);
        assert(exists|i: int| occurs_at(s, seq![c], i) && forall|j: int| 0 <= j < i ==> !occurs_at(s, seq![c], j)) by {
            lemma_least_char(s, c, k0);
        }
        assert(occurs_at(s, seq![c], i));
    } else {
        assert forall|j: int| 0 <= j < s.len() implies s[j] != c by {
            if s[j] == c {
                assert(occurs_at(s, seq![c], j));
            }
        }
    }
}

proof fn lemma_least_char(s: Seq<char>, c: char, k: int)
    requires
        occurs_at(s, seq![c], k),
    ensures
        exists|i: int| occurs_at(s, seq![c], i) && forall|j: int| 0 <= j < i ==> !occurs_at(s, seq![c], j),
    decreases k,
{
    if exists|j: int| 0 <= j < k && occurs_at(s, seq![c], j) {
        let j = choose|j: int| 0 <= j < k && occurs_at(s, seq![c], j);
        lemma_least_char(s, c, j);
    } else {
        assert(occurs_at(s, seq![c], k) && forall|j: int| 0 <= j < k ==> !occurs_at(s, seq![c], j));
    }
}

/// Whether `needle` occurs in `hay` at position `i`.
pub fn occurs_at_exec(hay: &Vec<char>, needle: &Vec<char>, i: usize) -> (r: bool)
    ensures
        r == occurs_at(hay@, needle@, i as int),
{
    if i > hay.len() || needle.len() > hay.len() - i {
        return false;
    }
    let mut k: usize = 0;
    while k < needle.len()
        invariant
            i + needle.len() <= hay.len(),
            k <= needle.len(),
            forall|j: int| 0 <= j < k ==> hay@[i + j] == needle@[j],
        decreases needle.len() - k,
    {
        if hay[i + k] != needle[k] {
            assert(hay@.subrange(i as int, i + needle.len())[k as int] != needle@[k as int]);
            return false;
        }
        k = k + 1;
    }
    assert(hay@.subrange(i as int, i + needle.len()) =~= needle@);
    true
}

/// The first position of `needle` in `hay`.
pub fn find_chars(hay: &Vec<char>, needle: &Vec<char>) -> (r: Option<usize>)
    ensures
        r matches Some(i) ==> first_occurrence(hay@, needle@) == Some(i as int) && occurs_at(
            hay@,
            needle@,
            i as int,
        ),
        r is None ==> first_occurrence(hay@, needle@) is None,
{
    let mut i: usize = 0;
    loop
        invariant
            i <= hay.len(),
            forall|j: int| 0 <= j < i ==> !occurs_at(hay@, needle@, j),
        decreases hay.len() - i,
    {
        if occurs_at_exec(hay, needle, i) {
            proof {
                assert(occurs_at(hay@, needle@, i as int));
                assert(contains_seq(hay@, needle@));
            }
            return Some(i);
        }
        if i == hay.len() {
            proof {
                assert forall|k: int| !occurs_at(hay@, needle@, k) by {
                    if 0 <= k && k + needle@.len() <= hay@.len() {
                        assert(k <= i);
                    }
                }
            }
            return None;
        }
        i = i + 1;
    }
}

/// Whether `needle` occurs in `hay`.
pub fn contains_chars(hay: &Vec<char>, needle: &Vec<char>) -> (r: bool)
    ensures
        r == contains_seq(hay@, needle@),
{
    match find_chars(hay, needle) {
        Some(i) => true,
        None => false,
    }
}

/// Whether `s` starts with `prefix`.
pub fn starts_with_chars(s: &Vec<char>, prefix: &Vec<char>) -> (r: bool)
    ensures
        r == prefix@.is_prefix_of(s@),
{
    if prefix.len() > s.len() {
        return false;
    }
    let r = occurs_at_exec(s, prefix, 0);
    proof {
        if r {
            assert(s@.subrange(0, prefix@.len() as int) == prefix@);
        } else if prefix@.is_prefix_of(s@) {
            assert(s@.subrange(0, prefix@.len() as int) =~= prefix@);
        }
    }
    r
}

/// Whether `s` ends with `suffix`.
pub fn ends_with_chars(s: &Vec<char>, suffix: &Vec<char>) -> (r: bool)
    ensures
        r == suffix@.is_suffix_of(s@),
{
    if suffix.len() > s.len() {
        return false;
    }
    let r = occurs_at_exec(s, suffix, s.len() - suffix.len());
    proof {
        let k = s@.len() - suffix@.len();
        if r {
            assert(s@.subrange(k, s@.len() as int) == suffix@);
        } else if suffix@.is_suffix_of(s@) {
            assert(s@.subrange(k, s@.len() as int) =~= suffix@);
        }
    }
    r
}

/// Character-wise equality of two character vectors.
pub fn chars_eq(a: &Vec<char>, b: &Vec<char>) -> (r: bool)
    ensures
        r == (a@ == b@),
{
    if a.len() != b.len() {
        return false;
    }
    let mut i: usize = 0;
    while i < a.len()
        invariant
            i <= a.len() == b.len(),
            forall|j: int| 0 <= j < i ==> a@[j] == b@[j],
        decreases a.len() - i,
    {
        if a[i] != b[i] {
            return false;
        }
        i = i + 1;
    }
    assert(a@ =~= b@);
    true
}

/// Whether two strings hold the same characters.
pub fn str_eq(a: &str, b: &str) -> (r: bool)
    ensures
        r == (a@ == b@),
{
    let x = chars_of(a);
    let y = chars_of(b);
    chars_eq(&x, &y)
}

/// Whether `v` holds a string with the characters of `s`.
pub open spec fn has_text(v: Seq<String>, s: Seq<char>) -> bool {
    exists|i: int| 0 <= i < v.len() && v[i]@ == s
}

/// Whether `v` holds a string equal to `s`.
pub fn vec_has_str(v: &Vec<String>, s: &str) -> (r: bool)
    ensures
        r == has_text(v@, s@),
{
    let mut i: usize = 0;
    while i < v.len()
        invariant
            i <= v.len(),
            forall|j: int| 0 <= j < i ==> v@[j]@ != s@,
        decreases v.len() - i,
    {
        if str_eq(v[i].as_str(), s) {
            return true;
        }
        i = i + 1;
    }
    false
}

/// Whether an optional string holds exactly `s`.
pub open spec fn opt_is(o: Option<String>, s: Seq<char>) -> bool {
    o matches Some(v) && v@ == s
}

/// Whether an optional string holds exactly `s`.
pub fn opt_str_is(o: &Option<String>, s: &str) -> (r: bool)
    ensures
        r == opt_is(*o, s@),
{
    match o {
        Some(v) => str_eq(v.as_str(), s),
        None => false,
    }
}

/// A copy of the string.
pub fn copy_string(s: &String) -> (r: String)
    ensures
        r@ == s@,
{
    s.clone()
}

/// A string holding the characters of `s`.
pub fn owned(s: &str) -> (r: String)
    ensures
        r@ == s@,
{
    let v = chars_of(s);
    string_of(&v)
}

/// A copy of an optional string.
pub fn copy_opt_string(s: &Option<String>) -> (r: Option<String>)
    ensures
        r == *s,
{
    match s {
        Some(v) => Some(v.clone()),
        None => None,
    }
}

} // verus!
