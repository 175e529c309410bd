//! Title normalisation and parsing of the newline-separated suppression list.

use vstd::prelude::*;

use crate::text::{
    chars_of, collapse_whitespace, collapsed_form, is_ws, lemma_collapse_fixed, lemma_collapse_form,
    lemma_first_char, lemma_single_spaced_subrange, lemma_trim_collapsed, lemma_trim_single_spaced, collapse_whitespace_chars, contains_chars, contains_seq,
    copy_range, decimal, ends_with_chars, find_chars, first_occurrence, occurs_at, push_all,
    push_decimal, push_str, starts_with_chars, string_of, trim, trim_chars,
};

verus! {

/// What `char::to_uppercase` yields for `c` (one or more characters, by the
/// Unicode case tables).
pub uninterp spec fn uppercase_of(c: char) -> Seq<char>;

/// Upper-cases one character with `char::to_uppercase`. Trusted, as its
/// documentation gives it: a character with a one-to-one upper-case mapping
/// in the Unicode tables yields that character (for ASCII, `a`..`z` give
/// `A`..`Z`), and one without a mapping (every other ASCII character)
/// yields itself; what other characters give is named by `uppercase_of`.
#[verifier::external_body]
fn char_to_uppercase(c: char) -> (r: Vec<char>)
    ensures
        r@ == uppercase_of(c),
        'a' <= c <= 'z' ==> r@ == seq![((c as u32) - 32) as char],
        (c as u32) < 128 && !('a' <= c <= 'z') ==> r@ == seq![c],
{
    c.to_uppercase().collect()
}

/// Underscores read as spaces in page titles.
pub open spec fn underscores_as_spaces(s: Seq<char>) -> Seq<char> {
    s.map_values(|c: char| if c == '_' { ' ' } else { c })
}

/// The position of the first `c` in `s`.
pub open spec fn first_index_of(s: Seq<char>, c: char) -> Option<int> {
    first_occurrence(s, seq![c])
}

/// The canonical form of a page title: surrounding whitespace dropped,
/// underscores read as spaces, inner whitespace runs collapsed to one space,
/// and, when a `:` namespace separator is present, the namespace trimmed with
/// its first character upper-cased and the text after the colon trimmed.
pub open spec fn normalized_title(input: Seq<char>) -> Seq<char> {
    let collapsed = collapse_whitespace(underscores_as_spaces(trim(input)));
    match first_index_of(collapsed, ':') {
        None => collapsed,
        Some(i) => {
            let prefix = trim(collapsed.take(i));
            let rest = trim(collapsed.skip(i + 1));
            if prefix.len() == 0 {
                collapsed
            } else {
                uppercase_of(prefix[0]) + prefix.drop_first() + seq![':'] + rest
            }
        },
    }
}

/// What `char::to_uppercase` yields for an ASCII character: `a`..`z`
/// become `A`..`Z`, every other character stays.
pub open spec fn ascii_upper(c: char) -> Seq<char> {
    if 'a' <= c <= 'z' {
        seq![((c as u32) - 32) as char]
    } else {
        seq![c]
    }
}

/// The first character of the namespace that `normalized_title` upper-cases,
/// when there is one.
pub open spec fn namespace_initial(input: Seq<char>) -> Option<char> {
    let collapsed = collapse_whitespace(underscores_as_spaces(trim(input)));
    match first_index_of(collapsed, ':') {
        None => None,
        Some(i) => {
            let prefix = trim(collapsed.take(i));
            if prefix.len() == 0 {
                None
            } else {
                Some(prefix[0])
            }
        },
    }
}

/// `normalized_title` with the namespace initial upper-cased as an ASCII
/// character is: what `normalized_title` gives whenever that initial is
/// ASCII (or there is none).
pub open spec fn normalized_ascii_title(input: Seq<char>) -> Seq<char> {
    let collapsed = collapse_whitespace(underscores_as_spaces(trim(input)));
    match first_index_of(collapsed, ':') {
        None => collapsed,
        Some(i) => {
            let prefix = trim(collapsed.take(i));
            let rest = trim(collapsed.skip(i + 1));
            if prefix.len() == 0 {
                collapsed
            } else {
                ascii_upper(prefix[0]) + prefix.drop_first() + seq![':'] + rest
            }
        },
    }
}

/// Whether the namespace initial of `input`, if any, is ASCII, so that
/// `normalized_title` and `normalized_ascii_title` agree on it.
pub open spec fn ascii_initial(input: Seq<char>) -> bool {
    match namespace_initial(input) {
        Some(c) => (c as u32) < 128,
        None => true,
    }
}

fn underscores_as_spaces_chars(v: &Vec<char>) -> (r: Vec<char>)
    ensures
        r@ == underscores_as_spaces(v@),
{
    let mut r: Vec<char> = Vec::new();
    let mut i: usize = 0;
    while i < v.len()
        invariant
            i <= v.len(),
            r@ == underscores_as_spaces(v@.subrange(0, i as int)),
        decreases v.len() - i,
    {
        let c = v[i];
        r.push(if c == '_' { ' ' } else { c });
        i = i + 1;
        assert(r@ =~= underscores_as_spaces(v@.subrange(0, i as int)));
    }
    assert(v@.subrange(0, v.len() as int) =~= v@);
    r
}

/// Upper-cased first character of `prefix`, the rest of `prefix`, a colon, then `rest`.
fn join_namespace(prefix: &Vec<char>, rest: &Vec<char>) -> (r: Vec<char>)
    requires
        prefix.len() > 0,
    ensures
        r@ == uppercase_of(prefix@[0]) + prefix@.drop_first() + seq![':'] + rest@,
        (prefix@[0] as u32) < 128 ==> r@ == ascii_upper(prefix@[0]) + prefix@.drop_first() + seq![':'] + rest@,
{
    let mut out = char_to_uppercase(prefix[0]);
    let after_first = copy_range(prefix, 1, prefix.len());
    assert(after_first@ =~= prefix@.drop_first());
    push_all(&mut out, &after_first);
    out.push(':');
    push_all(&mut out, rest);
    assert(out@ =~= uppercase_of(prefix@[0]) + prefix@.drop_first() + seq![':'] + rest@);
    proof {
        if (prefix@[0] as u32) < 128 {
            assert(uppercase_of(prefix@[0]) == ascii_upper(prefix@[0]));
        }
    }
    out
}

/// The canonical form of the title held in `v`.
pub fn normalize_title_chars(v: &Vec<char>) -> (r: Vec<char>)
    ensures
        r@ == normalized_title(v@),
        ascii_initial(v@) ==> r@ == normalized_ascii_title(v@),
{
    let trimmed = trim_chars(v);
    let replaced = underscores_as_spaces_chars(&trimmed);
    let collapsed = collapse_whitespace_chars(&replaced);
    let ghost c = collapsed@;
    assert(c == collapse_whitespace(underscores_as_spaces(trim(v@))));
    let colon = vec![':'];
    assert(colon@ == seq![':']);
    let found = find_chars(&collapsed, &colon);
    assert(found matches Some(i) ==> first_index_of(c, ':') == Some(i as int));
    assert(found is None ==> first_index_of(c, ':') is None);
    match found {
        None => collapsed,
        Some(i) => {
            assert(occurs_at(c, colon@, i as int));
            assert(i + 1 <= collapsed.len());
            let head = copy_range(&collapsed, 0, i);
            let prefix = trim_chars(&head);
            let tail = copy_range(&collapsed, i + 1, collapsed.len());
            let rest = trim_chars(&tail);
            assert(head@ =~= c.take(i as int));
            assert(tail@ =~= c.skip(i + 1));
            if prefix.len() == 0 {
                collapsed
            } else {
                join_namespace(&prefix, &rest)
            }
        },
    }
}

/// The canonical form of a page title.
pub fn normalize_title(input: &str) -> (r: String)
    ensures
        r@ == normalized_title(input@),
        ascii_initial(input@) ==> r@ == normalized_ascii_title(input@),
{
    let v = chars_of(input);
    let n = normalize_title_chars(&v);
    string_of(&n)
}

/// The text a title is collapsed to before its namespace is looked at.
pub open spec fn collapsed_title(input: Seq<char>) -> Seq<char> {
    collapse_whitespace(underscores_as_spaces(trim(input)))
}

/// Whether `s` holds no underscore.
pub open spec fn no_underscore(s: Seq<char>) -> bool {
    forall|i: int| 0 <= i < s.len() ==> #[trigger] s[i] != '_'
}

proof fn lemma_collapsed_title_clean(input: Seq<char>)
    ensures
        collapsed_form(collapsed_title(input)),
        no_underscore(collapsed_title(input)),
{
    let u = underscores_as_spaces(trim(input));
    lemma_collapse_form(u);
    let c = collapsed_title(input);
    assert forall|i: int| 0 <= i < c.len() implies #[trigger] c[i] != '_' by {
        if c[i] != ' ' {
            assert(u.contains(c[i]));
            let j = choose|j: int| 0 <= j < u.len() && u[j] == c[i];
            assert(u[j] != '_');
        }
    }
}

proof fn lemma_clean_title_fixed(c: Seq<char>)
    requires
        collapsed_form(c),
        no_underscore(c),
    ensures
        collapsed_title(c) == c,
{
    lemma_trim_collapsed(c);
    assert(underscores_as_spaces(c) =~= c);
    lemma_collapse_fixed(c);
}

proof fn lemma_ascii_upper_char(c: char)
    requires
        !is_ws(c),
        c != ':',
        c != '_',
    ensures
        ascii_upper(c).len() == 1,
        !is_ws(ascii_upper(c)[0]),
        ascii_upper(c)[0] != ':',
        ascii_upper(c)[0] != '_',
        ascii_upper(ascii_upper(c)[0]) == ascii_upper(c),
        (c as u32) < 128 ==> (ascii_upper(c)[0] as u32) < 128,
{
    if 'a' <= c <= 'z' {
        let n = (c as u32) - 32;
        assert(65 <= n <= 90);
        let u = n as char;
        assert(u as u32 == n);
        assert(!('a' <= u <= 'z'));
    }
}

/// Normalising a title gives canonical text, and normalising that again
/// changes nothing: its only whitespace is single spaces between other
/// characters, it holds no underscore, and its namespace initial (if any)
/// is the upper-cased initial of the input's.
pub proof fn normalized_title_is_canonical(input: Seq<char>)
    ensures
        collapsed_form(normalized_ascii_title(input)),
        no_underscore(normalized_ascii_title(input)),
        normalized_ascii_title(normalized_ascii_title(input)) == normalized_ascii_title(input),
        namespace_initial(normalized_ascii_title(input)) == match namespace_initial(input) {
            Some(c) => Some(ascii_upper(c)[0]),
            None => None::<char>,
        },
        ascii_initial(input) ==> ascii_initial(normalized_ascii_title(input)),
{
    let c = collapsed_title(input);
    let n = normalized_ascii_title(input);
    lemma_collapsed_title_clean(input);
    lemma_first_char(c, ':');
    match first_index_of(c, ':') {
        None => {
            lemma_clean_title_fixed(c);
        },
        Some(i) => {
            let head = c.take(i);
            assert(head =~= c.subrange(0, i));
            lemma_single_spaced_subrange(c, 0, i);
            lemma_trim_single_spaced(head);
            let p = trim(head);
            let (a, b) = choose|a: int, b: int|
                0 <= a <= b <= head.len() && trim(head) == head.subrange(a, b) && a <= 1 && b >= head.len() - 1;
            assert forall|k: int| 0 <= k < p.len() implies #[trigger] p[k] != ':' && p[k] != '_' by {
                assert(p[k] == c[a + k]);
            }
            if p.len() == 0 {
                lemma_clean_title_fixed(c);
            } else {
                let tail = c.skip(i + 1);
                assert(tail =~= c.subrange(i + 1, c.len() as int));
                lemma_single_spaced_subrange(c, i + 1, c.len() as int);
                lemma_trim_single_spaced(tail);
                let r = trim(tail);
                let (a2, b2) = choose|a2: int, b2: int|
                    0 <= a2 <= b2 <= tail.len() && trim(tail) == tail.subrange(a2, b2) && a2 <= 1 && b2 >= tail.len()
                        - 1;
                assert forall|k: int| 0 <= k < r.len() implies #[trigger] r[k] != '_' by {
                    assert(r[k] == c[i + 1 + a2 + k]);
                }
                let p0 = p[0];
                lemma_ascii_upper_char(p0);
                let u = ascii_upper(p0)[0];
                let q = p.drop_first();
                let len_p = p.len() as int;
                assert(ascii_upper(p0) =~= seq![u]);
                assert(n =~= seq![u] + q + seq![':'] + r);
                // n, position by position
                assert forall|k: int| 1 <= k < len_p implies #[trigger] n[k] == p[k] by {
                    assert(q[k - 1] == p[k]);
                }
                assert(n[0] == u);
                assert(n[len_p] == ':');
                assert forall|k: int| len_p < k < n.len() implies #[trigger] n[k] == r[k - len_p - 1] by {}
                assert(n.len() == len_p + 1 + r.len());
                assert forall|k: int| 0 <= k < n.len() implies #[trigger] n[k] != '_' by {
                    if 1 <= k < len_p {
                        assert(n[k] == p[k]);
                    } else if len_p < k {
                        assert(n[k] == r[k - len_p - 1]);
                    }
                }
                assert forall|k: int| 0 <= k < n.len() && #[trigger] is_ws(n[k]) implies n[k] == ' ' && (k > 0
                    ==> !is_ws(n[k - 1])) && (k + 1 < n.len() ==> !is_ws(n[k + 1])) by {
                    if 1 <= k < len_p {
                        assert(n[k] == p[k]);
                        assert(is_ws(p[k]));
                        if k - 1 >= 1 {
                            assert(n[k - 1] == p[k - 1]);
                        }
                        if k + 1 < len_p {
                            assert(n[k + 1] == p[k + 1]);
                        } else {
                            assert(k == len_p - 1);
                            assert(p.last() == p[k]);
                        }
                    } else if len_p < k {
                        let j = k - len_p - 1;
                        assert(n[k] == r[j]);
                        assert(is_ws(r[j]));
                        if j == 0 {
                            assert(r[0] == r[j]);
                        } else {
                            assert(n[k - 1] == r[j - 1]);
                        }
                        if j + 1 < r.len() {
                            assert(n[k + 1] == r[j + 1]);
                        } else {
                            assert(r.last() == r[j]);
                        }
                    }
                }
                if r.len() > 0 {
                    assert(n.last() == r.last());
                } else {
                    assert(n.last() == ':');
                }
                assert(collapsed_form(n));
                lemma_clean_title_fixed(n);
                lemma_first_char(n, ':');
                assert forall|k: int| 0 <= k < len_p implies #[trigger] n[k] != ':' by {
                    if k >= 1 {
                        assert(n[k] == p[k]);
                    }
                }
                assert(first_index_of(n, ':') == Some(len_p)) by {
                    match first_index_of(n, ':') {
                        Some(j) => {
                            if j < len_p {
                                assert(n[j] != ':');
                            }
                            if j > len_p {
                                assert(n[len_p] == ':');
                            }
                        },
                        None => {
                            assert(n[len_p] == ':');
                        },
                    }
                }
                let head2 = n.take(len_p);
                assert(head2 =~= seq![u] + q);
                assert(head2 =~= n.subrange(0, len_p));
                lemma_single_spaced_subrange(n, 0, len_p);
                assert(head2.last() == n[len_p - 1]);
                if len_p > 1 {
                    assert(n[len_p - 1] == p[len_p - 1]);
                    assert(p.last() == p[len_p - 1]);
                }
                assert(collapsed_form(head2));
                lemma_trim_collapsed(head2);
                let tail2 = n.skip(len_p + 1);
                assert(tail2 =~= r);
                lemma_trim_collapsed(r);
                assert(head2[0] == u);
                assert(head2.drop_first() =~= q);
                assert(ascii_upper(u) =~= seq![u]);
            }
        },
    }
}

/// Splitting state of `str::lines`: the finished lines and the line being read.
pub open spec fn line_state(s: Seq<char>) -> (Seq<Seq<char>>, Seq<char>)
    decreases s.len(),
{
    if s.len() == 0 {
        (Seq::empty(), Seq::empty())
    } else {
        let prev = line_state(s.drop_last());
        if s.last() == '\n' {
            let line = prev.1;
            let line = if line.len() > 0 && line.last() == '\r' { line.drop_last() } else { line };
            (prev.0.push(line), Seq::empty())
        } else {
            (prev.0, prev.1.push(s.last()))
        }
    }
}

/// The lines of `s` as `str::lines` yields them: split at `\n` (a `\r`
/// right before it is dropped), with no empty line after a final `\n`.
pub open spec fn lines_of(s: Seq<char>) -> Seq<Seq<char>> {
    let st = line_state(s);
    if st.1.len() > 0 {
        st.0.push(st.1)
    } else {
        st.0
    }
}

/// The lines of `v`, as `str::lines` splits them.
pub fn lines_chars(v: &Vec<char>) -> (r: Vec<Vec<char>>)
    ensures
        r@.map_values(|l: Vec<char>| l@) == lines_of(v@),
{
    let mut done: Vec<Vec<char>> = Vec::new();
    let mut cur: Vec<char> = Vec::new();
    let mut i: usize = 0;
    while i < v.len()
        invariant
            i <= v.len(),
            (done@.map_values(|l: Vec<char>| l@), cur@) == line_state(v@.subrange(0, i as int)),
        decreases v.len() - i,
    {
        let c = v[i];
        proof {
            let p = v@.subrange(0, i as int + 1);
            assert(p.drop_last() =~= v@.subrange(0, i as int));
            assert(p.last() == c);
        }
        if c == '\n' {
            let mut line = cur;
            if line.len() > 0 && line[line.len() - 1] == '\r' {
                line.pop();
            }
            let ghost before = done@.map_values(|l: Vec<char>| l@);
            done.push(line);
            assert(done@.map_values(|l: Vec<char>| l@) =~= before.push(line@));
            cur = Vec::new();
        } else {
            cur.push(c);
        }
        i = i + 1;
    }
    assert(v@.subrange(0, v.len() as int) =~= v@);
    if cur.len() > 0 {
        let ghost before = done@.map_values(|l: Vec<char>| l@);
        let ghost last = cur@;
        done.push(cur);
        assert(done@.map_values(|l: Vec<char>| l@) =~= before.push(last));
    }
    done
}

/// A line that is a single HTML comment.
pub open spec fn comment_only(line: Seq<char>) -> bool {
    seq!['<', '!', '-', '-'].is_prefix_of(line) && seq!['-', '-', '>'].is_suffix_of(line)
}

/// A line carrying list, heading, link or template markup.
pub open spec fn unsupported_markup(line: Seq<char>) -> bool {
    ||| seq!['*'].is_prefix_of(line)
    ||| seq!['#'].is_prefix_of(line)
    ||| seq!['=', '='].is_prefix_of(line)
    ||| contains_seq(line, seq!['[', '['])
    ||| contains_seq(line, seq!['{', '{'])
    ||| contains_seq(line, seq!['}', '}'])
}

fn is_comment_only(line: &Vec<char>) -> (r: bool)
    ensures
        r == comment_only(line@),
{
    let open = vec!['<', '!', '-', '-'];
    let close = vec!['-', '-', '>'];
    assert(open@ == seq!['<', '!', '-', '-']);
    assert(close@ == seq!['-', '-', '>']);
    starts_with_chars(line, &open) && ends_with_chars(line, &close)
}

fn is_unsupported_markup(line: &Vec<char>) -> (r: bool)
    ensures
        r == unsupported_markup(line@),
{
    let star = vec!['*'];
    let hash = vec!['#'];
    let heading = vec!['=', '='];
    let link = vec!['[', '['];
    let open_template = vec!['{', '{'];
    let close_template = vec!['}', '}'];
    assert(star@ == seq!['*']);
    assert(hash@ == seq!['#']);
    assert(heading@ == seq!['=', '=']);
    assert(link@ == seq!['[', '[']);
    assert(open_template@ == seq!['{', '{']);
    assert(close_template@ == seq!['}', '}']);
    starts_with_chars(line, &star) || starts_with_chars(line, &hash) || starts_with_chars(
        line,
        &heading,
    ) || contains_chars(line, &link) || contains_chars(line, &open_template) || contains_chars(
        line,
        &close_template,
    )
}

/// The warning text for an ignored line (`number` counts from one).
pub open spec fn ignored_line_warning(number: nat, line: Seq<char>) -> Seq<char> {
    "Ignored unsupported source line "@ + decimal(number) + ": "@ + line
}

/// One line of the source list: blank and comment lines are skipped, markup
/// lines give a warning, other lines give their canonical title unless it is
/// empty or already listed.
pub open spec fn parse_step(
    acc: (Seq<Seq<char>>, Seq<Seq<char>>),
    index: nat,
    line: Seq<char>,
) -> (Seq<Seq<char>>, Seq<Seq<char>>) {
    let t = trim(line);
    if t.len() == 0 || comment_only(t) {
        acc
    } else if unsupported_markup(t) {
        (acc.0, acc.1.push(ignored_line_warning(index + 1, t)))
    } else {
        let n = normalized_title(t);
        if n.len() == 0 || acc.0.contains(n) {
            acc
        } else {
            (acc.0.push(n), acc.1)
        }
    }
}

/// The titles and warnings from the first `k` lines.
pub open spec fn parse_lines(lines: Seq<Seq<char>>, k: nat) -> (Seq<Seq<char>>, Seq<Seq<char>>)
    decreases k,
{
    if k == 0 || k > lines.len() {
        (Seq::empty(), Seq::empty())
    } else {
        parse_step(parse_lines(lines, (k - 1) as nat), (k - 1) as nat, lines[k - 1])
    }
}

/// The titles and warnings that the whole source text gives.
pub open spec fn parsed_source(input: Seq<char>) -> (Seq<Seq<char>>, Seq<Seq<char>>) {
    parse_lines(lines_of(input), lines_of(input).len())
}

/// A line of the source list that names a page: neither blank, a comment
/// nor markup, and with a non-empty canonical title.
pub open spec fn title_line(line: Seq<char>) -> bool {
    let t = trim(line);
    &&& t.len() > 0
    &&& !comment_only(t)
    &&& !unsupported_markup(t)
    &&& normalized_title(t).len() > 0
}

/// The titles that the first `k` lines give are the canonical titles of
/// their title lines, each once.
proof fn lemma_parse_lines_titles(lines: Seq<Seq<char>>, k: nat)
    requires
        k <= lines.len(),
    ensures
        parse_lines(lines, k).0.no_duplicates(),
        forall|x: Seq<char>|
            #![trigger parse_lines(lines, k).0.contains(x)]
            parse_lines(lines, k).0.contains(x) <==> exists|j: int|
                0 <= j < k && title_line(lines[j]) && normalized_title(trim(lines[j])) == x,
    decreases k,
{
    if k > 0 {
        let k1 = (k - 1) as nat;
        lemma_parse_lines_titles(lines, k1);
        let prev = parse_lines(lines, k1).0;
        let now = parse_lines(lines, k).0;
        let line = lines[k - 1];
        assert forall|x: Seq<char>| now.contains(x) <==> exists|j: int|
            0 <= j < k && title_line(lines[j]) && normalized_title(trim(lines[j])) == x by {
            if now.contains(x) {
                if prev.contains(x) {
                    let j = choose|j: int| 0 <= j < k1 && title_line(lines[j]) && normalized_title(trim(lines[j])) == x;
                    assert(0 <= j < k);
                } else {
                    assert(now == prev.push(normalized_title(trim(line))));
                    assert(x == normalized_title(trim(line))) by {
                        let i = choose|i: int| 0 <= i < now.len() && now[i] == x;
                        if i < prev.len() {
                            assert(prev[i] == x);
                        }
                    }
                    assert(title_line(lines[k - 1]));
                }
            }
            if exists|j: int| 0 <= j < k && title_line(lines[j]) && normalized_title(trim(lines[j])) == x {
                let j = choose|j: int| 0 <= j < k && title_line(lines[j]) && normalized_title(trim(lines[j])) == x;
                if j < k1 {
                    assert(prev.contains(x));
                    assert(forall|y: Seq<char>| prev.contains(y) ==> now.contains(y)) by {
                        assert forall|y: Seq<char>| prev.contains(y) implies now.contains(y) by {
                            let i = choose|i: int| 0 <= i < prev.len() && prev[i] == y;
                            if now != prev {
                                assert(now == prev.push(normalized_title(trim(line))));
                                assert(now[i] == y);
                            }
                        }
                    }
                } else {
                    if !prev.contains(x) {
                        assert(now == prev.push(x));
                        assert(now[prev.len() as int] == x);
                    }
                }
            }
        }
    }
}

/// The titles of the source text are the canonical titles of its title
/// lines (split as `str::lines` splits), each listed once.
pub proof fn parsed_titles_are_the_title_lines(input: Seq<char>)
    ensures
        parsed_source(input).0.no_duplicates(),
        forall|x: Seq<char>|
            #![trigger parsed_source(input).0.contains(x)]
            parsed_source(input).0.contains(x) <==> exists|j: int|
                0 <= j < lines_of(input).len() && title_line(lines_of(input)[j]) && normalized_title(
                    trim(lines_of(input)[j]),
                ) == x,
{
    lemma_parse_lines_titles(lines_of(input), lines_of(input).len());
}

/// Titles listed on the source page, and the lines that were ignored.
#[derive(Debug, Clone)]
pub struct ParseResult {
    pub titles: Vec<String>,
    pub warnings: Vec<String>,
}

/// The characters of each string.
pub open spec fn views(v: Seq<String>) -> Seq<Seq<char>> {
    v.map_values(|s: String| s@)
}

/// Parses the newline-separated suppression list.
pub fn parse_source_list(input: &str) -> (r: ParseResult)
    ensures
        (views(r.titles@), views(r.warnings@)) == parsed_source(input@),
        views(r.titles@).no_duplicates(),
        forall|i: int| 0 <= i < r.titles@.len() ==> r.titles@[i]@.len() > 0,
{
    let chars = chars_of(input);
    let lines = lines_chars(&chars);
    let ghost lv = lines@.map_values(|l: Vec<char>| l@);
    let mut titles: Vec<String> = Vec::new();
    let mut title_chars: Vec<Vec<char>> = Vec::new();
    let mut warnings: Vec<String> = Vec::new();
    let mut index: usize = 0;
    while index < lines.len()
        invariant
            index <= lines.len(),
            lv == lines@.map_values(|l: Vec<char>| l@),
            lv == lines_of(chars@),
            chars@ == input@,
            (views(titles@), views(warnings@)) == parse_lines(lv, index as nat),
            title_chars@.map_values(|l: Vec<char>| l@) == views(titles@),
            views(titles@).no_duplicates(),
            forall|i: int| 0 <= i < titles@.len() ==> titles@[i]@.len() > 0,
        decreases lines.len() - index,
    {
        let line = &lines[index];
        assert(line@ == lv[index as int]);
        let trimmed = trim_chars(line);
        let ghost before_t = views(titles@);
        let ghost before_w = views(warnings@);
        if trimmed.len() == 0 || is_comment_only(&trimmed) {
        } else if is_unsupported_markup(&trimmed) {
            let mut w: Vec<char> = Vec::new();
            push_str(&mut w, "Ignored unsupported source line ");
            push_decimal(&mut w, index as u64 + 1);
            push_str(&mut w, ": ");
            push_all(&mut w, &trimmed);
            let ws = string_of(&w);
            warnings.push(ws);
            assert(views(warnings@) =~= before_w.push(ignored_line_warning(index as nat + 1, trimmed@)));
        } else {
            let n = normalize_title_chars(&trimmed);
            let mut seen = false;
            let mut k: usize = 0;
            while k < title_chars.len()
                invariant
                    k <= title_chars.len(),
                    title_chars@.map_values(|l: Vec<char>| l@) == views(titles@),
                    seen == exists|j: int| 0 <= j < k && title_chars@[j]@ == n@,
                decreases title_chars.len() - k,
            {
                if vec_char_eq(&title_chars[k], &n) {
                    seen = true;
                }
                k = k + 1;
            }
            proof {
                let tv = views(titles@);
                if tv.contains(n@) {
                    let j = choose|j: int| 0 <= j < tv.len() && tv[j] == n@;
                    assert(title_chars@.map_values(|l: Vec<char>| l@)[j] == title_chars@[j]@);
                }
                if seen {
                    let j = choose|j: int| 0 <= j < k && title_chars@[j]@ == n@;
                    assert(title_chars@.map_values(|l: Vec<char>| l@)[j] == title_chars@[j]@);
                    assert(tv[j] == n@);
                }
            }
            if n.len() > 0 && !seen {
                let s = string_of(&n);
                titles.push(s);
                let ghost tc_before = title_chars@.map_values(|l: Vec<char>| l@);
                title_chars.push(n);
                assert(views(titles@) =~= before_t.push(s@));
                assert(title_chars@.map_values(|l: Vec<char>| l@) =~= tc_before.push(s@));
            }
        }
        index = index + 1;
    }
    ParseResult { titles, warnings }
}

/// Character-wise equality of two character vectors.
pub fn vec_char_eq(a: &Vec<char>, b: &Vec<char>) -> (r: bool)
    ensures
        r == (a@ == b@),
{
    if a.len() != b.len() {
        return false;
    }
    let mut i: usize = 0;
    while i < a.len()
        invariant
            i <= a.len() == b.len(),
            forall|j: int| 0 <= j < i ==> a@[j] == b@[j],
        decreases a.len() - i,
    {
        if a[i] != b[i] {
            return false;
        }
        i = i + 1;
    }
    assert(a@ =~= b@);
    true
}

} // verus!
