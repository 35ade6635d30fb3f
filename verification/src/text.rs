//! Character-level helpers shared by the parsers, filters and formatters.
//!
//! Text is handled as sequences of `char`; the functions here are stated over
//! `Seq<char>` and run over `Vec<char>` or `&str`.

use vstd::prelude::*;

verus! {

/// What `str::to_lowercase` returns for a text: its Unicode lowercase form.
pub uninterp spec fn lowercased(s: Seq<char>) -> Seq<char>;

/// What `str::to_uppercase` returns for a text: its Unicode uppercase form.
pub uninterp spec fn uppercased(s: Seq<char>) -> Seq<char>;

/// `String::push` appends one character.
pub assume_specification[ String::push ](s: &mut String, c: char)
    ensures
        final(s)@ == old(s)@.push(c),
;

/// `str::to_lowercase` maps a text to its Unicode lowercase form, which is a
/// function of the text alone.
pub assume_specification[ str::to_lowercase ](s: &str) -> (r: String)
    ensures
        r@ == lowercased(s@),
;

/// `str::to_uppercase` maps a text to its Unicode uppercase form, which is a
/// function of the text alone.
pub assume_specification[ str::to_uppercase ](s: &str) -> (r: String)
    ensures
        r@ == uppercased(s@),
;

pub open spec fn is_digit(c: char) -> bool {
    '0' <= c && c <= '9'
}

/// Unicode white space: the characters that trimming and token splitting skip.
pub open spec fn is_space(c: char) -> bool {
    ||| ('\u{9}' <= c && c <= '\u{D}')
    ||| c == ' '
    ||| c == '\u{85}'
    ||| c == '\u{A0}'
    ||| c == '\u{1680}'
    ||| ('\u{2000}' <= c && c <= '\u{200A}')
    ||| c == '\u{2028}'
    ||| c == '\u{2029}'
    ||| c == '\u{202F}'
    ||| c == '\u{205F}'
    ||| c == '\u{3000}'
}

/// `s` without its leading white space.
pub open spec fn trimmed_start(s: Seq<char>) -> Seq<char>
    decreases s.len(),
{
    if s.len() > 0 && is_space(s[0]) {
        trimmed_start(s.drop_first())
    } else {
        s
    }
}

/// `s` without its trailing white space.
pub open spec fn trimmed_end(s: Seq<char>) -> Seq<char>
    decreases s.len(),
{
    if s.len() > 0 && is_space(s.last()) {
        trimmed_end(s.drop_last())
    } else {
        s
    }
}

/// `s` without leading and trailing white space.
pub open spec fn trimmed(s: Seq<char>) -> Seq<char> {
    trimmed_end(trimmed_start(s))
}

/// The longest prefix of `s` that holds no white space.
pub open spec fn leading_word(s: Seq<char>) -> Seq<char>
    decreases s.len(),
{
    if s.len() > 0 && !is_space(s[0]) {
        seq![s[0]] + leading_word(s.drop_first())
    } else {
        Seq::empty()
    }
}

/// The first white-space-delimited token of `s`, if it has one.
pub open spec fn first_token(s: Seq<char>) -> Option<Seq<char>> {
    if trimmed_start(s).len() > 0 {
        Some(leading_word(trimmed_start(s)))
    } else {
        None
    }
}

/// `needle` occurs in `haystack` at position `at`.
pub open spec fn occurs_at(haystack: Seq<char>, needle: Seq<char>, at: int) -> bool {
    0 <= at && at + needle.len() <= haystack.len() && haystack.subrange(
        at,
        at + needle.len(),
    ) == needle
}

/// `needle` occurs somewhere in `haystack`. The empty text occurs in every text.
pub open spec fn contains_text(haystack: Seq<char>, needle: Seq<char>) -> bool {
    exists|at: int| occurs_at(haystack, needle, at)
}

/// `s` with every leading repetition of `prefix` removed.
pub open spec fn without_prefix(s: Seq<char>, prefix: Seq<char>) -> Seq<char>
    decreases s.len(),
{
    if prefix.len() > 0 && prefix.is_prefix_of(s) {
        without_prefix(s.skip(prefix.len() as int), prefix)
    } else {
        s
    }
}

/// `s` with every trailing repetition of `suffix` removed.
pub open spec fn without_suffix(s: Seq<char>, suffix: Seq<char>) -> Seq<char>
    decreases s.len(),
{
    if suffix.len() > 0 && suffix.is_suffix_of(s) {
        without_suffix(s.take(s.len() - suffix.len()), suffix)
    } else {
        s
    }
}

/// `s` with every `from` replaced by `to`.
pub open spec fn replaced(s: Seq<char>, from: char, to: char) -> Seq<char> {
    s.map_values(
        |c: char|
            if c == from {
                to
            } else {
                c
            },
    )
}

/// The test "is another character than `c`".
pub open spec fn other_than(c: char) -> spec_fn(char) -> bool {
    |x: char| x != c
}

/// `s` without any occurrence of `c`.
pub open spec fn without_char(s: Seq<char>, c: char) -> Seq<char> {
    s.filter(other_than(c))
}

/// The ASCII digits of `s`, in order.
pub open spec fn digits_of(s: Seq<char>) -> Seq<char> {
    s.filter(|c: char| is_digit(c))
}

/// The parts joined, with `sep` between neighbours.
pub open spec fn joined(parts: Seq<Seq<char>>, sep: Seq<char>) -> Seq<char>
    decreases parts.len(),
{
    if parts.len() == 0 {
        Seq::empty()
    } else if parts.len() == 1 {
        parts[0]
    } else {
        joined(parts.drop_last(), sep) + sep + parts.last()
    }
}

/// The views of a list of strings.
pub open spec fn views(parts: Seq<String>) -> Seq<Seq<char>> {
    parts.map_values(|s: String| s@)
}

/// `needle` occurs in `haystack` at `at` and nowhere before.
pub open spec fn is_first_occurrence(haystack: Seq<char>, needle: Seq<char>, at: int) -> bool {
    occurs_at(haystack, needle, at) && forall|k: int|
        0 <= k < at ==> !occurs_at(haystack, needle, k)
}

/// The position of the first occurrence of `needle` in `haystack`.
pub open spec fn first_index(haystack: Seq<char>, needle: Seq<char>) -> Option<int> {
    if contains_text(haystack, needle) {
        Some(choose|at: int| is_first_occurrence(haystack, needle, at))
    } else {
        None
    }
}

/// The part of `haystack` before the first occurrence of `needle`; all of it
/// where `needle` does not occur.
pub open spec fn before_first(haystack: Seq<char>, needle: Seq<char>) -> Seq<char> {
    match first_index(haystack, needle) {
        Some(at) => haystack.take(at),
        None => haystack,
    }
}

/// The part of `haystack` after the first occurrence of `needle`, where
/// `needle` occurs.
pub open spec fn after_first(haystack: Seq<char>, needle: Seq<char>) -> Option<Seq<char>> {
    match first_index(haystack, needle) {
        Some(at) => Some(haystack.skip(at + needle.len())),
        None => None,
    }
}

/// `s` begins with `prefix`.
pub open spec fn starts_with(s: Seq<char>, prefix: Seq<char>) -> bool {
    occurs_at(s, prefix, 0)
}

/// The characters of a string slice, as a vector.
pub fn chars_of(s: &str) -> (v: Vec<char>)
    ensures
        v@ == s@,
{
    let mut v: Vec<char> = Vec::new();
    for c in it: s.chars()
        invariant
            it.seq() == s@,
            v@ == it.seq().take(it.index() as int),
    {
        v.push(c);
    }
    v
}

/// The string that holds exactly the given characters.
pub fn string_of(v: &[char]) -> (s: String)
    ensures
        s@ == v@,
{
    let mut s = String::new();
    let mut i: usize = 0;
    while i < v.len()
        invariant
            i <= v.len(),
            s@ == v@.take(i as int),
        decreases v.len() - i,
    {
        s.push(v[i]);
        i = i + 1;
    }
    s
}

pub fn char_is_digit(c: char) -> (r: bool)
    ensures
        r == is_digit(c),
{
    '0' <= c && c <= '9'
}

pub fn char_is_space(c: char) -> (r: bool)
    ensures
        r == is_space(c),
{
    ('\u{9}' <= c && c <= '\u{D}') || c == ' ' || c == '\u{85}' || c == '\u{A0}' || c
        == '\u{1680}' || ('\u{2000}' <= c && c <= '\u{200A}') || c == '\u{2028}' || c
        == '\u{2029}' || c == '\u{202F}' || c == '\u{205F}' || c == '\u{3000}'
}

/// Copies `v[from..to]`.
pub fn slice_of(v: &[char], from: usize, to: usize) -> (r: Vec<char>)
    requires
        from <= to <= v.len(),
    ensures
        r@ == v@.subrange(from as int, to as int),
{
    let mut r: Vec<char> = Vec::new();
    let mut i: usize = from;
    while i < to
        invariant
            from <= i <= to <= v.len(),
            r@ == v@.subrange(from as int, i as int),
        decreases to - i,
    {
        r.push(v[i]);
        i = i + 1;
    }
    r
}

proof fn lemma_trimmed_start_skip(s: Seq<char>, n: int)
    requires
        0 <= n <= s.len(),
        forall|i: int| 0 <= i < n ==> is_space(#[trigger] s[i]),
    ensures
        trimmed_start(s) == trimmed_start(s.skip(n)),
    decreases n,
{
    if n > 0 {
        assert(s.drop_first().skip(n - 1) == s.skip(n));
        lemma_trimmed_start_skip(s.drop_first(), n - 1);
    } else {
        assert(s.skip(0) == s);
    }
}

proof fn lemma_trimmed_end_take(s: Seq<char>, n: int)
    requires
        0 <= n <= s.len(),
        forall|i: int| n <= i < s.len() ==> is_space(#[trigger] s[i]),
    ensures
        trimmed_end(s) == trimmed_end(s.take(n)),
    decreases s.len() - n,
{
    if n < s.len() {
        assert(s.drop_last().take(n) == s.take(n));
        lemma_trimmed_end_take(s.drop_last(), n);
    } else {
        assert(s.take(n) == s);
    }
}

/// `v` without leading and trailing white space.
pub fn trim(v: &[char]) -> (r: Vec<char>)
    ensures
        r@ == trimmed(v@),
{
    let mut start: usize = 0;
    while start < v.len() && char_is_space(v[start])
        invariant
            start <= v.len(),
            forall|i: int| 0 <= i < start ==> is_space(#[trigger] v@[i]),
        decreases v.len() - start,
    {
        start = start + 1;
    }
    let mut end: usize = v.len();
    while end > start && char_is_space(v[end - 1])
        invariant
            start <= end <= v.len(),
            forall|i: int| end <= i < v.len() ==> is_space(#[trigger] v@[i]),
        decreases end,
    {
        end = end - 1;
    }
    proof {
        let s = v@;
        lemma_trimmed_start_skip(s, start as int);
        let t = s.skip(start as int);
        assert(trimmed_start(s) == t) by {
            if t.len() > 0 {
                assert(t[0] == s[start as int]);
            }
        }
        lemma_trimmed_end_take(t, end - start);
        let u = t.take(end - start);
        assert(u == s.subrange(start as int, end as int));
        assert(trimmed_end(u) == u) by {
            if u.len() > 0 {
                assert(u.last() == s[end - 1]);
            }
        }
    }
    slice_of(v, start, end)
}

/// The first white-space-delimited token of `v`, if it has one.
pub fn first_word(v: &[char]) -> (r: Option<Vec<char>>)
    ensures
        r is Some == first_token(v@) is Some,
        r matches Some(w) ==> w@ == first_token(v@)->0,
{
    let mut start: usize = 0;
    while start < v.len() && char_is_space(v[start])
        invariant
            start <= v.len(),
            forall|i: int| 0 <= i < start ==> is_space(#[trigger] v@[i]),
        decreases v.len() - start,
    {
        start = start + 1;
    }
    proof {
        lemma_trimmed_start_skip(v@, start as int);
        let t = v@.skip(start as int);
        assert(trimmed_start(v@) == t) by {
            if t.len() > 0 {
                assert(t[0] == v@[start as int]);
            }
        }
    }
    if start == v.len() {
        return None;
    }
    let mut end: usize = start;
    while end < v.len() && !char_is_space(v[end])
        invariant
            start <= end <= v.len(),
            forall|i: int| start <= i < end ==> !is_space(#[trigger] v@[i]),
        decreases v.len() - end,
    {
        end = end + 1;
    }
    proof {
        lemma_leading_word(v@.skip(start as int), end - start);
        assert(v@.skip(start as int).take(end - start) == v@.subrange(start as int, end as int));
    }
    Some(slice_of(v, start, end))
}

proof fn lemma_leading_word(s: Seq<char>, n: int)
    requires
        0 <= n <= s.len(),
        forall|i: int| 0 <= i < n ==> !is_space(#[trigger] s[i]),
        n < s.len() ==> is_space(s[n]),
    ensures
        leading_word(s) == s.take(n),
    decreases n,
{
    if n > 0 {
        let rest = s.drop_first();
        assert forall|i: int| 0 <= i < n - 1 implies !is_space(#[trigger] rest[i]) by {
            assert(rest[i] == s[i + 1]);
        }
        lemma_leading_word(rest, n - 1);
        assert(seq![s[0]] + rest.take(n - 1) == s.take(n));
    } else {
        assert(s.take(0) == Seq::<char>::empty());
    }
}

/// Whether `needle` stands in `haystack` at position `at`.
pub fn matches_at(haystack: &[char], needle: &[char], at: usize) -> (r: bool)
    ensures
        r == occurs_at(haystack@, needle@, at as int),
{
    if needle.len() > haystack.len() || at > haystack.len() - needle.len() {
        return false;
    }
    let mut i: usize = 0;
    while i < needle.len()
        invariant
            i <= needle.len(),
            at + needle.len() <= haystack.len(),
            forall|k: int| 0 <= k < i ==> haystack@[at + k] == needle@[k],
        decreases needle.len() - i,
    {
        if haystack[at + i] != needle[i] {
            proof {
                let sub = haystack@.subrange(at as int, at + needle.len());
                assert(sub[i as int] == haystack@[at + i]);
            }
            return false;
        }
        i = i + 1;
    }
    assert(haystack@.subrange(at as int, at + needle.len()) == needle@);
    true
}

/// Whether `needle` occurs somewhere in `haystack`.
pub fn contains_chars(haystack: &[char], needle: &[char]) -> (r: bool)
    ensures
        r == contains_text(haystack@, needle@),
{
    if needle.len() > haystack.len() {
        assert forall|at: int| !occurs_at(haystack@, needle@, at) by {}
        return false;
    }
    let last: usize = haystack.len() - needle.len();
    let mut at: usize = 0;
    while at < last
        invariant
            at <= last,
            last == haystack.len() - needle.len(),
            forall|k: int| 0 <= k < at ==> !occurs_at(haystack@, needle@, k),
        decreases last - at,
    {
        if matches_at(haystack, needle, at) {
            return true;
        }
        at = at + 1;
    }
    let found = matches_at(haystack, needle, last);
    if !found {
        assert forall|k: int| !occurs_at(haystack@, needle@, k) by {}
    }
    found
}

/// Whether `needle` occurs somewhere in `haystack`.
pub fn contains(haystack: &str, needle: &str) -> (r: bool)
    ensures
        r == contains_text(haystack@, needle@),
{
    let h = chars_of(haystack);
    let n = chars_of(needle);
    contains_chars(h.as_slice(), n.as_slice())
}

/// Whether two texts hold the same characters.
pub fn same_text(a: &str, b: &str) -> (r: bool)
    ensures
        r == (a@ == b@),
{
    let x = chars_of(a);
    let y = chars_of(b);
    if x.len() != y.len() {
        return false;
    }
    let mut i: usize = 0;
    while i < x.len()
        invariant
            i <= x.len(),
            x.len() == y.len(),
            x@ == a@,
            y@ == b@,
            forall|k: int| 0 <= k < i ==> x@[k] == y@[k],
        decreases x.len() - i,
    {
        if x[i] != y[i] {
            assert(x@[i as int] != y@[i as int]);
            return false;
        }
        i = i + 1;
    }
    assert(x@ == y@);
    true
}

/// `v` with every leading repetition of `prefix` removed.
pub fn strip_prefix(v: &[char], prefix: &[char]) -> (r: Vec<char>)
    ensures
        r@ == without_prefix(v@, prefix@),
{
    let mut start: usize = 0;
    assert(v@.skip(0) == v@);
    if prefix.len() > 0 {
        while matches_at(v, prefix, start)
            invariant
                start <= v.len(),
                prefix.len() > 0,
                without_prefix(v@, prefix@) == without_prefix(v@.skip(start as int), prefix@),
            decreases v.len() - start,
        {
            proof {
                let s = v@.skip(start as int);
                assert(s.subrange(0, prefix@.len() as int) == v@.subrange(
                    start as int,
                    start + prefix@.len(),
                ));
                assert(prefix@.is_prefix_of(s));
                assert(s.skip(prefix@.len() as int) == v@.skip(start + prefix@.len()));
            }
            start = start + prefix.len();
        }
        proof {
            let s = v@.skip(start as int);
            if prefix@.is_prefix_of(s) {
                assert(s.subrange(0, prefix@.len() as int) == v@.subrange(
                    start as int,
                    start + prefix@.len(),
                ));
                assert(false);
            }
        }
    } else {
        assert(v@.skip(0) == v@);
    }
    assert(v@.skip(start as int) == v@.subrange(start as int, v@.len() as int));
    slice_of(v, start, v.len())
}

/// `v` with every trailing repetition of `suffix` removed.
pub fn strip_suffix(v: &[char], suffix: &[char]) -> (r: Vec<char>)
    ensures
        r@ == without_suffix(v@, suffix@),
{
    let mut end: usize = v.len();
    assert(v@.take(v@.len() as int) == v@);
    if suffix.len() > 0 {
        while end >= suffix.len() && matches_at(slice_prefix(v, end), suffix, end - suffix.len())
            invariant
                end <= v.len(),
                suffix.len() > 0,
                without_suffix(v@, suffix@) == without_suffix(v@.take(end as int), suffix@),
            decreases end,
        {
            proof {
                let s = v@.take(end as int);
                assert(s.subrange(end - suffix@.len(), end as int) == s.subrange(
                    s.len() - suffix@.len(),
                    s.len() as int,
                ));
                assert(suffix@.is_suffix_of(s));
                assert(s.take(s.len() - suffix@.len()) == v@.take(end - suffix@.len()));
            }
            end = end - suffix.len();
        }
        proof {
            let s = v@.take(end as int);
            if suffix@.is_suffix_of(s) {
                assert(s.len() >= suffix@.len());
                assert(occurs_at(s, suffix@, end - suffix@.len()));
                assert(false);
            }
        }
    } else {
        assert(v@.take(v@.len() as int) == v@);
    }
    assert(v@.take(end as int) == v@.subrange(0, end as int));
    slice_of(v, 0, end)
}

/// The first `n` characters of `v`, borrowed.
pub fn slice_prefix(v: &[char], n: usize) -> (r: &[char])
    requires
        n <= v.len(),
    ensures
        r@ == v@.take(n as int),
{
    let r = vstd::slice::slice_subrange(v, 0, n);
    assert(v@.subrange(0, n as int) == v@.take(n as int));
    r
}

/// `v` with every `from` replaced by `to`.
pub fn replace_char(v: &[char], from: char, to: char) -> (r: Vec<char>)
    ensures
        r@ == replaced(v@, from, to),
{
    let mut r: Vec<char> = Vec::new();
    let mut i: usize = 0;
    while i < v.len()
        invariant
            i <= v.len(),
            r@ == replaced(v@.take(i as int), from, to),
        decreases v.len() - i,
    {
        let c = v[i];
        r.push(if c == from { to } else { c });
        assert(replaced(v@.take(i + 1), from, to) == replaced(v@.take(i as int), from, to).push(
            if c == from { to } else { c },
        ));
        i = i + 1;
    }
    assert(v@.take(v@.len() as int) == v@);
    r
}

/// `v` without any occurrence of `c`.
pub fn remove_char(v: &[char], c: char) -> (r: Vec<char>)
    ensures
        r@ == without_char(v@, c),
{
    let mut r: Vec<char> = Vec::new();
    let ghost keep = other_than(c);
    let mut i: usize = 0;
    assert(v@.take(0).filter(keep) == Seq::<char>::empty()) by {
        reveal(Seq::filter);
    }
    while i < v.len()
        invariant
            i <= v.len(),
            keep == other_than(c),
            r@ == v@.take(i as int).filter(keep),
        decreases v.len() - i,
    {
        proof {
            assert(v@.take(i + 1) == v@.take(i as int).push(v@[i as int]));
            v@.take(i as int).lemma_filter_push(v@[i as int], keep);
        }
        if v[i] != c {
            r.push(v[i]);
        }
        i = i + 1;
    }
    assert(v@.take(v@.len() as int) == v@);
    r
}

/// The ASCII digits of `v`, in order.
pub fn keep_digits(v: &[char]) -> (r: Vec<char>)
    ensures
        r@ == digits_of(v@),
{
    let mut r: Vec<char> = Vec::new();
    let ghost keep = |x: char| is_digit(x);
    let mut i: usize = 0;
    assert(v@.take(0).filter(keep) == Seq::<char>::empty()) by {
        reveal(Seq::filter);
    }
    while i < v.len()
        invariant
            i <= v.len(),
            keep == (|x: char| is_digit(x)),
            r@ == v@.take(i as int).filter(keep),
        decreases v.len() - i,
    {
        proof {
            assert(v@.take(i + 1) == v@.take(i as int).push(v@[i as int]));
            v@.take(i as int).lemma_filter_push(v@[i as int], keep);
        }
        if char_is_digit(v[i]) {
            r.push(v[i]);
        }
        i = i + 1;
    }
    assert(v@.take(v@.len() as int) == v@);
    r
}

/// The parts joined, with `sep` between neighbours.
pub fn join(parts: &Vec<String>, sep: &str) -> (r: String)
    ensures
        r@ == joined(views(parts@), sep@),
{
    let mut r = String::new();
    let mut i: usize = 0;
    while i < parts.len()
        invariant
            i <= parts.len(),
            r@ == joined(views(parts@).take(i as int), sep@),
        decreases parts.len() - i,
    {
        proof {
            let all = views(parts@);
            assert(all.take(i + 1).drop_last() == all.take(i as int));
            assert(all.take(i + 1).last() == parts@[i as int]@);
            if i == 0 {
                assert(r@ + parts@[0]@ == parts@[0]@);
            }
        }
        if i > 0 {
            r.append(sep);
        }
        r.append(parts[i].as_str());
        i = i + 1;
    }
    assert(views(parts@).take(parts@.len() as int) == views(parts@));
    r
}

/// The position of the first occurrence of `needle` in `haystack`.
pub fn find_chars(haystack: &[char], needle: &[char]) -> (r: Option<usize>)
    ensures
        r is Some == contains_text(haystack@, needle@),
        r matches Some(at) ==> is_first_occurrence(haystack@, needle@, at as int) && first_index(
            haystack@,
            needle@,
        ) == Some(at as int),
{
    if needle.len() > haystack.len() {
        assert forall|at: int| !occurs_at(haystack@, needle@, at) by {}
        return None;
    }
    let last: usize = haystack.len() - needle.len();
    let mut at: usize = 0;
    while at < last
        invariant
            at <= last,
            last == haystack.len() - needle.len(),
            forall|k: int| 0 <= k < at ==> !occurs_at(haystack@, needle@, k),
        decreases last - at,
    {
        if matches_at(haystack, needle, at) {
            proof {
                lemma_first_index(haystack@, needle@, at as int);
            }
            return Some(at);
        }
        at = at + 1;
    }
    if matches_at(haystack, needle, last) {
        proof {
            lemma_first_index(haystack@, needle@, last as int);
        }
        Some(last)
    } else {
        assert forall|k: int| !occurs_at(haystack@, needle@, k) by {}
        None
    }
}

/// A first occurrence is the first occurrence.
pub proof fn lemma_first_index(haystack: Seq<char>, needle: Seq<char>, at: int)
    requires
        is_first_occurrence(haystack, needle, at),
    ensures
        first_index(haystack, needle) == Some(at),
{
    assert(occurs_at(haystack, needle, at));
    let chosen = choose|k: int| is_first_occurrence(haystack, needle, k);
    assert(is_first_occurrence(haystack, needle, chosen));
    if chosen < at {
        assert(!occurs_at(haystack, needle, chosen));
    }
    if at < chosen {
        assert(!occurs_at(haystack, needle, at));
    }
}

/// The part of `haystack` before the first occurrence of `needle`.
pub fn take_before(haystack: &[char], needle: &[char]) -> (r: Vec<char>)
    ensures
        r@ == before_first(haystack@, needle@),
{
    match find_chars(haystack, needle) {
        Some(at) => {
            assert(haystack@.take(at as int) == haystack@.subrange(0, at as int));
            slice_of(haystack, 0, at)
        },
        None => {
            assert(haystack@.subrange(0, haystack@.len() as int) == haystack@);
            slice_of(haystack, 0, haystack.len())
        },
    }
}

/// The part of `haystack` after the first occurrence of `needle`.
pub fn take_after(haystack: &[char], needle: &[char]) -> (r: Option<Vec<char>>)
    ensures
        r is Some == after_first(haystack@, needle@) is Some,
        r matches Some(rest) ==> rest@ == after_first(haystack@, needle@)->0,
{
    match find_chars(haystack, needle) {
        Some(at) => {
            let end = haystack.len();
            assert(at + needle@.len() <= end);
            assert(haystack@.skip(at + needle@.len()) == haystack@.subrange(
                at + needle@.len(),
                haystack@.len() as int,
            ));
            Some(slice_of(haystack, at + needle.len(), end))
        },
        None => None,
    }
}

/// Where a text occurs, it occurs somewhere first.
pub proof fn lemma_first_occurrence_exists(haystack: Seq<char>, needle: Seq<char>, at: int)
    requires
        occurs_at(haystack, needle, at),
    ensures
        exists|k: int| is_first_occurrence(haystack, needle, k),
    decreases at,
{
    if exists|k: int| 0 <= k < at && occurs_at(haystack, needle, k) {
        let k = choose|k: int| 0 <= k < at && occurs_at(haystack, needle, k);
        lemma_first_occurrence_exists(haystack, needle, k);
    } else {
        assert(is_first_occurrence(haystack, needle, at));
    }
}

/// The part before the first occurrence of a text is a prefix.
pub proof fn lemma_before_first_is_prefix(haystack: Seq<char>, needle: Seq<char>)
    ensures
        before_first(haystack, needle).is_prefix_of(haystack),
{
    if contains_text(haystack, needle) {
        let at = choose|at: int| occurs_at(haystack, needle, at);
        lemma_first_occurrence_exists(haystack, needle, at);
        let first = choose|k: int| is_first_occurrence(haystack, needle, k);
        assert(occurs_at(haystack, needle, first));
        assert(haystack.take(first).is_prefix_of(haystack));
    } else {
        assert(haystack.is_prefix_of(haystack));
    }
}

} // verus!
