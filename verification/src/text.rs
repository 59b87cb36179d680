//! Texts: white space, prefixes, lines and parts, over the characters of a
//! string. Each function says in its contract which text it returns; they
//! agree with the functions of the same meaning on `str`.

use vstd::prelude::*;

verus! {

/// Filtering after appending one element.
pub proof fn lemma_filter_push<A>(s: Seq<A>, keep: spec_fn(A) -> bool, x: A)
    ensures
        s.push(x).filter(keep) == if keep(x) {
            s.filter(keep).push(x)
        } else {
            s.filter(keep)
        },
{
    reveal(Seq::filter);
    assert(s.push(x).drop_last() =~= s);
}

/// Filtering the empty sequence.
pub proof fn lemma_filter_empty<A>(keep: spec_fn(A) -> bool)
    ensures
        Seq::<A>::empty().filter(keep) == Seq::<A>::empty(),
{
    reveal(Seq::filter);
}

/// Whether two string slices hold the same characters.
pub fn str_eq(a: &str, b: &str) -> (r: bool)
    ensures
        r == (a@ == b@),
{
    let first = chars_of(a);
    let second = chars_of(b);
    if first.len() != second.len() {
        return false;
    }
    let mut i: usize = 0;
    while i < first.len()
        invariant
            i <= first@.len(),
            first@ == a@,
            second@ == b@,
            first@.len() == second@.len(),
            forall|j: int| 0 <= j < i ==> first@[j] == second@[j],
        decreases first@.len() - i,
    {
        if first[i] != second[i] {
            return false;
        }
        i += 1;
    }
    assert(first@ =~= second@);
    true
}


/// The characters of a string, in order.
pub fn chars_of(s: &str) -> (v: Vec<char>)
    ensures
        v@ == s@,
{
    let mut v: Vec<char> = Vec::new();
    for c in it: s.chars()
        invariant
            v@ == it.history(),
    {
        v.push(c);
    }
    v
}


/// The characters that count as white space: those with the Unicode
/// property `White_Space`.
pub open spec fn is_space(c: char) -> bool {
    let n = c as u32;
    (0x09 <= n <= 0x0D) || n == 0x20 || n == 0x85 || n == 0xA0 || n == 0x1680 || (0x2000 <= n
        <= 0x200A) || n == 0x2028 || n == 0x2029 || n == 0x202F || n == 0x205F || n == 0x3000
}

/// Whether a character counts as white space.
pub fn is_whitespace(c: char) -> (r: bool)
    ensures
        r == is_space(c),
{
    let n: u32 = c as u32;
    (0x09 <= n && n <= 0x0D) || n == 0x20 || n == 0x85 || n == 0xA0 || n == 0x1680 || (0x2000 <= n
        && n <= 0x200A) || n == 0x2028 || n == 0x2029 || n == 0x202F || n == 0x205F || n == 0x3000
}

/// A text without the characters at its start that `drop` holds of.
pub open spec fn spec_skip_start(s: Seq<char>, drop: spec_fn(char) -> bool) -> Seq<char>
    decreases s.len(),
{
    if s.len() > 0 && drop(s[0]) {
        spec_skip_start(s.drop_first(), drop)
    } else {
        s
    }
}

/// A text without the characters at its end that `drop` holds of.
pub open spec fn spec_skip_end(s: Seq<char>, drop: spec_fn(char) -> bool) -> Seq<char>
    decreases s.len(),
{
    if s.len() > 0 && drop(s.last()) {
        spec_skip_end(s.drop_last(), drop)
    } else {
        s
    }
}

/// A text without the white space at its start and at its end.
pub open spec fn spec_trim(s: Seq<char>) -> Seq<char> {
    spec_skip_end(spec_skip_start(s, dropped(None)), dropped(None))
}

/// A text without the occurrences of `c` at its start and at its end.
pub open spec fn spec_trim_char(s: Seq<char>, c: char) -> Seq<char> {
    spec_skip_end(spec_skip_start(s, dropped(Some(c))), dropped(Some(c)))
}

/// Whether `s` starts with `prefix`.
pub open spec fn spec_starts_with(s: Seq<char>, prefix: Seq<char>) -> bool {
    prefix.len() <= s.len() && s.subrange(0, prefix.len() as int) == prefix
}

/// What stands behind `prefix` in a text that starts with it.
pub open spec fn spec_strip_prefix(s: Seq<char>, prefix: Seq<char>) -> Option<Seq<char>> {
    if spec_starts_with(s, prefix) {
        Some(s.subrange(prefix.len() as int, s.len() as int))
    } else {
        None
    }
}

/// A text without the repetitions of `prefix` at its start. The prefix is
/// not empty.
pub open spec fn spec_strip_repeated(s: Seq<char>, prefix: Seq<char>) -> Seq<char>
    decreases s.len(),
{
    if prefix.len() > 0 && spec_starts_with(s, prefix) {
        spec_strip_repeated(s.subrange(prefix.len() as int, s.len() as int), prefix)
    } else {
        s
    }
}

/// The index of the first occurrence of `c`.
pub open spec fn spec_find_char(s: Seq<char>, c: char) -> Option<int>
    decreases s.len(),
{
    if s.len() == 0 {
        None
    } else if s[0] == c {
        Some(0)
    } else {
        match spec_find_char(s.drop_first(), c) {
            Some(i) => Some(i + 1),
            None => None,
        }
    }
}

/// `spec_find_char` finds the least index that holds `c`, and none exactly
/// when `c` does not occur.
pub proof fn lemma_find_char(s: Seq<char>, c: char)
    ensures
        match spec_find_char(s, c) {
            Some(i) => 0 <= i < s.len() && s[i] == c && forall|j: int| 0 <= j < i ==> s[j] != c,
            None => forall|j: int| 0 <= j < s.len() ==> s[j] != c,
        },
    decreases s.len(),
{
    if s.len() > 0 && s[0] != c {
        let rest = s.drop_first();
        lemma_find_char(rest, c);
        match spec_find_char(rest, c) {
            Some(i) => {
                assert forall|j: int| 0 <= j < i + 1 implies s[j] != c by {
                    if j > 0 {
                        assert(s[j] == rest[j - 1]);
                    }
                }
            },
            None => {
                assert forall|j: int| 0 <= j < s.len() implies s[j] != c by {
                    if j > 0 {
                        assert(s[j] == rest[j - 1]);
                    }
                }
            },
        }
    }
}

/// The index that is the least to hold `c` is what `spec_find_char` finds.
pub proof fn lemma_find_char_is(s: Seq<char>, c: char, i: int)
    requires
        0 <= i < s.len(),
        s[i] == c,
        forall|j: int| 0 <= j < i ==> s[j] != c,
    ensures
        spec_find_char(s, c) == Some(i),
{
    lemma_find_char(s, c);
}

/// The two parts of a text around the first occurrence of `c`.
pub open spec fn spec_split_once(s: Seq<char>, c: char) -> Option<(Seq<char>, Seq<char>)> {
    match spec_find_char(s, c) {
        Some(i) => Some((s.subrange(0, i), s.subrange(i + 1, s.len() as int))),
        None => None,
    }
}

/// A line without the carriage return at its end.
pub open spec fn spec_strip_cr(line: Seq<char>) -> Seq<char> {
    if line.len() > 0 && line.last() == '\r' {
        line.drop_last()
    } else {
        line
    }
}

/// The lines of a text. A line ends with a line feed, or with a carriage
/// return and a line feed, which do not belong to it; the last line needs
/// no ending, and an empty text has no line.
pub open spec fn spec_lines(s: Seq<char>) -> Seq<Seq<char>>
    decreases s.len(),
{
    if s.len() == 0 {
        Seq::empty()
    } else {
        match spec_find_char(s, '\n') {
            None => seq![s],
            Some(i) => if 0 <= i < s.len() {
                seq![spec_strip_cr(s.subrange(0, i))] + spec_lines(s.subrange(i + 1, s.len() as int))
            } else {
                seq![s]
            },
        }
    }
}

/// The texts with `sep` between them.
pub open spec fn spec_join(parts: Seq<Seq<char>>, sep: Seq<char>) -> Seq<char>
    decreases parts.len(),
{
    if parts.len() == 0 {
        Seq::empty()
    } else if parts.len() == 1 {
        parts[0]
    } else {
        spec_join(parts.drop_last(), sep) + sep + parts.last()
    }
}

/// The part of a string between two character positions.
pub fn slice(s: &str, from: usize, to: usize) -> (r: String)
    requires
        from <= to <= s@.len(),
    ensures
        r@ == s@.subrange(from as int, to as int),
{
    String::from_str(s.substring_char(from, to))
}

/// The position behind the characters from `from` on that are white space,
/// or that equal `c` where one is given.
fn skip_forward(chars: &Vec<char>, from: usize, to: usize, c: Option<char>) -> (r: usize)
    requires
        from <= to <= chars@.len(),
    ensures
        from <= r <= to,
        chars@.subrange(r as int, to as int) == spec_skip_start(
            chars@.subrange(from as int, to as int),
            dropped(c),
        ),
{
    let mut i: usize = from;
    while i < to && drops(c, chars[i])
        invariant
            from <= i <= to <= chars@.len(),
            spec_skip_start(chars@.subrange(i as int, to as int), dropped(c)) == spec_skip_start(
                chars@.subrange(from as int, to as int),
                dropped(c),
            ),
        decreases to - i,
    {
        proof {
            assert(chars@.subrange(i as int, to as int).drop_first() =~= chars@.subrange(
                i + 1,
                to as int,
            ));
        }
        i += 1;
    }
    proof {
        lemma_nothing_to_skip(chars@.subrange(i as int, to as int), c);
    }
    i
}

/// The position of the last character before `to` that is not white space,
/// or that does not equal `c` where one is given, plus one.
fn skip_backward(chars: &Vec<char>, from: usize, to: usize, c: Option<char>) -> (r: usize)
    requires
        from <= to <= chars@.len(),
    ensures
        from <= r <= to,
        chars@.subrange(from as int, r as int) == spec_skip_end(
            chars@.subrange(from as int, to as int),
            dropped(c),
        ),
{
    let mut i: usize = to;
    while i > from && drops(c, chars[i - 1])
        invariant
            from <= i <= to <= chars@.len(),
            spec_skip_end(chars@.subrange(from as int, i as int), dropped(c)) == spec_skip_end(
                chars@.subrange(from as int, to as int),
                dropped(c),
            ),
        decreases i,
    {
        proof {
            assert(chars@.subrange(from as int, i as int).drop_last() =~= chars@.subrange(
                from as int,
                i - 1,
            ));
        }
        i -= 1;
    }
    i
}

/// The characters that a skip drops: white space, or the occurrences of one
/// character.
pub open spec fn dropped(c: Option<char>) -> spec_fn(char) -> bool {
    match c {
        Some(c) => |x: char| x == c,
        None => |x: char| is_space(x),
    }
}

/// Whether a skip drops the character `x`.
fn drops(c: Option<char>, x: char) -> (r: bool)
    ensures
        r == dropped(c)(x),
{
    match c {
        Some(c) => x == c,
        None => is_whitespace(x),
    }
}

/// Nothing is skipped at the start of a text that starts with a character
/// to keep.
proof fn lemma_nothing_to_skip(s: Seq<char>, c: Option<char>)
    requires
        s.len() == 0 || !dropped(c)(s[0]),
    ensures
        spec_skip_start(s, dropped(c)) == s,
{
}

/// A text without the white space at its start and at its end.
pub fn trim(s: &str) -> (r: String)
    ensures
        r@ == spec_trim(s@),
{
    let chars = chars_of(s);
    let n = chars.len();
    let a = skip_forward(&chars, 0, n, None);
    let b = skip_backward(&chars, a, n, None);
    proof {
        assert(chars@.subrange(0, n as int) =~= chars@);
    }
    slice(s, a, b)
}

/// A text without the occurrences of `c` at its start and at its end.
pub fn trim_char(s: &str, c: char) -> (r: String)
    ensures
        r@ == spec_trim_char(s@, c),
{
    let chars = chars_of(s);
    let n = chars.len();
    let a = skip_forward(&chars, 0, n, Some(c));
    let b = skip_backward(&chars, a, n, Some(c));
    proof {
        assert(chars@.subrange(0, n as int) =~= chars@);
    }
    slice(s, a, b)
}

/// Whether `prefix` stands in `chars` at position `at`.
fn stands_at(chars: &Vec<char>, at: usize, prefix: &Vec<char>) -> (r: bool)
    requires
        at <= chars@.len(),
    ensures
        r == spec_starts_with(chars@.subrange(at as int, chars@.len() as int), prefix@),
{
    let ghost rest = chars@.subrange(at as int, chars@.len() as int);
    let n = chars.len();
    if prefix.len() > n - at {
        return false;
    }
    let mut i: usize = 0;
    while i < prefix.len()
        invariant
            i <= prefix@.len(),
            n == chars@.len(),
            at + prefix@.len() <= n,
            rest == chars@.subrange(at as int, chars@.len() as int),
            forall|j: int| 0 <= j < i ==> rest[j] == prefix@[j],
        decreases prefix@.len() - i,
    {
        if chars[at + i] != prefix[i] {
            assert(rest.subrange(0, prefix@.len() as int)[i as int] != prefix@[i as int]);
            return false;
        }
        i += 1;
    }
    assert(rest.subrange(0, prefix@.len() as int) =~= prefix@);
    true
}

/// Whether `s` starts with `prefix`.
pub fn starts_with(s: &str, prefix: &str) -> (r: bool)
    ensures
        r == spec_starts_with(s@, prefix@),
{
    let chars = chars_of(s);
    let wanted = chars_of(prefix);
    assert(chars@.subrange(0, chars@.len() as int) =~= chars@);
    stands_at(&chars, 0, &wanted)
}

/// What stands behind `prefix` in a text that starts with it.
pub fn strip_prefix(s: &str, prefix: &str) -> (r: Option<String>)
    ensures
        match r {
            Some(rest) => spec_strip_prefix(s@, prefix@) == Some(rest@),
            None => spec_strip_prefix(s@, prefix@) is None,
        },
{
    let chars = chars_of(s);
    let wanted = chars_of(prefix);
    assert(chars@.subrange(0, chars@.len() as int) =~= chars@);
    if stands_at(&chars, 0, &wanted) {
        Some(slice(s, wanted.len(), chars.len()))
    } else {
        None
    }
}

/// A text without the repetitions of `prefix` at its start. An empty
/// prefix takes nothing away.
pub fn strip_repeated(s: &str, prefix: &str) -> (r: String)
    ensures
        r@ == spec_strip_repeated(s@, prefix@),
{
    let chars = chars_of(s);
    let wanted = chars_of(prefix);
    let n = chars.len();
    let mut at: usize = 0;
    assert(chars@.subrange(0, n as int) =~= chars@);
    if wanted.len() == 0 {
        return String::from_str(s);
    }
    while stands_at(&chars, at, &wanted)
        invariant
            at <= n,
            n == chars@.len(),
            wanted@.len() > 0,
            wanted@ == prefix@,
            spec_strip_repeated(chars@.subrange(at as int, n as int), prefix@)
                == spec_strip_repeated(s@, prefix@),
        decreases n - at,
    {
        proof {
            let rest = chars@.subrange(at as int, n as int);
            assert(rest.subrange(wanted@.len() as int, rest.len() as int) =~= chars@.subrange(
                at + wanted@.len(),
                n as int,
            ));
        }
        at += wanted.len();
    }
    slice(s, at, n)
}

/// The position of the first `c` from `from` on.
fn find_from(chars: &Vec<char>, from: usize, c: char) -> (r: Option<usize>)
    requires
        from <= chars@.len(),
    ensures
        match r {
            Some(i) => from <= i < chars@.len() && spec_find_char(
                chars@.subrange(from as int, chars@.len() as int),
                c,
            ) == Some(i - from),
            None => spec_find_char(chars@.subrange(from as int, chars@.len() as int), c) is None,
        },
{
    let ghost rest = chars@.subrange(from as int, chars@.len() as int);
    let mut i: usize = from;
    while i < chars.len()
        invariant
            from <= i <= chars@.len(),
            rest == chars@.subrange(from as int, chars@.len() as int),
            forall|j: int| 0 <= j < i - from ==> rest[j] != c,
        decreases chars@.len() - i,
    {
        if chars[i] == c {
            proof {
                lemma_find_char_is(rest, c, i - from);
            }
            return Some(i);
        }
        i += 1;
    }
    proof {
        lemma_find_char(rest, c);
    }
    None
}

/// The two parts of a text around the first occurrence of `c`.
pub fn split_once(s: &str, c: char) -> (r: Option<(String, String)>)
    ensures
        match r {
            Some((before, after)) => spec_split_once(s@, c) == Some((before@, after@)),
            None => spec_split_once(s@, c) is None,
        },
{
    let chars = chars_of(s);
    let n = chars.len();
    assert(chars@.subrange(0, n as int) =~= chars@);
    match find_from(&chars, 0, c) {
        Some(i) => Some((slice(s, 0, i), slice(s, i + 1, n))),
        None => None,
    }
}

/// The lines of a text.
pub fn lines(s: &str) -> (r: Vec<String>)
    ensures
        string_views(r@) == spec_lines(s@),
{
    let chars = chars_of(s);
    let n = chars.len();
    let mut out: Vec<String> = Vec::new();
    let mut at: usize = 0;
    proof {
        assert(chars@.subrange(0, n as int) =~= chars@);
        assert(string_views(out@) =~= Seq::<Seq<char>>::empty());
    }
    while at < n
        invariant
            at <= n,
            n == chars@.len(),
            chars@ == s@,
            string_views(out@) + spec_lines(chars@.subrange(at as int, n as int)) == spec_lines(s@),
        decreases n - at,
    {
        let ghost rest = chars@.subrange(at as int, n as int);
        let ghost before = string_views(out@);
        match find_from(&chars, at, '\n') {
            None => {
                out.push(slice(s, at, n));
                proof {
                    assert(string_views(out@) =~= before.push(rest));
                    assert(before + seq![rest] =~= before.push(rest));
                    assert(chars@.subrange(n as int, n as int) =~= Seq::<char>::empty());
                    assert(before.push(rest) + Seq::<Seq<char>>::empty() =~= before.push(rest));
                }
                at = n;
            },
            Some(i) => {
                let end = if i > at && chars[i - 1] == '\r' {
                    i - 1
                } else {
                    i
                };
                out.push(slice(s, at, end));
                proof {
                    let line = rest.subrange(0, i - at);
                    assert(line =~= chars@.subrange(at as int, i as int));
                    assert(spec_strip_cr(line) =~= chars@.subrange(at as int, end as int));
                    let tail = rest.subrange(i - at + 1, rest.len() as int);
                    assert(tail =~= chars@.subrange(i + 1, n as int));
                    assert(string_views(out@) =~= before.push(spec_strip_cr(line)));
                    assert(before + (seq![spec_strip_cr(line)] + spec_lines(tail)) =~= before.push(
                        spec_strip_cr(line),
                    ) + spec_lines(tail));
                }
                at = i + 1;
            },
        }
    }
    proof {
        assert(chars@.subrange(n as int, n as int) =~= Seq::<char>::empty());
        assert(string_views(out@) + Seq::<Seq<char>>::empty() =~= string_views(out@));
    }
    out
}

/// The texts of a list of strings.
pub open spec fn string_views(strings: Seq<String>) -> Seq<Seq<char>> {
    Seq::new(strings.len(), |i: int| strings[i]@)
}

/// The strings with `sep` between them.
pub fn join(parts: &Vec<String>, sep: &str) -> (r: String)
    ensures
        r@ == spec_join(string_views(parts@), sep@),
{
    let ghost all = string_views(parts@);
    let mut out = String::new();
    if parts.len() == 0 {
        return out;
    }
    out.append(parts[0].as_str());
    let mut i: usize = 1;
    proof {
        assert(all.take(1).len() == 1);
        assert(all.take(1)[0] == parts@[0]@);
    }
    while i < parts.len()
        invariant
            1 <= i <= parts@.len(),
            all == string_views(parts@),
            out@ == spec_join(all.take(i as int), sep@),
        decreases parts@.len() - i,
    {
        out.append(sep);
        out.append(parts[i].as_str());
        proof {
            assert(all.take(i + 1).drop_last() =~= all.take(i as int));
            assert(all.take(i + 1).last() == parts@[i as int]@);
        }
        i += 1;
    }
    assert(all.take(parts@.len() as int) =~= all);
    out
}


/// The index of the first occurrence of `pattern` in `s`.
pub open spec fn spec_find_sub(s: Seq<char>, pattern: Seq<char>) -> Option<int>
    decreases s.len(),
{
    if spec_starts_with(s, pattern) {
        Some(0)
    } else if s.len() == 0 {
        None
    } else {
        match spec_find_sub(s.drop_first(), pattern) {
            Some(i) => Some(i + 1),
            None => None,
        }
    }
}

/// What `spec_find_sub` finds is an occurrence within the text.
pub proof fn lemma_find_sub(s: Seq<char>, pattern: Seq<char>)
    ensures
        match spec_find_sub(s, pattern) {
            Some(i) => 0 <= i && i + pattern.len() <= s.len() && s.subrange(
                i,
                i + pattern.len(),
            ) == pattern,
            None => true,
        },
    decreases s.len(),
{
    if !spec_starts_with(s, pattern) && s.len() > 0 {
        let rest = s.drop_first();
        lemma_find_sub(rest, pattern);
        match spec_find_sub(rest, pattern) {
            Some(i) => {
                assert(rest.subrange(i, i + pattern.len()) =~= s.subrange(
                    i + 1,
                    i + 1 + pattern.len(),
                ));
            },
            None => {},
        }
    }
}

/// The two parts of a text around the first occurrence of `pattern`.
pub open spec fn spec_split_at_sub(s: Seq<char>, pattern: Seq<char>) -> Option<
    (Seq<char>, Seq<char>),
> {
    match spec_find_sub(s, pattern) {
        Some(i) => Some((s.subrange(0, i), s.subrange(i + pattern.len(), s.len() as int))),
        None => None,
    }
}

/// The two parts of a text around the first occurrence of `pattern`.
pub fn split_at_sub(s: &str, pattern: &str) -> (r: Option<(String, String)>)
    ensures
        match r {
            Some((before, after)) => spec_split_at_sub(s@, pattern@) == Some((before@, after@)),
            None => spec_split_at_sub(s@, pattern@) is None,
        },
{
    let chars = chars_of(s);
    let wanted = chars_of(pattern);
    let n = chars.len();
    let mut i: usize = 0;
    proof {
        assert(chars@.subrange(0, n as int) =~= chars@);
    }
    loop
        invariant
            i <= n,
            n == chars@.len(),
            chars@ == s@,
            wanted@ == pattern@,
            match spec_find_sub(chars@.subrange(i as int, n as int), wanted@) {
                Some(k) => spec_find_sub(chars@, wanted@) == Some(k + i),
                None => spec_find_sub(chars@, wanted@) is None,
            },
        decreases n - i,
    {
        let ghost rest = chars@.subrange(i as int, n as int);
        if stands_at(&chars, i, &wanted) {
            proof {
                lemma_find_sub(chars@, wanted@);
            }
            return Some((slice(s, 0, i), slice(s, i + wanted.len(), n)));
        }
        if i == n {
            return None;
        }
        proof {
            assert(rest.drop_first() =~= chars@.subrange(i + 1, n as int));
        }
        i += 1;
    }
}

} // verus!
