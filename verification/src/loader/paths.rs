//! Paths with `/` between their components, and the directories that a
//! watching loader watches.

use vstd::prelude::*;
use crate::text::{chars_of, lemma_find_char, slice, spec_find_char, str_eq, string_views};

verus! {

/// The parts of a text between its occurrences of `c`.
pub open spec fn spec_split(s: Seq<char>, c: char) -> Seq<Seq<char>>
    decreases s.len(),
{
    match spec_find_char(s, c) {
        Some(i) => if 0 <= i < s.len() {
            seq![s.subrange(0, i)] + spec_split(s.subrange(i + 1, s.len() as int), c)
        } else {
            seq![s]
        },
        None => seq![s],
    }
}

/// The parts of a path that are names: the parts between its slashes that
/// are neither empty nor `.`.
pub open spec fn spec_names(parts: Seq<Seq<char>>) -> Seq<Seq<char>> {
    parts.filter(|part: Seq<char>| part.len() > 0 && part != "."@)
}

/// The components of a path with `/` between them. An absolute path
/// starts with the component `/`, a relative path that starts with `.`
/// with the component `.`; then come the names. Repeated slashes, a slash
/// at the end and a `.` in the middle leave no component.
pub open spec fn spec_components(path: Seq<char>) -> Seq<Seq<char>> {
    let parts = spec_split(path, '/');
    let head = if path.len() > 0 && path[0] == '/' {
        seq!["/"@]
    } else if parts.len() > 0 && parts[0] == "."@ {
        seq!["."@]
    } else {
        Seq::empty()
    };
    head + spec_names(parts)
}

/// Whether the path `path` starts with the path `base`, component by
/// component.
pub open spec fn path_starts_with(path: Seq<char>, base: Seq<char>) -> bool {
    spec_components(base).is_prefix_of(spec_components(path))
}

/// Whether two texts are the same path, component by component.
pub open spec fn same_path(a: Seq<char>, b: Seq<char>) -> bool {
    spec_components(a) == spec_components(b)
}

/// The parts of a text between its occurrences of `c`.
pub fn split(s: &str, c: char) -> (r: Vec<String>)
    ensures
        string_views(r@) == spec_split(s@, c),
{
    let chars = chars_of(s);
    let n = chars.len();
    let mut out: Vec<String> = Vec::new();
    let mut at: usize = 0;
    proof {
        assert(chars@.subrange(0, n as int) =~= chars@);
        assert(string_views(out@) =~= Seq::<Seq<char>>::empty());
    }
    loop
        invariant
            at <= n,
            n == chars@.len(),
            chars@ == s@,
            string_views(out@) + spec_split(chars@.subrange(at as int, n as int), c) == spec_split(
                s@,
                c,
            ),
        decreases n - at,
    {
        let ghost rest = chars@.subrange(at as int, n as int);
        let ghost before = string_views(out@);
        let mut i: usize = at;
        while i < n && chars[i] != c
            invariant
                at <= i <= n,
                n == chars@.len(),
                rest == chars@.subrange(at as int, n as int),
                forall|j: int| 0 <= j < i - at ==> rest[j] != c,
            decreases n - i,
        {
            i += 1;
        }
        out.push(slice(s, at, i));
        if i == n {
            proof {
                lemma_find_char(rest, c);
                assert(string_views(out@) =~= before.push(rest));
                assert(before + seq![rest] =~= before.push(rest));
            }
            return out;
        }
        proof {
            crate::text::lemma_find_char_is(rest, c, i - at);
            let part = rest.subrange(0, i - at);
            assert(part =~= chars@.subrange(at as int, i as int));
            let tail = rest.subrange(i - at + 1, rest.len() as int);
            assert(tail =~= chars@.subrange(i + 1, n as int));
            assert(string_views(out@) =~= before.push(part));
            assert(before + (seq![part] + spec_split(tail, c)) =~= before.push(part) + spec_split(
                tail,
                c,
            ));
        }
        at = i + 1;
    }
}

/// The components of a path.
pub fn components(path: &str) -> (r: Vec<String>)
    ensures
        string_views(r@) == spec_components(path@),
{
    let parts = split(path, '/');
    let chars = chars_of(path);
    let ghost all = string_views(parts@);
    let ghost keep = |part: Seq<char>| part.len() > 0 && part != "."@;
    let mut out: Vec<String> = Vec::new();
    proof {
        reveal_strlit("/");
        reveal_strlit(".");
        assert(string_views(out@) =~= Seq::<Seq<char>>::empty());
    }
    if chars.len() > 0 && chars[0] == '/' {
        out.push(String::from_str("/"));
        assert(string_views(out@) =~= seq!["/"@]);
    } else if parts.len() > 0 && str_eq(parts[0].as_str(), ".") {
        out.push(String::from_str("."));
        assert(string_views(out@) =~= seq!["."@]);
    }
    let ghost head = string_views(out@);
    let mut i: usize = 0;
    proof {
        assert(all.take(0) =~= Seq::<Seq<char>>::empty());
        crate::text::lemma_filter_empty(keep);
        assert(head + Seq::<Seq<char>>::empty() =~= head);
    }
    while i < parts.len()
        invariant
            i <= parts@.len(),
            all == string_views(parts@),
            keep == (|part: Seq<char>| part.len() > 0 && part != "."@),
            string_views(out@) == head + all.take(i as int).filter(keep),
        decreases parts@.len() - i,
    {
        let ghost before = string_views(out@);
        proof {
            assert(all.take(i + 1) =~= all.take(i as int).push(all[i as int]));
            crate::text::lemma_filter_push(all.take(i as int), keep, all[i as int]);
        }
        let part = parts[i].as_str();
        if part.unicode_len() > 0 && !str_eq(part, ".") {
            out.push(parts[i].clone());
            assert(string_views(out@) =~= before.push(all[i as int]));
            assert(head + all.take(i as int).filter(keep).push(all[i as int]) =~= (head + all.take(
                i as int,
            ).filter(keep)).push(all[i as int]));
        }
        i += 1;
    }
    proof {
        assert(all.take(parts@.len() as int) =~= all);
    }
    out
}

/// Whether the first list starts with the second.
fn starts_with_list(list: &Vec<String>, start: &Vec<String>) -> (r: bool)
    ensures
        r == string_views(start@).is_prefix_of(string_views(list@)),
{
    let ghost whole = string_views(list@);
    let ghost wanted = string_views(start@);
    if start.len() > list.len() {
        return false;
    }
    let mut i: usize = 0;
    while i < start.len()
        invariant
            i <= start@.len() <= list@.len(),
            whole == string_views(list@),
            wanted == string_views(start@),
            forall|j: int| 0 <= j < i ==> whole[j] == wanted[j],
        decreases start@.len() - i,
    {
        if !str_eq(list[i].as_str(), start[i].as_str()) {
            assert(whole.subrange(0, wanted.len() as int)[i as int] != wanted[i as int]);
            return false;
        }
        i += 1;
    }
    assert(whole.subrange(0, wanted.len() as int) =~= wanted);
    true
}

/// Whether the path `path` starts with the path `base`, component by
/// component.
pub fn starts_with_path(path: &str, base: &str) -> (r: bool)
    ensures
        r == path_starts_with(path@, base@),
{
    starts_with_list(&components(path), &components(base))
}

/// Whether two texts are the same path, component by component.
pub fn is_same_path(a: &str, b: &str) -> (r: bool)
    ensures
        r == same_path(a@, b@),
{
    let first = components(a);
    let second = components(b);
    proof {
        let x = string_views(first@);
        let y = string_views(second@);
        if x.len() == y.len() && y.is_prefix_of(x) {
            assert(x.subrange(0, y.len() as int) =~= x);
        }
    }
    first.len() == second.len() && starts_with_list(&first, &second)
}

/// Whether a path lies below another one of the paths.
pub open spec fn spec_covered(paths: Seq<Seq<char>>, path: Seq<char>) -> bool {
    exists|j: int|
        0 <= j < paths.len() && !same_path(path, #[trigger] paths[j]) && path_starts_with(
            path,
            paths[j],
        )
}

/// The paths to watch: those that do not lie below another one of the
/// paths, in their order. Watching is recursive, so the others are watched
/// with them.
pub open spec fn spec_dirs_to_watch(paths: Seq<Seq<char>>) -> Seq<Seq<char>> {
    paths.filter(|p: Seq<char>| !spec_covered(paths, p))
}

/// Whether a path lies below another one of the paths.
pub fn covered(paths: &[String], path: &str) -> (r: bool)
    ensures
        r == spec_covered(string_views(paths@), path@),
{
    let ghost all = string_views(paths@);
    let mut j: usize = 0;
    while j < paths.len()
        invariant
            j <= paths@.len(),
            all == string_views(paths@),
            forall|k: int|
                0 <= k < j ==> !(!same_path(path@, #[trigger] all[k]) && path_starts_with(
                    path@,
                    all[k],
                )),
        decreases paths@.len() - j,
    {
        let other = paths[j].as_str();
        if !is_same_path(path, other) && starts_with_path(path, other) {
            assert(!same_path(path@, all[j as int]) && path_starts_with(path@, all[j as int]));
            return true;
        }
        j += 1;
    }
    false
}

/// The paths to watch.
pub fn get_dirs_to_watch(paths: &[String]) -> (r: Vec<String>)
    ensures
        string_views(r@) == spec_dirs_to_watch(string_views(paths@)),
{
    let ghost all = string_views(paths@);
    let ghost keep = |p: Seq<char>| !spec_covered(all, p);
    let mut out: Vec<String> = Vec::new();
    let mut i: usize = 0;
    proof {
        assert(all.take(0) =~= Seq::<Seq<char>>::empty());
        crate::text::lemma_filter_empty(keep);
        assert(string_views(out@) =~= Seq::<Seq<char>>::empty());
    }
    while i < paths.len()
        invariant
            i <= paths@.len(),
            all == string_views(paths@),
            keep == (|p: Seq<char>| !spec_covered(all, p)),
            string_views(out@) == all.take(i as int).filter(keep),
        decreases paths@.len() - i,
    {
        let ghost before = string_views(out@);
        proof {
            assert(all.take(i + 1) =~= all.take(i as int).push(all[i as int]));
            crate::text::lemma_filter_push(all.take(i as int), keep, all[i as int]);
        }
        if !covered(paths, paths[i].as_str()) {
            out.push(paths[i].clone());
            assert(string_views(out@) =~= before.push(all[i as int]));
        }
        i += 1;
    }
    proof {
        assert(all.take(paths@.len() as int) =~= all);
    }
    out
}

/// The characters that make a component of a pattern a glob.
pub open spec fn is_glob_indicator(c: char) -> bool {
    c == '*' || c == '?' || c == '[' || c == '!'
}

/// The index of the first glob indicator in a pattern.
pub open spec fn spec_first_indicator(pattern: Seq<char>) -> Option<int>
    decreases pattern.len(),
{
    if pattern.len() == 0 {
        None
    } else if is_glob_indicator(pattern[0]) {
        Some(0)
    } else {
        match spec_first_indicator(pattern.drop_first()) {
            Some(i) => Some(i + 1),
            None => None,
        }
    }
}

/// The index of the last `/` of a text.
pub open spec fn spec_last_slash(text: Seq<char>) -> Option<int>
    decreases text.len(),
{
    if text.len() == 0 {
        None
    } else if text.last() == '/' {
        Some(text.len() - 1)
    } else {
        spec_last_slash(text.drop_last())
    }
}

/// The part of a pattern that names a directory outright: the components
/// before the first one with a glob indicator, or the whole pattern if
/// there is none.
pub open spec fn spec_glob_base(pattern: Seq<char>) -> Seq<char> {
    match spec_first_indicator(pattern) {
        None => pattern,
        Some(k) => match spec_last_slash(pattern.take(k)) {
            Some(s) => pattern.take(s),
            None => Seq::empty(),
        },
    }
}

/// The part of a pattern that names a directory outright.
pub fn glob_base(pattern: &str) -> (r: String)
    ensures
        r@ == spec_glob_base(pattern@),
{
    let chars = chars_of(pattern);
    let n = chars.len();
    let mut k: usize = 0;
    proof {
        assert(chars@.skip(0) =~= chars@);
    }
    while k < n && !(chars[k] == '*' || chars[k] == '?' || chars[k] == '[' || chars[k] == '!')
        invariant
            k <= n,
            n == chars@.len(),
            chars@ == pattern@,
            match spec_first_indicator(chars@.skip(k as int)) {
                Some(i) => spec_first_indicator(chars@) == Some(i + k),
                None => spec_first_indicator(chars@) is None,
            },
        decreases n - k,
    {
        proof {
            assert(chars@.skip(k as int).drop_first() =~= chars@.skip(k + 1));
        }
        k += 1;
    }
    if k == n {
        proof {
            assert(chars@.skip(n as int) =~= Seq::<char>::empty());
        }
        return String::from_str(pattern);
    }
    let mut s: usize = k;
    proof {
        assert(chars@.take(k as int).take(k as int) =~= chars@.take(k as int));
    }
    while s > 0 && chars[s - 1] != '/'
        invariant
            s <= k < n,
            n == chars@.len(),
            chars@ == pattern@,
            spec_last_slash(chars@.take(s as int)) == spec_last_slash(chars@.take(k as int)),
        decreases s,
    {
        proof {
            assert(chars@.take(s as int).drop_last() =~= chars@.take(s - 1));
        }
        s -= 1;
    }
    if s == 0 {
        proof {
            assert(chars@.take(0).len() == 0);
        }
        String::new()
    } else {
        proof {
            assert(chars@.take(s as int).last() == '/');
            assert(pattern@.subrange(0, s - 1) =~= pattern@.take(s - 1));
        }
        slice(pattern, 0, s - 1)
    }
}

} // verus!
