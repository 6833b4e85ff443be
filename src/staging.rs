//! Placement of natives-bundle entries under a staging directory.

use vstd::prelude::*;

use crate::rules::chars_of;

verus! {

pub open spec fn is_sep(c: char) -> bool {
    c == '/' || c == '\\'
}

/// A path component that names an entry inside the directory it stands in.
pub open spec fn is_normal_component(c: Seq<char>) -> bool {
    &&& c.len() > 0
    &&& c != "."@
    &&& c != ".."@
    &&& forall|k: int| 0 <= k < c.len() ==> !is_sep(#[trigger] c[k])
}

/// Applies one finished component to the stack of components so far; `None`
/// when `..` would leave the root.
pub open spec fn close(stack: Seq<Seq<char>>, cur: Seq<char>) -> Option<Seq<Seq<char>>> {
    if cur.len() == 0 || cur == "."@ {
        Some(stack)
    } else if cur == ".."@ {
        if stack.len() == 0 {
            None
        } else {
            Some(stack.drop_last())
        }
    } else {
        Some(stack.push(cur))
    }
}

/// State after the first `n` characters of an entry name: the finished
/// components, and where the current one starts; `None` once it escaped.
pub open spec fn walk(s: Seq<char>, n: int) -> Option<(Seq<Seq<char>>, int)>
    decreases n,
{
    if n <= 0 {
        Some((Seq::empty(), 0))
    } else {
        match walk(s, n - 1) {
            None => None,
            Some((stack, start)) => if is_sep(s[n - 1]) {
                match close(stack, s.subrange(start, n - 1)) {
                    None => None,
                    Some(st) => Some((st, n)),
                }
            } else {
                Some((stack, start))
            },
        }
    }
}

pub open spec fn is_ascii_letter(c: char) -> bool {
    ('a' <= c && c <= 'z') || ('A' <= c && c <= 'Z')
}

/// Whether an entry name is refused outright: absolute, starting with a
/// drive prefix (`C:`), or holding a NUL character.
pub open spec fn refused_name(s: Seq<char>) -> bool {
    ||| (s.len() > 0 && is_sep(s[0]))
    ||| (s.len() >= 2 && is_ascii_letter(s[0]) && s[1] == ':')
    ||| exists|k: int| 0 <= k < s.len() && #[trigger] s[k] == '\0'
}

/// The components of an entry name after resolving `.` and `..`.
pub open spec fn entry_components(s: Seq<char>) -> Option<Seq<Seq<char>>> {
    if refused_name(s) {
        None
    } else {
        match walk(s, s.len() as int) {
            None => None,
            Some((stack, start)) => close(stack, s.subrange(start, s.len() as int)),
        }
    }
}

/// Components joined with `/`.
pub open spec fn join(cs: Seq<Seq<char>>) -> Seq<char>
    decreases cs.len(),
{
    if cs.len() == 0 {
        Seq::empty()
    } else if cs.len() == 1 {
        cs[0]
    } else {
        join(cs.drop_last()) + "/"@ + cs.last()
    }
}

/// Where an archive entry goes, relative to the staging directory: `None`
/// (skip it) for a directory entry, and for a name that is refused, escapes
/// the staging directory, or names nothing.
pub open spec fn staged_path(name: Seq<char>) -> Option<Seq<char>> {
    if name.len() > 0 && is_sep(name.last()) {
        None
    } else {
        match entry_components(name) {
            None => None,
            Some(cs) => if cs.len() == 0 {
                None
            } else {
                Some(join(cs))
            },
        }
    }
}

fn is_sep_char(c: char) -> (r: bool)
    ensures
        r == is_sep(c),
{
    c == '/' || c == '\\'
}

/// Applies the component `s[start..end]` to the stack.
fn close_component(
    name: &str,
    chars: &Vec<char>,
    stack: &mut Vec<String>,
    start: usize,
    end: usize,
) -> (ok: bool)
    requires
        chars@ == name@,
        start <= end <= chars.len(),
    ensures
        match close(
            old(stack)@.map_values(|c: String| c@),
            chars@.subrange(start as int, end as int),
        ) {
            None => !ok,
            Some(st) => ok && final(stack)@.map_values(|c: String| c@) == st,
        },
{
    let ghost cur = chars@.subrange(start as int, end as int);
    let len = end - start;
    proof {
        reveal_strlit(".");
        reveal_strlit("..");
        assert("."@.len() == 1 && "."@[0] == '.');
        assert(".."@.len() == 2 && ".."@[0] == '.' && ".."@[1] == '.');
    }
    if len == 0 || (len == 1 && chars[start] == '.') {
        if len == 1 {
            assert(cur =~= "."@);
        }
        return true;
    }
    if len == 2 && chars[start] == '.' && chars[start + 1] == '.' {
        assert(cur =~= ".."@);
        if stack.len() == 0 {
            return false;
        }
        let _ = stack.pop();
        assert(stack@.map_values(|c: String| c@) =~= old(stack)@.map_values(|c: String| c@).drop_last());
        return true;
    }
    if len == 1 {
        assert(cur[0] != '.');
    }
    if len == 2 {
        assert(cur[0] != '.' || cur[1] != '.');
    }
    assert(cur != "."@ && cur != ".."@);
    let comp = name.substring_char(start, end).to_owned();
    stack.push(comp);
    assert(stack@.map_values(|c: String| c@) =~= old(stack)@.map_values(|c: String| c@).push(cur));
    true
}

fn join_components(cs: &Vec<String>) -> (r: String)
    ensures
        r@ == join(cs@.map_values(|c: String| c@)),
{
    let ghost v = cs@.map_values(|c: String| c@);
    let mut out = String::new();
    let mut i: usize = 0;
    while i < cs.len()
        invariant
            v == cs@.map_values(|c: String| c@),
            i <= cs.len(),
            out@ == join(v.subrange(0, i as int)),
        decreases cs.len() - i,
    {
        assert(v.subrange(0, i + 1).drop_last() =~= v.subrange(0, i as int));
        if i > 0 {
            out.append("/");
        } else {
            assert(out@ =~= Seq::<char>::empty());
        }
        out.append(cs[i].as_str());
        i += 1;
    }
    assert(v.subrange(0, cs.len() as int) =~= v);
    out
}

/// Where an archive entry goes relative to the staging directory, or `None`
/// when the entry is to be skipped.
pub fn entry_target(name: &str) -> (r: Option<String>)
    ensures
        match r {
            Some(p) => staged_path(name@) == Some(p@),
            None => staged_path(name@).is_none(),
        },
{
    let chars = chars_of(name);
    let n = chars.len();
    if n > 0 && is_sep_char(chars[n - 1]) {
        return None;
    }
    if n > 0 && is_sep_char(chars[0]) {
        return None;
    }
    if n >= 2 && (('a' <= chars[0] && chars[0] <= 'z') || ('A' <= chars[0] && chars[0] <= 'Z'))
        && chars[1] == ':' {
        return None;
    }
    let mut k: usize = 0;
    while k < n
        invariant
            n == chars.len(),
            chars@ == name@,
            k <= n,
            forall|j: int| 0 <= j < k ==> chars@[j] != '\0',
        decreases n - k,
    {
        if chars[k] == '\0' {
            return None;
        }
        k += 1;
    }
    let mut stack: Vec<String> = Vec::new();
    let mut start: usize = 0;
    let mut i: usize = 0;
    assert(stack@.map_values(|c: String| c@) =~= Seq::<Seq<char>>::empty());
    while i < n
        invariant
            n == chars.len(),
            chars@ == name@,
            i <= n,
            start <= i,
            walk(name@, i as int) == Some((stack@.map_values(|c: String| c@), start as int)),
        decreases n - i,
    {
        if is_sep_char(chars[i]) {
            if !close_component(name, &chars, &mut stack, start, i) {
                proof {
                    lemma_walk_escaped_sticks(name@, i + 1, n as int);
                }
                return None;
            }
            start = i + 1;
        }
        i += 1;
    }
    if !close_component(name, &chars, &mut stack, start, n) {
        return None;
    }
    if stack.len() == 0 {
        return None;
    }
    Some(join_components(&stack))
}

proof fn lemma_walk_escaped_sticks(s: Seq<char>, i: int, n: int)
    requires
        0 < i <= n,
        walk(s, i).is_none(),
    ensures
        walk(s, n).is_none(),
    decreases n - i,
{
    if i < n {
        lemma_walk_escaped_sticks(s, i, n - 1);
    }
}

proof fn lemma_close_normal(stack: Seq<Seq<char>>, cur: Seq<char>)
    requires
        forall|k: int| 0 <= k < stack.len() ==> is_normal_component(#[trigger] stack[k]),
        forall|k: int| 0 <= k < cur.len() ==> !is_sep(#[trigger] cur[k]),
    ensures
        match close(stack, cur) {
            None => true,
            Some(st) => forall|k: int| 0 <= k < st.len() ==> is_normal_component(#[trigger] st[k]),
        },
{
    match close(stack, cur) {
        None => {},
        Some(st) => {
            assert forall|k: int| 0 <= k < st.len() implies is_normal_component(#[trigger] st[k]) by {
                if k < stack.len() {
                    assert(st[k] == stack[k]);
                } else {
                    assert(st[k] == cur);
                }
            }
        },
    }
}

proof fn lemma_walk_normal(s: Seq<char>, n: int)
    requires
        0 <= n <= s.len(),
    ensures
        match walk(s, n) {
            None => true,
            Some((stack, start)) => {
                &&& 0 <= start <= n
                &&& forall|k: int| 0 <= k < stack.len() ==> is_normal_component(#[trigger] stack[k])
                &&& forall|j: int| start <= j < n ==> !is_sep(#[trigger] s[j])
            },
        },
    decreases n,
{
    if n > 0 {
        lemma_walk_normal(s, n - 1);
        match walk(s, n - 1) {
            None => {},
            Some((stack, start)) => {
                if is_sep(s[n - 1]) {
                    let cur = s.subrange(start, n - 1);
                    assert forall|k: int| 0 <= k < cur.len() implies !is_sep(#[trigger] cur[k]) by {
                        assert(cur[k] == s[start + k]);
                    }
                    lemma_close_normal(stack, cur);
                }
            },
        }
    }
}

/// Natives staging never writes outside the staging directory: every entry it
/// places resolves to components that each name something inside the
/// directory they stand in (no `..`, no `.`, no separator, none empty).
pub proof fn lemma_staged_entries_stay_inside(name: Seq<char>)
    ensures
        match entry_components(name) {
            None => true,
            Some(cs) => forall|k: int| 0 <= k < cs.len() ==> is_normal_component(#[trigger] cs[k]),
        },
{
    if !refused_name(name) {
        lemma_walk_normal(name, name.len() as int);
        match walk(name, name.len() as int) {
            None => {},
            Some((stack, start)) => {
                let cur = name.subrange(start, name.len() as int);
                assert forall|k: int| 0 <= k < cur.len() implies !is_sep(#[trigger] cur[k]) by {
                    assert(cur[k] == name[start + k]);
                }
                lemma_close_normal(stack, cur);
            },
        }
    }
}

} // verus!
