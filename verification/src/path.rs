//! Paths as text: the directory a path lies in, the name of its last
//! component and the stem of that name.
//!
//! A path is a sequence of characters. Separators cut it into components;
//! empty components and components `.` say nothing and are passed over,
//! except for a `.` that begins the path. A path may begin with an anchor:
//! the root separator, or that leading `.`. On Windows both `/` and `\`
//! separate; drive letters and network shares are components like any other.

use vstd::prelude::*;
use crate::platform::Platform;
use crate::text::characters;

verus! {

/// The length of the anchor of `s`: 1 where `s` begins with a separator or
/// with a component `.`, else 0.
pub open spec fn anchor(p: Platform, s: Seq<char>) -> int {
    if s.len() > 0 && (p.separates(s[0]) || (s[0] == '.' && (s.len() == 1 || p.separates(s[1])))) {
        1
    } else {
        0
    }
}

/// Where the meaningful part of `s[..end]` ends, looking no further back
/// than `floor`: trailing separators and trailing components `.` are left
/// out.
pub open spec fn body_end(p: Platform, s: Seq<char>, floor: int, end: int) -> int
    decreases end - floor,
{
    if end <= floor {
        floor
    } else if p.separates(s[end - 1]) {
        body_end(p, s, floor, end - 1)
    } else if s[end - 1] == '.' && (end - 1 == floor || p.separates(s[end - 2])) {
        body_end(p, s, floor, end - 1)
    } else {
        end
    }
}

/// Where the component that ends at `end` starts, looking no further back
/// than `floor`.
pub open spec fn component_start(p: Platform, s: Seq<char>, floor: int, end: int) -> int
    decreases end - floor,
{
    if end <= floor {
        floor
    } else if p.separates(s[end - 1]) {
        end
    } else {
        component_start(p, s, floor, end - 1)
    }
}

/// The index at which the last component of `s` ends.
pub open spec fn last_end(p: Platform, s: Seq<char>) -> int {
    body_end(p, s, anchor(p, s), s.len() as int)
}

/// The index at which the last component of `s` starts.
pub open spec fn last_start(p: Platform, s: Seq<char>) -> int {
    component_start(p, s, anchor(p, s), last_end(p, s))
}

/// Whether `s` has a component after its anchor.
pub open spec fn has_body(p: Platform, s: Seq<char>) -> bool {
    last_end(p, s) > anchor(p, s)
}

/// The name of the file or directory that `s` ends in: its last component,
/// unless there is none or it is `..`.
pub open spec fn file_name_of(p: Platform, s: Seq<char>) -> Option<Seq<char>> {
    let name = s.subrange(last_start(p, s), last_end(p, s));
    if !has_body(p, s) || name == seq!['.', '.'] {
        None
    } else {
        Some(name)
    }
}

/// The path without its last component. A path that is only a root, and the
/// empty path, have none; a path that is only `.` has the empty one.
pub open spec fn parent_of(p: Platform, s: Seq<char>) -> Option<Seq<char>> {
    if has_body(p, s) {
        Some(s.subrange(0, body_end(p, s, anchor(p, s), last_start(p, s))))
    } else if anchor(p, s) == 1 && !p.separates(s[0]) {
        Some(Seq::empty())
    } else {
        None
    }
}

/// The index of the last `.` in `name[..end]`, or -1.
pub open spec fn last_dot(name: Seq<char>, end: int) -> int
    decreases end,
{
    if end <= 0 {
        -1
    } else if name[end - 1] == '.' {
        end - 1
    } else {
        last_dot(name, end - 1)
    }
}

/// A file name without its extension: what stands before the last `.`, or
/// the whole name where it holds no `.` or only begins with one.
pub open spec fn stem_of_name(name: Seq<char>) -> Seq<char> {
    let dot = last_dot(name, name.len() as int);
    if dot <= 0 {
        name
    } else {
        name.subrange(0, dot)
    }
}

/// The stem of the file name of `s`.
pub open spec fn file_stem_of(p: Platform, s: Seq<char>) -> Option<Seq<char>> {
    match file_name_of(p, s) {
        Some(name) => Some(stem_of_name(name)),
        None => None,
    }
}

/// `name` below the directory `dir`: a separator is written between them
/// unless `dir` is empty or ends in one.
pub open spec fn joined(p: Platform, dir: Seq<char>, name: Seq<char>) -> Seq<char> {
    if dir.len() > 0 && !p.separates(dir.last()) {
        dir.push(p.separator()) + name
    } else {
        dir + name
    }
}

/// `body_end` lies between `floor` and `end`, and where it lies above
/// `floor`, no separator stands before it.
pub proof fn lemma_body_end(p: Platform, s: Seq<char>, floor: int, end: int)
    requires
        floor <= end,
    ensures
        floor <= body_end(p, s, floor, end) <= end,
        body_end(p, s, floor, end) > floor ==> !p.separates(s[body_end(p, s, floor, end) - 1]),
    decreases end - floor,
{
    if end > floor {
        lemma_body_end(p, s, floor, end - 1);
    }
}

/// `component_start` lies between `floor` and `end`, no separator stands in
/// the component, and one stands before it unless it starts at `floor`.
pub proof fn lemma_component_start(p: Platform, s: Seq<char>, floor: int, end: int)
    requires
        floor <= end,
    ensures
        floor <= component_start(p, s, floor, end) <= end,
        forall|i: int| component_start(p, s, floor, end) <= i < end ==> !p.separates(#[trigger] s[i]),
        component_start(p, s, floor, end) > floor ==> p.separates(
            s[component_start(p, s, floor, end) - 1],
        ),
    decreases end - floor,
{
    if end > floor && !p.separates(s[end - 1]) {
        lemma_component_start(p, s, floor, end - 1);
    }
}

/// The name of a file is a piece of its path: it is not empty and holds no
/// separator, and neither does its stem, with which it begins.
pub proof fn lemma_file_name_is_component(p: Platform, s: Seq<char>)
    ensures
        file_name_of(p, s) matches Some(name) ==> {
            &&& name.len() > 0
            &&& forall|i: int| 0 <= i < name.len() ==> !p.separates(#[trigger] name[i])
            &&& file_stem_of(p, s) matches Some(stem)
            &&& 0 < stem.len() <= name.len()
            &&& stem == name.subrange(0, stem.len() as int)
        },
{
    let floor = anchor(p, s);
    lemma_body_end(p, s, floor, s.len() as int);
    lemma_component_start(p, s, floor, last_end(p, s));
    if file_name_of(p, s) is Some {
        let name = s.subrange(last_start(p, s), last_end(p, s));
        assert forall|i: int| 0 <= i < name.len() implies !p.separates(#[trigger] name[i]) by {
            assert(name[i] == s[last_start(p, s) + i]);
        }
        lemma_last_dot(name, name.len() as int);
        assert(name.subrange(0, name.len() as int) =~= name);
    }
}

/// The directory of a path is what the path begins with.
pub proof fn lemma_parent_is_prefix(p: Platform, s: Seq<char>)
    ensures
        parent_of(p, s) matches Some(dir) ==> dir.len() <= s.len() && dir == s.subrange(
            0,
            dir.len() as int,
        ),
{
    let floor = anchor(p, s);
    lemma_body_end(p, s, floor, s.len() as int);
    lemma_component_start(p, s, floor, last_end(p, s));
    lemma_body_end(p, s, floor, last_start(p, s));
}

/// `last_dot` is below `end`, and -1 or the index of a `.`.
proof fn lemma_last_dot(name: Seq<char>, end: int)
    ensures
        -1 <= last_dot(name, end) < end || (end <= 0 && last_dot(name, end) == -1),
        last_dot(name, end) >= 0 ==> name[last_dot(name, end)] == '.',
    decreases end,
{
    if end > 0 && name[end - 1] != '.' {
        lemma_last_dot(name, end - 1);
    }
}

fn anchor_len(p: Platform, chars: &Vec<char>) -> (r: usize)
    ensures
        r == anchor(p, chars@),
{
    if chars.len() > 0 && (p.is_separator(chars[0]) || (chars[0] == '.' && (chars.len() == 1
        || p.is_separator(chars[1])))) {
        1
    } else {
        0
    }
}

fn find_body_end(p: Platform, chars: &Vec<char>, floor: usize, end: usize) -> (r: usize)
    requires
        floor <= end <= chars.len(),
    ensures
        r == body_end(p, chars@, floor as int, end as int),
        floor <= r <= end,
{
    let mut at = end;
    while at > floor && (p.is_separator(chars[at - 1]) || (chars[at - 1] == '.' && (at - 1 == floor
        || p.is_separator(chars[at - 2]))))
        invariant
            floor <= at <= end <= chars.len(),
            body_end(p, chars@, floor as int, at as int) == body_end(
                p,
                chars@,
                floor as int,
                end as int,
            ),
        decreases at,
    {
        at = at - 1;
    }
    at
}

fn find_component_start(p: Platform, chars: &Vec<char>, floor: usize, end: usize) -> (r: usize)
    requires
        floor <= end <= chars.len(),
    ensures
        r == component_start(p, chars@, floor as int, end as int),
        floor <= r <= end,
{
    let mut at = end;
    while at > floor && !p.is_separator(chars[at - 1])
        invariant
            floor <= at <= end <= chars.len(),
            component_start(p, chars@, floor as int, at as int) == component_start(
                p,
                chars@,
                floor as int,
                end as int,
            ),
        decreases at,
    {
        at = at - 1;
    }
    at
}

/// The last `.` of `chars[start..end]`, counted from `start`.
fn find_last_dot(chars: &Vec<char>, start: usize, end: usize) -> (r: Option<usize>)
    requires
        start <= end <= chars.len(),
    ensures
        match r {
            Some(dot) => dot == last_dot(
                chars@.subrange(start as int, end as int),
                end - start,
            ) && dot < end - start,
            None => last_dot(chars@.subrange(start as int, end as int), end - start) == -1,
        },
{
    let ghost name = chars@.subrange(start as int, end as int);
    let mut at = end;
    while at > start
        invariant
            start <= at <= end <= chars.len(),
            name == chars@.subrange(start as int, end as int),
            last_dot(name, at - start) == last_dot(name, end - start),
        decreases at,
    {
        assert(name[at - start - 1] == chars@[at - 1]);
        if chars[at - 1] == '.' {
            return Some(at - 1 - start);
        }
        at = at - 1;
    }
    None
}

/// The directory that `path` lies in.
pub fn parent(p: Platform, path: &str) -> (r: Option<String>)
    ensures
        r.deep_view() == parent_of(p, path@),
{
    let chars = characters(path);
    let floor = anchor_len(p, &chars);
    let end = find_body_end(p, &chars, floor, chars.len());
    if end > floor {
        let start = find_component_start(p, &chars, floor, end);
        let cut = find_body_end(p, &chars, floor, start);
        Some(String::from_str(path.substring_char(0, cut)))
    } else if floor == 1 && !p.is_separator(chars[0]) {
        Some(String::new())
    } else {
        None
    }
}

/// The stem of the name that `path` ends in.
pub fn file_stem(p: Platform, path: &str) -> (r: Option<String>)
    ensures
        r.deep_view() == file_stem_of(p, path@),
{
    let chars = characters(path);
    let floor = anchor_len(p, &chars);
    let end = find_body_end(p, &chars, floor, chars.len());
    if end <= floor {
        return None;
    }
    let start = find_component_start(p, &chars, floor, end);
    let ghost name = chars@.subrange(start as int, end as int);
    proof {
        lemma_component_start(p, chars@, floor as int, end as int);
    }
    if end - start == 2 && chars[start] == '.' && chars[start + 1] == '.' {
        assert(name =~= seq!['.', '.']);
        return None;
    }
    assert(name != seq!['.', '.']) by {
        if name == seq!['.', '.'] {
            assert(name.len() == 2);
            assert(name[0] == '.' && name[1] == '.');
        }
    }
    let stem_end = match find_last_dot(&chars, start, end) {
        Some(dot) => if dot == 0 {
            end
        } else {
            start + dot
        },
        None => end,
    };
    assert(chars@.subrange(start as int, stem_end as int) =~= stem_of_name(name));
    Some(String::from_str(path.substring_char(start, stem_end)))
}

/// `name` below the directory `dir`.
pub fn join(p: Platform, dir: &str, name: &str) -> (r: String)
    ensures
        r@ == joined(p, dir@, name@),
{
    let mut r = String::from_str(dir);
    let n = dir.unicode_len();
    if n > 0 && !p.is_separator(dir.get_char(n - 1)) {
        r.append(p.separator_text());
    }
    r.append(name);
    assert(r@ =~= joined(p, dir@, name@));
    r
}

} // verus!
