//! Paths read component by component.
//!
//! A path is text with `/` between its components. A leading `/` is the
//! root. Empty components (two separators in a row, a separator at the end)
//! and `.` components count for nothing, but for a `.` that opens a relative
//! path. What is left are the names, `..` among them.

use vstd::prelude::*;

verus! {

/// Whether the path starts at the root.
pub open spec fn rooted(path: Seq<char>) -> bool {
    path.len() > 0 && path[0] == '/'
}

/// Whether the component that starts at `i` is a `.`: a dot followed by a
/// separator or by the end of the path.
pub open spec fn dot_at(path: Seq<char>, i: int) -> bool {
    0 <= i < path.len() && path[i] == '.' && (i + 1 == path.len() || path[i + 1] == '/')
}

/// Where the names of the path begin: after the root of a rooted path, after
/// the `.` that opens a relative one, else at the start.
pub open spec fn body_start(path: Seq<char>) -> int {
    if rooted(path) || dot_at(path, 0) {
        1
    } else {
        0
    }
}

/// The start of the first name at or after `i`, where a component starts at
/// `i`: separators and `.` components are passed over. The length of the
/// path where no name follows.
pub open spec fn next_name(path: Seq<char>, i: int) -> int
    decreases path.len() - i,
{
    if i >= path.len() {
        path.len() as int
    } else if path[i] == '/' || dot_at(path, i) {
        next_name(path, i + 1)
    } else {
        i
    }
}

/// The end of the name that starts at `i`: the next separator, or the end of
/// the path.
pub open spec fn name_end(path: Seq<char>, i: int) -> int
    decreases path.len() - i,
{
    if i >= path.len() {
        path.len() as int
    } else if path[i] == '/' {
        i
    } else {
        name_end(path, i + 1)
    }
}

/// The end of the last name in `path[floor..to]`: separators and `.`
/// components at the end are passed over. `floor` where there is no name.
pub open spec fn last_name_end(path: Seq<char>, floor: int, to: int) -> int
    decreases to - floor,
{
    if to <= floor {
        floor
    } else if path[to - 1] == '/' {
        last_name_end(path, floor, to - 1)
    } else if path[to - 1] == '.' && (to - 1 == floor || path[to - 2] == '/') {
        last_name_end(path, floor, to - 1)
    } else {
        to
    }
}

/// The start of the name that ends at `to`, looked for no further back than
/// `floor`: just after the last separator before `to`.
pub open spec fn name_start(path: Seq<char>, floor: int, to: int) -> int
    decreases to - floor,
{
    if to <= floor {
        floor
    } else if path[to - 1] == '/' {
        to
    } else {
        name_start(path, floor, to - 1)
    }
}

/// Takes the names of `base` from `j` on off the names of `path` from `i`
/// on, one by one. Gives the start of what is left of `path` where every
/// name of `base` is matched by the same name of `path`, and `None` where a
/// name differs or `path` runs out of names first.
pub open spec fn match_names(path: Seq<char>, i: int, base: Seq<char>, j: int) -> Option<int>
    decreases base.len() - j,
{
    let at = next_name(path, i);
    let base_at = next_name(base, j);
    if j < 0 || base_at >= base.len() {
        Some(at)
    } else if at >= path.len() {
        None
    } else {
        let end = name_end(path, at);
        let base_end = name_end(base, base_at);
        if path.subrange(at, end) == base.subrange(base_at, base_end) {
            proof {
                lemma_next_name(base, j);
                lemma_name_end(base, base_at);
            }
            match_names(path, end, base, base_end)
        } else {
            None
        }
    }
}

/// Where `path` goes on once the components of `base` are taken off its
/// front, if they can be: both are rooted or neither is, both open with a
/// `.` or neither does, and the names of `base` are the first names of
/// `path`. An empty `base` has no components and leaves all of `path`.
pub open spec fn rest_start(path: Seq<char>, base: Seq<char>) -> Option<int> {
    if base.len() == 0 {
        Some(0)
    } else if rooted(path) != rooted(base) || dot_at(path, 0) != dot_at(base, 0) {
        None
    } else {
        match_names(path, body_start(path), base, body_start(base))
    }
}

/// `path` without the components of `base` at its front, where `base` is a
/// prefix of `path` by components: it starts at the first name that is left
/// and ends with the last one. `None` where `base` is no such prefix.
pub open spec fn without_prefix(path: Seq<char>, base: Seq<char>) -> Option<Seq<char>> {
    match rest_start(path, base) {
        Some(from) => {
            let floor = if base.len() == 0 {
                body_start(path)
            } else {
                from
            };
            Some(path.subrange(from, last_name_end(path, floor, path.len() as int)))
        },
        None => None,
    }
}

/// The path without its last name: the directory that holds it. `None` for
/// the empty path and for a path that is only the root.
pub open spec fn parent_of(path: Seq<char>) -> Option<Seq<char>> {
    let floor = body_start(path);
    let end = last_name_end(path, floor, path.len() as int);
    if end > floor {
        Some(path.subrange(0, last_name_end(path, floor, name_start(path, floor, end))))
    } else if dot_at(path, 0) {
        Some(Seq::empty())
    } else {
        None
    }
}

/// What [`next_name`] finds lies at or after `i` and is the start of a
/// name.
pub proof fn lemma_next_name(path: Seq<char>, i: int)
    requires
        0 <= i <= path.len(),
    ensures
        i <= next_name(path, i) <= path.len(),
        next_name(path, i) < path.len() ==> path[next_name(path, i)] != '/' && !dot_at(
            path,
            next_name(path, i),
        ),
    decreases path.len() - i,
{
    if i < path.len() && (path[i] == '/' || dot_at(path, i)) {
        lemma_next_name(path, i + 1);
    }
}

/// What [`name_end`] finds lies at or after `i`, is a separator or the end,
/// and no separator comes before it.
pub proof fn lemma_name_end(path: Seq<char>, i: int)
    requires
        0 <= i <= path.len(),
    ensures
        i <= name_end(path, i) <= path.len(),
        name_end(path, i) < path.len() ==> path[name_end(path, i)] == '/',
        i < path.len() && path[i] != '/' ==> i < name_end(path, i),
        forall|k: int| i <= k < name_end(path, i) ==> path[k] != '/',
    decreases path.len() - i,
{
    if i < path.len() && path[i] != '/' {
        lemma_name_end(path, i + 1);
    }
}

/// What [`last_name_end`] finds lies between `floor` and `to`.
pub proof fn lemma_last_name_end(path: Seq<char>, floor: int, to: int)
    requires
        0 <= floor <= to <= path.len(),
    ensures
        floor <= last_name_end(path, floor, to) <= to,
        last_name_end(path, floor, to) > floor ==> path[last_name_end(path, floor, to) - 1]
            != '/',
    decreases to - floor,
{
    if to > floor && (path[to - 1] == '/' || (path[to - 1] == '.' && (to - 1 == floor || path[to
        - 2] == '/'))) {
        lemma_last_name_end(path, floor, to - 1);
    }
}

/// What [`match_names`] gives lies within `path`.
pub proof fn lemma_match_names(path: Seq<char>, i: int, base: Seq<char>, j: int)
    requires
        0 <= i <= path.len(),
        0 <= j <= base.len(),
    ensures
        match_names(path, i, base, j) matches Some(from) ==> i <= from <= path.len(),
    decreases base.len() - j,
{
    lemma_next_name(path, i);
    lemma_next_name(base, j);
    let at = next_name(path, i);
    let base_at = next_name(base, j);
    if base_at < base.len() && at < path.len() {
        lemma_name_end(path, at);
        lemma_name_end(base, base_at);
        let end = name_end(path, at);
        let base_end = name_end(base, base_at);
        if path.subrange(at, end) == base.subrange(base_at, base_end) {
            lemma_match_names(path, end, base, base_end);
        }
    }
}

/// What is left of a path without its prefix is a piece of the path.
pub proof fn lemma_without_prefix(path: Seq<char>, base: Seq<char>)
    ensures
        without_prefix(path, base) matches Some(rest) ==> rest.len() <= path.len(),
        rest_start(path, base) matches Some(from) ==> 0 <= from <= last_name_end(
            path,
            if base.len() == 0 {
                body_start(path)
            } else {
                from
            },
            path.len() as int,
        ) <= path.len(),
{
    if base.len() == 0 {
        lemma_last_name_end(path, body_start(path), path.len() as int);
    } else if rooted(path) == rooted(base) && dot_at(path, 0) == dot_at(base, 0) {
        lemma_match_names(path, body_start(path), base, body_start(base));
        match match_names(path, body_start(path), base, body_start(base)) {
            Some(from) => {
                lemma_last_name_end(path, from, path.len() as int);
            },
            None => {},
        }
    }
}

/// The start of the first name at or after `from`.
pub(crate) fn find_name(path: &Vec<char>, from: usize) -> (at: usize)
    requires
        from <= path.len(),
    ensures
        at == next_name(path@, from as int),
        from <= at <= path.len(),
{
    let mut at: usize = from;
    loop
        invariant
            from <= at <= path.len(),
            next_name(path@, from as int) == next_name(path@, at as int),
        decreases path.len() - at,
    {
        if at >= path.len() {
            return at;
        }
        let blank = path[at] == '/' || (path[at] == '.' && (at + 1 == path.len() || path[at + 1]
            == '/'));
        if !blank {
            return at;
        }
        at += 1;
    }
}

/// The end of the name that starts at `from`.
pub(crate) fn find_name_end(path: &Vec<char>, from: usize) -> (end: usize)
    requires
        from <= path.len(),
    ensures
        end == name_end(path@, from as int),
        from <= end <= path.len(),
{
    let mut end: usize = from;
    while end < path.len() && path[end] != '/'
        invariant
            from <= end <= path.len(),
            name_end(path@, from as int) == name_end(path@, end as int),
        decreases path.len() - end,
    {
        end += 1;
    }
    end
}

/// The end of the last name in `path[floor..to]`.
pub(crate) fn find_last_name_end(path: &Vec<char>, floor: usize, to: usize) -> (end: usize)
    requires
        floor <= to <= path.len(),
    ensures
        end == last_name_end(path@, floor as int, to as int),
        floor <= end <= to,
{
    let mut end: usize = to;
    loop
        invariant
            floor <= end <= to <= path.len(),
            last_name_end(path@, floor as int, to as int) == last_name_end(
                path@,
                floor as int,
                end as int,
            ),
        decreases end,
    {
        if end <= floor {
            return end;
        }
        let blank = path[end - 1] == '/' || (path[end - 1] == '.' && (end - 1 == floor || path[end
            - 2] == '/'));
        if !blank {
            return end;
        }
        end -= 1;
    }
}

/// The start of the name that ends at `to`.
pub(crate) fn find_name_start(path: &Vec<char>, floor: usize, to: usize) -> (start: usize)
    requires
        floor <= to <= path.len(),
    ensures
        start == name_start(path@, floor as int, to as int),
        floor <= start <= to,
{
    let mut start: usize = to;
    while start > floor && path[start - 1] != '/'
        invariant
            floor <= start <= to <= path.len(),
            name_start(path@, floor as int, to as int) == name_start(
                path@,
                floor as int,
                start as int,
            ),
        decreases start,
    {
        start -= 1;
    }
    start
}

/// Whether `a[i..i_end]` and `b[j..j_end]` are the same text.
fn same_name(a: &Vec<char>, i: usize, i_end: usize, b: &Vec<char>, j: usize, j_end: usize) -> (same:
    bool)
    requires
        i <= i_end <= a.len(),
        j <= j_end <= b.len(),
    ensures
        same == (a@.subrange(i as int, i_end as int) == b@.subrange(j as int, j_end as int)),
{
    if i_end - i != j_end - j {
        assert(a@.subrange(i as int, i_end as int).len() != b@.subrange(
            j as int,
            j_end as int,
        ).len());
        return false;
    }
    let n: usize = i_end - i;
    let mut k: usize = 0;
    while k < n
        invariant
            k <= n,
            n == i_end - i,
            n == j_end - j,
            i_end <= a.len(),
            j_end <= b.len(),
            a@.subrange(i as int, i + k) == b@.subrange(j as int, j + k),
        decreases n - k,
    {
        if a[i + k] != b[j + k] {
            assert(a@.subrange(i as int, i_end as int)[k as int] != b@.subrange(
                j as int,
                j_end as int,
            )[k as int]);
            return false;
        }
        assert(a@.subrange(i as int, i + k + 1) =~= a@.subrange(i as int, i + k).push(
            a@[i + k],
        ));
        assert(b@.subrange(j as int, j + k + 1) =~= b@.subrange(j as int, j + k).push(
            b@[j + k],
        ));
        k += 1;
    }
    true
}

/// Whether the path starts at the root.
fn is_rooted(path: &Vec<char>) -> (yes: bool)
    ensures
        yes == rooted(path@),
{
    path.len() > 0 && path[0] == '/'
}

/// Whether the path opens with a `.` component.
fn opens_with_dot(path: &Vec<char>) -> (yes: bool)
    ensures
        yes == dot_at(path@, 0),
{
    path.len() > 0 && path[0] == '.' && (path.len() == 1 || path[1] == '/')
}

/// Where the names of the path begin.
pub(crate) fn find_body(path: &Vec<char>) -> (start: usize)
    ensures
        start == body_start(path@),
        start <= path.len(),
{
    if is_rooted(path) || opens_with_dot(path) {
        1
    } else {
        0
    }
}

/// Takes the names of `base` from `j` on off the names of `path` from `i`
/// on.
fn strip_names(path: &Vec<char>, i: usize, base: &Vec<char>, j: usize) -> (rest: Option<usize>)
    requires
        i <= path.len(),
        j <= base.len(),
    ensures
        match rest {
            Some(from) => match_names(path@, i as int, base@, j as int) == Some(from as int)
                && from <= path.len(),
            None => match_names(path@, i as int, base@, j as int) is None,
        },
{
    let mut at: usize = i;
    let mut base_at: usize = j;
    loop
        invariant
            at <= path.len(),
            base_at <= base.len(),
            match_names(path@, i as int, base@, j as int) == match_names(
                path@,
                at as int,
                base@,
                base_at as int,
            ),
        decreases base.len() - base_at,
    {
        let name = find_name(path, at);
        let base_name = find_name(base, base_at);
        if base_name >= base.len() {
            return Some(name);
        }
        if name >= path.len() {
            return None;
        }
        let end = find_name_end(path, name);
        let base_end = find_name_end(base, base_name);
        if !same_name(path, name, end, base, base_name, base_end) {
            return None;
        }
        proof {
            lemma_next_name(base@, base_at as int);
            lemma_name_end(base@, base_name as int);
        }
        at = end;
        base_at = base_end;
    }
}

/// Where `path` goes on once the components of `base` are taken off its
/// front, and the end of its last name, where `base` is a prefix of `path`
/// by components.
pub(crate) fn strip_components(path: &Vec<char>, base: &Vec<char>) -> (rest: Option<(usize, usize)>)
    ensures
        match rest {
            Some((from, to)) => from <= to <= path.len() && without_prefix(path@, base@) == Some(
                path@.subrange(from as int, to as int),
            ),
            None => without_prefix(path@, base@) is None,
        },
{
    proof {
        lemma_without_prefix(path@, base@);
    }
    if base.len() == 0 {
        let floor = find_body(path);
        let to = find_last_name_end(path, floor, path.len());
        return Some((0, to));
    }
    if is_rooted(path) != is_rooted(base) || opens_with_dot(path) != opens_with_dot(base) {
        return None;
    }
    match strip_names(path, find_body(path), base, find_body(base)) {
        Some(from) => {
            let to = find_last_name_end(path, from, path.len());
            Some((from, to))
        },
        None => None,
    }
}

/// The length of the path without its last name, where it has a parent.
pub(crate) fn parent_len(path: &Vec<char>) -> (len: Option<usize>)
    ensures
        match len {
            Some(n) => n <= path.len() && parent_of(path@) == Some(path@.subrange(0, n as int)),
            None => parent_of(path@) is None,
        },
{
    let floor = find_body(path);
    let end = find_last_name_end(path, floor, path.len());
    if end > floor {
        let start = find_name_start(path, floor, end);
        let n = find_last_name_end(path, floor, start);
        Some(n)
    } else if opens_with_dot(path) {
        assert(path@.subrange(0, 0) =~= Seq::<char>::empty());
        Some(0)
    } else {
        None
    }
}

} // verus!
