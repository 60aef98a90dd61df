//! What a path names, read off its characters: the file name, its extension,
//! its components.

use vstd::prelude::*;

verus! {

/// The position at which the file name of `p` begins: just after the last
/// separator, or 0 when there is none.
pub open spec fn name_start(p: Seq<char>) -> int
    decreases p.len(),
{
    if p.len() == 0 {
        0
    } else if p.last() == '/' {
        p.len() as int
    } else {
        name_start(p.drop_last())
    }
}

/// Where the last named component of `p` ends: separators at the end of
/// `p`, and components that are a single dot, are passed over.
pub open spec fn name_end(p: Seq<char>) -> int
    decreases p.len(),
{
    if p.len() == 0 {
        0
    } else if p.last() == '/' {
        name_end(p.drop_last())
    } else if p.last() == '.' && (p.len() == 1 || p[p.len() - 2] == '/') {
        name_end(p.drop_last())
    } else {
        p.len() as int
    }
}

/// The file name of `p`: its last component, where separators at the end
/// and components that are a single dot do not count. It is empty where `p`
/// has no such component.
pub open spec fn file_name(p: Seq<char>) -> Seq<char> {
    let named = p.take(name_end(p));
    named.skip(name_start(named))
}

/// The position of the last dot of `name`, or -1 when it has none.
pub open spec fn last_dot(name: Seq<char>) -> int
    decreases name.len(),
{
    if name.len() == 0 {
        -1
    } else if name.last() == '.' {
        name.len() - 1
    } else {
        last_dot(name.drop_last())
    }
}

/// The extension of the file that `p` names, with its dot: what the file
/// name holds from its last dot on. It is empty when the file name is `..`
/// or has no dot after its first character.
pub open spec fn dotted_extension(p: Seq<char>) -> Seq<char> {
    let name = file_name(p);
    let dot = last_dot(name);
    if name == seq!['.', '.'] || dot <= 0 {
        Seq::empty()
    } else {
        name.skip(dot)
    }
}

/// A component of `p` begins at `i`: a character that is no separator and
/// stands first or right after one.
pub open spec fn is_component_start(p: Seq<char>, i: int) -> bool {
    0 <= i < p.len() && p[i] != '/' && (i == 0 || p[i - 1] == '/')
}

/// The component that begins at `i` is a single dot.
pub open spec fn is_dot_component(p: Seq<char>, i: int) -> bool {
    is_component_start(p, i) && p[i] == '.' && (i + 1 == p.len() || p[i + 1] == '/')
}

/// A component that counts begins at `i`: a single dot stands for the place
/// it is in and counts only at the very beginning of the path.
pub open spec fn is_counted_component(p: Seq<char>, i: int) -> bool {
    is_component_start(p, i) && (i == 0 || !is_dot_component(p, i))
}

/// How many components that count begin before position `n`.
pub open spec fn component_starts(p: Seq<char>, n: int) -> nat
    decreases n,
{
    if n <= 0 {
        0
    } else {
        component_starts(p, n - 1) + if is_counted_component(p, n - 1) {
            1nat
        } else {
            0nat
        }
    }
}

/// The number of components of `p`: the root of an absolute path counts as
/// one, a single dot only at the beginning of a relative path.
pub open spec fn path_depth(p: Seq<char>) -> nat {
    component_starts(p, p.len() as int) + if p.len() > 0 && p[0] == '/' {
        1nat
    } else {
        0nat
    }
}

/// The component that begins at `i` is `..`.
pub open spec fn is_parent_component(p: Seq<char>, i: int) -> bool {
    is_component_start(p, i) && i + 1 < p.len() && p[i] == '.' && p[i + 1] == '.' && (i + 2
        == p.len() || p[i + 2] == '/')
}

/// Some component of `p` is `..`.
pub open spec fn has_parent_component(p: Seq<char>) -> bool {
    exists|i: int| is_parent_component(p, i)
}

/// As long as no separator stands at or after `i`, the file name begins
/// where that of the first `i` characters does.
proof fn lemma_name_start_take(p: Seq<char>, i: int)
    requires
        0 <= i <= p.len(),
        forall|j: int| i <= j < p.len() ==> p[j] != '/',
    ensures
        name_start(p) == name_start(p.take(i)),
    decreases p.len() - i,
{
    if i == p.len() {
        assert(p.take(i) =~= p);
    } else {
        lemma_name_start_take(p, i + 1);
        assert(p.take(i + 1).drop_last() =~= p.take(i));
    }
}

/// As long as no dot stands at or after `i`, the last dot is that of the
/// first `i` characters.
proof fn lemma_last_dot_take(name: Seq<char>, i: int)
    requires
        0 <= i <= name.len(),
        forall|j: int| i <= j < name.len() ==> name[j] != '.',
    ensures
        last_dot(name) == last_dot(name.take(i)),
    decreases name.len() - i,
{
    if i == name.len() {
        assert(name.take(i) =~= name);
    } else {
        lemma_last_dot_take(name, i + 1);
        assert(name.take(i + 1).drop_last() =~= name.take(i));
    }
}

/// Finds where the last named component of `p` ends.
fn find_name_end(p: &Vec<char>) -> (end: usize)
    ensures
        end == name_end(p@),
        end <= p@.len(),
{
    let mut i: usize = p.len();
    assert(p@.take(i as int) =~= p@);
    while i > 0
        invariant
            i <= p@.len(),
            name_end(p@) == name_end(p@.take(i as int)),
        decreases i,
    {
        let ghost q = p@.take(i as int);
        assert(q.drop_last() =~= p@.take(i - 1));
        assert(q.last() == p@[i - 1]);
        if i >= 2 {
            assert(q[q.len() - 2] == p@[i - 2]);
        }
        let passed = p[i - 1] == '/' || (p[i - 1] == '.' && (i == 1 || p[i - 2] == '/'));
        if !passed {
            return i;
        }
        i -= 1;
    }
    0
}

/// Finds where the file name of the first `end` characters of `p` begins.
fn find_name_start(p: &Vec<char>, end: usize) -> (start: usize)
    requires
        end <= p@.len(),
    ensures
        start == name_start(p@.take(end as int)),
        start <= end,
{
    let ghost q = p@.take(end as int);
    let mut i: usize = end;
    while i > 0
        invariant
            i <= end <= p@.len(),
            q == p@.take(end as int),
            forall|j: int| i <= j < end ==> q[j] != '/',
        decreases i,
    {
        if p[i - 1] == '/' {
            proof {
                lemma_name_start_take(q, i as int);
                assert(q.take(i as int).last() == '/');
            }
            return i;
        }
        i -= 1;
    }
    proof {
        lemma_name_start_take(q, 0);
    }
    0
}

/// Finds the dotted extension of the file that `p` names: where it begins
/// and where it ends. Both are the same where there is none.
pub fn find_extension(p: &Vec<char>) -> (range: (usize, usize))
    ensures
        range.0 <= range.1 <= p@.len(),
        p@.subrange(range.0 as int, range.1 as int) == dotted_extension(p@),
{
    let end = find_name_end(p);
    let start = find_name_start(p, end);
    let ghost name = file_name(p@);
    assert(name =~= p@.subrange(start as int, end as int));
    if end - start == 2 && p[start] == '.' && p[start + 1] == '.' {
        assert(name =~= seq!['.', '.']);
        assert(p@.subrange(end as int, end as int) =~= Seq::<char>::empty());
        return (end, end);
    }
    assert(name != seq!['.', '.']) by {
        if name == seq!['.', '.'] {
            assert(name.len() == 2);
            assert(name[0] == '.' && name[1] == '.');
        }
    }
    let mut i: usize = end;
    while i > start
        invariant
            start <= i <= end <= p@.len(),
            name == file_name(p@),
            name == p@.subrange(start as int, end as int),
            name != seq!['.', '.'],
            forall|j: int| i - start <= j < name.len() ==> name[j] != '.',
        decreases i,
    {
        if p[i - 1] == '.' {
            proof {
                assert(name[i - start - 1] == p@[i - 1]);
                lemma_last_dot_take(name, i - start);
                assert(name.take(i - start).last() == '.');
                assert(last_dot(name) == i - start - 1);
            }
            if i - 1 == start {
                assert(p@.subrange(end as int, end as int) =~= Seq::<char>::empty());
                return (end, end);
            }
            assert(name.skip(i - start - 1) =~= p@.subrange(i - 1, end as int));
            return (i - 1, end);
        }
        i -= 1;
    }
    proof {
        lemma_last_dot_take(name, 0);
        assert(name.take(0) =~= Seq::<char>::empty());
        assert(p@.subrange(end as int, end as int) =~= Seq::<char>::empty());
    }
    (end, end)
}

/// Counts the components of `p` and looks for one that is `..`.
pub fn scan_components(p: &Vec<char>) -> (found: (usize, bool))
    ensures
        found.0 == path_depth(p@),
        found.1 == has_parent_component(p@),
{
    let n = p.len();
    let mut depth: usize = 0;
    let mut parent = false;
    let mut i: usize = 0;
    while i < n
        invariant
            i <= n,
            n == p@.len(),
            depth == component_starts(p@, i as int),
            depth + (if i > 0 && p@[0] == '/' {
                1nat
            } else {
                0nat
            }) <= i,
            parent == (exists|j: int| 0 <= j < i && is_parent_component(p@, j)),
        decreases n - i,
    {
        let starts = p[i] != '/' && (i == 0 || p[i - 1] == '/');
        if starts {
            let dot = p[i] == '.' && (i + 1 == n || p[i + 1] == '/');
            if i == 0 || !dot {
                depth += 1;
            }
            if i + 1 < n && p[i] == '.' && p[i + 1] == '.' && (i + 2 == n || p[i + 2] == '/') {
                assert(is_parent_component(p@, i as int));
                parent = true;
            }
        }
        i += 1;
    }
    proof {
        if has_parent_component(p@) {
            let j = choose|j: int| is_parent_component(p@, j);
            assert(0 <= j < n);
        }
    }
    if n > 0 && p[0] == '/' {
        (depth + 1, parent)
    } else {
        (depth, parent)
    }
}

} // verus!
