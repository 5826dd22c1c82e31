//! Paths as text: how a path splits into components, when one path lies below
//! another, and how a name is joined to a directory.
//!
//! A path is a sequence of characters. Its components are the root, where the
//! path starts with a separator, followed by the non-empty runs of characters
//! between separators. A run that is a single dot stands for the directory it
//! is found in and is no component, unless the path starts with it.

use vstd::prelude::*;
use vstd::string::StrSliceExecFns;
use vstd::string::StringExecFns;

verus! {

/// The separator between the components of a path.
pub const SEPARATOR: char = '/';

/// The component that stands for the root directory.
pub open spec fn root_component() -> Seq<char> {
    seq![SEPARATOR]
}

/// The run that stands for "this directory".
pub open spec fn dot() -> Seq<char> {
    seq!['.']
}

/// Where the run of characters without a separator that ends at `i` starts.
pub open spec fn run_start(s: Seq<char>, i: int) -> int
    decreases i,
{
    if i <= 0 {
        0
    } else if s[i - 1] == SEPARATOR {
        i
    } else {
        run_start(s, i - 1)
    }
}

/// Whether the run `s[a..b)` is a component: it is not empty, and it is not a
/// dot inside the path.
pub open spec fn is_component(s: Seq<char>, a: int, b: int) -> bool {
    a < b && (a == 0 || s.subrange(a, b) != dot())
}

/// The components that a separator before `i` has closed, in order.
pub open spec fn closed_components(s: Seq<char>, i: int) -> Seq<Seq<char>>
    decreases i,
{
    if i <= 0 {
        Seq::empty()
    } else if s[i - 1] == SEPARATOR && is_component(s, run_start(s, i - 1), i - 1) {
        closed_components(s, i - 1).push(s.subrange(run_start(s, i - 1), i - 1))
    } else {
        closed_components(s, i - 1)
    }
}

/// The components of a path below its root, in order.
pub open spec fn names(s: Seq<char>) -> Seq<Seq<char>> {
    let n = s.len() as int;
    if is_component(s, run_start(s, n), n) {
        closed_components(s, n).push(s.subrange(run_start(s, n), n))
    } else {
        closed_components(s, n)
    }
}

/// Whether a path starts at the root.
pub open spec fn has_root(s: Seq<char>) -> bool {
    s.len() > 0 && s[0] == SEPARATOR
}

/// The components of a path: the root, if the path has one, then its names.
pub open spec fn components(s: Seq<char>) -> Seq<Seq<char>> {
    if has_root(s) {
        seq![root_component()] + names(s)
    } else {
        names(s)
    }
}

/// Whether `path` is `base` or lies below it, component by component.
pub open spec fn lies_below(path: Seq<char>, base: Seq<char>) -> bool {
    components(base).is_prefix_of(components(path))
}

/// The path of `name` inside the directory `base`. A name that starts at the
/// root stands for itself.
pub open spec fn joined(base: Seq<char>, name: Seq<char>) -> Seq<char> {
    if has_root(name) {
        name
    } else if base.len() > 0 && base.last() != SEPARATOR {
        base.push(SEPARATOR) + name
    } else {
        base + name
    }
}

/// Every run starts inside the text and not after its end.
pub proof fn lemma_run_start_bounds(s: Seq<char>, i: int)
    requires
        0 <= i <= s.len(),
    ensures
        0 <= run_start(s, i) <= i,
    decreases i,
{
    if i > 0 && s[i - 1] != SEPARATOR {
        lemma_run_start_bounds(s, i - 1);
    }
}

/// No character of a run is a separator.
pub proof fn lemma_run_has_no_separator(s: Seq<char>, i: int, k: int)
    requires
        0 <= i <= s.len(),
        run_start(s, i) <= k < i,
    ensures
        s[k] != SEPARATOR,
    decreases i,
{
    if i > 0 && s[i - 1] != SEPARATOR {
        if k < i - 1 {
            lemma_run_has_no_separator(s, i - 1, k);
        }
    }
}

/// Every closed component is a non-empty text without a separator.
pub proof fn lemma_closed_components_are_names(s: Seq<char>, i: int, j: int)
    requires
        0 <= i <= s.len(),
        0 <= j < closed_components(s, i).len(),
    ensures
        closed_components(s, i)[j].len() > 0,
        !closed_components(s, i)[j].contains(SEPARATOR),
    decreases i,
{
    if i > 0 {
        let a = run_start(s, i - 1);
        if s[i - 1] == SEPARATOR && is_component(s, a, i - 1) {
            if j < closed_components(s, i - 1).len() {
                lemma_closed_components_are_names(s, i - 1, j);
            } else {
                lemma_run_start_bounds(s, i - 1);
                let piece = s.subrange(a, i - 1);
                assert forall|k: int| 0 <= k < piece.len() implies piece[k] != SEPARATOR by {
                    lemma_run_has_no_separator(s, i - 1, a + k);
                }
            }
        } else {
            lemma_closed_components_are_names(s, i - 1, j);
        }
    }
}

/// Every name of a path is a non-empty text without a separator.
pub proof fn lemma_names_have_no_separator(s: Seq<char>, j: int)
    requires
        0 <= j < names(s).len(),
    ensures
        names(s)[j].len() > 0,
        !names(s)[j].contains(SEPARATOR),
{
    let n = s.len() as int;
    let a = run_start(s, n);
    if j < closed_components(s, n).len() {
        lemma_closed_components_are_names(s, n, j);
    } else {
        lemma_run_start_bounds(s, n);
        let piece = s.subrange(a, n);
        assert forall|k: int| 0 <= k < piece.len() implies piece[k] != SEPARATOR by {
            lemma_run_has_no_separator(s, n, a + k);
        }
    }
}

/// Whether a text is the name of one entry of a directory: it is not
/// empty, holds no separator and is not a dot.
pub open spec fn is_plain_name(name: Seq<char>) -> bool {
    name.len() > 0 && !name.contains(SEPARATOR) && name != dot()
}

/// What a text has closed before `i` depends on its first `i` characters
/// alone.
pub proof fn lemma_components_of_prefix(s: Seq<char>, t: Seq<char>, i: int)
    requires
        0 <= i <= s.len(),
        i <= t.len(),
        forall|j: int| 0 <= j < i ==> s[j] == t[j],
    ensures
        run_start(s, i) == run_start(t, i),
        closed_components(s, i) == closed_components(t, i),
    decreases i,
{
    if i > 0 {
        lemma_components_of_prefix(s, t, i - 1);
        lemma_run_start_bounds(s, i - 1);
        let a = run_start(s, i - 1);
        assert(s.subrange(a, i - 1) =~= t.subrange(a, i - 1));
    }
}

/// Characters that are no separators close nothing and start no run.
pub proof fn lemma_run_goes_on(s: Seq<char>, from: int, i: int)
    requires
        0 <= from <= i <= s.len(),
        run_start(s, from) == from,
        forall|j: int| from <= j < i ==> s[j] != SEPARATOR,
    ensures
        run_start(s, i) == from,
        closed_components(s, i) == closed_components(s, from),
    decreases i - from,
{
    if i > from {
        lemma_run_goes_on(s, from, i - 1);
    }
}

/// Joining the name of an entry to a directory adds the name to the
/// directory's components.
pub proof fn lemma_components_of_joined(base: Seq<char>, name: Seq<char>)
    requires
        is_plain_name(name),
    ensures
        components(joined(base, name)) == components(base).push(name),
{
    let s = joined(base, name);
    let m = base.len() as int;
    let k = name.len() as int;
    assert(!has_root(name)) by {
        if has_root(name) {
            assert(name.contains(SEPARATOR));
        }
    }
    assert forall|j: int| 0 <= j < k implies name[j] != SEPARATOR by {
        if name[j] == SEPARATOR {
            assert(name.contains(SEPARATOR));
        }
    }
    if m == 0 {
        assert(s =~= name);
        lemma_run_goes_on(s, 0, k);
        assert(s.subrange(0, k) =~= name);
        assert(names(s) =~= seq![name]);
        assert(components(base) =~= Seq::<Seq<char>>::empty());
        assert(components(s) =~= components(base).push(name));
    } else if base.last() != SEPARATOR {
        assert(s =~= base.push(SEPARATOR) + name);
        lemma_components_of_prefix(s, base, m);
        lemma_run_start_bounds(base, m);
        let a = run_start(base, m);
        assert(s.subrange(a, m) =~= base.subrange(a, m));
        assert(s[m] == SEPARATOR);
        assert(closed_components(s, m + 1) == names(base));
        assert(run_start(s, m + 1) == m + 1);
        lemma_run_goes_on(s, m + 1, m + 1 + k);
        assert(s.subrange(m + 1, m + 1 + k) =~= name);
        assert(names(s) == names(base).push(name));
        assert(has_root(s) == has_root(base));
        assert(components(s) =~= components(base).push(name));
    } else {
        assert(s =~= base + name);
        lemma_components_of_prefix(s, base, m);
        assert(s[m - 1] == SEPARATOR);
        assert(run_start(base, m) == m);
        assert(names(base) == closed_components(base, m));
        lemma_run_goes_on(s, m, m + k);
        assert(s.subrange(m, m + k) =~= name);
        assert(names(s) == names(base).push(name));
        assert(has_root(s) == has_root(base));
        assert(components(s) =~= components(base).push(name));
    }
}

/// Splits a path into its components.
pub fn components_of(path: &str) -> (parts: Vec<String>)
    ensures
        parts.deep_view() == components(path@),
{
    let n: usize = path.unicode_len();
    let mut parts: Vec<String> = Vec::new();
    let rooted: bool = n > 0 && path.get_char(0) == SEPARATOR;
    if rooted {
        parts.push(String::from_str("/"));
        proof {
            reveal_strlit("/");
            assert(parts@[0]@ =~= root_component());
        }
    }
    let ghost prefix: Seq<Seq<char>> = if rooted {
        seq![root_component()]
    } else {
        Seq::empty()
    };
    assert(parts.deep_view() =~= prefix + closed_components(path@, 0));
    let mut start: usize = 0;
    let mut i: usize = 0;
    while i < n
        invariant
            n == path@.len(),
            0 <= start <= i <= n,
            start == run_start(path@, i as int),
            parts.deep_view() == prefix + closed_components(path@, i as int),
        decreases n - i,
    {
        let c: char = path.get_char(i);
        let ghost before = parts.deep_view();
        if c == SEPARATOR {
            if start < i && (start == 0 || !is_dot(path, start, i)) {
                let piece: &str = path.substring_char(start, i);
                parts.push(piece.to_owned());
                assert(parts.deep_view() =~= before.push(path@.subrange(start as int, i as int)));
            }
            start = i + 1;
        }
        i = i + 1;
        assert(parts.deep_view() =~= prefix + closed_components(path@, i as int));
    }
    let ghost before = parts.deep_view();
    if start < n && (start == 0 || !is_dot(path, start, n)) {
        let piece: &str = path.substring_char(start, n);
        parts.push(piece.to_owned());
        assert(parts.deep_view() =~= before.push(path@.subrange(start as int, n as int)));
    }
    assert(parts.deep_view() =~= components(path@));
    parts
}

/// Whether the characters `from..to` of `text` are a single dot.
fn is_dot(text: &str, from: usize, to: usize) -> (r: bool)
    requires
        from < to <= text@.len(),
    ensures
        r == (text@.subrange(from as int, to as int) == dot()),
{
    let r: bool = to - from == 1 && text.get_char(from) == '.';
    proof {
        let piece = text@.subrange(from as int, to as int);
        if r {
            assert(piece =~= dot());
        } else if to - from == 1 {
            assert(piece[0] != dot()[0]);
        } else {
            assert(piece.len() != dot().len());
        }
    }
    r
}

/// Whether `path` is `base` or lies below it, component by component.
pub fn starts_with(path: &str, base: &str) -> (r: bool)
    ensures
        r == lies_below(path@, base@),
{
    let whole: Vec<String> = components_of(path);
    let front: Vec<String> = components_of(base);
    if front.len() > whole.len() {
        return false;
    }
    let mut i: usize = 0;
    while i < front.len()
        invariant
            0 <= i <= front.len() <= whole.len(),
            whole.deep_view() == components(path@),
            front.deep_view() == components(base@),
            forall|k: int| 0 <= k < i ==> front.deep_view()[k] == whole.deep_view()[k],
        decreases front.len() - i,
    {
        if front[i] != whole[i] {
            proof {
                let a = components(base@);
                let b = components(path@);
                assert(a[i as int] == front@[i as int]@);
                assert(b.subrange(0, a.len() as int)[i as int] == whole@[i as int]@);
            }
            return false;
        }
        assert(front.deep_view()[i as int] == whole.deep_view()[i as int]);
        i = i + 1;
    }
    assert(components(base@) =~= components(path@).subrange(0, components(base@).len() as int));
    true
}

/// Whether two paths have the same components.
pub fn same_path(a: &str, b: &str) -> (r: bool)
    ensures
        r == (components(a@) == components(b@)),
{
    let left: Vec<String> = components_of(a);
    let right: Vec<String> = components_of(b);
    if left.len() != right.len() {
        assert(left.deep_view().len() != right.deep_view().len());
        return false;
    }
    let mut i: usize = 0;
    while i < left.len()
        invariant
            0 <= i <= left.len(),
            left.len() == right.len(),
            left.deep_view() == components(a@),
            right.deep_view() == components(b@),
            forall|k: int| 0 <= k < i ==> left.deep_view()[k] == right.deep_view()[k],
        decreases left.len() - i,
    {
        if left[i] != right[i] {
            assert(left.deep_view()[i as int] != right.deep_view()[i as int]);
            return false;
        }
        assert(left.deep_view()[i as int] == right.deep_view()[i as int]);
        i = i + 1;
    }
    assert(left.deep_view() =~= right.deep_view());
    true
}

/// The path of `name` inside the directory `base`.
pub fn join(base: &str, name: &str) -> (path: String)
    ensures
        path@ == joined(base@, name@),
{
    let base_len: usize = base.unicode_len();
    let name_len: usize = name.unicode_len();
    if name_len > 0 && name.get_char(0) == SEPARATOR {
        name.to_owned()
    } else if base_len > 0 && base.get_char(base_len - 1) != SEPARATOR {
        proof {
            reveal_strlit("/");
            assert("/"@ =~= seq![SEPARATOR]);
            assert(base@ + "/"@ =~= base@.push(SEPARATOR));
        }
        base.to_owned().concat("/").concat(name)
    } else {
        base.to_owned().concat(name)
    }
}

} // verus!
