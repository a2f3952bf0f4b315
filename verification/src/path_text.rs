//! Paths as text: the separator is `/`, a name is hidden when it begins with `.`.

use vstd::prelude::*;
use vstd::string::*;

verus! {

/// The character that separates the components of a path.
pub const SEPARATOR: char = '/';

/// The character that marks a hidden name and that precedes an extension.
pub const DOT: char = '.';

/// A name is hidden when its first character is the dot.
pub open spec fn hidden_name(name: Seq<char>) -> bool {
    name.len() > 0 && name[0] == DOT
}

/// Index of the last occurrence of `c` in `s`, or -1 when `c` does not occur.
pub open spec fn last_index_of(s: Seq<char>, c: char) -> int
    decreases s.len(),
{
    if s.len() == 0 {
        -1
    } else if s.last() == c {
        s.len() - 1
    } else {
        last_index_of(s.drop_last(), c)
    }
}

/// Length of `path` once its trailing separators are dropped.
pub open spec fn trimmed_len(path: Seq<char>) -> nat
    decreases path.len(),
{
    if path.len() > 0 && path.last() == SEPARATOR {
        trimmed_len(path.drop_last())
    } else {
        path.len()
    }
}

/// `path` without its trailing separators.
pub open spec fn trim_end(path: Seq<char>) -> Seq<char> {
    path.take(trimmed_len(path) as int)
}

/// Number of separators that `path` begins with.
pub open spec fn leading_separators(path: Seq<char>) -> nat
    decreases path.len(),
{
    if path.len() > 0 && path[0] == SEPARATOR {
        1 + leading_separators(path.skip(1))
    } else {
        0
    }
}

/// The last component of `path`: what follows the last separator once trailing
/// separators are dropped.
pub open spec fn leaf_of(path: Seq<char>) -> Seq<char> {
    let t = trim_end(path);
    t.skip(last_index_of(t, SEPARATOR) + 1)
}

/// What precedes the last component of `path`, without trailing separators.
/// Empty for a path of one component.
pub open spec fn parent_of(path: Seq<char>) -> Seq<char> {
    let t = trim_end(path);
    trim_end(t.take(last_index_of(t, SEPARATOR) + 1))
}

/// A file name without its last extension. A name without a dot, or whose only
/// dot is its first character, is its own stem.
pub open spec fn stem_of(name: Seq<char>) -> Seq<char> {
    let d = last_index_of(name, DOT);
    if d <= 0 {
        name
    } else {
        name.take(d)
    }
}

/// `name` placed under `base`. A `name` that begins with a separator stands for
/// itself; otherwise exactly one separator ends up between the two, unless
/// `base` is empty.
pub open spec fn joined(base: Seq<char>, name: Seq<char>) -> Seq<char> {
    if name.len() > 0 && name[0] == SEPARATOR {
        name
    } else if base.len() == 0 || base.last() == SEPARATOR {
        base + name
    } else {
        base + seq![SEPARATOR] + name
    }
}

/// `path` as seen from `base`: defined when `path` is `base` (trailing
/// separators aside) followed by nothing or by a separator; the separators
/// after `base` are dropped.
pub open spec fn relative(path: Seq<char>, base: Seq<char>) -> Option<Seq<char>> {
    let b = trim_end(base);
    if b.is_prefix_of(path) {
        let rest = path.skip(b.len() as int);
        if rest.len() == 0 || rest[0] == SEPARATOR {
            Some(rest.skip(leading_separators(rest) as int))
        } else {
            None
        }
    } else {
        None
    }
}

/// `last_index_of` finds an occurrence, and nothing occurs after it.
pub proof fn lemma_last_index_of(s: Seq<char>, c: char)
    ensures
        -1 <= last_index_of(s, c) < s.len(),
        last_index_of(s, c) >= 0 ==> s[last_index_of(s, c)] == c,
        forall|j: int| last_index_of(s, c) < j < s.len() ==> s[j] != c,
    decreases s.len(),
{
    if s.len() > 0 && s.last() != c {
        let front = s.drop_last();
        lemma_last_index_of(front, c);
        let found = last_index_of(front, c);
        assert forall|j: int| found < j < s.len() implies s[j] != c by {
            if j < front.len() {
                assert(front[j] == s[j]);
            }
        }
    }
}

/// Trimming leaves a prefix that does not end in a separator.
pub proof fn lemma_trimmed_len(path: Seq<char>)
    ensures
        trimmed_len(path) <= path.len(),
        trimmed_len(path) > 0 ==> path[trimmed_len(path) - 1] != SEPARATOR,
        forall|j: int| trimmed_len(path) <= j < path.len() ==> path[j] == SEPARATOR,
    decreases path.len(),
{
    if path.len() > 0 && path.last() == SEPARATOR {
        let front = path.drop_last();
        lemma_trimmed_len(front);
        let kept = trimmed_len(front);
        assert forall|j: int| kept <= j < path.len() implies path[j] == SEPARATOR by {
            if j < front.len() {
                assert(front[j] == path[j]);
            }
        }
    }
}

/// The leaf of a path holds no separator.
pub proof fn lemma_leaf_has_no_separator(path: Seq<char>)
    ensures
        !leaf_of(path).contains(SEPARATOR),
{
    let t = trim_end(path);
    lemma_last_index_of(t, SEPARATOR);
}

/// Whether `name` begins with the dot.
pub fn is_hidden(name: &str) -> (hidden: bool)
    ensures
        hidden == hidden_name(name@),
{
    !name.is_empty() && name.get_char(0) == DOT
}

/// Character count of `path` without its trailing separators.
fn trimmed_end(path: &str) -> (end: usize)
    ensures
        end == trimmed_len(path@),
        end <= path@.len(),
{
    let mut end: usize = path.unicode_len();
    assert(path@.take(end as int) =~= path@);
    while end > 0 && path.get_char(end - 1) == SEPARATOR
        invariant
            end <= path@.len(),
            trimmed_len(path@) == trimmed_len(path@.take(end as int)),
        decreases end,
    {
        assert(path@.take(end as int).drop_last() =~= path@.take(end - 1));
        end -= 1;
    }
    end
}

/// One past the last occurrence of `c` among the first `end` characters of
/// `text`, or 0 when there is none.
fn after_last(text: &str, end: usize, c: char) -> (start: usize)
    requires
        end <= text@.len(),
    ensures
        start == last_index_of(text@.take(end as int), c) + 1,
        start <= end,
{
    let mut start: usize = end;
    while start > 0 && text.get_char(start - 1) != c
        invariant
            start <= end <= text@.len(),
            last_index_of(text@.take(end as int), c) == last_index_of(
                text@.take(start as int),
                c,
            ),
        decreases start,
    {
        assert(text@.take(start as int).drop_last() =~= text@.take(start - 1));
        start -= 1;
    }
    start
}

/// Number of separators at the front of `text`, counted from `from`.
fn skip_separators(text: &str, from: usize) -> (next: usize)
    requires
        from <= text@.len(),
    ensures
        next == from + leading_separators(text@.skip(from as int)),
        next <= text@.len(),
{
    let len: usize = text.unicode_len();
    let mut next: usize = from;
    while next < len && text.get_char(next) == SEPARATOR
        invariant
            from <= next <= len,
            len == text@.len(),
            from + leading_separators(text@.skip(from as int)) == next + leading_separators(
                text@.skip(next as int),
            ),
        decreases len - next,
    {
        assert(text@.skip(next as int).skip(1) =~= text@.skip(next + 1));
        next += 1;
    }
    next
}

/// The last component of `path`.
pub fn leaf_name(path: &str) -> (name: String)
    ensures
        name@ == leaf_of(path@),
{
    let end: usize = trimmed_end(path);
    let start: usize = after_last(path, end, SEPARATOR);
    proof {
        lemma_last_index_of(path@.take(end as int), SEPARATOR);
        assert(path@.take(end as int).skip(start as int) =~= path@.subrange(
            start as int,
            end as int,
        ));
    }
    String::from_str(path.substring_char(start, end))
}

/// What precedes the last component of `path`.
pub fn parent_path(path: &str) -> (parent: String)
    ensures
        parent@ == parent_of(path@),
{
    let end: usize = trimmed_end(path);
    let start: usize = after_last(path, end, SEPARATOR);
    proof {
        lemma_last_index_of(path@.take(end as int), SEPARATOR);
        assert(path@.take(end as int).take(start as int) =~= path@.subrange(0, start as int));
    }
    let head: &str = path.substring_char(0, start);
    let head_end: usize = trimmed_end(head);
    String::from_str(head.substring_char(0, head_end))
}

/// A file name without its last extension.
pub fn file_stem(name: &str) -> (stem: String)
    ensures
        stem@ == stem_of(name@),
{
    let len: usize = name.unicode_len();
    let after: usize = after_last(name, len, DOT);
    assert(name@.take(len as int) =~= name@);
    if after <= 1 {
        String::from_str(name)
    } else {
        proof {
            lemma_last_index_of(name@, DOT);
        }
        String::from_str(name.substring_char(0, after - 1))
    }
}

/// `name` placed under `base`.
pub fn join(base: &str, name: &str) -> (path: String)
    ensures
        path@ == joined(base@, name@),
{
    if !name.is_empty() && name.get_char(0) == SEPARATOR {
        return String::from_str(name);
    }
    let base_len: usize = base.unicode_len();
    let mut path = String::from_str(base);
    if base_len > 0 && base.get_char(base_len - 1) != SEPARATOR {
        proof {
            reveal_strlit("/");
        }
        path.append("/");
    }
    path.append(name);
    path
}

/// Whether the first `count` characters of `prefix` are those of `text`.
fn starts_with(text: &str, prefix: &str, count: usize) -> (found: bool)
    requires
        count <= prefix@.len(),
    ensures
        found == prefix@.take(count as int).is_prefix_of(text@),
{
    if text.unicode_len() < count {
        return false;
    }
    let mut i: usize = 0;
    while i < count
        invariant
            i <= count <= prefix@.len(),
            count <= text@.len(),
            forall|j: int| 0 <= j < i ==> text@[j] == prefix@[j],
        decreases count - i,
    {
        if text.get_char(i) != prefix.get_char(i) {
            assert(prefix@.take(count as int)[i as int] != text@[i as int]);
            return false;
        }
        i += 1;
    }
    true
}

/// `path` as seen from `base`, when it lies under it.
pub fn relative_to(path: &str, base: &str) -> (rest: Option<String>)
    ensures
        rest.deep_view() == relative(path@, base@),
{
    let base_end: usize = trimmed_end(base);
    if !starts_with(path, base, base_end) {
        return None;
    }
    let len: usize = path.unicode_len();
    if base_end < len && path.get_char(base_end) != SEPARATOR {
        return None;
    }
    let from: usize = skip_separators(path, base_end);
    proof {
        assert(path@.skip(base_end as int).skip(
            leading_separators(path@.skip(base_end as int)) as int,
        ) =~= path@.subrange(from as int, len as int));
    }
    Some(String::from_str(path.substring_char(from, len)))
}

} // verus!
