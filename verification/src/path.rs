//! Paths as text: components are set apart by `/`.

use vstd::prelude::*;
use vstd::std_specs::iter::IteratorSpec;
use vstd::string::StrSliceExecFns;
use vstd::string::StringExecFns;

verus! {

broadcast use vstd::string::group_string_axioms;

/// The character that sets the components of a path apart.
pub const SEPARATOR: char = '/';

/// The characters of `path` behind its last separator: all of `path` where it
/// holds no separator, nothing where it ends in one.
pub open spec fn last_segment(path: Seq<char>) -> Seq<char>
    decreases path.len(),
{
    if path.len() == 0 || path.last() == SEPARATOR {
        Seq::empty()
    } else {
        last_segment(path.drop_last()).push(path.last())
    }
}

/// The final component of `path`, which names the file or directory itself.
///
/// Empty segments and `.` segments say nothing and are passed over from the
/// end; there is no final component where none is left, or where the last one
/// left is `..`.
pub open spec fn final_component(path: Seq<char>) -> Option<Seq<char>>
    decreases path.len(),
{
    let name = last_segment(path);
    if name.len() == 0 || name == seq!['.'] {
        if name.len() < path.len() {
            final_component(path.take(path.len() - name.len() - 1))
        } else {
            None
        }
    } else if name == seq!['.', '.'] {
        None
    } else {
        Some(name)
    }
}

/// Whether `name` can name a file or directory: it is not empty, holds no
/// separator, and is neither `.` nor `..`.
pub open spec fn is_name(name: Seq<char>) -> bool {
    &&& name.len() > 0
    &&& forall|k: int| 0 <= k < name.len() ==> name[k] != SEPARATOR
    &&& name != seq!['.']
    &&& name != seq!['.', '.']
}

/// Whether `path` starts at the root.
pub open spec fn is_absolute(path: Seq<char>) -> bool {
    path.len() > 0 && path[0] == SEPARATOR
}

/// `path` adjoined to `base`: an absolute `path` stands for itself, any other
/// follows `base`, with one separator put between them where `base` is not
/// empty and does not end in one already.
pub open spec fn joined(base: Seq<char>, path: Seq<char>) -> Seq<char> {
    if is_absolute(path) {
        path
    } else if base.len() > 0 && base.last() != SEPARATOR {
        base + seq![SEPARATOR] + path
    } else {
        base + path
    }
}

/// A relative path adjoined to a base that does not end in a separator is the
/// base, one separator, and the path.
pub proof fn lemma_joined_below_base(base: Seq<char>, path: Seq<char>)
    requires
        base.len() > 0,
        base.last() != SEPARATOR,
        !is_absolute(path),
    ensures
        joined(base, path) == base + seq![SEPARATOR] + path,
{
}

/// The last segment of `path` begins at `start` exactly where no separator
/// follows `start` and one stands just before it, or `path` begins there.
pub proof fn lemma_last_segment_begins(path: Seq<char>, start: int)
    requires
        0 <= start <= path.len(),
        start == 0 || path[start - 1] == SEPARATOR,
        forall|k: int| start <= k < path.len() ==> path[k] != SEPARATOR,
    ensures
        last_segment(path) == path.skip(start),
    decreases path.len(),
{
    if start < path.len() {
        lemma_last_segment_begins(path.drop_last(), start);
    }
}

/// The last segment of a path is the end of the path and holds no separator.
pub proof fn lemma_last_segment_ends_path(path: Seq<char>)
    ensures
        last_segment(path).len() <= path.len(),
        last_segment(path) == path.skip(path.len() - last_segment(path).len()),
        forall|k: int| 0 <= k < last_segment(path).len() ==> last_segment(path)[k] != SEPARATOR,
    decreases path.len(),
{
    if path.len() > 0 && path.last() != SEPARATOR {
        lemma_last_segment_ends_path(path.drop_last());
    }
}

/// A name is its own final component, alone and behind a directory.
pub proof fn lemma_final_component_of_name(directory: Seq<char>, name: Seq<char>)
    requires
        is_name(name),
    ensures
        final_component(name) == Some(name),
        final_component(directory + seq![SEPARATOR] + name) == Some(name),
{
    let path = directory + seq![SEPARATOR] + name;
    lemma_last_segment_begins(name, 0);
    assert(name.skip(0) =~= name);
    let start = (directory.len() + 1) as int;
    lemma_last_segment_begins(path, start);
    assert(path.skip(start) =~= name);
}

/// Separators at the end of a path, and `.` segments there, do not change
/// its final component.
pub proof fn lemma_final_component_passes_over(path: Seq<char>)
    ensures
        final_component(path.push(SEPARATOR)) == final_component(path),
        final_component(path + seq![SEPARATOR, '.']) == final_component(path),
{
    let slash = path.push(SEPARATOR);
    assert(slash.take(slash.len() - 1) =~= path);
    let dot = path + seq![SEPARATOR, '.'];
    lemma_last_segment_begins(dot, dot.len() - 1);
    assert(dot.skip(dot.len() - 1) =~= seq!['.']);
    assert(dot.take(dot.len() - 2) =~= path);
}

/// A final component is a name.
pub proof fn lemma_final_component_is_a_name(path: Seq<char>)
    ensures
        final_component(path) matches Some(name) ==> is_name(name),
    decreases path.len(),
{
    let name = last_segment(path);
    lemma_last_segment_ends_path(path);
    if (name.len() == 0 || name == seq!['.']) && name.len() < path.len() {
        lemma_final_component_is_a_name(path.take(path.len() - name.len() - 1));
    }
}

/// The characters of `text`, one by one.
fn characters(text: &str) -> (chars: Vec<char>)
    ensures
        chars@ == text@,
{
    let mut chars: Vec<char> = Vec::new();
    let mut rest = text.chars();
    loop
        invariant
            chars@ + rest.remaining() == text@,
            rest.decrease() is Some,
        decreases rest.decrease()->0,
    {
        match rest.next() {
            Some(c) => chars.push(c),
            None => return chars,
        }
    }
}

/// Where the last segment of the first `end` characters begins.
fn last_segment_start(chars: &Vec<char>, end: usize) -> (start: usize)
    requires
        end <= chars.len(),
    ensures
        start <= end,
        last_segment(chars@.take(end as int)) == chars@.subrange(start as int, end as int),
{
    let mut start: usize = end;
    while start > 0 && chars[start - 1] != SEPARATOR
        invariant
            start <= end <= chars.len(),
            forall|k: int| start <= k < end ==> chars[k] != SEPARATOR,
        decreases start,
    {
        start -= 1;
    }
    proof {
        lemma_last_segment_begins(chars@.take(end as int), start as int);
    }
    start
}

/// The final component of `path`, if it has one.
pub fn file_name(path: &str) -> (name: Option<String>)
    ensures
        match name {
            Some(text) => final_component(path@) == Some(text@),
            None => final_component(path@) is None,
        },
{
    let chars = characters(path);
    let mut end: usize = chars.len();
    assert(path@.take(end as int) =~= path@);
    loop
        invariant
            chars@ == path@,
            end <= chars.len(),
            final_component(path@) == final_component(path@.take(end as int)),
        decreases end,
    {
        let start = last_segment_start(&chars, end);
        let ghost name = path@.subrange(start as int, end as int);
        let length: usize = end - start;
        if length == 0 || (length == 1 && chars[start] == '.') {
            assert(length == 1 ==> name =~= seq!['.']);
            if start == 0 {
                return None;
            }
            assert(path@.take(end as int).take(start - 1) =~= path@.take(start - 1));
            end = start - 1;
        } else if length == 2 && chars[start] == '.' && chars[start + 1] == '.' {
            assert(name =~= seq!['.', '.']);
            return None;
        } else {
            assert(name != seq!['.']) by {
                assert(seq!['.'][0] == '.');
            }
            return Some(String::from_str(path.substring_char(start, end)));
        }
    }
}

/// `path` adjoined to `base`.
pub fn join(base: &str, path: &str) -> (whole: String)
    ensures
        whole@ == joined(base@, path@),
{
    if path.unicode_len() > 0 && path.get_char(0) == SEPARATOR {
        return String::from_str(path);
    }
    let mut whole = String::from_str(base);
    let length = base.unicode_len();
    if length > 0 && base.get_char(length - 1) != SEPARATOR {
        proof {
            reveal_strlit("/");
        }
        whole.append("/");
    }
    whole.append(path);
    whole
}

} // verus!
