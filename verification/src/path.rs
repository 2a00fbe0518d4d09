//! File extensions of `/`-separated paths.
//!
//! A path's file name is its last component that is neither empty nor `.`, unless
//! that component is `..`. The extension is what follows the last dot of the file
//! name, provided that dot is not the name's first character.
use vstd::prelude::*;

verus! {

/// Position of the last occurrence of `c` in `s`, or -1 where `s` has none.
pub open spec fn last_position(s: Seq<char>, c: char) -> int
    decreases s.len(),
{
    if s.len() == 0 {
        -1
    } else if s.last() == c {
        s.len() - 1
    } else {
        last_position(s.drop_last(), c)
    }
}

/// `last_position` is -1 or the index of an occurrence after which there is no other.
pub proof fn lemma_last_position(s: Seq<char>, c: char)
    ensures
        -1 <= last_position(s, c) < s.len(),
        last_position(s, c) >= 0 ==> s[last_position(s, c)] == c,
        forall|i: int| last_position(s, c) < i < s.len() ==> s[i] != c,
    decreases s.len(),
{
    if s.len() > 0 && s.last() != c {
        let front = s.drop_last();
        lemma_last_position(front, c);
        assert forall|i: int| last_position(s, c) < i < s.len() implies s[i] != c by {
            if i < front.len() {
                assert(front[i] == s[i]);
            }
        }
    }
}

/// A component that does not name anything: the empty one, or `.`.
pub open spec fn is_skipped(component: Seq<char>) -> bool {
    component.len() == 0 || (component.len() == 1 && component[0] == '.')
}

/// The component that names the directory above: `..`.
pub open spec fn is_parent(component: Seq<char>) -> bool {
    component.len() == 2 && component[0] == '.' && component[1] == '.'
}

/// The last component of `path` that is not skipped; where all are skipped, the first
/// component.
pub open spec fn final_component(path: Seq<char>) -> Seq<char>
    decreases path.len(),
{
    let cut = last_position(path, '/');
    let tail = path.subrange(cut + 1, path.len() as int);
    if cut < 0 || !is_skipped(tail) {
        tail
    } else {
        proof {
            lemma_last_position(path, '/');
        }
        final_component(path.subrange(0, cut))
    }
}

/// The file name of `path`, if it has one.
pub open spec fn file_name(path: Seq<char>) -> Option<Seq<char>> {
    let name = final_component(path);
    if is_skipped(name) || is_parent(name) {
        None
    } else {
        Some(name)
    }
}

/// The extension of `path`, if it has one.
pub open spec fn extension(path: Seq<char>) -> Option<Seq<char>> {
    match file_name(path) {
        None => None,
        Some(name) => {
            let dot = last_position(name, '.');
            if dot <= 0 {
                None
            } else {
                Some(name.subrange(dot + 1, name.len() as int))
            }
        },
    }
}

/// Whether the extension of `path` is `wanted`. A path without an extension counts as
/// having the empty one.
pub open spec fn has_extension(path: Seq<char>, wanted: Seq<char>) -> bool {
    match extension(path) {
        Some(found) => found == wanted,
        None => wanted.len() == 0,
    }
}

/// The position of an occurrence of `c` after which `s` has no other is the last.
pub proof fn lemma_last_position_is(s: Seq<char>, c: char, at: int)
    requires
        0 <= at < s.len(),
        s[at] == c,
        forall|i: int| at < i < s.len() ==> s[i] != c,
    ensures
        last_position(s, c) == at,
{
    lemma_last_position(s, c);
}

/// Where `c` does not occur there is no last position.
pub proof fn lemma_last_position_of_none(s: Seq<char>, c: char)
    requires
        forall|i: int| 0 <= i < s.len() ==> s[i] != c,
    ensures
        last_position(s, c) == -1,
{
    lemma_last_position(s, c);
}

/// The extension of a path is that of its final component.
pub proof fn lemma_extension_of_final_component(path: Seq<char>, name: Seq<char>)
    requires
        final_component(path) == name,
        final_component(name) == name,
    ensures
        extension(path) == extension(name),
{
}

/// A name made of a stem that is not empty, a dot and `wanted`, where the stem holds
/// no separator and `wanted` neither a separator nor a dot, has the extension
/// `wanted`.
pub proof fn lemma_name_has_its_extension(stem: Seq<char>, wanted: Seq<char>)
    requires
        stem.len() > 0,
        forall|i: int| 0 <= i < stem.len() ==> stem[i] != '/',
        forall|i: int| 0 <= i < wanted.len() ==> wanted[i] != '/' && wanted[i] != '.',
    ensures
        final_component(stem + seq!['.'] + wanted) == stem + seq!['.'] + wanted,
        has_extension(stem + seq!['.'] + wanted, wanted),
{
    let name = stem + seq!['.'] + wanted;
    let dot = stem.len() as int;
    assert forall|i: int| 0 <= i < name.len() implies name[i] != '/' by {
        if i > dot {
            assert(name[i] == wanted[i - dot - 1]);
        }
    }
    lemma_last_position_of_none(name, '/');
    assert(final_component(name) == name);
    if !is_parent(name) {
        assert forall|i: int| dot < i < name.len() implies name[i] != '.' by {
            assert(name[i] == wanted[i - dot - 1]);
        }
        lemma_last_position_is(name, '.', dot);
        assert(extension(name) == Some(wanted));
    }
}

/// A file named as in [`lemma_name_has_its_extension`] has the extension `wanted`
/// below any directory too.
pub proof fn lemma_named_file_has_its_extension(
    directory: Seq<char>,
    stem: Seq<char>,
    wanted: Seq<char>,
)
    requires
        stem.len() > 0,
        forall|i: int| 0 <= i < stem.len() ==> stem[i] != '/',
        forall|i: int| 0 <= i < wanted.len() ==> wanted[i] != '/' && wanted[i] != '.',
    ensures
        has_extension(directory + seq!['/'] + (stem + seq!['.'] + wanted), wanted),
{
    let name = stem + seq!['.'] + wanted;
    let path = directory + seq!['/'] + name;
    let cut = directory.len() as int;
    lemma_name_has_its_extension(stem, wanted);
    assert forall|i: int| cut < i < path.len() implies path[i] != '/' by {
        assert(path[i] == name[i - cut - 1]);
    }
    lemma_last_position_is(path, '/', cut);
    assert(final_component(path) == name);
    lemma_extension_of_final_component(path, name);
}

/// The characters of a text, in order.
fn characters(text: &str) -> (chars: Vec<char>)
    ensures
        chars@ == text@,
{
    let mut chars: Vec<char> = Vec::new();
    for c in it: text.chars()
        invariant
            it.seq() == text@,
            chars@ == it.seq().take(it.index() as int),
    {
        chars.push(c);
    }
    chars
}

/// Finds the last `c` among the characters from `start` up to `end`.
fn find_last(chars: &Vec<char>, start: usize, end: usize, c: char) -> (found: Option<usize>)
    requires
        start <= end <= chars.len(),
    ensures
        match found {
            Some(at) => start <= at < end && at - start == last_position(
                chars@.subrange(start as int, end as int),
                c,
            ),
            None => last_position(chars@.subrange(start as int, end as int), c) == -1,
        },
{
    let mut i: usize = end;
    while i > start
        invariant
            start <= i <= end <= chars.len(),
            last_position(chars@.subrange(start as int, end as int), c) == last_position(
                chars@.subrange(start as int, i as int),
                c,
            ),
        decreases i,
    {
        if chars[i - 1] == c {
            return Some(i - 1);
        }
        assert(chars@.subrange(start as int, i as int).drop_last() =~= chars@.subrange(
            start as int,
            i - 1,
        ));
        i -= 1;
    }
    None
}

/// Bounds of the final component of `chars`: it runs from `start` up to `end`.
fn final_component_bounds(chars: &Vec<char>) -> (bounds: (usize, usize))
    ensures
        bounds.0 <= bounds.1 <= chars.len(),
        chars@.subrange(bounds.0 as int, bounds.1 as int) == final_component(chars@),
{
    let mut end: usize = chars.len();
    assert(chars@.subrange(0, end as int) =~= chars@);
    loop
        invariant
            end <= chars.len(),
            final_component(chars@) == final_component(chars@.subrange(0, end as int)),
        decreases end,
    {
        let ghost front = chars@.subrange(0, end as int);
        match find_last(chars, 0, end, '/') {
            None => {
                return (0, end);
            },
            Some(cut) => {
                let start = cut + 1;
                let skipped = start == end || (end - start == 1 && chars[start] == '.');
                if !skipped {
                    return (start, end);
                }
                assert(front.subrange(0, cut as int) =~= chars@.subrange(0, cut as int));
                end = cut;
            },
        }
    }
}

/// Tells whether the extension of `path` is `wanted`.
pub fn path_has_extension(path: &str, wanted: &str) -> (matches: bool)
    ensures
        matches == has_extension(path@, wanted@),
{
    let chars = characters(path);
    let wanted_chars = characters(wanted);
    let (start, end) = final_component_bounds(&chars);
    let ghost name = chars@.subrange(start as int, end as int);
    let length = end - start;
    let unnamed = length == 0 || (length == 1 && chars[start] == '.') || (length == 2
        && chars[start] == '.' && chars[start + 1] == '.');
    if unnamed {
        return wanted_chars.len() == 0;
    }
    match find_last(&chars, start, end, '.') {
        None => wanted_chars.len() == 0,
        Some(dot) => {
            if dot == start {
                wanted_chars.len() == 0
            } else {
                assert(name.subrange(dot - start + 1, name.len() as int) =~= chars@.subrange(
                    dot + 1,
                    end as int,
                ));
                same_characters(&chars, dot + 1, end, &wanted_chars)
            }
        },
    }
}

/// Tells whether the characters of `chars` from `start` up to `end` are those of `other`.
fn same_characters(chars: &Vec<char>, start: usize, end: usize, other: &Vec<char>) -> (same: bool)
    requires
        start <= end <= chars.len(),
    ensures
        same == (chars@.subrange(start as int, end as int) == other@),
{
    if end - start != other.len() {
        return false;
    }
    let mut i: usize = 0;
    while i < other.len()
        invariant
            start <= end <= chars.len(),
            end - start == other.len(),
            i <= other.len(),
            forall|k: int| 0 <= k < i ==> chars@[start + k] == other@[k],
        decreases other.len() - i,
    {
        if chars[start + i] != other[i] {
            return false;
        }
        i += 1;
    }
    assert(chars@.subrange(start as int, end as int) =~= other@);
    true
}

} // verus!
