//! Paths as text, with `/` between components.
//!
//! The library is made for Unix, and what it asks of paths is written out
//! here for that platform: where a path starts, what it is made of, how two
//! paths are joined, and what the name and the extension of a file are.
use crate::collections::{option_text, same_text, texts};
use vstd::prelude::*;
use vstd::string::StringExecFns;

verus! {

/// A path is absolute when it starts at the root.
pub open spec fn spec_is_absolute(path: Seq<char>) -> bool {
    path.len() > 0 && path[0] == '/'
}

/// `name` below `dir`: an absolute `name` stands for itself, otherwise it
/// follows `dir`, with a separator unless `dir` is empty or ends in one.
pub open spec fn spec_join(dir: Seq<char>, name: Seq<char>) -> Seq<char> {
    if spec_is_absolute(name) {
        name
    } else if dir.len() == 0 || dir.last() == '/' {
        dir + name
    } else {
        dir + seq!['/'] + name
    }
}

/// Where the part of a text behind the last `mark` starts: at the start of
/// a text without one.
pub open spec fn after_last(text: Seq<char>, mark: char) -> int
    decreases text.len(),
{
    if text.len() == 0 {
        0
    } else if text.last() == mark {
        text.len() as int
    } else {
        after_last(text.drop_last(), mark)
    }
}

/// Where the part of a text before the first `mark` ends: at the end of a
/// text without one.
pub open spec fn before_first(text: Seq<char>, mark: char) -> int
    decreases text.len(),
{
    if text.len() == 0 || text[0] == mark {
        0
    } else {
        1 + before_first(text.drop_first(), mark)
    }
}

/// Where in a path its file name stands: the last segment that is neither
/// empty nor `.`, unless that segment is `..`.
pub open spec fn file_name_span(path: Seq<char>) -> Option<(int, int)>
    decreases path.len(),
{
    let start = after_last(path, '/');
    let segment = path.subrange(start, path.len() as int);
    if segment.len() == 0 || segment == seq!['.'] {
        if 0 < start <= path.len() {
            file_name_span(path.subrange(0, start - 1))
        } else {
            None
        }
    } else if segment == seq!['.', '.'] {
        None
    } else {
        Some((start, path.len() as int))
    }
}

/// The final component of a path, where it has one that names something.
pub open spec fn file_name_spec(path: Seq<char>) -> Option<Seq<char>> {
    match file_name_span(path) {
        Some((start, end)) => Some(path.subrange(start, end)),
        None => None,
    }
}

/// Where the extension of a file name starts, if it has one: behind its
/// last dot, unless that dot is the first character.
pub open spec fn extension_start(name: Seq<char>) -> Option<int> {
    if after_last(name, '.') >= 2 {
        Some(after_last(name, '.'))
    } else {
        None
    }
}

/// The extension of the file name of a path, if it has one.
pub open spec fn extension_spec(path: Seq<char>) -> Option<Seq<char>> {
    match file_name_spec(path) {
        Some(name) => match extension_start(name) {
            Some(start) => Some(name.subrange(start, name.len() as int)),
            None => None,
        },
        None => None,
    }
}

/// A path with the extension of its file name set to `extension`, or taken
/// away where `extension` is empty. A path without a file name stays as it
/// is; what follows the file name is dropped.
pub open spec fn set_extension_spec(path: Seq<char>, extension: Seq<char>) -> Seq<char> {
    match file_name_span(path) {
        Some((start, end)) => {
            let stem_end = match extension_start(path.subrange(start, end)) {
                Some(at) => start + at - 1,
                None => end,
            };
            if extension.len() == 0 {
                path.subrange(0, stem_end)
            } else {
                path.subrange(0, stem_end) + seq!['.'] + extension
            }
        },
        None => path,
    }
}

/// A path without as many characters at its end as its extension has,
/// with its extension then set to `extension`. For a path that ends with
/// its file name, this is the path with its extension replaced.
pub open spec fn with_extension_spec(path: Seq<char>, extension: Seq<char>) -> Seq<char> {
    match extension_spec(path) {
        Some(old) => set_extension_spec(path.subrange(0, path.len() - old.len()), extension),
        None => set_extension_spec(path, extension),
    }
}

/// The segments of a path that count as components, in order. The empty
/// ones are left out; where `skip_dots` says so, `.` is left out too unless
/// it leads the path.
pub open spec fn named_segments(path: Seq<char>, skip_dots: bool, leading: bool) -> Seq<Seq<char>>
    decreases path.len(),
{
    let end = before_first(path, '/');
    let segment = path.subrange(0, end);
    let rest = if 0 <= end < path.len() {
        named_segments(path.subrange(end + 1, path.len() as int), skip_dots, false)
    } else {
        Seq::empty()
    };
    if segment.len() == 0 || (skip_dots && segment == seq!['.'] && !leading) {
        rest
    } else {
        seq![segment] + rest
    }
}

/// The components of a path: the root, written `/`, where the path is
/// absolute, and then its named segments.
pub open spec fn component_list(path: Seq<char>) -> Seq<Seq<char>> {
    if spec_is_absolute(path) {
        seq![seq!['/']] + named_segments(path, true, true)
    } else {
        named_segments(path, true, true)
    }
}

/// Whether the components of `base` are the first components of `path`.
pub open spec fn starts_with_spec(path: Seq<char>, base: Seq<char>) -> bool {
    component_list(base).is_prefix_of(component_list(path))
}

/// Whether two paths have the same components.
pub open spec fn same_path_spec(left: Seq<char>, right: Seq<char>) -> bool {
    component_list(left) == component_list(right)
}

/// Whether a text can stand as one component that names something: it is
/// not empty, holds no separator, and is neither `.` nor `..`.
pub open spec fn is_plain_name(name: Seq<char>) -> bool {
    &&& name.len() > 0
    &&& !name.contains('/')
    &&& name != seq!['.']
    &&& name != seq!['.', '.']
}

/// A place behind a mark, or the start, behind which no mark follows is
/// where the part behind the last mark starts.
pub proof fn lemma_after_last_is(text: Seq<char>, mark: char, at: int)
    requires
        0 <= at <= text.len(),
        at > 0 ==> text[at - 1] == mark,
        forall|i: int| at <= i < text.len() ==> text[i] != mark,
    ensures
        after_last(text, mark) == at,
    decreases text.len(),
{
    if text.len() > 0 && text.last() != mark {
        let rest = text.drop_last();
        assert forall|i: int| at <= i < rest.len() implies rest[i] != mark by {
            assert(rest[i] == text[i]);
        }
        lemma_after_last_is(rest, mark, at);
    }
}

/// A place at a mark, or the end, before which no mark stands is where the
/// part before the first mark ends.
pub proof fn lemma_before_first_is(text: Seq<char>, mark: char, at: int)
    requires
        0 <= at <= text.len(),
        at < text.len() ==> text[at] == mark,
        forall|i: int| 0 <= i < at ==> text[i] != mark,
    ensures
        before_first(text, mark) == at,
    decreases text.len(),
{
    if text.len() > 0 && text[0] != mark {
        let rest = text.drop_first();
        assert forall|i: int| 0 <= i < at - 1 implies rest[i] != mark by {
            assert(rest[i] == text[i + 1]);
        }
        lemma_before_first_is(rest, mark, at - 1);
    }
}

/// The file name of a plain name joined on a directory is that name.
pub proof fn lemma_file_name_of_join(dir: Seq<char>, name: Seq<char>)
    requires
        is_plain_name(name),
    ensures
        file_name_spec(spec_join(dir, name)) == Some(name),
{
    let joined = spec_join(dir, name);
    let start = joined.len() - name.len();
    assert(name[0] != '/');
    assert(joined.subrange(start, joined.len() as int) =~= name);
    assert forall|i: int| start <= i < joined.len() implies joined[i] != '/' by {
        assert(joined[i] == name[i - start]);
    }
    lemma_after_last_is(joined, '/', start);
}

/// Whether `path` starts at the root.
pub fn is_absolute(path: &str) -> (absolute: bool)
    ensures
        absolute == spec_is_absolute(path@),
{
    !path.is_empty() && path.get_char(0) == '/'
}

/// The path of `name` below `dir`: see [`spec_join`].
pub fn join(dir: &str, name: &str) -> (path: String)
    ensures
        path@ == spec_join(dir@, name@),
{
    if is_absolute(name) {
        return name.to_owned();
    }
    let len = dir.unicode_len();
    let bare = len == 0 || dir.get_char(len - 1) == '/';
    let base = dir.to_owned();
    if bare {
        base.concat(name)
    } else {
        proof {
            reveal_strlit("/");
        }
        let path = base.concat("/").concat(name);
        assert(path@ =~= dir@ + seq!['/'] + name@);
        path
    }
}

/// Where, between `from` and `to`, the part behind the last `mark` starts.
fn find_after_last(text: &str, from: usize, to: usize, mark: char) -> (at: usize)
    requires
        from <= to <= text@.len(),
    ensures
        from <= at <= to,
        at == from + after_last(text@.subrange(from as int, to as int), mark),
{
    let ghost part = text@.subrange(from as int, to as int);
    let mut at = to;
    while at > from && text.get_char(at - 1) != mark
        invariant
            from <= at <= to <= text@.len(),
            part == text@.subrange(from as int, to as int),
            forall|i: int| at - from <= i < part.len() ==> part[i] != mark,
        decreases at,
    {
        proof {
            assert(part[at - 1 - from] == text@[at - 1]);
        }
        at -= 1;
    }
    proof {
        if at > from {
            assert(part[at - from - 1] == text@[at - 1]);
        }
        lemma_after_last_is(part, mark, at - from);
    }
    at
}

/// Where, from `from` on, the part before the first `mark` ends.
fn find_before_first(text: &str, from: usize, mark: char) -> (at: usize)
    requires
        from <= text@.len(),
    ensures
        from <= at <= text@.len(),
        at == from + before_first(text@.subrange(from as int, text@.len() as int), mark),
{
    let len = text.unicode_len();
    let ghost part = text@.subrange(from as int, len as int);
    let mut at = from;
    while at < len && text.get_char(at) != mark
        invariant
            from <= at <= len,
            len == text@.len(),
            part == text@.subrange(from as int, len as int),
            forall|i: int| 0 <= i < at - from ==> part[i] != mark,
        decreases len - at,
    {
        proof {
            assert(part[at - from] == text@[at as int]);
        }
        at += 1;
    }
    proof {
        if at < len {
            assert(part[at - from] == text@[at as int]);
        }
        lemma_before_first_is(part, mark, at - from);
    }
    at
}

/// Whether the part of `text` between `from` and `to` is `.`.
fn is_dot(text: &str, from: usize, to: usize) -> (dot: bool)
    requires
        from <= to <= text@.len(),
    ensures
        dot == (text@.subrange(from as int, to as int) == seq!['.']),
{
    let ghost part = text@.subrange(from as int, to as int);
    if to - from == 1 {
        let dot = text.get_char(from) == '.';
        proof {
            assert(part[0] == text@[from as int]);
            if dot {
                assert(part =~= seq!['.']);
            }
        }
        dot
    } else {
        proof {
            assert(part.len() != 1);
        }
        false
    }
}

/// Whether the part of `text` between `from` and `to` is `..`.
fn is_dot_dot(text: &str, from: usize, to: usize) -> (dots: bool)
    requires
        from <= to <= text@.len(),
    ensures
        dots == (text@.subrange(from as int, to as int) == seq!['.', '.']),
{
    let ghost part = text@.subrange(from as int, to as int);
    if to - from == 2 {
        let dots = text.get_char(from) == '.' && text.get_char(from + 1) == '.';
        proof {
            assert(part[0] == text@[from as int]);
            assert(part[1] == text@[from + 1]);
            if dots {
                assert(part =~= seq!['.', '.']);
            }
        }
        dots
    } else {
        proof {
            assert(part.len() != 2);
        }
        false
    }
}

/// Where in a path its file name stands: see [`file_name_span`].
fn name_span(path: &str) -> (span: Option<(usize, usize)>)
    ensures
        match span {
            Some((start, end)) => start <= end <= path@.len() && file_name_span(path@) == Some(
                (start as int, end as int),
            ),
            None => file_name_span(path@) is None,
        },
{
    let mut end = path.unicode_len();
    proof {
        assert(path@.subrange(0, end as int) =~= path@);
    }
    loop
        invariant
            end <= path@.len(),
            file_name_span(path@) == file_name_span(path@.subrange(0, end as int)),
        decreases end,
    {
        let ghost rest = path@.subrange(0, end as int);
        let start = find_after_last(path, 0, end, '/');
        proof {
            assert(rest.subrange(start as int, end as int) =~= path@.subrange(
                start as int,
                end as int,
            ));
        }
        if start == end || is_dot(path, start, end) {
            if start == 0 {
                return None;
            }
            proof {
                assert(rest.subrange(0, start - 1) =~= path@.subrange(0, start - 1));
            }
            end = start - 1;
        } else if is_dot_dot(path, start, end) {
            return None;
        } else {
            return Some((start, end));
        }
    }
}

/// The final component of a path: see [`file_name_spec`].
pub fn file_name(path: &str) -> (name: Option<String>)
    ensures
        option_text(name) == file_name_spec(path@),
{
    match name_span(path) {
        Some((start, end)) => Some(path.substring_char(start, end).to_owned()),
        None => None,
    }
}

/// The extension of the file name of a path: see [`extension_spec`].
pub fn extension(path: &str) -> (found: Option<String>)
    ensures
        option_text(found) == extension_spec(path@),
{
    match name_span(path) {
        Some((start, end)) => {
            let at = find_after_last(path, start, end, '.');
            if at - start >= 2 {
                let found = path.substring_char(at, end).to_owned();
                proof {
                    let name = path@.subrange(start as int, end as int);
                    assert(found@ =~= name.subrange(at - start, name.len() as int));
                }
                Some(found)
            } else {
                None
            }
        },
        None => None,
    }
}

/// A path with the extension of its file name set to `extension`: see
/// [`set_extension_spec`].
fn set_extension(path: &str, extension: &str) -> (changed: String)
    ensures
        changed@ == set_extension_spec(path@, extension@),
{
    match name_span(path) {
        Some((start, end)) => {
            let at = find_after_last(path, start, end, '.');
            let stem_end = if at - start >= 2 {
                at - 1
            } else {
                end
            };
            let base = path.substring_char(0, stem_end).to_owned();
            if extension.is_empty() {
                base
            } else {
                proof {
                    reveal_strlit(".");
                }
                let changed = base.concat(".").concat(extension);
                assert(changed@ =~= path@.subrange(0, stem_end as int) + seq!['.'] + extension@);
                changed
            }
        },
        None => path.to_owned(),
    }
}

/// A path with its extension replaced by `extension`: see
/// [`with_extension_spec`].
pub fn with_extension(path: &str, extension: &str) -> (changed: String)
    ensures
        changed@ == with_extension_spec(path@, extension@),
{
    match name_span(path) {
        Some((start, end)) => {
            let at = find_after_last(path, start, end, '.');
            if at - start >= 2 {
                let keep = path.unicode_len() - (end - at);
                proof {
                    let name = path@.subrange(start as int, end as int);
                    assert(name.subrange(at - start, name.len() as int).len() == end - at);
                }
                set_extension(path.substring_char(0, keep), extension)
            } else {
                set_extension(path, extension)
            }
        },
        None => set_extension(path, extension),
    }
}

/// The named segments of a path, behind what `list` holds already: see
/// [`named_segments`].
fn collect_segments(path: &str, skip_dots: bool, list: &mut Vec<String>)
    ensures
        texts(final(list)@) == texts(old(list)@) + named_segments(path@, skip_dots, true),
{
    let len = path.unicode_len();
    let ghost start = texts(list@);
    let ghost all = named_segments(path@, skip_dots, true);
    let mut pos: usize = 0;
    proof {
        assert(path@.subrange(0, len as int) =~= path@);
    }
    loop
        invariant_except_break
            pos <= len,
            len == path@.len(),
            texts(list@) + named_segments(
                path@.subrange(pos as int, len as int),
                skip_dots,
                pos == 0,
            ) == start + all,
        ensures
            texts(list@) == start + all,
        decreases len - pos,
    {
        let ghost rest = path@.subrange(pos as int, len as int);
        let ghost before = texts(list@);
        let end = find_before_first(path, pos, '/');
        let ghost segment = rest.subrange(0, end - pos);
        proof {
            assert(segment =~= path@.subrange(pos as int, end as int));
        }
        let kept = end > pos && !(skip_dots && pos > 0 && is_dot(path, pos, end));
        if kept {
            list.push(path.substring_char(pos, end).to_owned());
        }
        proof {
            let later = if end < len {
                named_segments(rest.subrange(end - pos + 1, rest.len() as int), skip_dots, false)
            } else {
                Seq::<Seq<char>>::empty()
            };
            if kept {
                assert(texts(list@) =~= before.push(segment));
                assert(named_segments(rest, skip_dots, pos == 0) == seq![segment] + later);
                assert(before + (seq![segment] + later) =~= before.push(segment) + later);
            } else {
                assert(named_segments(rest, skip_dots, pos == 0) == later);
            }
            assert(texts(list@) + later == start + all);
            if end < len {
                assert(rest.subrange(end - pos + 1, rest.len() as int) =~= path@.subrange(
                    end + 1,
                    len as int,
                ));
            } else {
                assert(texts(list@) + later =~= texts(list@));
            }
        }
        if end == len {
            break ;
        }
        pos = end + 1;
    }
}

/// The named segments of a path: see [`named_segments`].
pub fn segments(path: &str, skip_dots: bool) -> (list: Vec<String>)
    ensures
        texts(list@) == named_segments(path@, skip_dots, true),
{
    let mut list: Vec<String> = Vec::new();
    collect_segments(path, skip_dots, &mut list);
    proof {
        assert(texts(Seq::<String>::empty()) + named_segments(path@, skip_dots, true)
            =~= named_segments(path@, skip_dots, true));
    }
    list
}

/// The components of a path: see [`component_list`].
pub fn components(path: &str) -> (list: Vec<String>)
    ensures
        texts(list@) == component_list(path@),
{
    let mut list: Vec<String> = Vec::new();
    if is_absolute(path) {
        list.push("/".to_owned());
        proof {
            reveal_strlit("/");
            assert(list[0]@ =~= seq!['/']);
            assert(texts(list@) =~= seq![seq!['/']]);
        }
    } else {
        proof {
            assert(texts(list@) + named_segments(path@, true, true) =~= named_segments(
                path@,
                true,
                true,
            ));
        }
    }
    collect_segments(path, true, &mut list);
    list
}

/// Whether the texts of `start` are the first texts of `whole`.
pub fn starts_with_texts(whole: &Vec<String>, start: &Vec<String>) -> (prefixed: bool)
    ensures
        prefixed == texts(start@).is_prefix_of(texts(whole@)),
{
    if start.len() > whole.len() {
        return false;
    }
    let mut i: usize = 0;
    while i < start.len()
        invariant
            i <= start.len() <= whole.len(),
            forall|j: int| 0 <= j < i ==> texts(start@)[j] == texts(whole@)[j],
        decreases start.len() - i,
    {
        if !same_text(start[i].as_str(), whole[i].as_str()) {
            proof {
                assert(texts(start@)[i as int] != texts(whole@)[i as int]);
                if texts(start@).is_prefix_of(texts(whole@)) {
                    assert(texts(whole@).subrange(0, start.len() as int)[i as int] == texts(
                        start@,
                    )[i as int]);
                }
            }
            return false;
        }
        i += 1;
    }
    proof {
        assert(texts(whole@).subrange(0, start.len() as int) =~= texts(start@));
    }
    true
}

/// Whether the components of `base` are the first components of `path`.
pub fn starts_with(path: &str, base: &str) -> (within: bool)
    ensures
        within == starts_with_spec(path@, base@),
{
    starts_with_texts(&components(path), &components(base))
}

/// Whether two paths have the same components.
pub fn same_path(left: &str, right: &str) -> (same: bool)
    ensures
        same == same_path_spec(left@, right@),
{
    same_texts(&components(left), &components(right))
}

/// Whether two lists hold the same texts in the same order.
pub fn same_texts(one: &Vec<String>, other: &Vec<String>) -> (same: bool)
    ensures
        same == (texts(one@) == texts(other@)),
{
    let same = one.len() == other.len() && starts_with_texts(one, other);
    proof {
        if one.len() == other.len() && texts(other@).is_prefix_of(texts(one@)) {
            assert(texts(one@).subrange(0, other.len() as int) =~= texts(one@));
        }
        if texts(one@) == texts(other@) {
            assert(texts(one@).subrange(0, other.len() as int) =~= texts(other@));
        }
    }
    same
}

} // verus!
