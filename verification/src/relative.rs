//! Relative paths, as the `relative-path` crate has them, carried as text.
//!
//! Where the crate works on the paths of the platform, it goes by the
//! components that the standard library tells apart. What is said here of
//! such functions is said of Unix, where `/` separates components.
use crate::collections::texts;
use crate::paths::{named_segments, same_texts, segments, spec_is_absolute};
use relative_path::{FromPathError, PathExt, RelativePath, RelativePathBuf, RelativeToError};
use std::path::Path;
use vstd::prelude::*;
use vstd::string::StringExecFns;

verus! {

/// `relative_path::FromPathError`, carried through as it comes.
#[verifier::external_type_specification]
#[verifier::external_body]
pub struct ExFromPathError(FromPathError);

/// `relative_path::RelativeToError`, carried through as it comes.
#[verifier::external_type_specification]
#[verifier::external_body]
pub struct ExRelativeToError(RelativeToError);

/// The relative path that leads from the directory `root` to `path`, where
/// one can be given.
pub uninterp spec fn relative_to_spec(path: Seq<char>, root: Seq<char>) -> Option<Seq<char>>;

/// The components of a relative path: its segments that are not empty.
pub open spec fn relative_components(path: Seq<char>) -> Seq<Seq<char>> {
    named_segments(path, false, true)
}

/// Whether two relative paths have the same components.
pub open spec fn same_components_spec(left: Seq<char>, right: Seq<char>) -> bool {
    relative_components(left) == relative_components(right)
}

/// A path with names appended to it, each behind a separator unless the
/// path is empty so far.
pub open spec fn appended(path: Seq<char>, names: Seq<Seq<char>>) -> Seq<char>
    decreases names.len(),
{
    if names.len() == 0 {
        path
    } else {
        appended(
            if path.len() == 0 {
                names[0]
            } else {
                path + seq!['/'] + names[0]
            },
            names.drop_first(),
        )
    }
}

/// The components that are left on `stack` once `components` were walked:
/// `.` changes nothing, `..` takes the last component away, or is itself put
/// on where there is none to take or the last is `..` too, and any other
/// component is put on.
pub open spec fn traversed(stack: Seq<Seq<char>>, components: Seq<Seq<char>>) -> Seq<Seq<char>>
    decreases components.len(),
{
    if components.len() == 0 {
        stack
    } else {
        let component = components[0];
        let next = if component == seq!['.'] {
            stack
        } else if component == seq!['.', '.'] {
            if stack.len() == 0 || stack.last() == seq!['.', '.'] {
                stack.push(component)
            } else {
                stack.drop_last()
            }
        } else {
            stack.push(component)
        };
        traversed(next, components.drop_first())
    }
}

/// A relative path with its `.` and `..` components collapsed.
pub open spec fn normalize_spec(path: Seq<char>) -> Seq<char> {
    appended(Seq::empty(), traversed(Seq::empty(), relative_components(path)))
}

/// The components of a path without `.`, with a separator between them.
pub open spec fn relative_form(path: Seq<char>) -> Seq<char> {
    appended(Seq::empty(), named_segments(path, true, false))
}

/// A path as a relative path, where it is one: every path that is not
/// absolute, in its relative form.
pub open spec fn from_path_spec(path: Seq<char>) -> Option<Seq<char>> {
    if spec_is_absolute(path) {
        None
    } else {
        Some(relative_form(path))
    }
}

/// A relative path appended to the path `base`, component by component.
pub open spec fn to_path_spec(relative: Seq<char>, base: Seq<char>) -> Seq<char> {
    appended(base, relative_components(relative))
}

/// `relative_path::PathExt::relative_to`: a computation on the components of
/// the two paths that reads no file system. The contract gives its answer a
/// name, and says that an error stands for no answer.
#[verifier::external_body]
pub(crate) fn relative_to(path: &str, root: &str) -> (relative: Result<String, RelativeToError>)
    ensures
        match relative {
            Ok(text) => relative_to_spec(path@, root@) == Some(text@),
            Err(_) => relative_to_spec(path@, root@) is None,
        },
{
    match Path::new(path).relative_to(Path::new(root)) {
        Ok(relative) => Ok(relative.into_string()),
        Err(error) => Err(error),
    }
}

/// `relative_path::RelativePathBuf::from_path`. It walks the components of
/// the path as the standard library tells them apart: a root is an error,
/// `.` is passed over, and every other component is pushed onto the result,
/// behind a separator unless it is the first. The contract says so: see
/// [`from_path_spec`].
#[verifier::external_body]
pub(crate) fn from_path(path: &str) -> (relative: Result<String, FromPathError>)
    ensures
        match relative {
            Ok(text) => from_path_spec(path@) == Some(text@),
            Err(_) => from_path_spec(path@) is None,
        },
{
    match RelativePathBuf::from_path(path) {
        Ok(relative) => Ok(relative.into_string()),
        Err(error) => Err(error),
    }
}

/// `relative_path::RelativePath::normalize`. It walks the components of the
/// path with a buffer: `.` is passed over, `..` pops the last component off
/// the buffer, or is pushed where the buffer is empty or ends in `..`, and
/// any other component is pushed, behind a separator unless it is the first.
/// The contract says so: see [`normalize_spec`].
#[verifier::external_body]
pub(crate) fn normalize(path: &str) -> (normal: String)
    ensures
        normal@ == normalize_spec(path@),
{
    RelativePath::new(path).normalize().into_string()
}

/// Whether two relative paths have the same components: see
/// [`same_components_spec`].
pub fn same_components(left: &str, right: &str) -> (same: bool)
    ensures
        same == same_components_spec(left@, right@),
{
    same_texts(&segments(left, false), &segments(right, false))
}

/// A relative path appended to the path `base`: see [`to_path_spec`].
pub fn to_path(relative: &str, base: &str) -> (path: String)
    ensures
        path@ == to_path_spec(relative@, base@),
{
    let names = segments(relative, false);
    let mut path = base.to_owned();
    let mut i: usize = 0;
    proof {
        reveal_strlit("/");
        assert(texts(names@).subrange(0, names.len() as int) =~= texts(names@));
    }
    while i < names.len()
        invariant
            i <= names.len(),
            "/"@ == seq!['/'],
            appended(path@, texts(names@).subrange(i as int, names.len() as int)) == to_path_spec(
                relative@,
                base@,
            ),
        decreases names.len() - i,
    {
        let ghost rest = texts(names@).subrange(i as int, names.len() as int);
        proof {
            assert(rest[0] == names[i as int]@);
            assert(rest.drop_first() =~= texts(names@).subrange(i + 1, names.len() as int));
        }
        if path.as_str().is_empty() {
            path = names[i].clone();
        } else {
            path = path.concat("/").concat(names[i].as_str());
        }
        i += 1;
    }
    path
}

} // verus!
