//! File paths as text, in the two styles in use.
use crate::text;
use crate::text::chars_of;
use vstd::prelude::*;
use vstd::string::*;

verus! {

/// How a path separates its parts.
#[derive(Debug, Clone, Copy, PartialEq, Eq, Structural)]
pub enum PathStyle {
    Posix,
    Windows,
}

impl PathStyle {
    pub open spec fn separator(self) -> Seq<char> {
        match self {
            PathStyle::Posix => "/"@,
            PathStyle::Windows => "\\"@,
        }
    }

    /// Whether `ch` ends a directory name in this style.
    pub open spec fn separates(self, ch: char) -> bool {
        ch == '/' || (self == PathStyle::Windows && ch == '\\')
    }
}

/// A drive letter with its colon and nothing else.
pub open spec fn bare_drive(dir: Seq<char>) -> bool {
    dir.len() == 2 && dir[1] == ':' && ('a' <= dir[0] <= 'z' || 'A' <= dir[0] <= 'Z')
}

/// The path of the entry `name` of the directory `dir`.
pub open spec fn joined_path(dir: Seq<char>, name: Seq<char>, style: PathStyle) -> Seq<char> {
    if dir.len() == 0 || style.separates(dir.last()) || (style == PathStyle::Windows && bare_drive(
        dir,
    )) {
        dir + name
    } else {
        dir + style.separator() + name
    }
}

pub fn join_path(dir: &str, name: &str, style: PathStyle) -> (path: String)
    ensures
        path@ == joined_path(dir@, name@, style),
{
    let chars = chars_of(dir);
    let count = chars.len();
    let mut path = dir.to_owned();
    let closed = count == 0 || chars[count - 1] == '/' || (style == PathStyle::Windows
        && chars[count - 1] == '\\');
    let drive = style == PathStyle::Windows && count == 2 && chars[1] == ':' && (('a' <= chars[0]
        && chars[0] <= 'z') || ('A' <= chars[0] && chars[0] <= 'Z'));
    if !closed && !drive {
        match style {
            PathStyle::Posix => path.append("/"),
            PathStyle::Windows => path.append("\\"),
        }
    }
    path.append(name);
    path
}

/// The path of an entry is its directory, a separator where there is none yet,
/// and its name.
pub proof fn path_ends_with_the_name(dir: Seq<char>, name: Seq<char>)
    requires
        dir.len() > 0,
    ensures
        dir.last() != '/' ==> joined_path(dir, name, PathStyle::Posix) == dir + "/"@ + name,
        dir.last() == '/' ==> joined_path(dir, name, PathStyle::Posix) == dir + name,
        dir.last() == '/' || dir.last() == '\\' ==> joined_path(dir, name, PathStyle::Windows)
            == dir + name,
        dir.last() != '/' && dir.last() != '\\' && dir.len() > 2 ==> joined_path(
            dir,
            name,
            PathStyle::Windows,
        ) == dir + "\\"@ + name,
{
}

} // verus!
