//! The extension of a file name, as `std::path::Path::extension` takes it
//! from the path's file name: what follows the name's last dot, unless there
//! is no dot, the only dot starts the name, or the name is `..`.
//!
//! Splitting a path into components (and so finding its file name) follows
//! the platform's rules, which differ between Unix and Windows; callers pass
//! the file name that `Path::file_name` gives on the running platform.
use vstd::prelude::*;
use crate::text::chars_of;

verus! {

/// Position of the last `.` among the first `end` characters, or -1.
pub open spec fn last_dot(name: Seq<char>, end: int) -> int
    decreases end,
{
    if end <= 0 {
        -1
    } else if name[end - 1] == '.' {
        end - 1
    } else {
        last_dot(name, end - 1)
    }
}

/// The extension of a file name: what follows its last dot, unless there is
/// no dot, the only dot starts the name, or the name is `..`.
pub open spec fn extension_of_name(name: Seq<char>) -> Option<Seq<char>> {
    let d = last_dot(name, name.len() as int);
    if name == ".."@ || d <= 0 {
        None
    } else {
        Some(name.subrange(d + 1, name.len() as int))
    }
}

/// The characters `chars[from..to]` as a string.
fn collect_range(chars: &Vec<char>, from: usize, to: usize) -> (s: String)
    requires
        from <= to <= chars.len(),
    ensures
        s@ == chars@.subrange(from as int, to as int),
{
    let mut s = String::new();
    let mut i = from;
    while i < to
        invariant
            from <= i <= to,
            to <= chars.len(),
            s@ == chars@.subrange(from as int, i as int),
        decreases to - i,
    {
        crate::text::push_char(&mut s, chars[i]);
        assert(s@ =~= chars@.subrange(from as int, i + 1));
        i = i + 1;
    }
    s
}

/// Position of the last `.` in `name`, if any.
fn last_dot_index(name: &Vec<char>) -> (d: Option<usize>)
    ensures
        match d {
            Some(i) => last_dot(name@, name@.len() as int) == i as int && i < name.len(),
            None => last_dot(name@, name@.len() as int) == -1,
        },
{
    let mut i = name.len();
    while i > 0 && name[i - 1] != '.'
        invariant
            i <= name.len(),
            last_dot(name@, name@.len() as int) == last_dot(name@, i as int),
        decreases i,
    {
        i = i - 1;
    }
    if i == 0 {
        None
    } else {
        Some(i - 1)
    }
}

/// The extension of an optional file name (`Path::extension` of a path
/// whose `Path::file_name` is `name`).
pub open spec fn file_extension_of(name: Option<Seq<char>>) -> Option<Seq<char>> {
    match name {
        Some(n) => extension_of_name(n),
        None => None,
    }
}

/// The extension of a file name: what follows its last dot, unless there is
/// no dot, the only dot starts the name, or the name is `..`.
pub fn name_extension(name: &str) -> (ext: Option<String>)
    ensures
        match ext {
            Some(e) => extension_of_name(name@) == Some(e@),
            None => extension_of_name(name@) is None,
        },
{
    let chars = chars_of(name);
    let parent = chars.len() == 2 && chars[0] == '.' && chars[1] == '.';
    proof {
        reveal_strlit("..");
        if name@ == ".."@ {
            assert(chars@[0] == '.' && chars@[1] == '.');
        }
        if parent {
            assert(name@ =~= ".."@);
        }
    }
    if parent {
        return None;
    }
    match last_dot_index(&chars) {
        Some(d) if d > 0 => Some(collect_range(&chars, d + 1, chars.len())),
        _ => None,
    }
}

/// The extension of an optional file name; a path without a file name has
/// no extension.
pub fn file_extension(name: Option<&str>) -> (ext: Option<String>)
    ensures
        match ext {
            Some(e) => file_extension_of(
                match name {
                    Some(n) => Some(n@),
                    None => None,
                },
            ) == Some(e@),
            None => file_extension_of(
                match name {
                    Some(n) => Some(n@),
                    None => None,
                },
            ) is None,
        },
{
    match name {
        Some(n) => name_extension(n),
        None => None,
    }
}

} // verus!
