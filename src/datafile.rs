//! Which loader reads a database file, decided by the file name's extension.

use vstd::prelude::*;

use crate::error::ChemAppError;

verus! {

/// The unit number on which the solver opens a database file.
pub const DATA_UNIT: i32 = 10;

/// The formats of database file the solver reads.
#[derive(Debug, Clone, Copy, PartialEq, Eq)]
pub enum DataFormat {
    /// Plain text, extension `.dat`.
    Ascii,
    /// Transparent file with a portable header, extension `.cst`.
    Transparent,
    /// Binary, extension `.bin`.
    Binary,
}

/// True of the characters that separate the parts of a path.
pub open spec fn is_separator(c: char) -> bool {
    c == '/' || c == '\\'
}

/// Where the file name of `path` begins: just after its last separator.
pub open spec fn file_name_start(path: Seq<char>) -> int
    decreases path.len(),
{
    if path.len() == 0 {
        0
    } else if is_separator(path.last()) {
        path.len() as int
    } else {
        file_name_start(path.drop_last())
    }
}

/// The position of the last `.` of `name`, or -1.
pub open spec fn last_dot(name: Seq<char>) -> int
    decreases name.len(),
{
    if name.len() == 0 {
        -1
    } else if name.last() == '.' {
        name.len() - 1
    } else {
        last_dot(name.drop_last())
    }
}

/// The file name of `path`: what follows its last separator.
pub open spec fn file_name(path: Seq<char>) -> Seq<char> {
    path.subrange(file_name_start(path), path.len() as int)
}

/// The extension of `path`: what follows the last `.` of its file name,
/// where that `.` is not the name's first character.
pub open spec fn extension_of(path: Seq<char>) -> Option<Seq<char>> {
    let name = file_name(path);
    let dot = last_dot(name);
    if dot > 0 {
        Some(name.subrange(dot + 1, name.len() as int))
    } else {
        None
    }
}

/// True where `text` spells the lowercase ASCII word `lower` in any case.
pub open spec fn equal_ignoring_case(text: Seq<char>, lower: Seq<char>) -> bool {
    &&& text.len() == lower.len()
    &&& forall|i: int| 0 <= i < text.len() ==> text[i] == lower[i] || text[i] as u32 + 32 == lower[i] as u32
}

/// The format an extension stands for.
pub open spec fn format_for(extension: Seq<char>) -> Option<DataFormat> {
    if equal_ignoring_case(extension, "dat"@) {
        Some(DataFormat::Ascii)
    } else if equal_ignoring_case(extension, "cst"@) {
        Some(DataFormat::Transparent)
    } else if equal_ignoring_case(extension, "bin"@) {
        Some(DataFormat::Binary)
    } else {
        None
    }
}

fn name_start(path: &str) -> (r: usize)
    ensures
        r == file_name_start(path@),
        r <= path@.len(),
{
    let mut i = path.unicode_len();
    proof {
        assert(path@.take(i as int) =~= path@);
    }
    while i > 0 && path.get_char(i - 1) != '/' && path.get_char(i - 1) != '\\'
        invariant
            i <= path@.len(),
            file_name_start(path@) == file_name_start(path@.take(i as int)),
        decreases i,
    {
        proof {
            let t = path@.take(i as int);
            assert(t.drop_last() =~= path@.take(i - 1));
            assert(t.last() == path@[i - 1]);
        }
        i = i - 1;
    }
    proof {
        if i > 0 {
            assert(path@.take(i as int).last() == path@[i - 1]);
        }
    }
    i
}

fn dot_position(name: &str) -> (r: Option<usize>)
    ensures
        match r {
            Some(d) => d == last_dot(name@) && d < name@.len(),
            None => last_dot(name@) == -1,
        },
{
    let mut i = name.unicode_len();
    proof {
        assert(name@.take(i as int) =~= name@);
    }
    while i > 0 && name.get_char(i - 1) != '.'
        invariant
            i <= name@.len(),
            last_dot(name@) == last_dot(name@.take(i as int)),
        decreases i,
    {
        proof {
            let t = name@.take(i as int);
            assert(t.drop_last() =~= name@.take(i - 1));
            assert(t.last() == name@[i - 1]);
        }
        i = i - 1;
    }
    if i == 0 {
        None
    } else {
        proof {
            assert(name@.take(i as int).last() == name@[i - 1]);
        }
        Some(i - 1)
    }
}

/// Finds the extension of a path: what follows the last `.` of its file name,
/// where that `.` is not the name's first character.
pub fn path_extension(path: &str) -> (r: Option<&str>)
    ensures
        match r {
            Some(e) => extension_of(path@) == Some(e@),
            None => extension_of(path@).is_none(),
        },
{
    let start = name_start(path);
    let name = path.substring_char(start, path.unicode_len());
    match dot_position(name) {
        Some(dot) => {
            if dot > 0 {
                Some(name.substring_char(dot + 1, name.unicode_len()))
            } else {
                None
            }
        },
        None => None,
    }
}

/// Decides whether `text` spells the lowercase ASCII word `lower` in any case.
pub fn equals_ignoring_case(text: &str, lower: &str) -> (r: bool)
    ensures
        r == equal_ignoring_case(text@, lower@),
{
    let n = text.unicode_len();
    if n != lower.unicode_len() {
        return false;
    }
    let mut i: usize = 0;
    while i < n
        invariant
            n == text@.len(),
            n == lower@.len(),
            i <= n,
            forall|j: int| 0 <= j < i ==> text@[j] == lower@[j] || text@[j] as u32 + 32 == lower@[j] as u32,
        decreases n - i,
    {
        let c = text.get_char(i);
        let l = lower.get_char(i);
        if c != l && (c as u32) + 32 != l as u32 {
            return false;
        }
        i = i + 1;
    }
    true
}

/// Picks the loader for a database file by its extension, compared without
/// regard to case: `.dat` plain text, `.cst` transparent, `.bin` binary. A
/// path without extension cannot be loaded; another extension is a format
/// error that names it.
pub fn datafile_format(path: &str) -> (r: Result<DataFormat, ChemAppError>)
    ensures
        match extension_of(path@) {
            None => r matches Err(ChemAppError::LoadError(_)),
            Some(extension) => match format_for(extension) {
                Some(format) => r == Ok::<DataFormat, ChemAppError>(format),
                None => r matches Err(ChemAppError::FormatError(_)),
            },
        },
{
    match path_extension(path) {
        None => {
            let message = String::from_str(path).concat(" has no extension");
            Err(ChemAppError::LoadError(message))
        },
        Some(extension) => {
            if equals_ignoring_case(extension, "dat") {
                Ok(DataFormat::Ascii)
            } else if equals_ignoring_case(extension, "cst") {
                Ok(DataFormat::Transparent)
            } else if equals_ignoring_case(extension, "bin") {
                Ok(DataFormat::Binary)
            } else {
                let message = String::from_str(extension)
                    .concat(" is not a recognized datafile extension for ")
                    .concat(path);
                Err(ChemAppError::FormatError(message))
            }
        },
    }
}

} // verus!
