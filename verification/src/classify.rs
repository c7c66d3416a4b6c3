//! Extension classifier: decides whether a file name carries one of the
//! extensions the signing tool can process.
//!
//! The extension is taken exactly as `std::path::Path::extension` takes it on
//! Windows: the part of the file name (everything after the last path
//! separator, `/` or `\`) that follows the last dot, unless there is no dot
//! or the only dot is the leading character.  Matching is case-sensitive and
//! a name without an extension is never supported.

use vstd::prelude::*;

verus! {

use vstd::string::StrSliceExecFns;
use crate::strutil::str_eq;

/// A path separator character.
pub open spec fn is_separator(c: char) -> bool {
    c == '/' || c == '\\'
}

/// Index just past the last separator of `s`: the file name of the path `s`
/// occupies `s[file_name_start(s) .. s.len()]`.
pub open spec fn file_name_start(s: Seq<char>) -> int
    decreases s.len(),
{
    if s.len() == 0 {
        0
    } else if is_separator(s.last()) {
        s.len() as int
    } else {
        file_name_start(s.drop_last())
    }
}

/// The file name of the path `s`: everything after the last separator.
pub open spec fn file_name_of(s: Seq<char>) -> Seq<char> {
    s.subrange(file_name_start(s), s.len() as int)
}

/// Index of the last dot of `s`, if `s` contains one.
pub open spec fn last_dot(s: Seq<char>) -> Option<int>
    decreases s.len(),
{
    if s.len() == 0 {
        None
    } else if s.last() == '.' {
        Some(s.len() - 1)
    } else {
        last_dot(s.drop_last())
    }
}

/// The extension of the file name `name`: the part after the last dot.  A
/// name without a dot has no extension, and neither has a dot-file whose
/// only dot is its first character.
pub open spec fn extension_of(name: Seq<char>) -> Option<Seq<char>> {
    match last_dot(name) {
        None => None,
        Some(i) => if i == 0 {
            None
        } else {
            Some(name.subrange(i + 1, name.len() as int))
        },
    }
}

/// The closed set of signable artifact extensions, matched in the case
/// given: packaged applications, cabinet and catalog files, libraries and
/// executables, script hosts, installer packages, ActiveX controls,
/// PowerShell scripts, certificate trust lists and system files.
pub open spec fn is_supported_extension(e: Seq<char>) -> bool {
    ||| e == "appx"@
    ||| e == "msix"@
    ||| e == "appxbundle"@
    ||| e == "msixbundle"@
    ||| e == "cab"@
    ||| e == "cat"@
    ||| e == "dll"@
    ||| e == "exe"@
    ||| e == "js"@
    ||| e == "vbs"@
    ||| e == "wsf"@
    ||| e == "msi"@
    ||| e == "msp"@
    ||| e == "mst"@
    ||| e == "ocx"@
    ||| e == "ps1"@
    ||| e == "stl"@
    ||| e == "sys"@
}

/// Whether the path `s` names a file the signing tool can process.
pub open spec fn spec_is_supported(s: Seq<char>) -> bool {
    match extension_of(file_name_of(s)) {
        None => false,
        Some(e) => is_supported_extension(e),
    }
}

/// Decides whether `file` carries a supported extension.  Pure and total:
/// a missing or unknown extension yields `false`, never an error.
pub fn is_supported(file: &str) -> (r: bool)
    ensures
        r == spec_is_supported(file@),
{
    let n: usize = file.unicode_len();
    let mut start: usize = 0;
    let mut i: usize = 0;
    while i < n
        invariant
            i <= n,
            n == file@.len(),
            start <= i,
            start == file_name_start(file@.subrange(0, i as int)),
        decreases n - i,
    {
        let c = file.get_char(i);
        proof {
            assert(file@.subrange(0, i + 1).drop_last() =~= file@.subrange(0, i as int));
            assert(file@.subrange(0, i + 1).last() == file@[i as int]);
        }
        if c == '/' || c == '\\' {
            start = i + 1;
        }
        i += 1;
    }
    proof {
        assert(file@.subrange(0, n as int) =~= file@);
    }
    // `start` is now the index where the file name begins.
    let ghost name: Seq<char> = file_name_of(file@);
    proof {
        assert(name =~= file@.subrange(start as int, n as int));
    }
    let mut dot: usize = 0;
    let mut has_dot = false;
    let mut j: usize = start;
    while j < n
        invariant
            start <= j <= n,
            n == file@.len(),
            start == file_name_start(file@),
            name == file_name_of(file@),
            name =~= file@.subrange(start as int, n as int),
            has_dot ==> start <= dot < j,
            has_dot ==> last_dot(file@.subrange(start as int, j as int)) == Some(
                dot - start as int,
            ),
            !has_dot ==> last_dot(file@.subrange(start as int, j as int)) is None,
        decreases n - j,
    {
        let c = file.get_char(j);
        proof {
            assert(file@.subrange(start as int, j + 1).drop_last() =~= file@.subrange(
                start as int,
                j as int,
            ));
            assert(file@.subrange(start as int, j + 1).last() == file@[j as int]);
        }
        if c == '.' {
            dot = j;
            has_dot = true;
        }
        j += 1;
    }
    if !has_dot || dot == start {
        return false;
    }
    // The extension occupies file[dot + 1 .. n].
    let ext = file.substring_char(dot + 1, n);
    proof {
        assert(extension_of(name) == Some(name.subrange(dot - start as int + 1, name.len() as int)));
        assert(ext@ =~= name.subrange(dot - start as int + 1, name.len() as int));
    }
    str_eq(ext, "appx") || str_eq(ext, "msix") || str_eq(ext, "appxbundle") || str_eq(
        ext,
        "msixbundle",
    ) || str_eq(ext, "cab") || str_eq(ext, "cat") || str_eq(ext, "dll") || str_eq(ext, "exe")
        || str_eq(ext, "js") || str_eq(ext, "vbs") || str_eq(ext, "wsf") || str_eq(ext, "msi")
        || str_eq(ext, "msp") || str_eq(ext, "mst") || str_eq(ext, "ocx") || str_eq(ext, "ps1")
        || str_eq(ext, "stl") || str_eq(ext, "sys")
}

} // verus!
