//! Deciding which files are sources for the linter.
//!
//! A path names a source file when its final component has the extension
//! `masm`, compared without regard to ASCII case.  The rules follow the
//! usual extension convention: the extension is what follows the last dot
//! of the final path component, and a name whose only dot is its first
//! character (a hidden file) has no extension.

use vstd::prelude::*;
use vstd::string::StrSliceExecFns;

verus! {

/// The index where the final path component of `s` begins: right after the
/// last `/`, or `0` when there is none.
pub open spec fn file_name_start(s: Seq<char>) -> int
    decreases s.len(),
{
    if s.len() == 0 {
        0
    } else if s.last() == '/' {
        s.len() as int
    } else {
        file_name_start(s.drop_last())
    }
}

/// The index of the last `.` in `s`, or `-1` when there is none.
pub open spec fn last_dot(s: Seq<char>) -> int
    decreases s.len(),
{
    if s.len() == 0 {
        -1
    } else if s.last() == '.' {
        s.len() - 1
    } else {
        last_dot(s.drop_last())
    }
}

/// ASCII-case-insensitive equality with `masm`.
pub open spec fn is_masm_ext(ext: Seq<char>) -> bool {
    &&& ext.len() == 4
    &&& (ext[0] == 'm' || ext[0] == 'M')
    &&& (ext[1] == 'a' || ext[1] == 'A')
    &&& (ext[2] == 's' || ext[2] == 'S')
    &&& (ext[3] == 'm' || ext[3] == 'M')
}

/// Whether the final component of the path `s` has extension `masm`,
/// compared without regard to ASCII case.
pub open spec fn spec_is_masm_file(s: Seq<char>) -> bool {
    let name = s.subrange(file_name_start(s), s.len() as int);
    let d = last_dot(name);
    d > 0 && is_masm_ext(name.subrange(d + 1, name.len() as int))
}

/// Returns true when the path resolves to a file name with the `masm`
/// extension (in any ASCII case).
pub fn is_masm_file(path: &str) -> (r: bool)
    ensures
        r == spec_is_masm_file(path@),
{
    let len = path.unicode_len();
    // The start of the final path component: right after the last '/'.
    let mut fstart: usize = 0;
    let mut i: usize = 0;
    while i < len
        invariant
            len == path@.len(),
            i <= len,
            fstart <= i,
            fstart == file_name_start(path@.take(i as int)),
        decreases len - i,
    {
        let c = path.get_char(i);
        proof {
            assert(path@.take(i as int + 1) =~= path@.take(i as int).push(path@[i as int]));
            assert(path@.take(i as int + 1).drop_last() =~= path@.take(i as int));
        }
        if c == '/' {
            fstart = i + 1;
        }
        i += 1;
    }
    proof {
        assert(path@.take(len as int) =~= path@);
    }
    let ghost name = path@.subrange(fstart as int, len as int);
    // The last '.' inside the final component, if any.
    let mut dot: usize = 0;
    let mut has_dot = false;
    let mut j: usize = fstart;
    while j < len
        invariant
            len == path@.len(),
            fstart <= j <= len,
            name == path@.subrange(fstart as int, len as int),
            has_dot ==> fstart <= dot < j,
            if has_dot {
                last_dot(name.take(j - fstart)) == dot - fstart
            } else {
                last_dot(name.take(j - fstart)) == -1
            },
        decreases len - j,
    {
        let c = path.get_char(j);
        proof {
            assert(name[j - fstart] == path@[j as int]);
            assert(name.take(j - fstart + 1) =~= name.take(j - fstart).push(name[j - fstart]));
            assert(name.take(j - fstart + 1).drop_last() =~= name.take(j - fstart));
        }
        if c == '.' {
            dot = j;
            has_dot = true;
        }
        j += 1;
    }
    proof {
        assert(name.take(len - fstart) =~= name);
    }
    if !has_dot || dot == fstart {
        return false;
    }
    // The extension is everything after the last dot; `masm` has 4 letters.
    if len - dot != 5 {
        return false;
    }
    let ghost ext = name.subrange(dot - fstart + 1, name.len() as int);
    proof {
        assert(ext.len() == 4);
        assert(forall|k: int| 0 <= k < 4 ==> ext[k] == path@[dot + 1 + k]);
    }
    let c0 = path.get_char(dot + 1);
    let c1 = path.get_char(dot + 2);
    let c2 = path.get_char(dot + 3);
    let c3 = path.get_char(dot + 4);
    let r = (c0 == 'm' || c0 == 'M') && (c1 == 'a' || c1 == 'A') && (c2 == 's' || c2 == 'S') && (c3
        == 'm' || c3 == 'M');
    proof {
        assert(r == is_masm_ext(ext));
    }
    r
}

} // verus!
