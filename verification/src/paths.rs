//! The default output path.
//!
//! When no output option is given, the tool writes next to where it
//! runs, under the input's file name with `_blurred` spliced in before
//! the extension: `photo.png` becomes `photo_blurred.png`. The file
//! name is what follows the last `/` of the input path (the directory
//! part is not kept); the extension is what follows the last `.` of
//! that name, provided the `.` is not its first character. A name
//! without such an extension, or the bare `..`, gives no default: the
//! caller must then fail, since no sensible output path exists.

use vstd::prelude::*;
use vstd::string::StrSliceExecFns;
use vstd::string::StringExecFns;

verus! {

/// The last position of `c` in `s`, or `-1` if `c` does not occur.
pub open spec fn last_index_of(s: Seq<char>, c: char) -> int
    decreases s.len(),
{
    if s.len() == 0 {
        -1
    } else if s[s.len() - 1] == c {
        s.len() - 1
    } else {
        last_index_of(s.drop_last(), c)
    }
}

/// `last_index_of` lies in range, points at `c`, and nothing after it
/// is `c`.
pub proof fn lemma_last_index_of(s: Seq<char>, c: char)
    ensures
        -1 <= last_index_of(s, c) < s.len(),
        last_index_of(s, c) >= 0 ==> s[last_index_of(s, c)] == c,
        forall|k: int| last_index_of(s, c) < k < s.len() ==> s[k] != c,
    decreases s.len(),
{
    if s.len() > 0 && s[s.len() - 1] != c {
        lemma_last_index_of(s.drop_last(), c);
        assert forall|k: int| last_index_of(s, c) < k < s.len() implies s[k] != c by {
            if k < s.len() - 1 {
                assert(s.drop_last()[k] == s[k]);
            }
        }
    }
}

/// The file-name part of a path: everything after the last `/`.
pub open spec fn spec_file_name(s: Seq<char>) -> Seq<char> {
    s.subrange(last_index_of(s, '/') + 1, s.len() as int)
}

/// The name is the parent-directory marker `..`.
pub open spec fn is_dot_dot(name: Seq<char>) -> bool {
    name.len() == 2 && name[0] == '.' && name[1] == '.'
}

/// The default output for an input path: the file name's stem, then
/// `_blurred.`, then its extension; or nothing when the name has no
/// extension (no `.` past its first character) or is `..`.
pub open spec fn spec_default_output(input: Seq<char>) -> Option<Seq<char>> {
    let name = spec_file_name(input);
    let d = last_index_of(name, '.');
    if d > 0 && !is_dot_dot(name) {
        Some(name.subrange(0, d) + "_blurred."@ + name.subrange(d + 1, name.len() as int))
    } else {
        None
    }
}

/// Finds the last position of `c` in `s`.
fn rfind_char(s: &str, c: char) -> (r: Option<usize>)
    ensures
        match r {
            Some(i) => i as int == last_index_of(s@, c) && (i as int) < s@.len(),
            None => last_index_of(s@, c) == -1,
        },
{
    let n = s.unicode_len();
    assert(s@.subrange(0, n as int) =~= s@);
    let mut j: usize = n;
    while j > 0
        invariant
            j <= n,
            n as int == s@.len(),
            last_index_of(s@, c) == last_index_of(s@.subrange(0, j as int), c),
        decreases j,
    {
        let ch = s.get_char(j - 1);
        proof {
            let pre = s@.subrange(0, j as int);
            assert(pre[j - 1] == s@[j - 1]);
            if ch != c {
                assert(pre.drop_last() =~= s@.subrange(0, j - 1));
            }
        }
        if ch == c {
            proof {
                let pre = s@.subrange(0, j as int);
                assert(pre.len() == j);
                assert(pre[pre.len() - 1] == c);
                assert(last_index_of(pre, c) == j - 1);
            }
            return Some(j - 1);
        }
        j = j - 1;
    }
    assert(s@.subrange(0, 0) =~= Seq::<char>::empty());
    None
}

/// Computes the default output path for an input path, or `None` when
/// the input's file name gives no usable stem and extension.
pub fn default_output(input: &str) -> (r: Option<String>)
    ensures
        match r {
            Some(out) => spec_default_output(input@) == Some(out@),
            None => spec_default_output(input@) is None,
        },
{
    let n = input.unicode_len();
    proof {
        lemma_last_index_of(input@, '/');
    }
    let start: usize = match rfind_char(input, '/') {
        Some(i) => i + 1,
        None => 0,
    };
    let name = input.substring_char(start, n);
    assert(name@ == spec_file_name(input@));
    let m = name.unicode_len();
    if let Some(d) = rfind_char(name, '.') {
        if d > 0 {
            let dot_dot = m == 2 && name.get_char(0) == '.' && name.get_char(1) == '.';
            if !dot_dot {
                let mut out = String::new();
                out.append(name.substring_char(0, d));
                out.append("_blurred.");
                out.append(name.substring_char(d + 1, m));
                proof {
                    let nm = name@;
                    let dd = d as int;
                    assert(out@ =~= nm.subrange(0, dd) + "_blurred."@ + nm.subrange(
                        dd + 1,
                        nm.len() as int,
                    ));
                }
                return Some(out);
            }
        }
    }
    None
}

} // verus!
