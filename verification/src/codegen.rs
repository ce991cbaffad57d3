//! Path handling for the stub generator: which schema files are generated,
//! and under which names.

use vstd::prelude::*;
use vstd::string::StrSliceExecFns;

verus! {

/// What the generator is asked to do.
#[derive(Debug, Default)]
pub struct Args<'a> {
    /// Directory that receives the generated files.
    pub out_dir: &'a str,
    /// Directories in which schema files are looked up.
    pub includes: &'a [&'a str],
    /// The schema files to compile.
    pub input: &'a [&'a str],
    /// Whether the plain message types are generated along with the stubs.
    pub rust_protobuf: bool,
}

/// `/` and `\` both separate the components of a path.
pub open spec fn is_separator(c: char) -> bool {
    c == '/' || c == '\\'
}

/// A path without its leading `./` (or `.\`); the path `.` alone is the empty path.
pub open spec fn spec_remove_dot_slash(path: Seq<char>) -> Seq<char> {
    if path.len() == 1 && path[0] == '.' {
        Seq::empty()
    } else if path.len() >= 2 && path[0] == '.' && is_separator(path[1]) {
        path.subrange(2, path.len() as int)
    } else {
        path
    }
}

/// The directory named by an include path: without a leading `./` and
/// without one trailing separator.
pub open spec fn spec_include_stem(prefix: Seq<char>) -> Seq<char> {
    let p = spec_remove_dot_slash(prefix);
    if p.len() > 0 && is_separator(p.last()) {
        p.drop_last()
    } else {
        p
    }
}

/// `path` relative to the directory `prefix`, where it lies below it.
///
/// An empty prefix (or `.`) is the current directory, below which every path
/// lies. Otherwise the path has to continue with a separator after the
/// directory's name, and what follows that separator is the result.
pub open spec fn spec_remove_path_prefix(path: Seq<char>, prefix: Seq<char>) -> Option<Seq<char>> {
    let p = spec_remove_dot_slash(path);
    let stem = spec_include_stem(prefix);
    if spec_remove_dot_slash(prefix).len() == 0 {
        Some(p)
    } else if stem.is_prefix_of(p) && p.len() > stem.len() && is_separator(p[stem.len() as int]) {
        Some(p.subrange(stem.len() as int + 1, p.len() as int))
    } else {
        None
    }
}

/// The name under which `file` is generated: relative to the first of
/// `includes` below which it lies.
pub open spec fn spec_relative_to_includes(file: Seq<char>, includes: Seq<&str>) -> Option<
    Seq<char>,
>
    decreases includes.len(),
{
    if includes.len() == 0 {
        None
    } else {
        match spec_remove_path_prefix(file, includes[0]@) {
            Some(rest) => Some(rest),
            None => spec_relative_to_includes(file, includes.drop_first()),
        }
    }
}

/// The include directories that are searched: the current directory where
/// none is given.
pub open spec fn spec_effective_includes(includes: Seq<&str>) -> Seq<&str> {
    if includes.len() == 0 {
        seq!["."]
    } else {
        includes
    }
}

/// Failure to place an input file below any include directory.
#[derive(Debug, Clone, Copy, PartialEq, Eq)]
pub struct NotInIncludes {
    /// Position of the offending file in the input list.
    pub index: usize,
}

/// Strips a leading `./` or `.\` from `path`, and maps `.` to the empty path.
pub fn remove_dot_slash(path: &str) -> (stripped: &str)
    ensures
        stripped@ == spec_remove_dot_slash(path@),
{
    let len: usize = path.unicode_len();
    if len == 1 && path.get_char(0) == '.' {
        path.substring_char(0, 0)
    } else if len >= 2 && path.get_char(0) == '.' && (path.get_char(1) == '/' || path.get_char(1)
        == '\\') {
        path.substring_char(2, len)
    } else {
        path
    }
}

/// Makes `path` relative to the directory `prefix`; `None` where the path
/// does not lie below that directory.
pub fn remove_path_prefix<'a>(path: &'a str, prefix: &str) -> (rest: Option<&'a str>)
    ensures
        rest is Some <==> spec_remove_path_prefix(path@, prefix@) is Some,
        rest is Some ==> rest->0@ == spec_remove_path_prefix(path@, prefix@)->0,
{
    let p = remove_dot_slash(path);
    let q = remove_dot_slash(prefix);
    let q_len: usize = q.unicode_len();
    if q_len == 0 {
        return Some(p);
    }
    let last = q.get_char(q_len - 1);
    let stem_len: usize = if last == '/' || last == '\\' {
        q_len - 1
    } else {
        q_len
    };
    let ghost stem = spec_include_stem(prefix@);
    assert(stem == q@.subrange(0, stem_len as int)) by {
        assert(q@.subrange(0, q_len as int) == q@);
    }
    let p_len: usize = p.unicode_len();
    if p_len <= stem_len {
        return None;
    }
    let mut i: usize = 0;
    while i < stem_len
        invariant
            i <= stem_len < p_len,
            stem_len <= q_len,
            p_len == p@.len(),
            q_len == q@.len(),
            p@ == spec_remove_dot_slash(path@),
            q@ == spec_remove_dot_slash(prefix@),
            q_len > 0,
            stem == spec_include_stem(prefix@),
            stem == q@.subrange(0, stem_len as int),
            forall|k: int| 0 <= k < i ==> p@[k] == stem[k],
        decreases stem_len - i,
    {
        if p.get_char(i) != q.get_char(i) {
            assert(!stem.is_prefix_of(p@)) by {
                assert(p@.subrange(0, stem.len() as int)[i as int] != stem[i as int]);
            }
            return None;
        }
        i += 1;
    }
    assert(stem.is_prefix_of(p@)) by {
        assert(p@.subrange(0, stem.len() as int) == stem);
    }
    let next = p.get_char(stem_len);
    if next == '/' || next == '\\' {
        Some(p.substring_char(stem_len + 1, p_len))
    } else {
        None
    }
}

/// Looks `file` up below each of `includes` in turn.
fn relative_to_includes<'a>(file: &'a str, includes: &[&str]) -> (rest: Option<&'a str>)
    ensures
        rest is Some <==> spec_relative_to_includes(file@, includes@) is Some,
        rest is Some ==> rest->0@ == spec_relative_to_includes(file@, includes@)->0,
{
    let mut j: usize = 0;
    assert(includes@.subrange(0, includes@.len() as int) == includes@);
    while j < includes.len()
        invariant
            j <= includes.len(),
            spec_relative_to_includes(file@, includes@) == spec_relative_to_includes(
                file@,
                includes@.subrange(j as int, includes@.len() as int),
            ),
        decreases includes.len() - j,
    {
        let ghost tail = includes@.subrange(j as int, includes@.len() as int);
        assert(tail[0] == includes@[j as int]);
        assert(tail.drop_first() == includes@.subrange(j + 1, includes@.len() as int));
        match remove_path_prefix(file, includes[j]) {
            Some(rest) => {
                return Some(rest);
            },
            None => {},
        }
        j += 1;
    }
    None
}

/// The names under which the input files are generated, in input order.
///
/// Each file is named relative to the first include directory below which it
/// lies; with no include directory given, the current directory is searched.
/// The first file that lies below none of them is reported instead.
pub fn files_to_generate(input: &[&str], includes: &[&str]) -> (names: Result<
    Vec<String>,
    NotInIncludes,
>)
    ensures
        match names {
            Ok(found) => {
                &&& found@.len() == input@.len()
                &&& forall|k: int|
                    0 <= k < input@.len() ==> spec_relative_to_includes(
                        #[trigger] input@[k]@,
                        spec_effective_includes(includes@),
                    ) == Some(found@[k]@)
            },
            Err(e) => {
                &&& e.index < input@.len()
                &&& spec_relative_to_includes(
                    input@[e.index as int]@,
                    spec_effective_includes(includes@),
                ) is None
                &&& forall|k: int|
                    0 <= k < e.index ==> spec_relative_to_includes(
                        #[trigger] input@[k]@,
                        spec_effective_includes(includes@),
                    ) is Some
            },
        },
{
    let current_dir: Vec<&str> = vec!["."];
    let searched: &[&str] = if includes.len() == 0 {
        current_dir.as_slice()
    } else {
        includes
    };
    assert(searched@ == spec_effective_includes(includes@));
    let mut found: Vec<String> = Vec::new();
    let mut k: usize = 0;
    while k < input.len()
        invariant
            k <= input.len(),
            found@.len() == k,
            searched@ == spec_effective_includes(includes@),
            forall|n: int|
                0 <= n < k ==> spec_relative_to_includes(#[trigger] input@[n]@, searched@) == Some(
                    found@[n]@,
                ),
        decreases input.len() - k,
    {
        match relative_to_includes(input[k], searched) {
            Some(rest) => {
                found.push(rest.to_owned());
            },
            None => {
                return Err(NotInIncludes { index: k });
            },
        }
        k += 1;
    }
    Ok(found)
}

} // verus!
