//! Track names: extracting a file name from a path, the `.mp3` extension
//! test used when scanning a folder, and the base-name identity that the
//! recently-played window stores.

use vstd::prelude::*;

verus! {

/// The file-name part of a `/`-separated path: the characters after the
/// last `/`, or the whole path when it holds none.
pub open spec fn spec_file_name(path: Seq<char>) -> Seq<char>
    decreases path.len(),
{
    if path.len() == 0 {
        path
    } else if path.last() == '/' {
        Seq::<char>::empty()
    } else {
        spec_file_name(path.drop_last()).push(path.last())
    }
}

/// Extracts the file-name part of a `/`-separated path.
pub fn file_name_of(path: &str) -> (r: String)
    ensures
        r@ == spec_file_name(path@),
    decreases path@.len(),
{
    let n = path.unicode_len();
    if n == 0 {
        String::new()
    } else {
        let last = path.get_char(n - 1);
        if last == '/' {
            String::new()
        } else {
            let mut r = file_name_of(path.substring_char(0, n - 1));
            r.append(path.substring_char(n - 1, n));
            proof {
                assert(path@.subrange(0, n - 1) =~= path@.drop_last());
                assert(r@ =~= spec_file_name(path@));
            }
            r
        }
    }
}

/// Whether a name ends with the four characters `.mp3`.
pub open spec fn spec_ends_with_mp3(name: Seq<char>) -> bool {
    &&& name.len() >= 4
    &&& name[name.len() - 4] == '.'
    &&& name[name.len() - 3] == 'm'
    &&& name[name.len() - 2] == 'p'
    &&& name[name.len() - 1] == '3'
}

/// Whether a file name carries the `mp3` extension: a non-empty stem
/// followed by `.mp3`.
pub open spec fn spec_is_mp3_name(name: Seq<char>) -> bool {
    name.len() > 4 && spec_ends_with_mp3(name)
}

fn ends_with_mp3(name: &str) -> (r: bool)
    ensures
        r == spec_ends_with_mp3(name@),
{
    let n = name.unicode_len();
    n >= 4 && name.get_char(n - 4) == '.' && name.get_char(n - 3) == 'm' && name.get_char(n - 2)
        == 'p' && name.get_char(n - 1) == '3'
}

/// Whether a `/`-separated path names a file with the `mp3` extension.
pub open spec fn spec_is_mp3_path(path: Seq<char>) -> bool {
    spec_is_mp3_name(spec_file_name(path))
}

/// Tests whether a path names a file with the `mp3` extension.
pub fn is_mp3_path(path: &str) -> (r: bool)
    ensures
        r == spec_is_mp3_path(path@),
{
    let name = file_name_of(path);
    let n = name.as_str().unicode_len();
    n > 4 && ends_with_mp3(name.as_str())
}

/// A track's identity: its file name with a trailing `.mp3` removed.
pub open spec fn spec_base_name(name: Seq<char>) -> Seq<char> {
    if spec_ends_with_mp3(name) {
        name.subrange(0, name.len() - 4)
    } else {
        name
    }
}

/// Strips a trailing `.mp3` from a file name, if one is there.
pub fn base_name_of(name: &str) -> (r: String)
    ensures
        r@ == spec_base_name(name@),
{
    let n = name.unicode_len();
    if ends_with_mp3(name) {
        let r = String::from_str(name.substring_char(0, n - 4));
        r
    } else {
        String::from_str(name)
    }
}

/// The identity of the track at a path: the base name of its file name.
pub open spec fn spec_identity(path: Seq<char>) -> Seq<char> {
    spec_base_name(spec_file_name(path))
}

/// Computes the identity of the track at a path.
pub fn identity_of(path: &str) -> (r: String)
    ensures
        r@ == spec_identity(path@),
{
    let name = file_name_of(path);
    base_name_of(name.as_str())
}

/// The sequence of character views of a sequence of strings.
pub open spec fn views_of(v: Seq<String>) -> Seq<Seq<char>> {
    v.map_values(|s: String| s@)
}

/// The paths among the given ones that name `mp3` files, in order.
pub open spec fn spec_filter_mp3(paths: Seq<Seq<char>>) -> Seq<Seq<char>>
    decreases paths.len(),
{
    if paths.len() == 0 {
        Seq::<Seq<char>>::empty()
    } else {
        let rest = spec_filter_mp3(paths.drop_last());
        if spec_is_mp3_path(paths.last()) {
            rest.push(paths.last())
        } else {
            rest
        }
    }
}

/// Keeps only the paths that name `mp3` files, preserving their order.
pub fn filter_mp3_paths(paths: Vec<String>) -> (r: Vec<String>)
    ensures
        views_of(r@) == spec_filter_mp3(views_of(paths@)),
{
    let mut r: Vec<String> = Vec::new();
    let mut i: usize = 0;
    proof {
        assert(views_of(paths@).subrange(0, 0) =~= Seq::<Seq<char>>::empty());
        assert(views_of(r@) =~= Seq::<Seq<char>>::empty());
    }
    while i < paths.len()
        invariant
            i <= paths.len(),
            views_of(r@) == spec_filter_mp3(views_of(paths@).subrange(0, i as int)),
        decreases paths.len() - i,
    {
        let ghost prefix = views_of(paths@).subrange(0, i as int);
        let ghost next_prefix = views_of(paths@).subrange(0, i + 1);
        proof {
            assert(next_prefix.drop_last() =~= prefix);
            assert(next_prefix.last() == paths@[i as int]@);
        }
        if is_mp3_path(paths[i].as_str()) {
            let p = paths[i].clone();
            r.push(p);
            proof {
                assert(views_of(r@) =~= spec_filter_mp3(next_prefix));
            }
        } else {
            proof {
                assert(views_of(r@) =~= spec_filter_mp3(next_prefix));
            }
        }
        i = i + 1;
    }
    proof {
        assert(views_of(paths@).subrange(0, paths@.len() as int) =~= views_of(paths@));
    }
    r
}

} // verus!
