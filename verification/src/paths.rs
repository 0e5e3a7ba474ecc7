//! Rewriting of input paths for transparent gzip decompression.
//!
//! A raster whose filename ends in `.gz` is opened through the raster
//! library's virtual gzip filesystem: the path is prefixed with `/vsigzip/`.
//! Any other path is passed through unchanged.

use vstd::prelude::*;

verus! {

/// Whether the path's last three characters are `.gz`.
pub open spec fn ends_in_gz(p: Seq<char>) -> bool {
    p.len() >= 3 && p.subrange(p.len() - 3, p.len() as int) == ".gz"@
}

/// The path handed to the raster library: prefixed with `/vsigzip/` when the
/// input names a gzip-compressed file, unchanged otherwise.
pub open spec fn open_path_spec(p: Seq<char>) -> Seq<char> {
    if ends_in_gz(p) {
        "/vsigzip/"@ + p
    } else {
        p
    }
}

/// Rewrites a raster path for opening, wrapping gzip-compressed files in the
/// transparent-decompression prefix.
pub fn open_path(path: &str) -> (r: String)
    ensures
        r@ == open_path_spec(path@),
{
    proof {
        reveal_strlit(".gz");
        reveal_strlit("/vsigzip/");
    }
    let n = path.unicode_len();
    let gz = n >= 3 && path.get_char(n - 3) == '.' && path.get_char(n - 2) == 'g' && path.get_char(
        n - 1,
    ) == 'z';
    proof {
        if n >= 3 {
            assert(gz ==> path@.subrange(n - 3, n as int) =~= ".gz"@);
            assert(ends_in_gz(path@) ==> path@.subrange(n - 3, n as int) == ".gz"@);
            assert(ends_in_gz(path@) ==> path@[n - 3] == '.' && path@[n - 2] == 'g' && path@[n - 1]
                == 'z') by {
                if ends_in_gz(path@) {
                    assert(path@.subrange(n - 3, n as int)[0] == path@[n - 3]);
                    assert(path@.subrange(n - 3, n as int)[1] == path@[n - 2]);
                    assert(path@.subrange(n - 3, n as int)[2] == path@[n - 1]);
                }
            }
        }
        assert(gz == ends_in_gz(path@));
    }
    if gz {
        let prefixed = String::from_str("/vsigzip/").concat(path);
        prefixed
    } else {
        String::from_str(path)
    }
}

} // verus!
