//! The output-path convention: computable from the source path and the
//! direction alone, with no I/O. Encryption keeps the source path unchanged
//! (the output overwrites the source in place); decryption strips one
//! trailing ".encrypted" if the path carries it, and otherwise keeps the
//! path unchanged — again an in-place overwrite.

use vstd::prelude::*;
use vstd::string::StrSliceExecFns;
use crate::job::Direction;

verus! {

/// The fixed suffix that marks an encrypted output file.
pub open spec fn encrypted_suffix() -> Seq<char> {
    ".encrypted"@
}

/// Whether the path ends in the encrypted-file suffix.
pub open spec fn ends_with_suffix(path: Seq<char>) -> bool {
    &&& path.len() >= encrypted_suffix().len()
    &&& path.subrange(path.len() - encrypted_suffix().len(), path.len() as int)
        == encrypted_suffix()
}

/// The output path of one job: encryption keeps the source path; decryption
/// strips one trailing ".encrypted" if present, else keeps the path.
pub open spec fn spec_output_path(path: Seq<char>, direction: Direction) -> Seq<char> {
    match direction {
        Direction::Encrypt => path,
        Direction::Decrypt => if ends_with_suffix(path) {
            path.subrange(0, path.len() - encrypted_suffix().len())
        } else {
            path
        },
    }
}

/// Whether the path ends in ".encrypted".
pub fn has_encrypted_suffix(path: &str) -> (r: bool)
    ensures
        r == ends_with_suffix(path@),
{
    proof {
        reveal_strlit(".encrypted");
    }
    let suffix = ".encrypted";
    let suffix_len = suffix.unicode_len();
    let n = path.unicode_len();
    if n < suffix_len {
        return false;
    }
    let start = n - suffix_len;
    let mut i: usize = 0;
    while i < suffix_len
        invariant
            suffix@ == ".encrypted"@,
            suffix_len == suffix@.len(),
            n == path@.len(),
            n >= suffix_len,
            start == n - suffix_len,
            i <= suffix_len,
            forall|j: int| 0 <= j < i ==> path@[start + j] == suffix@[j],
        decreases suffix_len - i,
    {
        if path.get_char(start + i) != suffix.get_char(i) {
            proof {
                assert(path@.subrange(start as int, n as int)[i as int] == path@[start + i]);
            }
            return false;
        }
        i = i + 1;
    }
    proof {
        assert(path@.subrange(start as int, n as int) =~= suffix@);
    }
    true
}

/// Computes the output path for a source path and a direction, purely from
/// the two: no I/O, and total over every path.
pub fn output_path(path: &str, direction: Direction) -> (r: String)
    ensures
        r@ == spec_output_path(path@, direction),
{
    match direction {
        Direction::Encrypt => path.to_owned(),
        Direction::Decrypt => {
            if has_encrypted_suffix(path) {
                proof {
                    reveal_strlit(".encrypted");
                }
                let suffix_len = ".encrypted".unicode_len();
                let n = path.unicode_len();
                let stripped = path.substring_char(0, n - suffix_len);
                stripped.to_owned()
            } else {
                path.to_owned()
            }
        },
    }
}

} // verus!
