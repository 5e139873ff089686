//! Which files of the signing-metadata directory hold a certificate.

use vstd::prelude::*;
use vstd::slice::slice_subrange;
use vstd::string::StringSliceAdditionalSpecFns;
use crate::text::bytes_equal;

verus! {

/// The byte `.`.
pub const DOT: u8 = 0x2e;

/// The last dot of `name` stands at index `i`.
pub open spec fn last_dot_at(name: Seq<u8>, i: int) -> bool {
    &&& 0 <= i < name.len()
    &&& name[i] == DOT
    &&& forall|j: int| i < j < name.len() ==> name[j] != DOT
}

/// The extension of the file name `name`: what follows its last dot. A name
/// without a dot has none, nor has one whose only dot is its first byte.
pub open spec fn extension(name: Seq<u8>) -> Option<Seq<u8>> {
    if exists|i: int| 0 < i && last_dot_at(name, i) {
        Some(name.skip((choose|i: int| 0 < i && last_dot_at(name, i)) + 1))
    } else {
        None
    }
}

/// A file of the name `name` holds a certificate: its extension is `RSA` or
/// `DSA`, in capitals.
pub open spec fn is_certificate_name(name: Seq<u8>) -> bool {
    ||| extension(name) == Some("RSA".spec_bytes())
    ||| extension(name) == Some("DSA".spec_bytes())
}

/// A name has one last dot at most.
pub proof fn lemma_last_dot_unique(name: Seq<u8>, i: int, j: int)
    requires
        last_dot_at(name, i),
        last_dot_at(name, j),
    ensures
        i == j,
{
}

/// Gives the extension of the file name `name`.
pub fn file_extension(name: &[u8]) -> (ext: Option<&[u8]>)
    ensures
        match ext {
            Some(bytes) => extension(name@) == Some(bytes@),
            None => extension(name@).is_none(),
        },
{
    let mut k: usize = name.len();
    while k > 0
        invariant
            k <= name@.len(),
            forall|j: int| k <= j < name@.len() ==> name@[j] != DOT,
        decreases k,
    {
        k -= 1;
        if name[k] == DOT {
            if k == 0 {
                return None;
            }
            let rest = slice_subrange(name, k + 1, name.len());
            proof {
                let c = choose|i: int| 0 < i && last_dot_at(name@, i);
                assert(last_dot_at(name@, k as int));
                lemma_last_dot_unique(name@, c, k as int);
            }
            return Some(rest);
        }
    }
    None
}

/// Tells whether a file of the name `name` holds a certificate.
pub fn is_certificate_file(name: &[u8]) -> (is_cert: bool)
    ensures
        is_cert == is_certificate_name(name@),
{
    match file_extension(name) {
        Some(ext) => bytes_equal(ext, "RSA".as_bytes()) || bytes_equal(ext, "DSA".as_bytes()),
        None => false,
    }
}

} // verus!
