use vstd::prelude::*;
use vstd::string::StringSliceAdditionalSpecFns;
use vstd::utf8::{encode_utf8, is_char_boundary, valid_utf8};

verus! {

/// The bytes of the local-file scheme marker `file://`.
pub open spec fn file_scheme() -> Seq<u8> {
    seq![102u8, 105u8, 108u8, 101u8, 58u8, 47u8, 47u8]
}

/// Whether a path's bytes begin with the local-file scheme marker.
pub open spec fn has_file_scheme(bytes: Seq<u8>) -> bool {
    bytes.len() >= 7 && bytes.take(7) == file_scheme()
}

proof fn lemma_ascii_prefix_is_boundary(bytes: Seq<u8>, k: int)
    requires
        valid_utf8(bytes),
        0 <= k <= bytes.len(),
        forall|i: int| 0 <= i < k ==> bytes[i] < 0x80,
    ensures
        is_char_boundary(bytes, k),
    decreases k,
{
    if k > 0 {
        let rest = bytes.subrange(1, bytes.len() as int);
        assert(vstd::utf8::length_of_first_scalar(bytes) == 1);
        assert(vstd::utf8::pop_first_scalar(bytes) == rest);
        assert forall|i: int| 0 <= i < k - 1 implies rest[i] < 0x80 by {
            assert(rest[i] == bytes[i + 1]);
        }
        lemma_ascii_prefix_is_boundary(rest, k - 1);
    }
}

/// Strips the local-file scheme marker `file://` from the front of a path;
/// any other path is returned as it is.
pub fn normalize_path(path: &str) -> (r: String)
    ensures
        has_file_scheme(path.spec_bytes()) ==> encode_utf8(r@) == path.spec_bytes().subrange(
            7,
            path.spec_bytes().len() as int,
        ),
        !has_file_scheme(path.spec_bytes()) ==> r@ == path@,
{
    let b = path.as_bytes();
    let marked = b.len() >= 7 && b[0] == 102u8 && b[1] == 105u8 && b[2] == 108u8 && b[3] == 101u8
        && b[4] == 58u8 && b[5] == 47u8 && b[6] == 47u8;
    proof {
        if marked {
            assert(b@.take(7) =~= file_scheme());
        } else if b@.len() >= 7 {
            assert(b@.take(7) != file_scheme()) by {
                if b@.take(7) == file_scheme() {
                    assert(b@[0] == b@.take(7)[0]);
                    assert(b@[1] == b@.take(7)[1]);
                    assert(b@[2] == b@.take(7)[2]);
                    assert(b@[3] == b@.take(7)[3]);
                    assert(b@[4] == b@.take(7)[4]);
                    assert(b@[5] == b@.take(7)[5]);
                    assert(b@[6] == b@.take(7)[6]);
                }
            }
        }
    }
    if marked {
        proof {
            vstd::utf8::encode_utf8_valid_utf8(path@);
            lemma_ascii_prefix_is_boundary(path.spec_bytes(), 7);
        }
        let (_, rest) = path.split_at(7);
        rest.to_owned()
    } else {
        path.to_owned()
    }
}

} // verus!
