//! Ring construction: canonical decoding of raw key encodings with an
//! explicit policy for entries that fail to decode.

use vstd::prelude::*;
use crate::Error;
use crate::backend;
use crate::backend::{key_decodes, views};

verus! {

/// What to do with a ring entry that is not a valid key encoding.
#[derive(Clone, Copy, Debug, PartialEq, Eq, Structural)]
pub enum Policy {
    /// Substitute the fixed padding point and continue.
    Pad,
    /// Abort: every entry must be a valid key.
    Strict,
}

/// The canonical 32-byte encoding of the fixed padding point.
pub open spec fn padding_key_spec() -> Seq<u8> {
    seq![
        138u8, 173u8, 133u8, 21u8, 21u8, 245u8, 89u8, 63u8,
        24u8, 230u8, 63u8, 2u8, 26u8, 134u8, 177u8, 46u8,
        89u8, 199u8, 100u8, 63u8, 179u8, 104u8, 168u8, 44u8,
        38u8, 219u8, 215u8, 1u8, 154u8, 254u8, 23u8, 176u8,
    ]
}

/// Every entry is exactly 32 bytes.
pub open spec fn well_sized(keys: Seq<Seq<u8>>) -> bool {
    forall|i: int| 0 <= i < keys.len() ==> (#[trigger] keys[i]).len() == 32
}

/// Every entry decodes to a valid key: what the strict policy demands.
pub open spec fn strict_ok(keys: Seq<Seq<u8>>) -> bool {
    forall|i: int| 0 <= i < keys.len() ==> key_decodes(#[trigger] keys[i])
}

/// The ring after padding substitution: entries that decode are kept,
/// the rest are replaced by the fixed padding key.
pub open spec fn pad_ring(keys: Seq<Seq<u8>>) -> Seq<Seq<u8>> {
    keys.map_values(|k: Seq<u8>| if key_decodes(k) { k } else { padding_key_spec() })
}

/// Copies a byte vector.
fn copy_bytes(v: &Vec<u8>) -> (r: Vec<u8>)
    ensures
        r@ == v@,
{
    let mut r: Vec<u8> = Vec::new();
    let mut i: usize = 0;
    while i < v.len()
        invariant
            i <= v@.len(),
            r@ == v@.subrange(0, i as int),
        decreases v@.len() - i,
    {
        r.push(v[i]);
        i = i + 1;
        proof {
            assert(r@ =~= v@.subrange(0, i as int));
        }
    }
    proof {
        assert(r@ =~= v@);
    }
    r
}

/// Converts a sequence of raw 32-byte key encodings into ring entries,
/// position by position. Under the padding policy an entry that fails to
/// decode is replaced by the fixed padding key; under the strict policy it
/// aborts the construction. Entries that are not exactly 32 bytes are
/// rejected under both policies, before any decoding.
pub fn build_ring(keys: &Vec<Vec<u8>>, policy: Policy) -> (r: Result<Vec<Vec<u8>>, Error>)
    ensures
        r.is_ok() <==> well_sized(views(keys@)) && (policy == Policy::Strict ==> strict_ok(
            views(keys@),
        )),
        r matches Ok(ring) ==> views(ring@) == pad_ring(views(keys@)) && ring@.len()
            == keys@.len() && strict_ok(views(ring@)) && well_sized(views(ring@)),
        r matches Err(e) ==> e == (if well_sized(views(keys@)) {
            Error::DecodeFailure
        } else {
            Error::InvalidInput
        }),
{
    let n = keys.len();
    let mut i: usize = 0;
    while i < n
        invariant
            n == keys@.len(),
            i <= n,
            forall|j: int| 0 <= j < i ==> (#[trigger] views(keys@)[j]).len() == 32,
        decreases n - i,
    {
        if keys[i].len() != 32 {
            proof {
                assert(views(keys@)[i as int] == keys@[i as int]@);
                assert(!well_sized(views(keys@)));
            }
            return Err(Error::InvalidInput);
        }
        proof {
            assert(views(keys@)[i as int] == keys@[i as int]@);
        }
        i = i + 1;
    }
    assert(well_sized(views(keys@)));
    let mut ring: Vec<Vec<u8>> = Vec::new();
    let mut i: usize = 0;
    while i < n
        invariant
            n == keys@.len(),
            i <= n,
            well_sized(views(keys@)),
            policy == Policy::Strict ==> forall|j: int| 0 <= j < i ==> key_decodes(
                #[trigger] views(keys@)[j],
            ),
            ring@.len() == i,
            forall|j: int| 0 <= j < i ==> #[trigger] views(ring@)[j] == pad_ring(views(keys@))[j],
            forall|j: int| 0 <= j < i ==> key_decodes(#[trigger] views(ring@)[j]),
            forall|j: int| 0 <= j < i ==> (#[trigger] views(ring@)[j]).len() == 32,
        decreases n - i,
    {
        let ghost prior = ring@;
        if backend::key_decodes_check(keys[i].as_slice()) {
            let entry = copy_bytes(&keys[i]);
            proof {
                assert(entry@ == views(keys@)[i as int]);
                assert(pad_ring(views(keys@))[i as int] == views(keys@)[i as int]);
            }
            ring.push(entry);
        } else {
            proof {
                assert(views(keys@)[i as int] == keys@[i as int]@);
                assert(!key_decodes(views(keys@)[i as int]));
            }
            match policy {
                Policy::Strict => {
                    proof {
                        assert(!strict_ok(views(keys@)));
                    }
                    return Err(Error::DecodeFailure);
                },
                Policy::Pad => {
                    let pad = backend::padding_point_key();
                    proof {
                        assert(pad@.len() == 32);
                        assert(pad_ring(views(keys@))[i as int] == padding_key_spec());
                    }
                    ring.push(pad);
                },
            }
        }
        i = i + 1;
        proof {
            assert(ring@.len() == i);
            assert(ring@ == prior.push(ring@[i - 1]));
            assert forall|j: int| 0 <= j < i implies #[trigger] views(ring@)[j] == pad_ring(
                views(keys@),
            )[j] && key_decodes(views(ring@)[j]) && views(ring@)[j].len() == 32 by {
                assert(views(ring@)[j] == ring@[j]@);
                if j < i - 1 {
                    assert(views(prior)[j] == prior[j]@);
                    assert(ring@[j] == prior[j]);
                }
            }
        }
    }
    proof {
        assert(views(ring@) =~= pad_ring(views(keys@)));
    }
    Ok(ring)
}

} // verus!
