//! Capabilities that control which frames flow.

use vstd::prelude::*;

use crate::channel::Channel;
use crate::error::PcanError;
use crate::frame::{EXTENDED_MASK, STANDARD_MASK};

verus! {

/// The channel reports its message filter state.
pub trait HasMessageFilter: Channel {}

/// The channel's message filter can be opened and closed.
pub trait HasSetMessageFilter: Channel {}

/// The channel reports whether it receives.
pub trait HasReceiveStatus: Channel {}

/// The channel's reception can be switched.
pub trait HasSetReceiveStatus: Channel {}

/// The channel reports whether it passes status frames.
pub trait HasAllowStatusFrames: Channel {}

/// Passing status frames can be switched.
pub trait HasSetAllowStatusFrames: Channel {}

/// The channel reports whether it passes remote frames.
pub trait HasAllowRTRFrames: Channel {}

/// Passing remote frames can be switched.
pub trait HasSetAllowRTRFrames: Channel {}

/// The channel reports whether it passes error frames.
pub trait HasAllowErrorFrames: Channel {}

/// Passing error frames can be switched.
pub trait HasSetAllowErrorFrames: Channel {}

/// The channel filters received frames by an 11-bit acceptance code and mask.
pub trait HasAcceptanceFilter11Bit: Channel {}

/// The channel filters received frames by a 29-bit acceptance code and mask.
pub trait HasAcceptanceFilter29Bit: Channel {}

/// The acceptance code of a filter for `ids`: the first identifier, or 0.
pub open spec fn filter_code(ids: Seq<u32>) -> u32 {
    if ids.len() == 0 {
        0
    } else {
        ids[0]
    }
}

/// The acceptance mask of a filter for `ids`: every bit on which some
/// identifier differs from the first. A set bit is one the filter ignores.
pub open spec fn filter_mask(ids: Seq<u32>) -> u32
    decreases ids.len(),
{
    if ids.len() <= 1 {
        0
    } else {
        filter_mask(ids.drop_last()) | (ids.last() ^ ids[0])
    }
}

/// The driver's 64-bit filter parameter: the code in the high half, the mask
/// in the low half.
pub open spec fn filter_value(ids: Seq<u32>) -> u64 {
    ((filter_code(ids) as u64) << 32u64) | (filter_mask(ids) as u64)
}

/// Whether a filter with this code and mask lets `id` through.
pub open spec fn filter_passes(code: u32, mask: u32, id: u32) -> bool {
    (id ^ code) & !mask == 0
}

/// The filter parameter for `ids`, each of which must fit in `width`.
fn acceptance_filter(ids: &[u32], width: u32) -> (r: Result<u64, PcanError>)
    ensures
        r is Err <==> exists|i: int| 0 <= i < ids@.len() && #[trigger] ids@[i] > width,
        r is Err ==> r == Err::<u64, PcanError>(PcanError::IllParamVal),
        r is Ok ==> r == Ok::<u64, PcanError>(filter_value(ids@)),
{
    let n = ids.len();
    if n == 0 {
        assert(((0u32 as u64) << 32u64) | (0u32 as u64) == 0) by (bit_vector);
        return Ok(0);
    }
    let code = ids[0];
    if code > width {
        return Err(PcanError::IllParamVal);
    }
    let mut mask: u32 = 0;
    let mut i: usize = 1;
    while i < n
        invariant
            1 <= i <= n,
            n == ids@.len(),
            code == ids@[0],
            mask == filter_mask(ids@.take(i as int)),
            forall|j: int| 0 <= j < i ==> ids@[j] <= width,
        decreases n - i,
    {
        if ids[i] > width {
            return Err(PcanError::IllParamVal);
        }
        proof {
            let t = ids@.take(i as int + 1);
            assert(t.drop_last() =~= ids@.take(i as int));
        }
        mask = mask | (ids[i] ^ code);
        i = i + 1;
    }
    assert(ids@.take(n as int) =~= ids@);
    Ok(((code as u64) << 32u64) | (mask as u64))
}

/// The filter parameter for a list of 11-bit identifiers: it lets each of
/// them through. An identifier wider than 11 bits is an invalid parameter
/// value.
pub fn acceptance_filter_11bit(ids: &[u32]) -> (r: Result<u64, PcanError>)
    ensures
        r is Err <==> exists|i: int| 0 <= i < ids@.len() && #[trigger] ids@[i] > STANDARD_MASK,
        r is Err ==> r == Err::<u64, PcanError>(PcanError::IllParamVal),
        r is Ok ==> r == Ok::<u64, PcanError>(filter_value(ids@)),
{
    acceptance_filter(ids, STANDARD_MASK)
}

/// The filter parameter for a list of 29-bit identifiers: it lets each of
/// them through. An identifier wider than 29 bits is an invalid parameter
/// value.
pub fn acceptance_filter_29bit(ids: &[u32]) -> (r: Result<u64, PcanError>)
    ensures
        r is Err <==> exists|i: int| 0 <= i < ids@.len() && #[trigger] ids@[i] > EXTENDED_MASK,
        r is Err ==> r == Err::<u64, PcanError>(PcanError::IllParamVal),
        r is Ok ==> r == Ok::<u64, PcanError>(filter_value(ids@)),
{
    acceptance_filter(ids, EXTENDED_MASK)
}

/// A filter built for a list of identifiers lets each of them through.
pub proof fn lemma_filter_passes_listed(ids: Seq<u32>, k: int)
    requires
        0 <= k < ids.len(),
    ensures
        filter_passes(filter_code(ids), filter_mask(ids), ids[k]),
    decreases ids.len(),
{
    let c = ids[0];
    let x = ids[k];
    let m = filter_mask(ids);
    if ids.len() <= 1 {
        assert(x == c);
        assert((c ^ c) & !0u32 == 0) by (bit_vector);
    } else {
        let p = ids.drop_last();
        let mp = filter_mask(p);
        let y = ids.last() ^ c;
        assert(m == mp | y);
        if k < ids.len() - 1 {
            lemma_filter_passes_listed(p, k);
            assert(p[0] == c && p[k] == x);
            assert((x ^ c) & !mp == 0 ==> (x ^ c) & !(mp | y) == 0) by (bit_vector);
        } else {
            assert(x == ids.last());
            assert((x ^ c) & !(mp | (x ^ c)) == 0) by (bit_vector);
        }
    }
}

} // verus!
