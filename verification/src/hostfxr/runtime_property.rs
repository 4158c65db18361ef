//! The decisions taken while reading the runtime properties of a host context.

use vstd::prelude::*;

use crate::error::hosting_result::{HostingError, HostingResult};

verus! {

/// Decides what follows the first call of `hostfxr_get_runtime_properties`, which only asks for
/// the number of properties: a success or [`HostingError::HostApiBufferTooSmall`] (expected, as
/// no buffer was given) lets the properties be read, any other error is the outcome.
pub fn property_count_result(code: i32) -> (r: Result<(), HostingError>)
    ensures
        r == (match HostingResult::spec_from_status_code(code as u32).0 {
            Ok(_) => Ok(()),
            Err(HostingError::HostApiBufferTooSmall) => Ok(()),
            Err(error) => Err(error),
        }),
{
    match HostingResult::from(code).into_result() {
        Ok(_) | Err(HostingError::HostApiBufferTooSmall) => Ok(()),
        Err(e) => Err(e),
    }
}


/// Decides what follows the second call of `hostfxr_get_runtime_properties`, made with buffers
/// of `capacity` entries: an error is the outcome; on success the number of properties read is
/// the `count` that the call reported, never more than the buffers hold.
pub fn properties_read_len(code: i32, count: usize, capacity: usize) -> (r: Result<usize, HostingError>)
    ensures
        r == (match HostingResult::spec_from_status_code(code as u32).0 {
            Ok(_) => Ok(if count <= capacity { count } else { capacity }),
            Err(error) => Err(error),
        }),
{
    match HostingResult::from(code).into_result() {
        Ok(_) => Ok(if count <= capacity { count } else { capacity }),
        Err(error) => Err(error),
    }
}

/// Pairs each property key with the value at the same position; the pairs stop where the shorter
/// of the two lists ends.
pub fn pair_properties<K: Copy, V: Copy>(keys: &[K], values: &[V]) -> (r: Vec<(K, V)>)
    ensures
        r@.len() == (if keys@.len() <= values@.len() { keys@.len() } else { values@.len() }),
        forall|i: int| 0 <= i < r@.len() ==> #[trigger] r@[i] == (keys@[i], values@[i]),
{
    let n: usize = if keys.len() <= values.len() { keys.len() } else { values.len() };
    let mut pairs: Vec<(K, V)> = Vec::new();
    let mut i: usize = 0;
    while i < n
        invariant
            i <= n,
            n == (if keys@.len() <= values@.len() { keys@.len() } else { values@.len() }),
            pairs@.len() == i,
            forall|j: int| 0 <= j < i ==> #[trigger] pairs@[j] == (keys@[j], values@[j]),
        decreases n - i,
    {
        pairs.push((keys[i], values[i]));
        i = i + 1;
    }
    pairs
}

} // verus!
