use vstd::prelude::*;

verus! {

/// What a stream that passes on only the successful items of a fallible
/// stream reports for an item the inner stream produced: `Some(Some(v))` for a
/// success `v`, `Some(None)` where the inner stream ended, and `None` (no item
/// yet, keep waiting) for a failure, which is dropped.
pub fn ok_or_pending<T, E>(item: Option<Result<T, E>>) -> (r: Option<Option<T>>)
    ensures
        match item {
            Some(Ok(v)) => r == Some(Some(v)),
            Some(Err(_)) => r is None,
            None => r == Some(Option::<T>::None),
        },
{
    match item {
        Some(Ok(v)) => Some(Some(v)),
        Some(Err(_)) => None,
        None => Some(None),
    }
}

} // verus!
