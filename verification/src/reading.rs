use vstd::prelude::*;

verus! {

/// The outcome of one non-blocking read: a value, a "not ready yet, try
/// again" signal, or a failure surfaced from the underlying hardware.
///
/// `WouldBlock` is not an error: it is the expected transient answer
/// while a single-shot conversion is still running, and the caller is
/// the retry driver.
#[derive(Debug, Clone, Copy, PartialEq, Eq)]
pub enum ReadResult<T, E> {
    Ready(T),
    WouldBlock,
    Failed(E),
}

} // verus!
