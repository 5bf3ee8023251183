//! Declarations of the outside types that a call result carries, and the
//! facts relied on about them.

use vstd::prelude::*;

verus! {

/// A fixed-size byte array of `alloy_primitives` (a 32-byte block hash is one).
#[verifier::external_type_specification]
#[verifier::external_body]
pub struct ExFixedBytes<const N: usize>(alloy_primitives::FixedBytes<N>);

/// A growable byte buffer of `alloy_primitives` (return data of a call).
#[verifier::external_type_specification]
#[verifier::external_body]
pub struct ExBytes(alloy_primitives::Bytes);

/// An RPC log of `alloy_rpc_types_eth`, carried through unread.
#[verifier::external_type_specification]
#[verifier::external_body]
#[verifier::reject_recursive_types(T)]
pub struct ExLog<T>(alloy_rpc_types_eth::Log<T>);

/// The payload of a log (topics and data) of `alloy_primitives`, carried
/// through unread.
#[verifier::external_type_specification]
#[verifier::external_body]
pub struct ExLogData(alloy_primitives::LogData);

/// Relies on the derived `Clone` of `alloy_primitives::FixedBytes`, a `Copy`
/// type: the copy is the same value.
pub assume_specification<const N: usize>[ <alloy_primitives::FixedBytes<N> as Clone>::clone ](
    b: &alloy_primitives::FixedBytes<N>,
) -> (r: alloy_primitives::FixedBytes<N>)
    ensures
        r == *b,
;

/// Relies on the derived `Clone` of `alloy_primitives::Bytes`; nothing is
/// claimed of the result.
pub assume_specification[ <alloy_primitives::Bytes as Clone>::clone ](
    b: &alloy_primitives::Bytes,
) -> alloy_primitives::Bytes;

/// Relies on the derived `Clone` of `alloy_rpc_types_eth::Log`; nothing is
/// claimed of the result.
pub assume_specification<T: Clone>[ <alloy_rpc_types_eth::Log<T> as Clone>::clone ](
    l: &alloy_rpc_types_eth::Log<T>,
) -> alloy_rpc_types_eth::Log<T>;

/// The bytes that a buffer holds.
pub uninterp spec fn bytes_content(b: alloy_primitives::Bytes) -> Seq<u8>;

/// Relies on `alloy_primitives::Bytes::new`: it wraps `bytes::Bytes::new()`,
/// an empty buffer.
pub assume_specification[ alloy_primitives::Bytes::new ]() -> (r: alloy_primitives::Bytes)
    ensures
        bytes_content(r) == Seq::<u8>::empty(),
;

} // verus!
