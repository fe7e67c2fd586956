//! A bounded buffer of genes, kept in an `ArrayVec` of the `arrayvec` crate.
//!
//! Nothing in this module is proved. Verus cannot look inside an
//! `ArrayVec`, so the genes that a buffer holds are given a name,
//! [`buffered`], and each function below states over that name what the
//! method it calls does, as the source of `arrayvec` shows it.

use crate::gene::Gene;
use arrayvec::ArrayVec;
use vstd::prelude::*;

verus! {

/// Makes the type `arrayvec::ArrayVec` known to Verus, as an opaque type.
#[verifier::external_type_specification]
#[verifier::external_body]
#[verifier::reject_recursive_types(T)]
pub struct ExArrayVec<T, const CAP: usize>(ArrayVec<T, CAP>);

/// The genes that the buffer holds, oldest first.
pub uninterp spec fn buffered(buffer: ArrayVec<Gene, 8>) -> Seq<Gene>;

/// An empty buffer with room for eight genes (`ArrayVec::new`).
///
/// Trusted: the new buffer holds nothing.
#[verifier::external_body]
pub(crate) fn buffer_new() -> (buffer: ArrayVec<Gene, 8>)
    ensures
        buffered(buffer) == Seq::<Gene>::empty(),
{
    ArrayVec::new()
}

/// Adds `gene` at the end of the buffer (`ArrayVec::push`).
///
/// Trusted: the buffer afterwards holds what it held, followed by `gene`.
/// `push` panics on a full buffer, so the buffer must hold fewer than eight
/// genes.
#[verifier::external_body]
pub(crate) fn buffer_push(buffer: &mut ArrayVec<Gene, 8>, gene: Gene)
    requires
        buffered(*old(buffer)).len() < 8,
    ensures
        buffered(*final(buffer)) == buffered(*old(buffer)).push(gene),
{
    buffer.push(gene)
}

/// Turns the buffer into an array (`ArrayVec::into_inner`).
///
/// Trusted: a buffer that holds eight genes, which is all it has room for,
/// comes back as the array of those genes, in order; a buffer that holds
/// fewer comes back unchanged as the error.
#[verifier::external_body]
pub(crate) fn buffer_into_inner(buffer: ArrayVec<Gene, 8>) -> (result: Result<
    [Gene; 8],
    ArrayVec<Gene, 8>,
>)
    ensures
        match result {
            Ok(genes) => buffered(buffer).len() == 8 && genes@ == buffered(buffer),
            Err(rest) => buffered(buffer).len() < 8 && buffered(rest) == buffered(buffer),
        },
{
    buffer.into_inner()
}

} // verus!
