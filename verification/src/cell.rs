//! The heap cell behind a token, and everything that is taken on trust about the allocator.
//!
//! A cell is a pinned, boxed byte. The verifier sees nothing inside it; what the rest of the
//! crate knows of a cell is its address, and that comes from the three functions below.

use crate::token::UniqueId;
use vstd::prelude::*;

verus! {

/// `std::pin::Pin`, declared so that a pinned box can be held in a field and handed about.
/// Its contents stay hidden from the verifier: two pinned boxes are not taken to be equal
/// because the bytes in them are.
#[verifier::external_type_specification]
#[verifier::external_body]
#[verifier::reject_recursive_types(Ptr)]
pub struct ExPin<Ptr>(std::pin::Pin<Ptr>);

/// The address at which a cell's byte lies.
///
/// A box keeps its heap block from the moment it is made until it is dropped, and moving the
/// box moves only the pointer to the block. So the address belongs to the cell itself, and
/// reading it twice from one cell gives the same number. It is not a function of the byte in
/// the cell, and nothing is said about which number it is.
pub uninterp spec fn cell_address(cell: std::pin::Pin<Box<u8>>) -> usize;

/// Makes a new cell with `Box::pin`.
///
/// Trusted: the block that the allocator hands out overlaps no block that is still in use.
/// Every token in `live` is borrowed for the whole call, so each still owns its cell when the
/// new one exists; a cell is one byte, never zero-sized, so it has a block of its own. The
/// new cell's address therefore differs from the address of each token in `live`. Nothing
/// is promised about tokens that are not in `live`.
#[verifier::external_body]
pub(crate) fn allocate_cell(live: &[UniqueId]) -> (cell: std::pin::Pin<Box<u8>>)
    ensures
        forall|i: int| 0 <= i < live@.len() ==> (#[trigger] live@[i])@ != cell_address(cell),
{
    Box::pin(0)
}

/// Copies a cell with `Clone::clone` of `Pin<Box<u8>>`, which boxes a copy of the byte.
///
/// Trusted: the copy is a new box, made while `cell` is borrowed and so still in use; its
/// address differs from that of `cell`.
#[verifier::external_body]
pub(crate) fn clone_cell(cell: &std::pin::Pin<Box<u8>>) -> (copy: std::pin::Pin<Box<u8>>)
    ensures
        cell_address(copy) != cell_address(*cell),
{
    cell.clone()
}

/// Reads the address of a cell's byte with `std::ptr::from_ref` and `addr`.
///
/// Trusted: the number returned is the address of the byte that the box points to, the one
/// that `cell_address` names.
#[verifier::external_body]
pub(crate) fn address_of_cell(cell: &std::pin::Pin<Box<u8>>) -> (address: usize)
    ensures
        address == cell_address(*cell),
{
    std::ptr::from_ref::<u8>(&**cell).addr()
}

} // verus!
