//! Where the interpreter image goes in the machine's memory, and lookups in
//! the VM's assembler symbol table.
//!
//! The VM image is loaded at address 0; the linked interpreter image is
//! placed at `OCAML_LOAD_ADDR`, and the VM's `code_ptr` slot (found through
//! the symbol table) is patched to point there, so that the VM's boot path
//! finds the image.

use vstd::prelude::*;
use crate::text::str_eq;

verus! {

/// Runtime load address of the interpreter image: the address its absolute
/// data references were linked for.
pub const OCAML_LOAD_ADDR: u32 = 0x01_0000;

/// The address of the first entry of `labels` named `name`, or 0 when no
/// entry has that name.
pub open spec fn first_label_addr(labels: Seq<(&str, u32)>, name: Seq<char>) -> u32
    decreases labels.len(),
{
    if labels.len() == 0 {
        0
    } else if labels[0].0@ == name {
        labels[0].1
    } else {
        first_label_addr(labels.drop_first(), name)
    }
}

/// The address of the label `name` in the assembler symbol table `labels`
/// (pairs of label name and address), or 0 if the table has no such label.
pub fn label_addr(labels: &[(&str, u32)], name: &str) -> (r: u32)
    ensures
        r == first_label_addr(labels@, name@),
{
    let mut i: usize = 0;
    assert(labels@.skip(0) =~= labels@);
    while i < labels.len()
        invariant
            i <= labels@.len(),
            first_label_addr(labels@, name@) == first_label_addr(labels@.skip(i as int), name@),
        decreases labels@.len() - i,
    {
        let (n, a) = labels[i];
        if str_eq(n, name) {
            return a;
        }
        assert(labels@.skip(i as int).drop_first() =~= labels@.skip(i + 1));
        i += 1;
    }
    0
}

/// The three bytes, least significant first, that a 24-bit pointer slot
/// holds to point at `addr`.
pub fn pointer_bytes(addr: u32) -> (r: (u8, u8, u8))
    ensures
        r.0 == addr % 0x100,
        r.1 == (addr / 0x100) % 0x100,
        r.2 == (addr / 0x1_0000) % 0x100,
{
    ((addr % 0x100) as u8, ((addr / 0x100) % 0x100) as u8, ((addr / 0x1_0000) % 0x100) as u8)
}

} // verus!
