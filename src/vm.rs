//! What the library assumes of the virtual machine crate.

use vstd::prelude::*;

verus! {

/// The machine's error type, carried through opaquely.
#[verifier::external_type_specification]
#[verifier::external_body]
pub struct ExVmError(ckb_vm::Error);

/// Relies on the `PartialEq` that `ckb_vm::Error` derives: every variant holds
/// integers, strings or an `std::io::ErrorKind`, all compared field by field,
/// so two errors compare equal exactly when they are the same value.
#[verifier::external_body]
pub(crate) fn vm_errors_equal(a: &ckb_vm::Error, b: &ckb_vm::Error) -> (r: bool)
    ensures
        r == (*a == *b),
{
    a == b
}

} // verus!
