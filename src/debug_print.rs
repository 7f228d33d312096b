//! The debug-print environment call: a guest program puts a code in register
//! A7 and the address of a zero-terminated string in A0, and the host prints
//! the string.
//!
//! Reading guest memory belongs to the machine, so the handler is a small
//! state machine: [`DebugSyscall::begin`] decides whether the call is ours,
//! and a [`StringScan`] says which address to read next and gathers the bytes
//! until the terminating zero.

use vstd::prelude::*;
use vstd::utf8::{decode_utf8, valid_utf8};

verus! {

/// The environment-call code that asks for a debug print.
pub const DEBUG_PRINT: i32 = 2177;

/// The environment-call handler that prints a string out of guest memory.
pub struct DebugSyscall {}

/// The bytes of one zero-terminated guest string, read so far.
pub struct StringScan {
    start: u64,
    bytes: Vec<u8>,
    done: bool,
}

impl DebugSyscall {
    pub fn new() -> (r: DebugSyscall) {
        DebugSyscall {}
    }

    /// Prepares the handler for a machine; it holds no state, so this always
    /// succeeds.
    pub fn initialize(&mut self) -> (r: Result<(), ckb_vm::Error>)
        ensures
            r is Ok,
            *final(self) == *old(self),
    {
        Ok(())
    }

    /// Whether an environment call with this code is a debug print.
    pub fn recognizes(&self, code: i32) -> (r: bool)
        ensures
            r == (code == DEBUG_PRINT),
    {
        code == DEBUG_PRINT
    }

    /// Starts handling an environment call whose code register holds `code`
    /// and whose first argument register holds `addr`. `None` means the call
    /// is not ours: nothing is to be read and nothing printed, and the machine
    /// may offer the call to another handler.
    pub fn begin(&self, code: i32, addr: u64) -> (r: Option<StringScan>)
        ensures
            r is Some <==> code == DEBUG_PRINT,
            r matches Some(s) ==> s.wf() && s.start() == addr && s.bytes() == Seq::<u8>::empty()
                && !s.done(),
    {
        if self.recognizes(code) {
            Some(StringScan::new(addr))
        } else {
            None
        }
    }
}

/// Relies on `String::from_utf8`: it succeeds exactly on well-formed UTF-8
/// and then holds the characters that the bytes encode.
#[verifier::external_body]
fn text_from_utf8(bytes: Vec<u8>) -> (r: Option<String>)
    ensures
        r is Some <==> valid_utf8(bytes@),
        r matches Some(s) ==> s@ == decode_utf8(bytes@),
{
    String::from_utf8(bytes).ok()
}

impl StringScan {
    /// The address of the string's first byte.
    pub closed spec fn start(&self) -> u64 {
        self.start
    }

    /// The bytes gathered so far, the terminating zero excluded.
    pub closed spec fn bytes(&self) -> Seq<u8> {
        self.bytes@
    }

    /// Whether the terminating zero has been seen.
    pub closed spec fn done(&self) -> bool {
        self.done
    }

    /// No gathered byte is a zero: the first zero ends the string.
    pub open spec fn wf(&self) -> bool {
        forall|i: int| 0 <= i < self.bytes().len() ==> self.bytes()[i] != 0
    }

    /// The address that the next byte comes from: one past the last byte read,
    /// wrapping as machine addresses do.
    pub open spec fn next_addr(&self) -> u64 {
        ((self.start() + self.bytes().len()) % 0x1_0000_0000_0000_0000) as u64
    }

    pub fn new(addr: u64) -> (r: StringScan)
        ensures
            r.wf(),
            r.start() == addr,
            r.bytes() == Seq::<u8>::empty(),
            !r.done(),
    {
        StringScan { start: addr, bytes: Vec::new(), done: false }
    }

    pub fn is_done(&self) -> (r: bool)
        ensures
            r == self.done(),
    {
        self.done
    }

    /// The guest address to read the next byte from.
    pub fn next_address(&self) -> (r: u64)
        ensures
            r == self.next_addr(),
    {
        self.start.wrapping_add(self.bytes.len() as u64)
    }

    /// Takes the byte read at [`StringScan::next_address`]: a zero ends the
    /// string, any other byte is appended to it.
    pub fn push(&mut self, byte: u8)
        requires
            old(self).wf(),
            !old(self).done(),
        ensures
            final(self).wf(),
            final(self).start() == old(self).start(),
            final(self).done() == (byte == 0),
            byte == 0 ==> final(self).bytes() == old(self).bytes(),
            byte != 0 ==> final(self).bytes() == old(self).bytes().push(byte),
    {
        if byte == 0 {
            self.done = true;
        } else {
            self.bytes.push(byte);
            assert forall|i: int| 0 <= i < self.bytes().len() implies self.bytes()[i] != 0 by {
                if i < old(self).bytes().len() {
                    assert(self.bytes()[i] == old(self).bytes()[i]);
                }
            }
        }
    }

    /// The gathered bytes as text, or `None` where they are not well-formed
    /// UTF-8.
    pub fn into_text(self) -> (r: Option<String>)
        ensures
            r is Some <==> valid_utf8(self.bytes()),
            r matches Some(s) ==> s@ == decode_utf8(self.bytes()),
    {
        text_from_utf8(self.bytes)
    }
}

} // verus!
