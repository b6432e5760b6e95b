//! Error codes and a bounded buffer writer for diagnostic output.

use vstd::prelude::*;

use crate::path::decimal_digits;

verus! {

/// Outcome codes of a redirector run, one per condition, stable and distinct
/// so that scripts can tell the conditions apart.
#[derive(Clone, Copy, Debug, PartialEq, Eq, Structural)]
pub enum ErrorCode {
    Success,
    RustPanic,
    SelfExecution,
    CommandPathInvalid,
    ProcPathIOError,
    ProcPathInvalid,
    PathResolutionIOError,
    TargetPathInvalid,
    TargetPathTooLarge,
    TargetExecutionError,
    TargetNoViableBinaries,
}

/// The numeric process status of each outcome.
pub open spec fn spec_error_code(c: ErrorCode) -> u8 {
    match c {
        ErrorCode::Success => 0,
        ErrorCode::RustPanic => 100,
        ErrorCode::SelfExecution => 200,
        ErrorCode::CommandPathInvalid => 210,
        ErrorCode::ProcPathIOError => 220,
        ErrorCode::ProcPathInvalid => 221,
        ErrorCode::PathResolutionIOError => 230,
        ErrorCode::TargetPathInvalid => 240,
        ErrorCode::TargetPathTooLarge => 241,
        ErrorCode::TargetExecutionError => 242,
        ErrorCode::TargetNoViableBinaries => 243,
    }
}

impl ErrorCode {
    /// The process status to exit with for this outcome.
    pub fn code(&self) -> (n: u8)
        ensures
            n == spec_error_code(*self),
    {
        match self {
            ErrorCode::Success => 0,
            ErrorCode::RustPanic => 100,
            ErrorCode::SelfExecution => 200,
            ErrorCode::CommandPathInvalid => 210,
            ErrorCode::ProcPathIOError => 220,
            ErrorCode::ProcPathInvalid => 221,
            ErrorCode::PathResolutionIOError => 230,
            ErrorCode::TargetPathInvalid => 240,
            ErrorCode::TargetPathTooLarge => 241,
            ErrorCode::TargetExecutionError => 242,
            ErrorCode::TargetNoViableBinaries => 243,
        }
    }
}

/// A writer that fills a fixed-capacity byte buffer from the front and
/// refuses writes that would not fit, rather than truncating them.
pub struct PrintBuff {
    /// The underlying buffer; its length is the writer's capacity.
    pub buf: Vec<u8>,
    /// How many bytes have been written so far.
    pub offset: usize,
}

impl PrintBuff {
    /// The write position never passes the end of the buffer.
    pub open spec fn well_formed(self) -> bool {
        self.offset <= self.buf@.len()
    }

    /// A writer over the given buffer, starting at its beginning.
    pub fn new(buf: Vec<u8>) -> (w: PrintBuff)
        ensures
            w.buf@ == buf@,
            w.offset == 0,
            w.well_formed(),
    {
        PrintBuff { buf, offset: 0 }
    }

    /// Copies `bytes` at the current position and advances it. When the
    /// remaining space is too small, refuses the write and leaves the
    /// buffer and the position unchanged.
    pub fn write_bytes(&mut self, bytes: &[u8]) -> (r: Result<(), ()>)
        requires
            old(self).well_formed(),
        ensures
            final(self).well_formed(),
            final(self).buf@.len() == old(self).buf@.len(),
            match r {
                Ok(()) => {
                    &&& old(self).offset + bytes@.len() <= old(self).buf@.len()
                    &&& final(self).offset == old(self).offset + bytes@.len()
                    &&& final(self).buf@ =~= old(self).buf@.take(old(self).offset as int)
                        + bytes@ + old(self).buf@.skip(old(self).offset + bytes@.len())
                },
                Err(()) => {
                    &&& old(self).offset + bytes@.len() > old(self).buf@.len()
                    &&& *final(self) == *old(self)
                },
            },
    {
        let n = bytes.len();
        if self.buf.len() - self.offset < n {
            return Err(());
        }
        let off = self.offset;
        let ghost buf0 = self.buf@;
        let mut i: usize = 0;
        while i < n
            invariant
                i <= n,
                n == bytes@.len(),
                off + n <= buf0.len(),
                buf0.len() <= usize::MAX,
                self.buf@.len() == buf0.len(),
                self.offset == off,
                forall|k: int|
                    off <= k < off + i ==> #[trigger] self.buf@[k] == bytes@[k - off],
                forall|k: int| 0 <= k < off ==> #[trigger] self.buf@[k] == buf0[k],
                forall|k: int| off + n <= k < buf0.len() ==> #[trigger] self.buf@[k] == buf0[k],
            decreases n - i,
        {
            let b = bytes[i];
            self.buf[off + i] = b;
            i = i + 1;
        }
        self.offset = off + n;
        proof {
            assert(self.buf@ =~= buf0.take(off as int) + bytes@ + buf0.skip(off + n));
        }
        Ok(())
    }
}

/// Writes the decimal digit characters of `n` over the start of `arr`; the
/// same formatting as the path module's, kept beside the diagnostics code
/// that uses it.
pub fn itoa(n: u32, arr: &mut Vec<u8>) -> (count: usize)
    requires
        decimal_digits(n as nat).len() <= old(arr)@.len(),
    ensures
        count == decimal_digits(n as nat).len(),
        final(arr)@.len() == old(arr)@.len(),
        final(arr)@ =~= decimal_digits(n as nat) + old(arr)@.skip(count as int),
{
    crate::path::itoa(n, arr)
}

} // verus!
