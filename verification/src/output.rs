//! Construction of the redirector's terminal diagnostic lines, and the
//! bounded writer they are staged in.
//!
//! A diagnostic is a single line naming the failing stage, the OS error
//! number when there is one, and the offending path when there is one. The
//! line is built here as plain bytes; writing it out is the OS adapter's
//! business.

use vstd::prelude::*;

use crate::ascii::{COLON, HYPHEN, LOWER_A, LOWER_C, LOWER_D, LOWER_E, LOWER_H, LOWER_L, LOWER_N,
    LOWER_O, LOWER_P, LOWER_R, LOWER_S, LOWER_T, LOWER_W, NEWLINE, PIPE, SPACE, UPPER_E, UPPER_P};
use crate::path::{decimal_digits, lemma_decimal_digits_len_u32};

verus! {

/// The `hwcaps-loader: ` prefix of every diagnostic line.
pub open spec fn diag_prefix_seq() -> Seq<u8> {
    seq![
        LOWER_H,
        LOWER_W,
        LOWER_C,
        LOWER_A,
        LOWER_P,
        LOWER_S,
        HYPHEN,
        LOWER_L,
        LOWER_O,
        LOWER_A,
        LOWER_D,
        LOWER_E,
        LOWER_R,
        COLON,
        SPACE,
    ]
}

/// The ` | Errno: ` label before the OS error number.
pub open spec fn diag_errno_label_seq() -> Seq<u8> {
    seq![SPACE, PIPE, SPACE, UPPER_E, LOWER_R, LOWER_R, LOWER_N, LOWER_O, COLON, SPACE]
}

/// The ` | Path: ` label before the offending path.
pub open spec fn diag_path_label_seq() -> Seq<u8> {
    seq![SPACE, PIPE, SPACE, UPPER_P, LOWER_A, LOWER_T, LOWER_H, COLON, SPACE]
}

/// The whole diagnostic line for a message, an OS error number (shown only
/// when nonzero), and an optional path.
pub open spec fn diag_line_seq(msg: Seq<u8>, errno: u32, path: Option<Seq<u8>>) -> Seq<u8> {
    diag_prefix_seq() + msg + (if errno != 0 {
        diag_errno_label_seq() + decimal_digits(errno as nat)
    } else {
        Seq::<u8>::empty()
    }) + (match path {
        Some(p) => diag_path_label_seq() + p,
        None => Seq::<u8>::empty(),
    }) + seq![NEWLINE]
}

fn push_all(dst: &mut Vec<u8>, src: &[u8])
    ensures
        final(dst)@ == old(dst)@ + src@,
{
    let n = src.len();
    let ghost d0 = dst@;
    let mut i: usize = 0;
    while i < n
        invariant
            i <= n,
            n == src@.len(),
            dst@ =~= d0 + src@.take(i as int),
        decreases n - i,
    {
        let b = src[i];
        dst.push(b);
        i = i + 1;
    }
    proof {
        assert(dst@ =~= d0 + src@);
    }
}

/// Builds the diagnostic line for a failing stage: the program name, the
/// message, the OS error number when nonzero, and the offending path when
/// given, closed by a newline.
#[verifier::rlimit(60)]
pub fn format_diagnostic(msg: &[u8], errno: u32, path: Option<&[u8]>) -> (line: Vec<u8>)
    ensures
        line@ == diag_line_seq(
            msg@,
            errno,
            match path {
                Some(p) => Some(p@),
                None => None::<Seq<u8>>,
            },
        ),
{
    let mut line: Vec<u8> = Vec::new();
    line.push(LOWER_H);
    line.push(LOWER_W);
    line.push(LOWER_C);
    line.push(LOWER_A);
    line.push(LOWER_P);
    line.push(LOWER_S);
    line.push(HYPHEN);
    line.push(LOWER_L);
    line.push(LOWER_O);
    line.push(LOWER_A);
    line.push(LOWER_D);
    line.push(LOWER_E);
    line.push(LOWER_R);
    line.push(COLON);
    line.push(SPACE);
    proof {
        assert(line@ =~= diag_prefix_seq());
    }
    push_all(&mut line, msg);
    let ghost head = diag_prefix_seq() + msg@;
    if errno != 0 {
        line.push(SPACE);
        line.push(PIPE);
        line.push(SPACE);
        line.push(UPPER_E);
        line.push(LOWER_R);
        line.push(LOWER_R);
        line.push(LOWER_N);
        line.push(LOWER_O);
        line.push(COLON);
        line.push(SPACE);
        proof {
            assert(line@ =~= head + diag_errno_label_seq());
        }
        let mut digits: Vec<u8> = Vec::new();
        let mut z: usize = 0;
        while z < 10
            invariant
                digits@.len() == z,
                z <= 10,
            decreases 10 - z,
        {
            digits.push(0u8);
            z = z + 1;
        }
        proof {
            lemma_decimal_digits_len_u32(errno as nat);
        }
        let count = crate::path::itoa(errno, &mut digits);
        let ghost labelled = head + diag_errno_label_seq();
        let mut j: usize = 0;
        while j < count
            invariant
                j <= count,
                count <= digits@.len(),
                digits@.take(count as int) =~= decimal_digits(errno as nat),
                line@ =~= labelled + digits@.take(j as int),
            decreases count - j,
        {
            let b = digits[j];
            line.push(b);
            j = j + 1;
        }
        proof {
            assert(line@ =~= head + (diag_errno_label_seq() + decimal_digits(errno as nat)));
        }
    }
    let ghost head2 = head + (if errno != 0 {
        diag_errno_label_seq() + decimal_digits(errno as nat)
    } else {
        Seq::<u8>::empty()
    });
    proof {
        assert(line@ =~= head2);
    }
    match path {
        Some(p) => {
            line.push(SPACE);
            line.push(PIPE);
            line.push(SPACE);
            line.push(UPPER_P);
            line.push(LOWER_A);
            line.push(LOWER_T);
            line.push(LOWER_H);
            line.push(COLON);
            line.push(SPACE);
            proof {
                assert(line@ =~= head2 + diag_path_label_seq());
            }
            push_all(&mut line, p);
        },
        None => {},
    }
    line.push(NEWLINE);
    proof {
        assert(line@ =~= diag_line_seq(
            msg@,
            errno,
            match path {
                Some(p) => Some(p@),
                None => None::<Seq<u8>>,
            },
        ));
    }
    line
}

/// A writer that fills a fixed-capacity byte buffer from the front and
/// refuses writes that would not fit, rather than truncating them.
pub struct PrintBuff {
    /// The underlying buffer; its length is the writer's capacity.
    pub buf: Vec<u8>,
    /// How many bytes have been written so far.
    pub offset: usize,
}

impl PrintBuff {
    /// The write position never passes the end of the buffer.
    pub open spec fn well_formed(self) -> bool {
        self.offset <= self.buf@.len()
    }

    /// A writer over the given buffer, starting at its beginning.
    pub fn new(buf: Vec<u8>) -> (w: PrintBuff)
        ensures
            w.buf@ == buf@,
            w.offset == 0,
            w.well_formed(),
    {
        PrintBuff { buf, offset: 0 }
    }

    /// Copies `bytes` at the current position and advances it. When the
    /// remaining space is too small, refuses the write and leaves the
    /// buffer and the position unchanged.
    pub fn write_bytes(&mut self, bytes: &[u8]) -> (r: Result<(), ()>)
        requires
            old(self).well_formed(),
        ensures
            final(self).well_formed(),
            final(self).buf@.len() == old(self).buf@.len(),
            match r {
                Ok(()) => {
                    &&& old(self).offset + bytes@.len() <= old(self).buf@.len()
                    &&& final(self).offset == old(self).offset + bytes@.len()
                    &&& final(self).buf@ =~= old(self).buf@.take(old(self).offset as int)
                        + bytes@ + old(self).buf@.skip(old(self).offset + bytes@.len())
                },
                Err(()) => {
                    &&& old(self).offset + bytes@.len() > old(self).buf@.len()
                    &&& *final(self) == *old(self)
                },
            },
    {
        let n = bytes.len();
        if self.buf.len() - self.offset < n {
            return Err(());
        }
        let off = self.offset;
        let ghost buf0 = self.buf@;
        let mut i: usize = 0;
        while i < n
            invariant
                i <= n,
                n == bytes@.len(),
                off + n <= buf0.len(),
                buf0.len() <= usize::MAX,
                self.buf@.len() == buf0.len(),
                self.offset == off,
                forall|k: int|
                    off <= k < off + i ==> #[trigger] self.buf@[k] == bytes@[k - off],
                forall|k: int| 0 <= k < off ==> #[trigger] self.buf@[k] == buf0[k],
                forall|k: int| off + n <= k < buf0.len() ==> #[trigger] self.buf@[k] == buf0[k],
            decreases n - i,
        {
            let b = bytes[i];
            self.buf[off + i] = b;
            i = i + 1;
        }
        self.offset = off + n;
        proof {
            assert(self.buf@ =~= buf0.take(off as int) + bytes@ + buf0.skip(off + n));
        }
        Ok(())
    }
}

} // verus!
