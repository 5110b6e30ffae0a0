//! Terminal console adapter: the line-discipline flag computation.
//!
//! The launcher binds the process's standard input and output as the VM's
//! serial console. Before doing so it reads the terminal's line-discipline
//! attributes, clears the carriage-return-to-newline translation flag on
//! input and the canonical-mode and echo flags, and applies the result back.
//! The syscalls that read and write the attributes live in the surrounding
//! binary; this module computes the modified attribute word and proves that
//! the computation is idempotent: applying it twice leaves the terminal in
//! the same state as applying it once.

use vstd::prelude::*;

verus! {

/// The line-discipline attributes of a terminal that the adapter touches:
/// the input-mode flag word and the local-mode flag word.
#[derive(Clone, Copy, PartialEq, Eq, Structural, Debug)]
pub struct TermAttrs {
    /// Input-mode flags (the word holding the CR-to-NL translation bit).
    pub iflag: u64,
    /// Local-mode flags (the word holding the canonical-mode and echo bits).
    pub lflag: u64,
}

/// The attribute words after the console adapter has disabled
/// CR-to-NL translation (`icrnl` bit in the input word) and
/// canonical mode and echo (`icanon` and `echo` bits in the local word).
pub open spec fn raw_console_attrs(a: TermAttrs, icrnl: u64, icanon: u64, echo: u64) -> TermAttrs {
    TermAttrs { iflag: a.iflag & !icrnl, lflag: a.lflag & !(icanon | echo) }
}

/// Clears the CR-to-NL translation bit from the input word and the
/// canonical-mode and echo bits from the local word, leaving every other
/// bit as it was. The bit masks are handed in by the caller, which reads
/// them from the platform's terminal interface.
pub fn disable_console_flags(a: TermAttrs, icrnl: u64, icanon: u64, echo: u64) -> (r: TermAttrs)
    ensures
        r == raw_console_attrs(a, icrnl, icanon, echo),
        r.iflag & icrnl == 0,
        r.lflag & (icanon | echo) == 0,
{
    let iflag = a.iflag & !icrnl;
    let lflag = a.lflag & !(icanon | echo);
    proof {
        let x = a.iflag;
        let y = a.lflag;
        assert((x & !icrnl) & icrnl == 0) by (bit_vector);
        assert((y & !(icanon | echo)) & (icanon | echo) == 0) by (bit_vector);
    }
    TermAttrs { iflag, lflag }
}

/// Disabling the console flags is idempotent: a second application of the
/// adapter's computation returns the attributes unchanged, so re-invoking
/// the adapter leaves the terminal in the same disabled-canonical, no-echo,
/// no-CR-NL state as invoking it once.
pub proof fn lemma_raw_console_attrs_idempotent(a: TermAttrs, icrnl: u64, icanon: u64, echo: u64)
    ensures
        raw_console_attrs(raw_console_attrs(a, icrnl, icanon, echo), icrnl, icanon, echo)
            == raw_console_attrs(a, icrnl, icanon, echo),
{
    let x = a.iflag;
    let y = a.lflag;
    assert((x & !icrnl) & !icrnl == x & !icrnl) by (bit_vector);
    assert((y & !(icanon | echo)) & !(icanon | echo) == y & !(icanon | echo)) by (bit_vector);
}

} // verus!
