//! The machine timer.
use vstd::prelude::*;
use hpm_metapac::mchtmr::Mchtmr;

verus! {

/// hpm-metapac's handle on the machine timer block, carried and never looked into.
#[verifier::external_type_specification]
#[verifier::external_body]
pub struct ExMchtmr(Mchtmr);

/// Relies on `Mchtmr::mtime` and `Reg::read` of hpm-metapac: a volatile read
/// of the free-running 64-bit machine time register. The value depends on
/// when it is read, so nothing is stated of it.
#[verifier::external_body]
fn read_mtime(t: Mchtmr) -> u64 {
    t.mtime().read()
}

/// Low 32 bits of a 64-bit timer value.
pub fn low_word(v: u64) -> (r: u32)
    ensures
        r == v as u32,
{
    #[verifier::truncate]
    (v as u32)
}

/// High 32 bits of a 64-bit timer value.
pub fn high_word(v: u64) -> (r: u32)
    ensures
        r == (v >> 32) as u32,
{
    #[verifier::truncate]
    ((v >> 32) as u32)
}

/// The machine timer, read for the `time` and `timeh` CSRs.
pub struct MachineTimer {
    inner: Mchtmr,
}

impl MachineTimer {
    pub fn new(mchtmr: Mchtmr) -> (r: Self) {
        MachineTimer { inner: mchtmr }
    }

    /// The machine time.
    pub fn time64(&self) -> (r: u64) {
        read_mtime(self.inner)
    }

    /// Low half of the machine time, at the moment of the call.
    pub fn time(&self) -> (r: u32) {
        low_word(self.time64())
    }

    /// High half of the machine time, at the moment of the call.
    pub fn timeh(&self) -> (r: u32) {
        high_word(self.time64())
    }
}

} // verus!
