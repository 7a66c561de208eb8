//! Access to a trapped hart's general-purpose registers by architectural number.
use vstd::prelude::*;

verus! {

/// The general-purpose registers of a trapped hart that emulated
/// instructions may name.
///
/// `t`, `s` and `a` are the banks of the trap save area. `gp` and `tp` are
/// not saved on trap entry; they stand for the live CPU registers, which the
/// trap handler leaves untouched.
#[derive(Clone, Copy, Debug)]
pub struct Registers {
    pub gp: usize,
    pub tp: usize,
    pub t: [usize; 7],
    pub s: [usize; 12],
    pub a: [usize; 8],
}

/// Register numbers the shim serves: `x0` and `x3` to `x31`.
pub open spec fn is_shim_register(r: u32) -> bool {
    r == 0 || (3 <= r && r <= 31)
}

/// `new` holds the same registers as `old` but for `r`, which holds `v`
/// (a write to `x0` changes nothing).
pub open spec fn register_written(old: Registers, new: Registers, r: u32, v: usize) -> bool {
    forall|j: u32|
        is_shim_register(j) ==> #[trigger] new.value_of(j) == (if j == r && r != 0 {
            v
        } else {
            old.value_of(j)
        })
}

impl Registers {
    /// All registers zero.
    pub fn new() -> (r: Self)
        ensures
            forall|j: u32| is_shim_register(j) ==> #[trigger] r.value_of(j) == 0,
    {
        Registers { gp: 0, tp: 0, t: [0; 7], s: [0; 12], a: [0; 8] }
    }

    /// The architectural value of register `r`.
    pub open spec fn value_of(self, r: u32) -> usize {
        if r == 0 {
            0
        } else if r == 3 {
            self.gp
        } else if r == 4 {
            self.tp
        } else if 5 <= r && r <= 7 {
            self.t@[r - 5]
        } else if 8 <= r && r <= 9 {
            self.s@[r - 8]
        } else if 10 <= r && r <= 17 {
            self.a@[r - 10]
        } else if 18 <= r && r <= 27 {
            self.s@[r - 16]
        } else {
            self.t@[r - 25]
        }
    }

    /// Reads register `r`; `x0` reads as zero.
    pub fn read_register(&self, r: u32) -> (v: usize)
        requires
            is_shim_register(r),
        ensures
            v == self.value_of(r),
    {
        if r == 0 {
            0
        } else if r == 3 {
            self.gp
        } else if r == 4 {
            self.tp
        } else if r <= 7 {
            self.t[(r - 5) as usize]
        } else if r <= 9 {
            self.s[(r - 8) as usize]
        } else if r <= 17 {
            self.a[(r - 10) as usize]
        } else if r <= 27 {
            self.s[(r - 16) as usize]
        } else {
            self.t[(r - 25) as usize]
        }
    }

    /// Writes `v` to register `r`; a write to `x0` is discarded.
    pub fn write_register(&mut self, r: u32, v: usize)
        requires
            is_shim_register(r),
        ensures
            register_written(*old(self), *final(self), r, v),
    {
        if r == 0 {
        } else if r == 3 {
            self.gp = v;
        } else if r == 4 {
            self.tp = v;
        } else if r <= 7 {
            self.t[(r - 5) as usize] = v;
        } else if r <= 9 {
            self.s[(r - 8) as usize] = v;
        } else if r <= 17 {
            self.a[(r - 10) as usize] = v;
        } else if r <= 27 {
            self.s[(r - 16) as usize] = v;
        } else {
            self.t[(r - 25) as usize] = v;
        }
    }
}

/// Writing a value to a register and reading the same register back gives
/// that value, for every register the shim serves other than `x0`.
pub proof fn law_register_round_trip(before: Registers, after: Registers, r: u32, v: usize)
    requires
        is_shim_register(r),
        r != 0,
        register_written(before, after, r, v),
    ensures
        after.value_of(r) == v,
{
}

} // verus!
