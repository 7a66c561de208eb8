//! The arithmetic and decisions of board bring-up: clock gating groups,
//! clock dividers, the console UART's baud divisor and the SDRAM
//! controller's command handshake. The register accesses themselves are
//! left to the caller.
use vstd::prelude::*;

verus! {

/// First resource number that belongs to a clock gating group.
pub const RESOURCE_START: usize = 256;

/// How many times the SDRAM controller's status is polled for the end of an IP command.
pub const IP_CMD_RETRIES: u32 = 5000;

/// Register index and bit that link resource `resource` to clock gating group 0.
pub fn group_link(resource: usize) -> (r: (usize, u32))
    requires
        resource > RESOURCE_START,
    ensures
        r.0 == (resource - RESOURCE_START) as usize / 32,
        r.1 == 1u32 << ((resource - RESOURCE_START) as usize % 32) as u32,
{
    let index = (resource - RESOURCE_START) / 32;
    let offset = ((resource - RESOURCE_START) % 32) as u32;
    (index, 1u32 << offset)
}

/// Frequency of a clock fed by a source of `src_freq` Hz through divider field `div`.
pub fn divided_frequency(src_freq: u32, div: u32) -> (r: u32)
    requires
        div < u32::MAX,
    ensures
        r == src_freq as int / (div + 1),
{
    src_freq / (div + 1)
}

/// The console UART's clock divisor.
pub open spec fn baud_divisor(baudrate: u32, clock_src_freq: u32) -> u32 {
    clock_src_freq / ((baudrate * 16) as u32)
}

/// Divisor latch bytes (low, high) of the console UART for `baudrate` from a
/// `clock_src_freq` Hz clock: the clock divided by sixteen times the baud rate.
pub fn uart_divisor(baudrate: u32, clock_src_freq: u32) -> (r: (u8, u8))
    requires
        0 < baudrate,
        baudrate * 16 <= u32::MAX,
    ensures
        r.0 == baud_divisor(baudrate, clock_src_freq) as u8,
        r.1 == (baud_divisor(baudrate, clock_src_freq) >> 8) as u8,
{
    let div = clock_src_freq / (baudrate * 16);
    (#[verifier::truncate] (div as u8), #[verifier::truncate] ((div >> 8) as u8))
}

/// What to do after one read of the SDRAM controller's interrupt status
/// while waiting for an IP command.
#[derive(Clone, Copy, Debug, PartialEq, Eq, Structural)]
pub enum IpCmdPoll {
    /// Read again; this many reads are left.
    Again(u32),
    /// Give up: the command did not finish in time.
    Timeout,
    /// The command ended: clear the status bits, then report failure when `error`.
    Done { error: bool },
}

/// Decides the next step of the wait for an IP command, when `left` reads
/// were left before this one and the status read shows `done` / `error`.
/// The last read allowed counts as a timeout, whatever it shows.
pub fn ip_cmd_poll(left: u32, done: bool, error: bool) -> (r: IpCmdPoll)
    requires
        left > 0,
    ensures
        left == 1 ==> r == IpCmdPoll::Timeout,
        left > 1 && (done || error) ==> r == (IpCmdPoll::Done { error }),
        left > 1 && !done && !error ==> r == IpCmdPoll::Again((left - 1) as u32),
{
    let rest = left - 1;
    if rest == 0 {
        IpCmdPoll::Timeout
    } else if done || error {
        IpCmdPoll::Done { error }
    } else {
        IpCmdPoll::Again(rest)
    }
}

} // verus!
