//! DDC/CI switch executor: makes one display show one chosen input,
//! idempotently and defensively against read failures.
//!
//! A switch is a single synchronous read of the input-select register followed
//! by at most one synchronous write. Failures never abort the caller: the
//! outcome of every step is returned in a report, and retry policy stays with
//! the caller.

use vstd::prelude::*;
use ddc_hi::Ddc;

verus! {

/// VCP feature code of the input-select register.
pub const INPUT_SELECT: u8 = 0x60;

/// Delay, in milliseconds, that a caller should wait before retrying a switch
/// that failed transiently. No retry loop lives in this crate.
pub const RETRY_DELAY_MS: u64 = 3000;

/// What became of the single write a switch may issue.
pub enum WriteOutcome {
    /// The display already showed the desired input: no write was issued.
    NotNeeded,
    /// The write was issued and the transport reported success.
    Succeeded,
    /// The write was issued and failed; the detail is kept for the caller's
    /// logging.
    Failed(String),
}

/// A full account of one switch attempt: what the read returned, and what
/// became of the write.
pub struct SwitchReport {
    /// The raw register value read, or the transport's error text.
    pub read: Result<u16, String>,
    /// The outcome of the conditional write.
    pub write: WriteOutcome,
}

/// The write is needed exactly when no read value is available, or the low
/// byte of the value read differs from the desired encoding. Only the low
/// byte carries the current-input code; wider values are masked.
pub open spec fn write_needed(read: Result<u16, String>, desired: u8) -> bool {
    match read {
        Ok(v) => (v & 0xff) != desired as u16,
        Err(_) => true,
    }
}

/// Decides from the read outcome whether the write must be issued: a failed
/// read never blocks the write, and a matching masked value suppresses it.
pub fn must_write(read: &Result<u16, String>, desired: u8) -> (r: bool)
    ensures
        r == write_needed(*read, desired),
{
    match read {
        Ok(v) => (*v & 0xff) != desired as u16,
        Err(_) => true,
    }
}

/// Declares `ddc_hi::Handle`, the caller-owned reference to one physical
/// display, so that it can stand in signatures; the crate looks inside it
/// nowhere.
#[verifier::external_type_specification]
#[verifier::external_body]
pub struct ExHandle(ddc_hi::Handle);

/// Relies on `ddc_hi::Handle`'s `Ddc::get_vcp_feature`: one blocking read of a
/// VCP register, combining the value's two bytes as `VcpValue::value` does.
/// What comes back depends on the device, so nothing is promised of it.
#[verifier::external_body]
fn read_vcp(handle: &mut ddc_hi::Handle, code: u8) -> (r: Result<u16, String>) {
    handle.get_vcp_feature(code).map(|v| v.value()).map_err(|e| format!("{:?}", e))
}

/// Relies on `ddc_hi::Handle`'s `Ddc::set_vcp_feature`: one blocking write of
/// a VCP register. Whether it takes effect depends on the device, so nothing
/// is promised of it.
#[verifier::external_body]
fn write_vcp(handle: &mut ddc_hi::Handle, code: u8, value: u16) -> (r: Result<(), String>) {
    handle.set_vcp_feature(code, value).map_err(|e| format!("{:?}", e))
}

/// One switch attempt against one display handle: reads the input-select
/// register and writes the desired encoding unless the display is already on
/// it. Whatever the transport did, the report is consistent: the write was
/// skipped exactly when the read succeeded with a matching masked value, and
/// was issued (succeeding or failing) in every other case.
pub fn switch_display(handle: &mut ddc_hi::Handle, desired: u8) -> (r: SwitchReport)
    ensures
        r.write is NotNeeded <==> !write_needed(r.read, desired),
        r.write is NotNeeded ==> (r.read matches Ok(v) && v & 0xff == desired as u16),
{
    let read = read_vcp(handle, INPUT_SELECT);
    let write = if must_write(&read, desired) {
        match write_vcp(handle, INPUT_SELECT, desired as u16) {
            Ok(_) => WriteOutcome::Succeeded,
            Err(detail) => WriteOutcome::Failed(detail),
        }
    } else {
        WriteOutcome::NotNeeded
    };
    SwitchReport { read, write }
}

} // verus!
