//! The identifier that a run of the process goes by.

use std::time::Duration;
use std::time::SystemTime;

use vstd::prelude::*;
use vstd::string::*;

use crate::text::decimal_text;
use crate::text::hex8_text;
use crate::text::push_decimal;
use crate::text::push_hex8;

verus! {

#[verifier::external_type_specification]
#[verifier::external_body]
pub struct ExSystemTime(SystemTime);

/// `SystemTime::now`: the time on the system clock. Nothing is claimed of it.
#[verifier::external_body]
fn system_time_now() -> (now: SystemTime) {
    SystemTime::now()
}

/// `SystemTime::duration_since`, taken from the Unix epoch: the time elapsed
/// since then, or `None` where the clock stands before it. Nothing is
/// claimed of the result.
#[verifier::external_body]
fn since_unix_epoch(now: &SystemTime) -> (elapsed: Option<Duration>) {
    now.duration_since(std::time::UNIX_EPOCH).ok()
}

/// `Duration::as_millis`: the whole milliseconds in a duration. Nothing is
/// claimed of the result.
#[verifier::external_body]
fn whole_millis(elapsed: &Duration) -> (millis: u128) {
    elapsed.as_millis()
}

/// The number that a run started at `ts` carries after its time: the low
/// thirty-two bits of the time, through one step of a linear congruence.
pub open spec fn run_seed(ts: nat) -> u32 {
    (((ts % 0x1_0000_0000) * 1103515245 + 12345) % 0x1_0000_0000) as u32
}

/// The identifier of a run started `ts` milliseconds after the Unix epoch:
/// `run_`, the time in decimal, `_`, and the seed in eight hexadecimal digits.
pub open spec fn run_id_text(ts: nat) -> Seq<char> {
    "run_"@ + decimal_text(ts) + "_"@ + hex8_text(run_seed(ts))
}

/// The identifier of a run started `ts` milliseconds after the Unix epoch.
pub fn run_id_at(ts: u128) -> (id: String)
    ensures
        id@ == run_id_text(ts as nat),
{
    let low: u64 = (ts % 0x1_0000_0000) as u64;
    let seed: u32 = ((low * 1103515245 + 12345) % 0x1_0000_0000) as u32;
    let mut id = String::from_str("run_");
    push_decimal(&mut id, ts);
    id.append("_");
    push_hex8(&mut id, seed);
    id
}

/// The time that a reading of the clock counts as: the milliseconds since
/// the Unix epoch, and zero for a clock that stands before the epoch.
pub open spec fn reading_millis(elapsed_ms: Option<u128>) -> nat {
    match elapsed_ms {
        Some(ms) => ms as nat,
        None => 0,
    }
}

/// The identifier of a run that starts at the reading `elapsed_ms` of the
/// clock: the milliseconds since the Unix epoch, or `None` for a clock that
/// stands before the epoch, which counts as zero.
pub fn run_id_from(elapsed_ms: Option<u128>) -> (id: String)
    ensures
        id@ == run_id_text(reading_millis(elapsed_ms)),
{
    match elapsed_ms {
        Some(ms) => run_id_at(ms),
        None => run_id_at(0),
    }
}

/// The identifier of a run that starts now. The time is the system clock's,
/// in milliseconds since the Unix epoch, and zero where the clock stands
/// before the epoch.
pub fn generate_run_id() -> (id: String)
    ensures
        exists|ts: u128| id@ == run_id_text(ts as nat),
{
    let now = system_time_now();
    let elapsed_ms: Option<u128> = match since_unix_epoch(&now) {
        Some(elapsed) => Some(whole_millis(&elapsed)),
        None => None,
    };
    let id = run_id_from(elapsed_ms);
    proof {
        let ts: u128 = match elapsed_ms {
            Some(ms) => ms,
            None => 0u128,
        };
        assert(id@ == run_id_text(ts as nat));
    }
    id
}

} // verus!
