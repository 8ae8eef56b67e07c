//! The figures of the stats command: how much memory is in use and how
//! long a command took to arrive.
use vstd::prelude::*;
use crate::text::{decimal, push_decimal};

verus! {

/// Bytes in a megabyte, as the stats command counts them.
pub const BYTES_PER_MB: u64 = 1000000;

/// The memory figure of the stats command: used megabytes out of used plus
/// free megabytes, each rounded down.
pub fn memory_line(used: u64, free: u64) -> (r: String)
    requires
        used + free <= u64::MAX,
    ensures
        r@ == "Memory: "@ + decimal((used / BYTES_PER_MB) as nat) + "mb / "@ + decimal(
            ((free + used) / (BYTES_PER_MB as int)) as nat,
        ) + "mb"@,
{
    let mut r = String::from_str("Memory: ");
    push_decimal(&mut r, used / BYTES_PER_MB);
    r.append("mb / ");
    push_decimal(&mut r, (free + used) / BYTES_PER_MB);
    r.append("mb");
    r
}

/// The milliseconds from the creation of a command (in whole seconds since
/// the UNIX epoch) to `now` (in milliseconds since the epoch); 0 when the
/// creation lies ahead.
pub fn latency_millis(created_secs: u64, now_millis: u128) -> (r: u128)
    ensures
        r == (if now_millis >= created_secs * 1000 { now_millis - created_secs * 1000 } else { 0 }),
{
    let created_millis: u128 = (created_secs as u128) * 1000;
    if now_millis >= created_millis {
        now_millis - created_millis
    } else {
        0
    }
}

/// The latency figure of the stats command.
pub fn latency_line(elapsed_millis: u128) -> (r: String)
    ensures
        r@ == "One way latency: ``"@ + decimal(elapsed_millis as nat) + "``"@,
{
    let mut r = String::from_str("One way latency: ``");
    crate::text::push_decimal_wide(&mut r, elapsed_millis);
    r.append("``");
    r
}

} // verus!
