//! The text of the bounded host-resource report.

use vstd::prelude::*;

use crate::text::{chars_of, decimal, push_all, push_decimal, string_of};

verus! {

/// The report given where the host probes are not supported.
pub const UNSUPPORTED_REPORT: &'static str = "Host resources: 조회 불가 · Windows 실측 API만 지원";

/// Refusal while an earlier probe still runs.
pub const PROBE_BUSY: &'static str = "resource probe is still running; no extra probe started";

/// Refusal when a probe ran past its time limit.
pub const PROBE_TIMED_OUT: &'static str = "resource probe timed out; results unavailable, OS call may still be finishing";

/// Bytes in a GiB.
pub const GIB: u128 = 1073741824;

/// `n`, below 100, in two digits.
pub open spec fn two_digits(n: nat) -> Seq<char> {
    if n < 10 {
        seq!['0'] + decimal(n)
    } else {
        decimal(n)
    }
}

/// `bytes` in GiB with two decimals, rounded down.
pub open spec fn gib_text(bytes: u64) -> Seq<char> {
    let hundredths = (bytes as nat) * 100 / (GIB as nat);
    decimal(hundredths / 100) + seq!['.'] + two_digits(hundredths % 100) + " GiB"@
}

/// `bytes` in GiB with two decimals, rounded down.
pub fn gib(bytes: u64) -> (r: String)
    ensures
        r@ == gib_text(bytes),
{
    let hundredths: u128 = (bytes as u128) * 100 / GIB;
    let mut out: Vec<char> = Vec::new();
    push_decimal(&mut out, hundredths / 100);
    out.push('.');
    let cents = hundredths % 100;
    if cents < 10 {
        out.push('0');
    }
    push_decimal(&mut out, cents);
    push_all(&mut out, &chars_of(" GiB"));
    assert(out@ =~= gib_text(bytes));
    string_of(&out)
}

/// The line on logical processors; beyond 64 the CPU share covers only the
/// primary processor group.
pub open spec fn processors_text(count: u32) -> Seq<char> {
    if count > 64 {
        "논리 CPU: "@ + decimal(count as nat) + " · CPU%는 primary processor group 범위이며 전체 CPU가 아님"@
    } else {
        "논리 CPU: "@ + decimal(count as nat)
    }
}

/// The line on logical processors.
pub fn processors_line(count: u32) -> (r: String)
    ensures
        r@ == processors_text(count),
{
    let mut out = chars_of("논리 CPU: ");
    push_decimal(&mut out, count as u128);
    if count > 64 {
        push_all(&mut out, &chars_of(" · CPU%는 primary processor group 범위이며 전체 CPU가 아님"));
    }
    string_of(&out)
}

/// The line on memory: used, total and available.
pub open spec fn memory_text(total: u64, available: u64) -> Seq<char> {
    "RAM: 사용 "@ + gib_text((total - available) as u64) + " / 전체 "@ + gib_text(total) + " · 사용 가능 "@ + gib_text(
        available,
    )
}

/// The line on memory.
pub fn memory_line(total: u64, available: u64) -> (r: String)
    requires
        available <= total,
    ensures
        r@ == memory_text(total, available),
{
    let mut out = chars_of("RAM: 사용 ");
    push_all(&mut out, &chars_of(gib(total - available).as_str()));
    push_all(&mut out, &chars_of(" / 전체 "));
    push_all(&mut out, &chars_of(gib(total).as_str()));
    push_all(&mut out, &chars_of(" · 사용 가능 "));
    push_all(&mut out, &chars_of(gib(available).as_str()));
    string_of(&out)
}

/// The line on disk space: the caller's quota, what it may still use,
/// and the volume's free space.
pub open spec fn disk_text(caller_total: u64, caller_available: u64, volume_free: u64) -> Seq<char> {
    "Disk: 사용자 할당 전체 "@ + gib_text(caller_total) + " · 사용자 사용 가능 "@ + gib_text(caller_available)
        + " · 볼륨 free "@ + gib_text(volume_free)
}

/// The line on disk space.
pub fn disk_line(caller_total: u64, caller_available: u64, volume_free: u64) -> (r: String)
    ensures
        r@ == disk_text(caller_total, caller_available, volume_free),
{
    let mut out = chars_of("Disk: 사용자 할당 전체 ");
    push_all(&mut out, &chars_of(gib(caller_total).as_str()));
    push_all(&mut out, &chars_of(" · 사용자 사용 가능 "));
    push_all(&mut out, &chars_of(gib(caller_available).as_str()));
    push_all(&mut out, &chars_of(" · 볼륨 free "));
    push_all(&mut out, &chars_of(gib(volume_free).as_str()));
    string_of(&out)
}

} // verus!
