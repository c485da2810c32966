//! Development server helpers: log timestamps and the request check of
//! the kernel download endpoint. The network and file handling are the
//! server program's.
use vstd::prelude::*;
use std::time::{Duration, SystemTime};
use vstd::string::StrSliceExecFns;
use vstd::string::StringExecFns;
use crate::render::{push_two_digits, spec_two_digits};

verus! {

#[verifier::external_type_specification]
#[verifier::external_body]
pub struct ExSystemTime(SystemTime);

/// `std::time::SystemTime::now`: the current wall-clock time. Nothing is
/// promised of its value.
#[verifier::external_body]
fn system_now() -> (t: SystemTime) {
    SystemTime::now()
}

/// `SystemTime::duration_since(UNIX_EPOCH)`: the time elapsed since the
/// epoch, `None` when `t` lies before it. Nothing more is promised of the
/// value, which depends on the clock.
#[verifier::external_body]
fn duration_since_epoch(t: &SystemTime) -> (d: Option<Duration>) {
    t.duration_since(SystemTime::UNIX_EPOCH).ok()
}

/// `Duration::as_secs`: the whole seconds of `d`; `Duration` is opaque
/// here, so nothing is promised of the value.
#[verifier::external_body]
fn duration_secs(d: &Duration) -> (s: u64) {
    d.as_secs()
}

/// `HH:MM:SS` for the given hours, minutes and seconds (each below 100).
pub open spec fn spec_clock(h: u64, m: u64, s: u64) -> Seq<char> {
    spec_two_digits(h) + seq![':'] + spec_two_digits(m) + seq![':'] + spec_two_digits(s)
}

/// The time of day (UTC) `secs` seconds after the epoch, as `HH:MM:SS`.
pub fn format_timestamp(secs: u64) -> (r: String)
    ensures
        r@ == spec_clock((secs / 3600) % 24, (secs / 60) % 60, secs % 60),
        r@.len() == 8,
        r@[2] == ':' && r@[5] == ':',
{
    proof {
        reveal_strlit(":");
    }
    let mut out = String::new();
    push_two_digits(&mut out, (secs / 3600) % 24);
    out.append(":");
    push_two_digits(&mut out, (secs / 60) % 60);
    out.append(":");
    push_two_digits(&mut out, secs % 60);
    out
}

/// The current time of day (UTC) as `HH:MM:SS`; a clock set before 1970
/// reads as midnight.
pub fn current_timestamp() -> (r: String)
    ensures
        r@.len() == 8,
        r@[2] == ':' && r@[5] == ':',
        exists|secs: u64| r@ == #[trigger] spec_clock((secs / 3600) % 24, (secs / 60) % 60, secs % 60),
{
    let now = system_now();
    let secs = match duration_since_epoch(&now) {
        Some(d) => duration_secs(&d),
        None => 0,
    };
    format_timestamp(secs)
}

/// Whether a request line asks for the kernel: it starts with
/// `GET /kernel`.
pub fn is_kernel_request(line: &str) -> (b: bool)
    ensures
        b == (line@.len() >= 11 && line@.subrange(0, 11) == "GET /kernel"@),
{
    let prefix = "GET /kernel";
    proof {
        reveal_strlit("GET /kernel");
    }
    let n = line.unicode_len();
    if n < 11 {
        return false;
    }
    let mut i: usize = 0;
    while i < 11
        invariant
            n == line@.len(),
            n >= 11,
            prefix@ == "GET /kernel"@,
            prefix@.len() == 11,
            0 <= i <= 11,
            forall|j: int| 0 <= j < i ==> #[trigger] line@[j] == prefix@[j],
        decreases 11 - i,
    {
        if line.get_char(i) != prefix.get_char(i) {
            proof {
                assert(line@.subrange(0, 11)[i as int] != prefix@[i as int]);
            }
            return false;
        }
        i = i + 1;
    }
    assert(line@.subrange(0, 11) =~= prefix@);
    true
}

/// Whether a line from the shell is its prompt, which ends a command's
/// output.
pub fn is_prompt(line: &str) -> (b: bool)
    ensures
        b == (line@.len() >= 9 && line@.subrange(0, 9) == "daedalus>"@),
{
    let prefix = "daedalus>";
    proof {
        reveal_strlit("daedalus>");
    }
    let n = line.unicode_len();
    if n < 9 {
        return false;
    }
    let mut i: usize = 0;
    while i < 9
        invariant
            n == line@.len(),
            n >= 9,
            prefix@ == "daedalus>"@,
            prefix@.len() == 9,
            0 <= i <= 9,
            forall|j: int| 0 <= j < i ==> #[trigger] line@[j] == prefix@[j],
        decreases 9 - i,
    {
        if line.get_char(i) != prefix.get_char(i) {
            proof {
                assert(line@.subrange(0, 9)[i as int] != prefix@[i as int]);
            }
            return false;
        }
        i = i + 1;
    }
    assert(line@.subrange(0, 9) =~= prefix@);
    true
}

} // verus!
