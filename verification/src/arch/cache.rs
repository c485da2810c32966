//! Which cache lines cover a memory range: the address arithmetic of
//! cache maintenance by virtual address (the maintenance instructions
//! themselves are issued by the caller, one per line).
use vstd::prelude::*;

verus! {

/// Size of a data cache line in bytes (Cortex-A72).
pub const CACHE_LINE_SIZE: u64 = 64;

/// `a` rounded down to a cache line boundary.
pub open spec fn spec_line_down(a: int) -> int {
    a - a % 64
}

/// `a` rounded up to a cache line boundary.
pub open spec fn spec_line_up(a: int) -> int {
    if a % 64 == 0 { a } else { a - a % 64 + 64 }
}

/// The index, among the lines from `start`'s, of the line holding `a`.
pub open spec fn spec_line_of(start: int, a: int) -> int {
    (a - spec_line_down(start)) / 64
}

/// The start addresses of the cache lines that cover the `length` bytes
/// from `start`, in increasing order: from `start` rounded down to the
/// end rounded up, one line apart.
pub fn cache_lines(start: u64, length: u64) -> (lines: Vec<u64>)
    requires
        start + length + 63 <= u64::MAX,
    ensures
        lines.len() == (spec_line_up(start + length) - spec_line_down(start as int)) / 64,
        forall|i: int| 0 <= i < lines.len() ==> #[trigger] lines@[i] == spec_line_down(start as int) + 64 * i,
        forall|a: int| start <= a < start + length ==> {
            let i = #[trigger] spec_line_of(start as int, a);
            &&& 0 <= i < lines.len()
            &&& lines@[i] <= a < lines@[i] + 64
        },
{
    let end = start + length;
    let first = start & !63u64;
    let up = end + 63;
    let last = up & !63u64;
    assert(start & 63u64 == start % 64) by (bit_vector);
    assert(up & 63u64 == up % 64) by (bit_vector);
    assert(first == start - (start & 63u64)) by (bit_vector)
        requires
            first == start & !63u64;
    assert(last == up - (up & 63u64)) by (bit_vector)
        requires
            last == up & !63u64;
    let mut lines: Vec<u64> = Vec::new();
    let mut line = first;
    while line < last
        invariant
            first == spec_line_down(start as int),
            last == spec_line_up(end as int),
            end == start + length,
            first <= line <= last,
            (line - first) % 64 == 0,
            last % 64 == 0,
            first % 64 == 0,
            lines.len() == (line - first) / 64,
            forall|i: int| 0 <= i < lines.len() ==> #[trigger] lines@[i] == first + 64 * i,
        decreases last - line,
    {
        lines.push(line);
        line = line + 64;
    }
    proof {
        assert forall|a: int| start <= a < start + length implies {
            let i = #[trigger] spec_line_of(start as int, a);
            &&& 0 <= i < lines.len()
            &&& lines@[i] <= a < lines@[i] + 64
        } by {
            let i = (a - first) / 64;
            assert(first + 64 * i <= a < first + 64 * i + 64) by (nonlinear_arith)
                requires i == (a - first) / 64, a >= first;
        }
    }
    lines
}

} // verus!
