use crate::lifecycle::create_step;
use vstd::prelude::*;
use vstd::string::StringExecFns;

verus! {

/// An immutable point-in-time snapshot of the allocator-wide counters, in
/// bytes. It is assembled from six underlying queries against one live
/// facade and never mutated afterwards.
#[derive(Debug, Clone, Copy, PartialEq, Eq, Structural)]
pub struct MPSMemoryStats {
    pub total_allocated: usize,
    pub current_allocated: usize,
    pub driver_allocated: usize,
    pub recommended_max: usize,
    pub low_watermark_limit: usize,
    pub high_watermark_limit: usize,
}

/// The character for one decimal digit.
pub open spec fn digit_char(d: nat) -> char {
    if d == 0 {
        '0'
    } else if d == 1 {
        '1'
    } else if d == 2 {
        '2'
    } else if d == 3 {
        '3'
    } else if d == 4 {
        '4'
    } else if d == 5 {
        '5'
    } else if d == 6 {
        '6'
    } else if d == 7 {
        '7'
    } else if d == 8 {
        '8'
    } else {
        '9'
    }
}

/// The decimal digits of `n`, most significant first, with no leading zeros
/// except for `n == 0` itself.
pub open spec fn spec_decimal(n: nat) -> Seq<char>
    decreases n,
{
    if n < 10 {
        seq![digit_char(n)]
    } else {
        spec_decimal(n / 10).push(digit_char(n % 10))
    }
}

fn digit_str(d: usize) -> (r: &'static str)
    requires
        d < 10,
    ensures
        r@ == seq![digit_char(d as nat)],
{
    let r: &'static str = if d == 0 {
        "0"
    } else if d == 1 {
        "1"
    } else if d == 2 {
        "2"
    } else if d == 3 {
        "3"
    } else if d == 4 {
        "4"
    } else if d == 5 {
        "5"
    } else if d == 6 {
        "6"
    } else if d == 7 {
        "7"
    } else if d == 8 {
        "8"
    } else {
        "9"
    };
    proof {
        reveal_strlit("0");
        reveal_strlit("1");
        reveal_strlit("2");
        reveal_strlit("3");
        reveal_strlit("4");
        reveal_strlit("5");
        reveal_strlit("6");
        reveal_strlit("7");
        reveal_strlit("8");
        reveal_strlit("9");
        assert(r@ =~= seq![digit_char(d as nat)]);
    }
    r
}

fn decimal_string(n: usize) -> (s: String)
    ensures
        s@ == spec_decimal(n as nat),
    decreases n,
{
    if n < 10 {
        digit_str(n).to_owned()
    } else {
        let mut s = decimal_string(n / 10);
        s.append(digit_str(n % 10));
        proof {
            assert(s@ =~= spec_decimal(n as nat));
        }
        s
    }
}

impl MPSMemoryStats {
    /// The fixed multi-line rendering of a snapshot: a header, then the six
    /// counters in order (total, current, driver, recommended max, low
    /// limit, high limit), one per line, each ending in a byte-count suffix.
    pub open spec fn render_spec(self) -> Seq<char> {
        "MPS Memory Stats:\nTotal Allocated: "@ + spec_decimal(self.total_allocated as nat)
            + " bytes\nCurrent Allocated: "@ + spec_decimal(self.current_allocated as nat)
            + " bytes\nDriver Allocated: "@ + spec_decimal(self.driver_allocated as nat)
            + " bytes\nRecommended Max: "@ + spec_decimal(self.recommended_max as nat)
            + " bytes\nLow Watermark Limit: "@ + spec_decimal(self.low_watermark_limit as nat)
            + " bytes\nHigh Watermark Limit: "@ + spec_decimal(self.high_watermark_limit as nat)
            + " bytes"@
    }

    /// Renders the snapshot as its fixed multi-line report.
    pub fn render(&self) -> (s: String)
        ensures
            s@ == self.render_spec(),
    {
        let mut s = "MPS Memory Stats:\nTotal Allocated: ".to_owned();
        let total = decimal_string(self.total_allocated);
        s.append(total.as_str());
        s.append(" bytes\nCurrent Allocated: ");
        let current = decimal_string(self.current_allocated);
        s.append(current.as_str());
        s.append(" bytes\nDriver Allocated: ");
        let driver = decimal_string(self.driver_allocated);
        s.append(driver.as_str());
        s.append(" bytes\nRecommended Max: ");
        let recommended = decimal_string(self.recommended_max);
        s.append(recommended.as_str());
        s.append(" bytes\nLow Watermark Limit: ");
        let low = decimal_string(self.low_watermark_limit);
        s.append(low.as_str());
        s.append(" bytes\nHigh Watermark Limit: ");
        let high = decimal_string(self.high_watermark_limit);
        s.append(high.as_str());
        s.append(" bytes");
        proof {
            assert(s@ =~= self.render_spec());
        }
        s
    }
}

/// The snapshot the statistics entry point yields: absent exactly when the
/// creation request answered with a null handle, and otherwise a copy of the
/// six counter answers, unchanged.
pub open spec fn spec_memory_stats(
    raw_handle: usize,
    total_allocated: usize,
    current_allocated: usize,
    driver_allocated: usize,
    recommended_max: usize,
    low_watermark_limit: usize,
    high_watermark_limit: usize,
) -> Option<MPSMemoryStats> {
    if raw_handle == 0 {
        None
    } else {
        Some(
            MPSMemoryStats {
                total_allocated,
                current_allocated,
                driver_allocated,
                recommended_max,
                low_watermark_limit,
                high_watermark_limit,
            },
        )
    }
}

/// Assembles the statistics snapshot from the handle a creation request
/// answered with and the six counter answers read through it. A null handle
/// means the backend is unavailable and yields no snapshot; otherwise the
/// snapshot copies the six answers exactly.
pub fn mps_memory_stats(
    raw_handle: usize,
    total_allocated: usize,
    current_allocated: usize,
    driver_allocated: usize,
    recommended_max: usize,
    low_watermark_limit: usize,
    high_watermark_limit: usize,
) -> (r: Option<MPSMemoryStats>)
    ensures
        r == spec_memory_stats(
            raw_handle,
            total_allocated,
            current_allocated,
            driver_allocated,
            recommended_max,
            low_watermark_limit,
            high_watermark_limit,
        ),
        r is None <==> !(create_step(raw_handle) is Live),
{
    if raw_handle == 0 {
        None
    } else {
        Some(
            MPSMemoryStats {
                total_allocated,
                current_allocated,
                driver_allocated,
                recommended_max,
                low_watermark_limit,
                high_watermark_limit,
            },
        )
    }
}

/// The statistics snapshot is absent exactly when facade creation would
/// yield no facade, and a present snapshot copies the six underlying query
/// answers field for field.
pub proof fn lemma_stats_mirror_create(
    raw_handle: usize,
    total_allocated: usize,
    current_allocated: usize,
    driver_allocated: usize,
    recommended_max: usize,
    low_watermark_limit: usize,
    high_watermark_limit: usize,
)
    ensures
        (spec_memory_stats(
            raw_handle,
            total_allocated,
            current_allocated,
            driver_allocated,
            recommended_max,
            low_watermark_limit,
            high_watermark_limit,
        ) is None) <==> !(create_step(raw_handle) is Live),
        spec_memory_stats(
            raw_handle,
            total_allocated,
            current_allocated,
            driver_allocated,
            recommended_max,
            low_watermark_limit,
            high_watermark_limit,
        ) matches Some(st) ==> st == (MPSMemoryStats {
            total_allocated,
            current_allocated,
            driver_allocated,
            recommended_max,
            low_watermark_limit,
            high_watermark_limit,
        }),
{
}

} // verus!
