//! Tolerance matching of a (beep, gap) duration pair against the ordered
//! status reference table.

use vstd::prelude::*;
use crate::status::Status;

verus! {

/// Greatest number of measurements kept in each duration history.
pub const MAX_ENTRIES: usize = 10;

/// Milliseconds without an edge after which the current phase is considered
/// stalled and classified from the timeout alone.
pub const TIMEOUT_DURATION_MS: u64 = 3000;

/// A zero duration, in milliseconds.
pub const ZERO_DURATION_MS: u64 = 0;

/// Longest beep still treated as bounce rather than a real beep, in
/// milliseconds. Doubles as the absolute matching tolerance for table rows
/// whose target beep duration is zero.
pub const BEEP_BOUNCE_MAX_DURATION_MS: u64 = 50;

/// Longest gap still treated as bounce rather than a real gap, in
/// milliseconds. Doubles as the absolute matching tolerance for table rows
/// whose target gap duration is zero.
pub const INTER_BEEP_BOUNCE_MAX_DURATION_MS: u64 = 300;

/// Relative matching tolerance for nonzero targets, as the exact ratio
/// `ERROR_MARGIN_NUMER / ERROR_MARGIN_DENOM` (5%).
pub const ERROR_MARGIN_NUMER: u64 = 5;

/// Denominator of the relative matching tolerance.
pub const ERROR_MARGIN_DENOM: u64 = 100;

/// Target duration of a normal-length beep, in milliseconds.
pub const TARGET_NORMAL_BEEP_DURATION_MS: u64 = 250;

/// Target duration of a long beep, in milliseconds.
pub const TARGET_LONG_BEEP_DURATION_MS: u64 = 2000;

/// Number of rows in the status reference table.
pub const TABLE_LEN: usize = 10;

/// Whether a measured duration is within tolerance of a target duration:
/// strictly within the relative error margin of a nonzero target, or
/// strictly under the absolute tolerance when the target is zero (where a
/// relative margin is undefined).
pub open spec fn spec_close_enough(actual: int, target: int, max_absolute_bounce: int) -> bool {
    if target == 0 {
        actual < max_absolute_bounce
    } else {
        let diff = if actual >= target { actual - target } else { target - actual };
        ERROR_MARGIN_DENOM * diff < ERROR_MARGIN_NUMER * target
    }
}

/// Returns whether `duration` is within tolerance of `target`: within the
/// 5% relative error margin when `target` is nonzero, and strictly under
/// `max_absolute_bounce` when `target` is zero.
pub fn close_enough(duration: u64, target: u64, max_absolute_bounce: u64) -> (r: bool)
    ensures
        r == spec_close_enough(duration as int, target as int, max_absolute_bounce as int),
{
    if target == 0 {
        duration < max_absolute_bounce
    } else {
        let diff: u64 = if duration >= target {
            duration - target
        } else {
            target - duration
        };
        (diff as u128) * 100 < (target as u128) * 5
    }
}

/// Row `i` of the status reference table: a status and its target
/// (beep duration, gap duration) signature in milliseconds. The declaration
/// order is significant: the first row that tolerance-matches wins.
pub open spec fn spec_table_row(i: int) -> (Status, u64, u64) {
    if i == 0 {
        (Status::OnBattery, TARGET_NORMAL_BEEP_DURATION_MS, 60000u64)
    } else if i == 1 {
        (Status::LowOnBattery, TARGET_NORMAL_BEEP_DURATION_MS, 1000u64)
    } else if i == 2 {
        (Status::NoLoadOnBattery, TARGET_NORMAL_BEEP_DURATION_MS, 10000u64)
    } else if i == 3 {
        (Status::OverloadOrShortCircuitOnBattery, TARGET_NORMAL_BEEP_DURATION_MS, 2000u64)
    } else if i == 4 {
        (Status::OverloadOrShortCircuitOnMains, TARGET_LONG_BEEP_DURATION_MS, 2000u64)
    } else if i == 5 {
        (Status::AdvanceLowRuntimeOnMains, TARGET_LONG_BEEP_DURATION_MS, 13000u64)
    } else if i == 6 {
        (Status::OverTemperatureOnMains, TARGET_NORMAL_BEEP_DURATION_MS, 4000u64)
    } else if i == 7 {
        (Status::OnMains, ZERO_DURATION_MS, TIMEOUT_DURATION_MS)
    } else if i == 8 {
        (Status::OverTemperatureOnBatteryOrInternalError, TIMEOUT_DURATION_MS, ZERO_DURATION_MS)
    } else if i == 9 {
        (Status::ReplaceBattery, TARGET_LONG_BEEP_DURATION_MS, 40000u64)
    } else {
        (Status::Unknown, ZERO_DURATION_MS, ZERO_DURATION_MS)
    }
}

/// Returns row `i` of the status reference table.
pub fn table_row(i: usize) -> (r: (Status, u64, u64))
    requires
        i < TABLE_LEN,
    ensures
        r == spec_table_row(i as int),
{
    if i == 0 {
        (Status::OnBattery, TARGET_NORMAL_BEEP_DURATION_MS, 60000u64)
    } else if i == 1 {
        (Status::LowOnBattery, TARGET_NORMAL_BEEP_DURATION_MS, 1000u64)
    } else if i == 2 {
        (Status::NoLoadOnBattery, TARGET_NORMAL_BEEP_DURATION_MS, 10000u64)
    } else if i == 3 {
        (Status::OverloadOrShortCircuitOnBattery, TARGET_NORMAL_BEEP_DURATION_MS, 2000u64)
    } else if i == 4 {
        (Status::OverloadOrShortCircuitOnMains, TARGET_LONG_BEEP_DURATION_MS, 2000u64)
    } else if i == 5 {
        (Status::AdvanceLowRuntimeOnMains, TARGET_LONG_BEEP_DURATION_MS, 13000u64)
    } else if i == 6 {
        (Status::OverTemperatureOnMains, TARGET_NORMAL_BEEP_DURATION_MS, 4000u64)
    } else if i == 7 {
        (Status::OnMains, ZERO_DURATION_MS, TIMEOUT_DURATION_MS)
    } else if i == 8 {
        (Status::OverTemperatureOnBatteryOrInternalError, TIMEOUT_DURATION_MS, ZERO_DURATION_MS)
    } else {
        (Status::ReplaceBattery, TARGET_LONG_BEEP_DURATION_MS, 40000u64)
    }
}

/// Whether the (beep, gap) pair tolerance-matches row `i` of the reference
/// table: both the beep and the gap duration must be close enough to the
/// row's targets.
pub open spec fn spec_row_matches(beep: int, gap: int, i: int) -> bool {
    &&& spec_close_enough(beep, spec_table_row(i).1 as int, BEEP_BOUNCE_MAX_DURATION_MS as int)
    &&& spec_close_enough(gap, spec_table_row(i).2 as int, INTER_BEEP_BOUNCE_MAX_DURATION_MS as int)
}

/// The status of the first row at index `i` or later that tolerance-matches
/// the (beep, gap) pair, or `Unknown` when none does.
pub open spec fn spec_classify_from(beep: int, gap: int, i: int) -> Status
    decreases TABLE_LEN as int - i,
{
    if i < 0 || i >= TABLE_LEN as int {
        Status::Unknown
    } else if spec_row_matches(beep, gap, i) {
        spec_table_row(i).0
    } else {
        spec_classify_from(beep, gap, i + 1)
    }
}

/// The status decoded from a (beep, gap) duration pair: the status of the
/// first reference-table row both of whose targets are tolerance-matched,
/// or `Unknown` when no row matches.
pub open spec fn spec_classify(beep: int, gap: int) -> Status {
    spec_classify_from(beep, gap, 0)
}

/// Returns the status decoded from the (beep, gap) duration pair, in
/// milliseconds: the reference table is scanned in declaration order and the
/// first row whose beep and gap targets are both tolerance-matched wins;
/// when no row matches, the result is `Unknown`.
pub fn get_status_from_beep_durations(beep: u64, inter_beep: u64) -> (r: Status)
    ensures
        r == spec_classify(beep as int, inter_beep as int),
{
    let mut i: usize = 0;
    while i < TABLE_LEN
        invariant
            i <= TABLE_LEN,
            spec_classify(beep as int, inter_beep as int)
                == spec_classify_from(beep as int, inter_beep as int, i as int),
        decreases TABLE_LEN - i,
    {
        let row = table_row(i);
        let beep_ok = close_enough(beep, row.1, BEEP_BOUNCE_MAX_DURATION_MS);
        let gap_ok = close_enough(inter_beep, row.2, INTER_BEEP_BOUNCE_MAX_DURATION_MS);
        if beep_ok && gap_ok {
            return row.0;
        }
        i = i + 1;
    }
    Status::Unknown
}

/// Table order decides ties: when row `i` tolerance-matches the pair and no
/// earlier row does, the classifier returns row `i`'s status, whatever later
/// rows would match.
pub proof fn lemma_classify_first_match(beep: int, gap: int, i: int)
    requires
        0 <= i < TABLE_LEN as int,
        spec_row_matches(beep, gap, i),
        forall|j: int| 0 <= j < i ==> !spec_row_matches(beep, gap, j),
    ensures
        spec_classify(beep, gap) == spec_table_row(i).0,
{
    lemma_classify_from_first_match(beep, gap, 0, i);
}

proof fn lemma_classify_from_first_match(beep: int, gap: int, k: int, i: int)
    requires
        0 <= k <= i < TABLE_LEN as int,
        spec_row_matches(beep, gap, i),
        forall|j: int| k <= j < i ==> !spec_row_matches(beep, gap, j),
    ensures
        spec_classify_from(beep, gap, k) == spec_table_row(i).0,
    decreases i - k,
{
    if k < i {
        assert(!spec_row_matches(beep, gap, k));
        lemma_classify_from_first_match(beep, gap, k + 1, i);
    }
}

/// When no reference-table row tolerance-matches the pair, the classifier
/// returns `Unknown`.
pub proof fn lemma_classify_no_match(beep: int, gap: int)
    requires
        forall|j: int| 0 <= j < TABLE_LEN as int ==> !spec_row_matches(beep, gap, j),
    ensures
        spec_classify(beep, gap) == Status::Unknown,
{
    lemma_classify_from_no_match(beep, gap, 0);
}

proof fn lemma_classify_from_no_match(beep: int, gap: int, k: int)
    requires
        0 <= k <= TABLE_LEN as int,
        forall|j: int| k <= j < TABLE_LEN as int ==> !spec_row_matches(beep, gap, j),
    ensures
        spec_classify_from(beep, gap, k) == Status::Unknown,
    decreases TABLE_LEN as int - k,
{
    if k < TABLE_LEN as int {
        assert(!spec_row_matches(beep, gap, k));
        lemma_classify_from_no_match(beep, gap, k + 1);
    }
}

/// Round trip tolerance: each reference-table row's exact target pair
/// classifies back to that row's own status. No earlier row shadows any
/// later row on its exact targets.
pub proof fn lemma_round_trip(i: int)
    requires
        0 <= i < TABLE_LEN as int,
    ensures
        spec_classify(spec_table_row(i).1 as int, spec_table_row(i).2 as int)
            == spec_table_row(i).0,
{
    reveal_with_fuel(spec_classify_from, 11);
    if i == 0 {
        assert(spec_classify(250, 60000) == Status::OnBattery);
    } else if i == 1 {
        assert(spec_classify(250, 1000) == Status::LowOnBattery);
    } else if i == 2 {
        assert(spec_classify(250, 10000) == Status::NoLoadOnBattery);
    } else if i == 3 {
        assert(spec_classify(250, 2000) == Status::OverloadOrShortCircuitOnBattery);
    } else if i == 4 {
        assert(spec_classify(2000, 2000) == Status::OverloadOrShortCircuitOnMains);
    } else if i == 5 {
        assert(spec_classify(2000, 13000) == Status::AdvanceLowRuntimeOnMains);
    } else if i == 6 {
        assert(spec_classify(250, 4000) == Status::OverTemperatureOnMains);
    } else if i == 7 {
        assert(spec_classify(0, 3000) == Status::OnMains);
    } else if i == 8 {
        assert(spec_classify(3000, 0) == Status::OverTemperatureOnBatteryOrInternalError);
    } else {
        assert(spec_classify(2000, 40000) == Status::ReplaceBattery);
    }
}

} // verus!
