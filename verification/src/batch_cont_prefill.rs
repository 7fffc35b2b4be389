//! Batched prefill for warm continuations (`SP_KV_PREFILL_BATCH_CONT`).
//!
//! Design choice: **full re-batch**, not offset batch, with an optional
//! suffix-only arm. Pure helpers, so the threshold arithmetic and the flag
//! contract are stated and proved without a GPU.

use vstd::prelude::*;

verus! {

broadcast use {vstd::string::axiom_spec_iter, vstd::string::next_postcondition};

/// Env flag that arms warm-continuation batched prefill. Default-off: unset or
/// any value other than `"1"` leaves the prefill dispatch unchanged.
pub const FLAG_ENV: &'static str = "SP_KV_PREFILL_BATCH_CONT";

/// Minimum suffix length before any batch attempt is worth the setup cost.
pub const MIN_SUFFIX: usize = 64;

/// Measured batch throughput (ms/tok), used only for the win-threshold arithmetic.
pub const BATCH_MS_PER_TOK: usize = 13;

/// Measured per-token warm-suffix prefill (ms/tok), a mid-band estimate.
pub const PERTOK_MS_PER_TOK: usize = 80;

/// Snapshot/restore round-trip overhead budget (ms) of the full re-batch arm.
pub const SNAP_OVERHEAD_MS: usize = 200;

/// An env value arms a flag exactly when it is present and is the one-character
/// string `"1"`.
pub open spec fn flag_value_armed(val: Option<&str>) -> bool {
    val matches Some(s) && s@ == seq!['1']
}

/// Whether the string is exactly `"1"`.
fn is_one(s: &str) -> (r: bool)
    ensures
        r == (s@ == seq!['1']),
{
    let mut chars = s.chars();
    let first = chars.next();
    let second = chars.next();
    match first {
        Some(c) => {
            let r = c == '1' && second.is_none();
            proof {
                if r {
                    assert(s@ =~= seq!['1']);
                }
            }
            r
        },
        None => false,
    }
}

/// True when the env value is exactly `"1"`. Unset / `"0"` / anything else is off.
pub fn cont_flag_enabled(val: Option<&str>) -> (r: bool)
    ensures
        r == flag_value_armed(val),
        r <==> (val matches Some(s) && s@ == seq!['1']),
{
    match val {
        Some(s) => is_one(s),
        None => false,
    }
}

/// True when the env value is exactly `"1"`. Twin of [`cont_flag_enabled`] for
/// the suffix-arm flag.
pub fn suffix_flag_enabled(val: Option<&str>) -> (r: bool)
    ensures
        r == flag_value_armed(val),
        r <==> (val matches Some(s) && s@ == seq!['1']),
{
    match val {
        Some(s) => is_one(s),
        None => false,
    }
}

/// Env flag that upgrades the warm-continuation arm from full re-batch to a
/// suffix-only batch of the `n` new tokens against the live prefix.
/// Only meaningful when [`FLAG_ENV`] is also armed.
pub const SUFFIX_FLAG_ENV: &'static str = "SP_KV_PREFILL_BATCH_SUFFIX";

/// Measured suffix-batch forward rate (ms per suffix token).
pub const SUFFIX_MS_PER_TOK: usize = 22;

/// Measured snapshot->reset->restore overhead budget (ms) of the suffix arm.
pub const SUFFIX_SNAP_MS: usize = 500;

/// The larger of two integers.
pub open spec fn larger(a: int, b: int) -> int {
    if a >= b { a } else { b }
}

/// Threshold of the suffix arm: `SUFFIX_SNAP_MS / (PERTOK - SUFFIX_MS)`, floored
/// at [`MIN_SUFFIX`]; `usize::MAX` (never batch) when the suffix batch is not
/// faster per token than per-token prefill.
pub open spec fn suffix_threshold() -> int {
    if PERTOK_MS_PER_TOK <= SUFFIX_MS_PER_TOK {
        usize::MAX as int
    } else {
        larger(
            SUFFIX_SNAP_MS as int / (PERTOK_MS_PER_TOK - SUFFIX_MS_PER_TOK),
            MIN_SUFFIX as int,
        )
    }
}

/// Threshold of the full re-batch arm at prefix length `prefill_from`:
/// `(BATCH_MS * P + SNAP_OVERHEAD_MS) / (PERTOK - BATCH_MS)`, floored at
/// [`MIN_SUFFIX`]; `usize::MAX` (never batch) when batching is not faster per
/// token than per-token prefill.
pub open spec fn rebatch_threshold(prefill_from: int) -> int {
    if PERTOK_MS_PER_TOK <= BATCH_MS_PER_TOK {
        usize::MAX as int
    } else {
        larger(
            (BATCH_MS_PER_TOK * prefill_from + SNAP_OVERHEAD_MS) / (PERTOK_MS_PER_TOK
                - BATCH_MS_PER_TOK) as int,
            MIN_SUFFIX as int,
        )
    }
}

/// The suffix arm fires on warm turns whose suffix is strictly over its threshold.
pub open spec fn suffix_arm_fires(prefill_from: int, suffix_len: int) -> bool {
    prefill_from > 0 && suffix_len > suffix_threshold()
}

/// The full re-batch arm fires on warm turns whose suffix is strictly over the
/// threshold for that prefix.
pub open spec fn rebatch_arm_fires(prefill_from: int, suffix_len: int) -> bool {
    prefill_from > 0 && suffix_len > rebatch_threshold(prefill_from)
}

/// The combined dispatch decision of the warm-continuation batch arm.
pub open spec fn cont_dispatch(
    flag_on: bool,
    suffix_on: bool,
    single_entry: bool,
    prefill_from: int,
    suffix_len: int,
) -> bool {
    &&& flag_on
    &&& !single_entry
    &&& if suffix_on {
        suffix_arm_fires(prefill_from, suffix_len)
    } else {
        rebatch_arm_fires(prefill_from, suffix_len)
    }
}

/// The full re-batch threshold can be computed in `usize` for this prefix.
pub open spec fn rebatch_fits(prefill_from: int) -> bool {
    BATCH_MS_PER_TOK * prefill_from + SNAP_OVERHEAD_MS <= usize::MAX
}

/// The quotient `x / d` brackets `x` between `d * (x / d)` and the next multiple of `d`.
proof fn lemma_quotient_bracket(x: int, d: int)
    requires
        x >= 0,
        d > 0,
    ensures
        d * (x / d) <= x < d * (x / d) + d,
{
    vstd::arithmetic::div_mod::lemma_fundamental_div_mod(x, d);
    vstd::arithmetic::div_mod::lemma_mod_bound(x, d);
}

/// Minimum suffix at which the suffix batch beats per-token:
/// `SUFFIX_MS*n + SNAP < PERTOK*n  <=>  n > SNAP/(PERTOK-SUFFIX_MS)`, floored at
/// [`MIN_SUFFIX`].
pub fn suffix_batch_min_suffix() -> (r: usize)
    ensures
        r == suffix_threshold(),
        r == MIN_SUFFIX,
        !(r > MIN_SUFFIX && SUFFIX_MS_PER_TOK * r + SUFFIX_SNAP_MS < PERTOK_MS_PER_TOK * r),
        r + 1 > MIN_SUFFIX && SUFFIX_MS_PER_TOK * (r + 1) + SUFFIX_SNAP_MS < PERTOK_MS_PER_TOK * (r
            + 1),
{
    let denom = PERTOK_MS_PER_TOK.saturating_sub(SUFFIX_MS_PER_TOK);
    if denom == 0 {
        return usize::MAX;
    }
    let by_speed = SUFFIX_SNAP_MS / denom;
    proof {
        lemma_quotient_bracket(SUFFIX_SNAP_MS as int, denom as int);
        assert(denom == 58);
        assert(58 * by_speed <= 500);
    }
    if by_speed >= MIN_SUFFIX {
        by_speed
    } else {
        MIN_SUFFIX
    }
}

/// Whether the suffix arm is worth attempting. Warm turns only.
pub fn suffix_batch_wins(prefill_from: usize, suffix_len: usize) -> (r: bool)
    ensures
        r == suffix_arm_fires(prefill_from as int, suffix_len as int),
        r <==> (prefill_from > 0 && suffix_len > MIN_SUFFIX && SUFFIX_MS_PER_TOK * suffix_len
            + SUFFIX_SNAP_MS < PERTOK_MS_PER_TOK * suffix_len),
{
    prefill_from > 0 && suffix_len > suffix_batch_min_suffix()
}

/// Minimum suffix length at which a full re-batch of `prefill_from + n` tokens
/// is expected to beat per-token prefill of the `n`-token suffix alone:
/// `n > (BATCH_MS * P + SNAP_OVERHEAD_MS) / (PERTOK_MS - BATCH_MS)`, floored at
/// [`MIN_SUFFIX`].
pub fn full_rebatch_min_suffix(prefill_from: usize) -> (r: usize)
    requires
        rebatch_fits(prefill_from as int),
    ensures
        r == rebatch_threshold(prefill_from as int),
        r >= MIN_SUFFIX,
        !(r > MIN_SUFFIX && BATCH_MS_PER_TOK * (prefill_from + r) + SNAP_OVERHEAD_MS
            < PERTOK_MS_PER_TOK * r),
        r + 1 > MIN_SUFFIX && BATCH_MS_PER_TOK * (prefill_from + r + 1) + SNAP_OVERHEAD_MS
            < PERTOK_MS_PER_TOK * (r + 1),
{
    let denom = PERTOK_MS_PER_TOK.saturating_sub(BATCH_MS_PER_TOK);
    if denom == 0 {
        return usize::MAX;
    }
    let by_speed = (BATCH_MS_PER_TOK * prefill_from + SNAP_OVERHEAD_MS) / denom;
    proof {
        lemma_quotient_bracket((BATCH_MS_PER_TOK * prefill_from + SNAP_OVERHEAD_MS) as int, denom as int);
        assert(denom == 67);
        assert(67 * by_speed <= 13 * prefill_from + 200 < 67 * by_speed + 67);
    }
    if by_speed >= MIN_SUFFIX {
        by_speed
    } else {
        MIN_SUFFIX
    }
}

/// Whether a full re-batch of the entire head is expected to win over per-token
/// suffix prefill. A cold turn (`prefill_from == 0`) never takes this arm.
pub fn full_rebatch_wins(prefill_from: usize, suffix_len: usize) -> (r: bool)
    requires
        prefill_from > 0 ==> rebatch_fits(prefill_from as int),
    ensures
        r == rebatch_arm_fires(prefill_from as int, suffix_len as int),
        r <==> (prefill_from > 0 && suffix_len > MIN_SUFFIX && BATCH_MS_PER_TOK * (prefill_from
            + suffix_len) + SNAP_OVERHEAD_MS < PERTOK_MS_PER_TOK * suffix_len),
{
    if prefill_from == 0 {
        return false;
    }
    suffix_len > full_rebatch_min_suffix(prefill_from)
}

/// Combined dispatch predicate for the warm-continuation batch arm, over the
/// already-resolved flags.
pub fn want_batch_cont_gated(
    flag_on: bool,
    suffix_on: bool,
    single_entry: bool,
    prefill_from: usize,
    suffix_len: usize,
) -> (r: bool)
    requires
        flag_on && !suffix_on && !single_entry && prefill_from > 0 ==> rebatch_fits(
            prefill_from as int,
        ),
    ensures
        r == cont_dispatch(flag_on, suffix_on, single_entry, prefill_from as int, suffix_len as int),
        r <==> (flag_on && !single_entry && prefill_from > 0 && suffix_len > MIN_SUFFIX && if suffix_on {
            SUFFIX_MS_PER_TOK * suffix_len + SUFFIX_SNAP_MS < PERTOK_MS_PER_TOK * suffix_len
        } else {
            BATCH_MS_PER_TOK * (prefill_from + suffix_len) + SNAP_OVERHEAD_MS < PERTOK_MS_PER_TOK
                * suffix_len
        }),
{
    if !flag_on || single_entry {
        return false;
    }
    if suffix_on {
        suffix_batch_wins(prefill_from, suffix_len)
    } else {
        full_rebatch_wins(prefill_from, suffix_len)
    }
}

/// Dispatch predicate over the raw values of both env flags, each read once:
/// the continuation flag ([`FLAG_ENV`]) and the suffix flag ([`SUFFIX_FLAG_ENV`]).
pub fn want_batch_cont(
    cont_env: Option<&str>,
    suffix_env: Option<&str>,
    single_entry: bool,
    prefill_from: usize,
    suffix_len: usize,
) -> (r: bool)
    requires
        flag_value_armed(cont_env) && !flag_value_armed(suffix_env) && !single_entry
            && prefill_from > 0 ==> rebatch_fits(prefill_from as int),
    ensures
        r == cont_dispatch(
            flag_value_armed(cont_env),
            flag_value_armed(suffix_env),
            single_entry,
            prefill_from as int,
            suffix_len as int,
        ),
        r <==> ((cont_env matches Some(c) && c@ == seq!['1']) && !single_entry && prefill_from > 0
            && suffix_len > MIN_SUFFIX && if (suffix_env matches Some(v) && v@ == seq!['1']) {
            SUFFIX_MS_PER_TOK * suffix_len + SUFFIX_SNAP_MS < PERTOK_MS_PER_TOK * suffix_len
        } else {
            BATCH_MS_PER_TOK * (prefill_from + suffix_len) + SNAP_OVERHEAD_MS < PERTOK_MS_PER_TOK
                * suffix_len
        }),
{
    let flag_on = cont_flag_enabled(cont_env);
    let suffix_on = suffix_flag_enabled(suffix_env);
    want_batch_cont_gated(flag_on, suffix_on, single_entry, prefill_from, suffix_len)
}

/// Modeled cost (ms) of a full re-batch of `prefill_from + suffix_len` tokens
/// plus its snapshot round-trip.
pub open spec fn rebatch_cost(prefill_from: int, suffix_len: int) -> int {
    BATCH_MS_PER_TOK * (prefill_from + suffix_len) + SNAP_OVERHEAD_MS
}

/// Modeled cost (ms) of a suffix-only batch of `suffix_len` tokens plus its
/// snapshot round-trip.
pub open spec fn suffix_batch_cost(suffix_len: int) -> int {
    SUFFIX_MS_PER_TOK * suffix_len + SUFFIX_SNAP_MS
}

/// Modeled cost (ms) of per-token prefill of `suffix_len` tokens.
pub open spec fn pertok_cost(suffix_len: int) -> int {
    PERTOK_MS_PER_TOK * suffix_len
}

/// On a warm turn the full re-batch arm fires exactly when the suffix is over
/// [`MIN_SUFFIX`] and the modeled re-batch cost is strictly below the per-token
/// cost; a tie goes to the per-token path.
pub proof fn lemma_rebatch_fires_iff_cheaper(prefill_from: int, suffix_len: int)
    requires
        prefill_from > 0,
    ensures
        rebatch_arm_fires(prefill_from, suffix_len) <==> (suffix_len > MIN_SUFFIX
            && rebatch_cost(prefill_from, suffix_len) < pertok_cost(suffix_len)),
{
}

/// On a warm turn the suffix arm fires exactly when the suffix is over
/// [`MIN_SUFFIX`] and the modeled suffix-batch cost is strictly below the
/// per-token cost; a tie goes to the per-token path.
pub proof fn lemma_suffix_fires_iff_cheaper(prefill_from: int, suffix_len: int)
    requires
        prefill_from > 0,
    ensures
        suffix_arm_fires(prefill_from, suffix_len) <==> (suffix_len > MIN_SUFFIX
            && suffix_batch_cost(suffix_len) < pertok_cost(suffix_len)),
{
}

/// With the measured constants the binding floor of the suffix arm is
/// [`MIN_SUFFIX`] itself.
pub proof fn lemma_suffix_threshold_is_floor()
    ensures
        suffix_threshold() == MIN_SUFFIX,
{
}

/// The full re-batch threshold never drops below [`MIN_SUFFIX`], nor below the
/// suffix arm's threshold.
pub proof fn lemma_rebatch_threshold_floor(prefill_from: int)
    ensures
        rebatch_threshold(prefill_from) >= MIN_SUFFIX,
        rebatch_threshold(prefill_from) >= suffix_threshold(),
{
}

/// A longer committed prefix never lowers the full re-batch threshold.
pub proof fn lemma_rebatch_threshold_monotone(p1: int, p2: int)
    requires
        p1 <= p2,
    ensures
        rebatch_threshold(p1) <= rebatch_threshold(p2),
{
}

/// Lengthening the suffix never turns a batch decision off.
pub proof fn lemma_dispatch_monotone_in_suffix(
    flag_on: bool,
    suffix_on: bool,
    single_entry: bool,
    prefill_from: int,
    n1: int,
    n2: int,
)
    requires
        n1 <= n2,
        cont_dispatch(flag_on, suffix_on, single_entry, prefill_from, n1),
    ensures
        cont_dispatch(flag_on, suffix_on, single_entry, prefill_from, n2),
{
}

/// Arming the suffix flag only widens the trigger: whatever the full re-batch
/// arm takes, the suffix arm takes too.
pub proof fn lemma_suffix_arm_widens(
    flag_on: bool,
    single_entry: bool,
    prefill_from: int,
    suffix_len: int,
)
    ensures
        cont_dispatch(flag_on, false, single_entry, prefill_from, suffix_len) ==> cont_dispatch(
            flag_on,
            true,
            single_entry,
            prefill_from,
            suffix_len,
        ),
{
}

/// The flag off, the single-entry seam, or a cold turn each rule a batch out,
/// whatever the geometry.
pub proof fn lemma_dispatch_gates(
    flag_on: bool,
    suffix_on: bool,
    single_entry: bool,
    prefill_from: int,
    suffix_len: int,
)
    requires
        !flag_on || single_entry || prefill_from == 0,
    ensures
        !cont_dispatch(flag_on, suffix_on, single_entry, prefill_from, suffix_len),
{
}

/// With the continuation flag armed, the suffix flag off, no single-entry seam
/// and a warm prefix, the dispatch decision is true exactly when the suffix is
/// over [`MIN_SUFFIX`] and a full re-batch of prefix plus suffix,
/// `BATCH_MS_PER_TOK * (P + n) + SNAP_OVERHEAD_MS`, costs strictly less than
/// per-token prefill of the suffix, `PERTOK_MS_PER_TOK * n`.
pub proof fn lemma_cont_only_dispatch_iff_rebatch_cheaper(prefill_from: int, suffix_len: int)
    requires
        prefill_from > 0,
    ensures
        cont_dispatch(true, false, false, prefill_from, suffix_len) <==> (suffix_len > MIN_SUFFIX
            && BATCH_MS_PER_TOK * (prefill_from + suffix_len) + SNAP_OVERHEAD_MS
            < PERTOK_MS_PER_TOK * suffix_len),
{
}

/// With both flags armed, no single-entry seam and a warm prefix, the dispatch
/// decision is true exactly when the suffix is over [`MIN_SUFFIX`] and a
/// suffix-only batch, `SUFFIX_MS_PER_TOK * n + SUFFIX_SNAP_MS`, costs strictly
/// less than per-token prefill of the suffix, `PERTOK_MS_PER_TOK * n`.
pub proof fn lemma_suffix_dispatch_iff_suffix_batch_cheaper(prefill_from: int, suffix_len: int)
    requires
        prefill_from > 0,
    ensures
        cont_dispatch(true, true, false, prefill_from, suffix_len) <==> (suffix_len > MIN_SUFFIX
            && SUFFIX_MS_PER_TOK * suffix_len + SUFFIX_SNAP_MS < PERTOK_MS_PER_TOK * suffix_len),
{
}

} // verus!
