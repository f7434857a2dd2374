//! The leaky-bucket admission algorithm.
//!
//! A bucket accumulates one unit of fill per admitted request and drains
//! continuously at `leak_per_sec` units per second; a request is denied when
//! admitting it would push the fill above `capacity`. Fill is kept in
//! thousandths of a unit so that draining by milliseconds is exact integer
//! arithmetic. The bucket for a key lives in a shared counter store; the
//! store evaluates one whole check atomically, so concurrent checks for one
//! key behave as if run one after the other, which is how the paired lemmas
//! below speak of concurrency.

use vstd::prelude::*;
use vstd::arithmetic::div_mod::lemma_fundamental_div_mod;
use vstd::arithmetic::mul::lemma_mul_inequality;
use vstd::arithmetic::mul::lemma_mul_is_distributive_add_other_way;
use vstd::string::StringExecFns;

verus! {

/// Process-wide limiter configuration, immutable after startup.
#[derive(Clone, Copy, Debug, PartialEq, Eq, Structural)]
pub struct LimiterConfig {
    /// Bucket size, in requests.
    pub capacity: u32,
    /// Drain rate, in requests per second.
    pub leak_per_sec: u32,
}

impl LimiterConfig {
    /// The configuration invariant: the bucket must actually drain.
    pub open spec fn wf(self) -> bool {
        self.leak_per_sec >= 1
    }

    /// The capacity expressed in thousandths of a unit.
    pub open spec fn cap_milli(self) -> int {
        self.capacity * 1000
    }

    pub fn new(capacity: u32, leak_per_sec: u32) -> (c: Self)
        requires
            leak_per_sec >= 1,
        ensures
            c == (LimiterConfig { capacity, leak_per_sec }),
            c.wf(),
    {
        LimiterConfig { capacity, leak_per_sec }
    }

    /// The startup shorthand: a rate of `rps` requests per second with a
    /// burst allowance of the same size.
    pub fn from_rps(rps: u32) -> (c: Self)
        requires
            rps >= 1,
        ensures
            c == (LimiterConfig { capacity: rps, leak_per_sec: rps }),
            c.wf(),
    {
        LimiterConfig { capacity: rps, leak_per_sec: rps }
    }
}

/// The per-key state held in the counter store: accumulated fill (in
/// thousandths of a unit) and the instant it was last brought up to date.
#[derive(Clone, Copy, Debug, PartialEq, Eq, Structural)]
pub struct Bucket {
    pub fill_milli: u64,
    pub last_update_ms: u64,
}

impl Bucket {
    /// The state a key has before its first check: empty, as of now.
    pub open spec fn spec_fresh(now_ms: u64) -> Bucket {
        Bucket { fill_milli: 0, last_update_ms: now_ms }
    }

    pub fn fresh(now_ms: u64) -> (b: Bucket)
        ensures
            b == Bucket::spec_fresh(now_ms),
    {
        Bucket { fill_milli: 0, last_update_ms: now_ms }
    }

    /// A stored bucket never holds more than the configured capacity;
    /// every state this module writes satisfies it.
    pub open spec fn wf(self, cfg: LimiterConfig) -> bool {
        self.fill_milli <= cfg.cap_milli()
    }
}

/// Milliseconds since the bucket was last updated, clamped at zero so that
/// clock skew between distributed callers never produces negative leakage.
pub open spec fn elapsed_ms(b: Bucket, now_ms: u64) -> int {
    if now_ms >= b.last_update_ms {
        now_ms - b.last_update_ms
    } else {
        0
    }
}

/// How much fill (in thousandths) has drained since the last update.
pub open spec fn leaked_milli(cfg: LimiterConfig, b: Bucket, now_ms: u64) -> int {
    elapsed_ms(b, now_ms) * cfg.leak_per_sec
}

/// The fill once elapsed drainage is credited, clamped at empty.
pub open spec fn decayed_fill(cfg: LimiterConfig, b: Bucket, now_ms: u64) -> int {
    if b.fill_milli >= leaked_milli(cfg, b, now_ms) {
        b.fill_milli - leaked_milli(cfg, b, now_ms)
    } else {
        0
    }
}

/// The admission decision: one more unit must still fit under the capacity.
pub open spec fn admits(cfg: LimiterConfig, b: Bucket, now_ms: u64) -> bool {
    decayed_fill(cfg, b, now_ms) + 1000 <= cfg.cap_milli()
}

/// The state persisted by a check: the decayed fill, plus one unit when the
/// request was admitted, and the timestamp brought up to now. Decay is
/// persisted even on denial, so idle time is credited regardless of outcome.
pub open spec fn bucket_after(cfg: LimiterConfig, b: Bucket, now_ms: u64) -> Bucket {
    Bucket {
        fill_milli: if admits(cfg, b, now_ms) {
            (decayed_fill(cfg, b, now_ms) + 1000) as u64
        } else {
            decayed_fill(cfg, b, now_ms) as u64
        },
        last_update_ms: now_ms,
    }
}

/// What the store hands back for a key: its bucket, or, when the key is
/// absent (never seen, or expired), the fresh state as of now.
pub open spec fn from_store(state: Option<Bucket>, now_ms: u64) -> Bucket {
    match state {
        Option::None => Bucket::spec_fresh(now_ms),
        Option::Some(b) => b,
    }
}

/// One admission check: decide whether one unit of work may proceed for the
/// key whose stored state is `state`, and produce the bucket to persist.
/// The counter store must evaluate this read-decay-decide-write sequence as
/// a single atomic operation per key.
pub fn check(cfg: &LimiterConfig, state: Option<Bucket>, now_ms: u64) -> (r: (bool, Bucket))
    requires
        cfg.wf(),
    ensures
        r.0 == admits(*cfg, from_store(state, now_ms), now_ms),
        r.1 == bucket_after(*cfg, from_store(state, now_ms), now_ms),
        r.0 ==> r.1.wf(*cfg),
        from_store(state, now_ms).wf(*cfg) ==> r.1.wf(*cfg),
{
    let b = match state {
        Option::Some(b) => b,
        Option::None => Bucket { fill_milli: 0, last_update_ms: now_ms },
    };
    let elapsed: u64 = if now_ms >= b.last_update_ms {
        now_ms - b.last_update_ms
    } else {
        0
    };
    assert((elapsed as u128) * (cfg.leak_per_sec as u128) <= (u64::MAX as u128) * (u32::MAX
        as u128)) by {
        vstd::arithmetic::mul::lemma_mul_upper_bound(
            elapsed as int,
            u64::MAX as int,
            cfg.leak_per_sec as int,
            u32::MAX as int,
        );
    }
    let leaked: u128 = (elapsed as u128) * (cfg.leak_per_sec as u128);
    let decayed: u64 = if (b.fill_milli as u128) >= leaked {
        b.fill_milli - (leaked as u64)
    } else {
        0
    };
    let cap_m: u64 = (cfg.capacity as u64) * 1000;
    if (decayed as u128) + 1000 <= (cap_m as u128) {
        (true, Bucket { fill_milli: decayed + 1000, last_update_ms: now_ms })
    } else {
        (false, Bucket { fill_milli: decayed, last_update_ms: now_ms })
    }
}

/// Rounded-up integer division.
pub open spec fn spec_ceil_div(a: int, b: int) -> int {
    (a + b - 1) / b
}

/// Seconds of inactivity after which a key's stored state may expire:
/// one more than the time a full bucket needs to drain completely, so an
/// entry never expires while it still holds fill.
pub open spec fn spec_ttl_secs(cfg: LimiterConfig) -> int {
    spec_ceil_div(cfg.capacity as int, cfg.leak_per_sec as int) + 1
}

pub fn ttl_secs(cfg: &LimiterConfig) -> (t: u64)
    requires
        cfg.wf(),
    ensures
        t == spec_ttl_secs(*cfg),
{
    ((cfg.capacity as u64) + (cfg.leak_per_sec as u64) - 1) / (cfg.leak_per_sec as u64) + 1
}

/// The fixed namespace prefix under which a key's bucket is stored.
pub fn store_key(key: &str) -> (r: String)
    ensures
        r@ == "rl:"@ + key@,
{
    let mut s = String::from_str("rl:");
    s.append(key);
    s
}

/// The fill after `n` checks at one instant on a bucket that started fresh:
/// each of the first `capacity` checks admits and adds one unit.
pub open spec fn bucket_after_n(cfg: LimiterConfig, b: Bucket, now_ms: u64, n: nat) -> Bucket
    decreases n,
{
    if n == 0 {
        b
    } else {
        bucket_after(cfg, bucket_after_n(cfg, b, now_ms, (n - 1) as nat), now_ms)
    }
}

proof fn lemma_burst_fill(cfg: LimiterConfig, now_ms: u64, n: nat)
    requires
        cfg.wf(),
        n <= cfg.capacity,
    ensures
        bucket_after_n(cfg, Bucket::spec_fresh(now_ms), now_ms, n).fill_milli == n * 1000,
        bucket_after_n(cfg, Bucket::spec_fresh(now_ms), now_ms, n).last_update_ms == now_ms,
    decreases n,
{
    if n > 0 {
        lemma_burst_fill(cfg, now_ms, (n - 1) as nat);
    }
}

/// For a key never seen before, each of the first `capacity` checks in a
/// negligible window (one instant) admits, and the next one is denied.
pub proof fn lemma_fresh_key_burst(cfg: LimiterConfig, now_ms: u64, n: nat)
    requires
        cfg.wf(),
        n <= cfg.capacity,
    ensures
        admits(cfg, bucket_after_n(cfg, Bucket::spec_fresh(now_ms), now_ms, n), now_ms) <==> n
            < cfg.capacity,
{
    lemma_burst_fill(cfg, now_ms, n);
}

/// Monotone leak: whatever level a denial left the bucket at, once at least
/// `1/leak_per_sec` seconds have passed, the next check admits.
pub proof fn lemma_denied_then_wait_admits(cfg: LimiterConfig, b: Bucket, now_ms: u64)
    requires
        cfg.wf(),
        cfg.capacity >= 1,
        b.wf(cfg),
        b.fill_milli + 1000 > cfg.cap_milli(),
        now_ms >= b.last_update_ms,
        (now_ms - b.last_update_ms) * cfg.leak_per_sec >= 1000,
    ensures
        admits(cfg, b, now_ms),
{
}

/// Waiting exactly one leak interval after a denial at a full bucket admits
/// one more unit and no more: the check right after that admission denies.
pub proof fn lemma_exactly_one_more_unit(cfg: LimiterConfig, b: Bucket, now_ms: u64)
    requires
        cfg.wf(),
        cfg.capacity >= 1,
        b.fill_milli == cfg.cap_milli(),
        now_ms >= b.last_update_ms,
        (now_ms - b.last_update_ms) * cfg.leak_per_sec >= 1000,
        (now_ms - b.last_update_ms) * cfg.leak_per_sec < 2000,
    ensures
        admits(cfg, b, now_ms),
        !admits(cfg, bucket_after(cfg, b, now_ms), now_ms),
{
}

/// No over-admission: with exactly one unit of room left, two checks that the
/// store serializes at the same instant admit exactly once — the first
/// succeeds and the second, run on the state the first wrote, is denied.
pub proof fn lemma_no_over_admission(cfg: LimiterConfig, b: Bucket, now_ms: u64)
    requires
        cfg.wf(),
        decayed_fill(cfg, b, now_ms) + 1000 <= cfg.cap_milli(),
        decayed_fill(cfg, b, now_ms) + 2000 > cfg.cap_milli(),
    ensures
        admits(cfg, b, now_ms),
        !admits(cfg, bucket_after(cfg, b, now_ms), now_ms),
{
}

/// A key idle at least its expiry time behaves exactly as one never seen:
/// the bucket has fully drained, so the next check decides and persists the
/// same as a first-ever check — whether or not the store already dropped it.
pub proof fn lemma_idle_key_resets(cfg: LimiterConfig, b: Bucket, now_ms: u64)
    requires
        cfg.wf(),
        b.wf(cfg),
        now_ms >= b.last_update_ms,
        now_ms - b.last_update_ms >= spec_ttl_secs(cfg) * 1000,
    ensures
        admits(cfg, b, now_ms) == admits(cfg, Bucket::spec_fresh(now_ms), now_ms),
        bucket_after(cfg, b, now_ms) == bucket_after(cfg, Bucket::spec_fresh(now_ms), now_ms),
{
    let cap = cfg.capacity as int;
    let leak = cfg.leak_per_sec as int;
    let ceil = spec_ceil_div(cap, leak);
    let elapsed = elapsed_ms(b, now_ms);
    assert(ceil * leak >= cap) by {
        lemma_fundamental_div_mod(cap + leak - 1, leak);
    }
    assert(leaked_milli(cfg, b, now_ms) >= (ceil + 1) * 1000 * leak) by {
        lemma_mul_inequality((ceil + 1) * 1000, elapsed, leak);
    }
    assert((ceil + 1) * 1000 * leak >= cap * 1000) by {
        lemma_mul_is_distributive_add_other_way(1000, ceil, 1);
        lemma_mul_is_distributive_add_other_way(leak, ceil * 1000, 1000);
        assert(ceil * 1000 * leak == ceil * leak * 1000) by (nonlinear_arith);
        lemma_mul_inequality(cap, ceil * leak, 1000);
    }
    assert(decayed_fill(cfg, b, now_ms) == 0);
}

/// What the store holds for a key at a check: its entry, or the fresh state
/// when the key is absent (never seen, or expired by the store).
pub open spec fn store_bucket(
    sto: Map<Seq<char>, Bucket>,
    key: Seq<char>,
    now_ms: u64,
) -> Bucket {
    if sto.contains_key(key) {
        sto[key]
    } else {
        Bucket::spec_fresh(now_ms)
    }
}

/// The decision a check for `key` reaches against the whole store.
pub open spec fn store_admits(
    cfg: LimiterConfig,
    sto: Map<Seq<char>, Bucket>,
    key: Seq<char>,
    now_ms: u64,
) -> bool {
    admits(cfg, store_bucket(sto, key, now_ms), now_ms)
}

/// The whole store after a check for `key`: only that key's entry changes.
pub open spec fn store_after(
    cfg: LimiterConfig,
    sto: Map<Seq<char>, Bucket>,
    key: Seq<char>,
    now_ms: u64,
) -> Map<Seq<char>, Bucket> {
    sto.insert(key, bucket_after(cfg, store_bucket(sto, key, now_ms), now_ms))
}

/// Checks for distinct keys never interfere: a check for one key leaves
/// every other key's stored state, and hence its later decisions, unchanged.
pub proof fn lemma_keys_independent(
    cfg: LimiterConfig,
    sto: Map<Seq<char>, Bucket>,
    k1: Seq<char>,
    k2: Seq<char>,
    t1: u64,
    t2: u64,
)
    requires
        k1 != k2,
    ensures
        store_bucket(store_after(cfg, sto, k1, t1), k2, t2) == store_bucket(sto, k2, t2),
        store_admits(cfg, store_after(cfg, sto, k1, t1), k2, t2) == store_admits(
            cfg,
            sto,
            k2,
            t2,
        ),
{
}

} // verus!
