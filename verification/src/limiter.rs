//! Token-bucket admission control for outbound calls.
//!
//! The bucket holds `burst` tokens at most and refills at `requests_per_minute`
//! tokens per minute.  Acquiring admission never fails and never drops work:
//! when no token is available the caller is told to wait (or, with a zero
//! refill rate, to suspend indefinitely) and to try again; it is the driving
//! loop's job to sleep until the named time.
//!
//! Internally one token is `UNITS_PER_TOKEN` units, so that refilling by
//! `requests_per_minute` units per millisecond is exact integer arithmetic.

use vstd::prelude::*;

verus! {

/// One admission token, in internal units (milliseconds per minute).
pub const UNITS_PER_TOKEN: u64 = 60000;

/// What an admission attempt decided.
#[derive(PartialEq, Eq, Structural, Clone, Copy, Debug)]
pub enum Admission {
    /// A token was taken; the call may go out now.
    Granted,
    /// No token yet; one becomes available at the named millisecond.
    Wait(u64),
    /// No token, and the refill rate is zero: the caller suspends until the
    /// configuration changes — never an error, never dropped work.
    WaitUnbounded,
}

/// Addition on times that stops at the largest representable instant.
pub open spec fn sat_add(a: u64, b: u64) -> u64 {
    if a + b > u64::MAX {
        u64::MAX
    } else {
        (a + b) as u64
    }
}

/// The bucket's fill after `elapsed` milliseconds at `rpm` tokens per
/// minute, capped at `cap` units.
pub open spec fn refill_units(units: u64, rpm: u32, elapsed: u64, cap: u64) -> u64 {
    if units + elapsed * rpm > cap {
        cap
    } else {
        (units + elapsed * rpm) as u64
    }
}

/// A token bucket.
pub struct TokenBucket {
    units: u64,
    burst: u32,
    rpm: u32,
    last_ms: u64,
}

impl TokenBucket {
    /// The current fill, in units.
    pub closed spec fn spec_units(self) -> u64 {
        self.units
    }

    /// The configured burst size, in tokens.
    pub closed spec fn spec_burst(self) -> u32 {
        self.burst
    }

    /// The configured refill rate, in tokens per minute.
    pub closed spec fn spec_rpm(self) -> u32 {
        self.rpm
    }

    /// The instant of the last refill, in milliseconds.
    pub closed spec fn spec_last_ms(self) -> u64 {
        self.last_ms
    }

    /// The capacity in units.
    pub open spec fn spec_cap(self) -> u64 {
        (self.spec_burst() * UNITS_PER_TOKEN) as u64
    }

    /// Internal consistency: the fill never exceeds the capacity.
    pub open spec fn wf(self) -> bool {
        self.spec_units() <= self.spec_cap()
    }

    /// The fill the bucket will have at time `now`, before taking a token.
    pub open spec fn fill_at(self, now: u64) -> u64 {
        if now > self.spec_last_ms() {
            refill_units(
                self.spec_units(),
                self.spec_rpm(),
                (now - self.spec_last_ms()) as u64,
                self.spec_cap(),
            )
        } else {
            self.spec_units()
        }
    }

    /// A full bucket.
    pub fn new(requests_per_minute: u32, burst_size: u32, now_ms: u64) -> (r: TokenBucket)
        requires
            burst_size >= 1,
        ensures
            r.wf(),
            r.spec_burst() == burst_size,
            r.spec_rpm() == requests_per_minute,
            r.spec_last_ms() == now_ms,
            r.spec_units() == burst_size * UNITS_PER_TOKEN,
    {
        proof {
            assert(burst_size * UNITS_PER_TOKEN <= u32::MAX * UNITS_PER_TOKEN) by (nonlinear_arith)
                requires
                    burst_size <= u32::MAX,
            ;
        }
        let units: u64 = (burst_size as u64) * UNITS_PER_TOKEN;
        TokenBucket { units, burst: burst_size, rpm: requests_per_minute, last_ms: now_ms }
    }

    /// Tries to take one token at time `now`.  Exactly when the refilled
    /// bucket holds a full token, the token is taken and the call is
    /// admitted; otherwise the caller is told when to come back, and with a
    /// zero refill rate it is told to suspend — an admission attempt never
    /// errs and never drops the call.
    pub fn acquire(&mut self, now: u64) -> (r: Admission)
        requires
            old(self).wf(),
        ensures
            final(self).wf(),
            final(self).spec_burst() == old(self).spec_burst(),
            final(self).spec_rpm() == old(self).spec_rpm(),
            r == Admission::Granted <==> old(self).fill_at(now) >= UNITS_PER_TOKEN,
            r == Admission::Granted ==> final(self).spec_units() == old(self).fill_at(now)
                - UNITS_PER_TOKEN && final(self).spec_last_ms() == (if now > old(
                self,
            ).spec_last_ms() {
                now
            } else {
                old(self).spec_last_ms()
            }),
            r != Admission::Granted ==> *final(self) == *old(self),
            r == Admission::WaitUnbounded <==> old(self).fill_at(now) < UNITS_PER_TOKEN && old(
                self,
            ).spec_rpm() == 0,
            forall|t: u64|
                r == Admission::Wait(t) ==> old(self).spec_rpm() > 0 && t == sat_add(
                    now,
                    (((UNITS_PER_TOKEN - old(self).fill_at(now)) + old(self).spec_rpm() - 1) as u64
                        / old(self).spec_rpm() as u64) as u64,
                ),
            r matches Admission::Wait(_) <==> old(self).fill_at(now) < UNITS_PER_TOKEN && old(
                self,
            ).spec_rpm() > 0,
    {
        let ghost pre = *self;
        // Refill for the time elapsed since the last acquisition.
        let cap: u64 = (self.burst as u64) * UNITS_PER_TOKEN;
        proof {
            assert(self.burst * UNITS_PER_TOKEN <= u32::MAX * UNITS_PER_TOKEN) by (nonlinear_arith)
                requires
                    self.burst <= u32::MAX,
            ;
        }
        let filled: u64 = if now > self.last_ms {
            let elapsed: u64 = now - self.last_ms;
            proof {
                assert((elapsed as int) * (self.rpm as int) < 0x1000000000000000000000000int)
                    by (nonlinear_arith)
                    requires
                        elapsed <= u64::MAX,
                        self.rpm <= u32::MAX,
                ;
            }
            let grown: u128 = (self.units as u128) + (elapsed as u128) * (self.rpm as u128);
            if grown > cap as u128 {
                cap
            } else {
                grown as u64
            }
        } else {
            self.units
        };
        proof {
            assert(filled == pre.fill_at(now));
            assert(filled <= cap);
        }
        if filled >= UNITS_PER_TOKEN {
            self.units = filled - UNITS_PER_TOKEN;
            if now > self.last_ms {
                self.last_ms = now;
            }
            Admission::Granted
        } else if self.rpm == 0 {
            Admission::WaitUnbounded
        } else {
            let deficit: u64 = UNITS_PER_TOKEN - filled;
            let rpm64: u64 = self.rpm as u64;
            let wait: u64 = (deficit + rpm64 - 1) / rpm64;
            let resume: u64 = if now <= u64::MAX - wait {
                now + wait
            } else {
                u64::MAX
            };
            proof {
                assert(resume == sat_add(now, wait));
            }
            Admission::Wait(resume)
        }
    }
}

/// The bucket after `k` admissions granted at one instant, all taken from a
/// bucket whose refill rate is zero.
pub open spec fn drained(b: TokenBucket, k: nat) -> u64 {
    (b.spec_units() - k * UNITS_PER_TOKEN) as u64
}

/// A bucket with burst `n` and refill rate zero admits exactly its `n`
/// burst tokens: the first `n` acquisitions at one instant are granted, and
/// the next is told to suspend — not an error, not dropped.
///
/// The bucket state is characterised through `fill_at` and `spec_units`,
/// which `acquire`'s contract ties to each grant: after `k` grants the fill
/// is `(n - k)` tokens, so a grant is possible exactly while `k < n`.
pub proof fn lemma_degenerate_bucket_suspends(b: TokenBucket, now: u64, k: nat)
    requires
        b.wf(),
        b.spec_rpm() == 0,
        b.spec_units() == b.spec_burst() * UNITS_PER_TOKEN,
        k <= b.spec_burst(),
        now <= b.spec_last_ms(),
    ensures
        // after `k` grants the fill is exactly `burst - k` tokens
        drained(b, k) == (b.spec_burst() - k) * UNITS_PER_TOKEN,
        // a further acquisition is granted exactly while some burst is left
        k < b.spec_burst() ==> drained(b, k) >= UNITS_PER_TOKEN,
        // and once the burst is exhausted the caller suspends
        k == b.spec_burst() ==> drained(b, k) < UNITS_PER_TOKEN,
{
    assert(drained(b, k) == (b.spec_burst() - k) * UNITS_PER_TOKEN) by (nonlinear_arith)
        requires
            b.spec_units() == b.spec_burst() * UNITS_PER_TOKEN,
            k <= b.spec_burst(),
    ;
    if k < b.spec_burst() {
        assert((b.spec_burst() - k) * UNITS_PER_TOKEN >= UNITS_PER_TOKEN) by (nonlinear_arith)
            requires
                k < b.spec_burst(),
        ;
    }
}

} // verus!
