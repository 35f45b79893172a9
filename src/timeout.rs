//! Timeout arithmetic: the whole-millisecond timeout handed to the native wait
//! call, and the one-shot deadline armed on the kernel timer.
use vstd::prelude::*;
use crate::native;
use std::time::Duration;

verus! {

pub const NANOS_PER_SEC: u32 = 1_000_000_000;

pub const NANOS_PER_MILLI: u32 = 1_000_000;

/// A span of time as whole seconds plus nanoseconds. `nanos` may exceed one
/// second; it then carries into the seconds.
#[derive(Clone, Copy, Debug, PartialEq, Eq, Structural)]
pub struct Timeout {
    pub secs: u64,
    pub nanos: u32,
}

impl Timeout {
    pub open spec fn total_nanos(self) -> nat {
        self.secs as nat * 1_000_000_000 + self.nanos as nat
    }

    pub open spec fn spec_is_zero(&self) -> bool {
        self.total_nanos() == 0
    }

    pub open spec fn spec_from_duration(d: Duration) -> Timeout {
        Timeout { secs: native::secs_of(d), nanos: native::subsec_of(d) }
    }

    /// The whole seconds and sub-second nanoseconds of a `Duration`.
    pub fn from_duration(d: Duration) -> (r: Timeout)
        ensures
            r == Timeout::spec_from_duration(d),
            r.nanos < NANOS_PER_SEC,
    {
        Timeout { secs: native::duration_secs(&d), nanos: native::duration_subsec_nanos(&d) }
    }

    #[verifier::when_used_as_spec(spec_is_zero)]
    pub fn is_zero(&self) -> (r: bool)
        ensures
            r == self.spec_is_zero(),
    {
        self.secs == 0 && self.nanos == 0
    }
}

/// Smallest whole number of milliseconds that is not shorter than `t`,
/// saturated to `u64::MAX`.
pub open spec fn spec_millis_up(t: Timeout) -> nat {
    let ms = (t.total_nanos() + 999_999) / 1_000_000;
    if ms > u64::MAX { u64::MAX as nat } else { ms }
}

proof fn lemma_millis_split(secs: nat, nanos: nat)
    ensures
        (secs * 1_000_000_000 + nanos + 999_999) / 1_000_000 == secs * 1000 + (nanos + 999_999) / 1_000_000,
{
    let m = (nanos + 999_999) as int;
    let q = m / 1_000_000;
    let r = m % 1_000_000;
    vstd::arithmetic::div_mod::lemma_fundamental_div_mod(m, 1_000_000);
    let x = (secs * 1_000_000_000 + nanos + 999_999) as int;
    assert(x == (secs * 1000 + q) * 1_000_000 + r) by (nonlinear_arith)
        requires
            m == 1_000_000 * q + r,
            x == secs * 1_000_000_000 + m,
    ;
    vstd::arithmetic::div_mod::lemma_fundamental_div_mod_converse_div(x, 1_000_000, secs * 1000 + q, r);
}

/// Rounds `t` up to whole milliseconds: a nonzero remainder below one
/// millisecond counts as one more. Saturates instead of wrapping.
pub fn millis_rounded_up(t: Timeout) -> (ms: u64)
    ensures
        ms as nat == spec_millis_up(t),
{
    let extra: u64 = (t.nanos as u64 + 999_999) / (NANOS_PER_MILLI as u64);
    proof {
        lemma_millis_split(t.secs as nat, t.nanos as nat);
    }
    if t.secs > (u64::MAX - extra) / 1000 {
        assert(t.secs as nat * 1000 + extra > u64::MAX) by (nonlinear_arith)
            requires
                t.secs > (u64::MAX - extra) / 1000,
                extra <= 5000,
        ;
        u64::MAX
    } else {
        assert(t.secs as nat * 1000 + extra <= u64::MAX) by (nonlinear_arith)
            requires
                t.secs <= (u64::MAX - extra) / 1000,
                extra <= 5000,
        ;
        t.secs * 1000 + extra
    }
}

/// A rounded timeout never undershoots the request, and overshoots it by less
/// than a millisecond, unless it had to saturate.
pub proof fn lemma_millis_never_early(t: Timeout)
    ensures
        spec_millis_up(t) < u64::MAX ==> spec_millis_up(t) * 1_000_000 >= t.total_nanos(),
        spec_millis_up(t) < u64::MAX ==> spec_millis_up(t) * 1_000_000 < t.total_nanos() + 1_000_000,
        t.spec_is_zero() ==> spec_millis_up(t) == 0,
        !t.spec_is_zero() ==> spec_millis_up(t) >= 1,
{
    let n = t.total_nanos();
    vstd::arithmetic::div_mod::lemma_fundamental_div_mod((n + 999_999) as int, 1_000_000);
    vstd::arithmetic::div_mod::lemma_mod_bound((n + 999_999) as int, 1_000_000);
}

/// The timeout, in whole milliseconds, that the native wait call receives.
/// With a kernel timer the timer enforces every positive deadline, so the
/// native call only keeps a zero timeout (a non-blocking poll); without one,
/// the request is rounded up to whole milliseconds.
pub open spec fn spec_native_timeout(has_timer: bool, timeout: Option<Timeout>) -> Option<u64> {
    match timeout {
        None => None,
        Some(t) => if has_timer {
            if t.spec_is_zero() { Some(0u64) } else { None }
        } else {
            Some(spec_millis_up(t) as u64)
        },
    }
}

pub fn native_timeout(has_timer: bool, timeout: Option<Timeout>) -> (r: Option<u64>)
    ensures
        r == spec_native_timeout(has_timer, timeout),
{
    match timeout {
        None => None,
        Some(t) => {
            if has_timer {
                if t.is_zero() {
                    Some(0)
                } else {
                    None
                }
            } else {
                Some(millis_rounded_up(t))
            }
        },
    }
}

/// The value written into a one-shot kernel timer: seconds and nanoseconds of
/// the first expiry, zero for both meaning disarmed.
#[derive(Clone, Copy, Debug, PartialEq, Eq, Structural)]
pub struct TimerSetting {
    pub secs: i64,
    pub nanos: i64,
}

impl TimerSetting {
    pub open spec fn disarms(self) -> bool {
        self.secs == 0 && self.nanos == 0
    }

    pub open spec fn total_nanos(self) -> int {
        self.secs * 1_000_000_000 + self.nanos
    }
}

/// `None` disarms the timer, a zero timeout arms it to fire at once (one
/// nanosecond, as a zero value would disarm it), and any other timeout arms it
/// to fire after exactly that span, with seconds saturated to `i64::MAX`.
pub open spec fn spec_timer_setting(timeout: Option<Timeout>) -> TimerSetting {
    match timeout {
        None => TimerSetting { secs: 0, nanos: 0 },
        Some(t) => if t.spec_is_zero() {
            TimerSetting { secs: 0, nanos: 1 }
        } else {
            let secs = t.secs as nat + t.nanos as nat / 1_000_000_000;
            TimerSetting {
                secs: if secs > i64::MAX { i64::MAX } else { secs as i64 },
                nanos: (t.nanos as nat % 1_000_000_000) as i64,
            }
        },
    }
}

pub fn timer_setting(timeout: Option<Timeout>) -> (r: TimerSetting)
    ensures
        r == spec_timer_setting(timeout),
{
    match timeout {
        None => TimerSetting { secs: 0, nanos: 0 },
        Some(t) => {
            if t.is_zero() {
                TimerSetting { secs: 0, nanos: 1 }
            } else {
                let carry: u64 = (t.nanos / NANOS_PER_SEC) as u64;
                let nanos: i64 = (t.nanos % NANOS_PER_SEC) as i64;
                let secs: i64 = if t.secs > i64::MAX as u64 - carry {
                    i64::MAX
                } else {
                    (t.secs + carry) as i64
                };
                TimerSetting { secs, nanos }
            }
        },
    }
}

/// The timer fires exactly at the requested deadline whenever that deadline is
/// representable, never earlier; it fires at once for a zero timeout, and it is
/// disarmed only when no timeout is requested.
pub proof fn lemma_timer_never_early(timeout: Option<Timeout>)
    ensures
        spec_timer_setting(timeout).disarms() <==> timeout is None,
        spec_timer_setting(timeout).nanos < 1_000_000_000,
        timeout is Some && !timeout.unwrap().spec_is_zero() && timeout.unwrap().secs < i64::MAX - 4
            ==> spec_timer_setting(timeout).total_nanos() == timeout.unwrap().total_nanos(),
        timeout is Some && timeout.unwrap().spec_is_zero() ==> spec_timer_setting(timeout).total_nanos() == 1,
{
    if let Some(t) = timeout {
        let n = t.nanos as int;
        vstd::arithmetic::div_mod::lemma_fundamental_div_mod(n, 1_000_000_000);
        if !t.spec_is_zero() {
            assert(spec_timer_setting(timeout).secs != 0 || spec_timer_setting(timeout).nanos != 0);
        }
    }
}

} // verus!

verus! {

/// A zero timeout reaches the native call as zero, with or without a kernel
/// timer, so such a wait never blocks.
pub proof fn lemma_zero_timeout_never_blocks(has_timer: bool, t: Timeout)
    requires
        t.spec_is_zero(),
    ensures
        spec_native_timeout(has_timer, Some(t)) == Some(0u64),
{
    lemma_millis_never_early(t);
}

/// Without a kernel timer the native call never gets less than the request
/// (unless the request saturates); with one, it gets no positive timeout at
/// all and the timer, armed for exactly the request, ends the wait.
pub proof fn lemma_native_timeout_never_early(has_timer: bool, t: Timeout)
    ensures
        !has_timer && spec_millis_up(t) < u64::MAX ==> (spec_native_timeout(has_timer, Some(t)) matches Some(ms)
            && ms as nat * 1_000_000 >= t.total_nanos()),
        has_timer && !t.spec_is_zero() ==> spec_native_timeout(has_timer, Some(t)) is None,
        has_timer && !t.spec_is_zero() && t.secs < i64::MAX - 4
            ==> spec_timer_setting(Some(t)).total_nanos() == t.total_nanos(),
{
    lemma_millis_never_early(t);
    lemma_timer_never_early(Some(t));
}

} // verus!
