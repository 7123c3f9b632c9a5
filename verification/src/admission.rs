//! Admission to anchor creation: a token bucket that bounds the
//! rate of creations, and the policy that decides when a solved CAPTCHA is
//! asked for.

use crate::types::{
    AnchorNumber, CaptchaConfig, CaptchaTrigger, RateLimitConfig, RegisterResponse,
    StaticCaptchaTrigger, Timestamp,
};
use vstd::prelude::*;

verus! {

/// Why an attempt was turned away before looking at it.
#[derive(Clone, Copy, Debug, PartialEq, Eq)]
pub enum AdmissionError {
    /// The bucket holds no token.
    RateLimited,
    /// As many challenges wait for an answer as may.
    TooManyUnsolvedCaptchas,
}

/// A token bucket: the tokens in it, and the time up to which replenished
/// tokens were counted.
#[derive(Clone, Copy, Debug, PartialEq, Eq)]
pub struct RateLimiter {
    pub tokens: u64,
    pub token_timestamp: Timestamp,
}

/// The tokens that the time since `state.token_timestamp` has earned.
pub open spec fn earned_tokens(state: RateLimiter, config: RateLimitConfig, now: Timestamp) -> int {
    if now >= state.token_timestamp {
        (now - state.token_timestamp) / (config.time_per_token_ns as int)
    } else {
        0
    }
}

/// The bucket at `now`: the earned tokens are added, up to `max_tokens`,
/// and the time that earned them is counted off.
pub open spec fn spec_refill(state: RateLimiter, config: RateLimitConfig, now: Timestamp) -> RateLimiter {
    let earned = earned_tokens(state, config, now);
    if earned > 0 {
        RateLimiter {
            tokens: if state.tokens + earned < config.max_tokens {
                (state.tokens + earned) as u64
            } else {
                config.max_tokens
            },
            token_timestamp: (state.token_timestamp + earned * config.time_per_token_ns) as u64,
        }
    } else {
        state
    }
}

/// Taking a token at `now`: the bucket after it, and whether it gave one.
/// The bucket is brought up to `now` first.
pub open spec fn spec_acquire(state: RateLimiter, config: RateLimitConfig, now: Timestamp) -> (
    RateLimiter,
    bool,
) {
    let filled = spec_refill(state, config, now);
    if filled.tokens >= 1 {
        (RateLimiter { tokens: (filled.tokens - 1) as u64, ..filled }, true)
    } else {
        (filled, false)
    }
}

/// A full bucket of five tokens gives five tokens at once and refuses the
/// sixth call; one token's time later it gives exactly one more.
pub proof fn lemma_bucket_of_five(time_per_token_ns: u64, start: Timestamp)
    requires
        time_per_token_ns > 0,
        start + time_per_token_ns <= u64::MAX,
    ensures
        ({
            let config = RateLimitConfig { time_per_token_ns, max_tokens: 5 };
            let later = (start + time_per_token_ns) as u64;
            let s0 = RateLimiter { tokens: 5, token_timestamp: start };
            let s1 = spec_acquire(s0, config, start);
            let s2 = spec_acquire(s1.0, config, start);
            let s3 = spec_acquire(s2.0, config, start);
            let s4 = spec_acquire(s3.0, config, start);
            let s5 = spec_acquire(s4.0, config, start);
            let s6 = spec_acquire(s5.0, config, start);
            let s7 = spec_acquire(s6.0, config, later);
            let s8 = spec_acquire(s7.0, config, later);
            s1.1 && s2.1 && s3.1 && s4.1 && s5.1 && !s6.1 && s7.1 && !s8.1
        }),
{
    let t = time_per_token_ns as int;
    assert(0int / t == 0) by (nonlinear_arith)
        requires
            t > 0,
    ;
    assert(t / t == 1) by (nonlinear_arith)
        requires
            t > 0,
    ;
    assert(1 * t == t) by (nonlinear_arith);
}

/// Whether a creation must come with a solved CAPTCHA.
///
/// A static trigger always or never asks for one. A dynamic trigger asks
/// for one when the rate of attempts in the current window, taken as a
/// percentage of the rate in the reference window, is above `threshold_pct`.
/// A rate is the attempts counted in a window over the length of the
/// window; the comparison is stated without the divisions.
pub open spec fn spec_captcha_required(
    trigger: CaptchaTrigger,
    current_attempts: u64,
    reference_attempts: u64,
) -> bool {
    match trigger {
        CaptchaTrigger::Static(StaticCaptchaTrigger::CaptchaEnabled) => true,
        CaptchaTrigger::Static(StaticCaptchaTrigger::CaptchaDisabled) => false,
        CaptchaTrigger::Dynamic {
            threshold_pct,
            current_rate_sampling_interval_s,
            reference_rate_sampling_interval_s,
        } => current_attempts * reference_rate_sampling_interval_s * 100 > reference_attempts
            * current_rate_sampling_interval_s * threshold_pct,
    }
}

/// Whether `a * m` is above `b * n`, for factors `m` and `n` of at most
/// sixteen bits. The products may not fit in a machine integer, so each is
/// computed in two halves.
pub fn scaled_exceeds(a: u128, m: u128, b: u128, n: u128) -> (r: bool)
    requires
        m <= 0xffff,
        n <= 0xffff,
    ensures
        r == (a * m > b * n),
{
    let base: u128 = 0x1_0000_0000_0000_0000;
    let a1: u128 = a / base;
    let a0: u128 = a % base;
    let b1: u128 = b / base;
    let b0: u128 = b % base;
    proof {
        assert(a0 * m <= 0xffff_ffff_ffff_ffff * 0xffff) by (nonlinear_arith)
            requires
                a0 <= 0xffff_ffff_ffff_ffff,
                m <= 0xffff,
        ;
        assert(a1 * m <= 0xffff_ffff_ffff_ffff * 0xffff) by (nonlinear_arith)
            requires
                a1 <= 0xffff_ffff_ffff_ffff,
                m <= 0xffff,
        ;
        assert(b0 * n <= 0xffff_ffff_ffff_ffff * 0xffff) by (nonlinear_arith)
            requires
                b0 <= 0xffff_ffff_ffff_ffff,
                n <= 0xffff,
        ;
        assert(b1 * n <= 0xffff_ffff_ffff_ffff * 0xffff) by (nonlinear_arith)
            requires
                b1 <= 0xffff_ffff_ffff_ffff,
                n <= 0xffff,
        ;
    }
    let x_low: u128 = a0 * m;
    let x_high: u128 = a1 * m + x_low / base;
    let x_rest: u128 = x_low % base;
    let y_low: u128 = b0 * n;
    let y_high: u128 = b1 * n + y_low / base;
    let y_rest: u128 = y_low % base;
    proof {
        assert(a * m == (a1 * m) * 0x1_0000_0000_0000_0000 + a0 * m) by (nonlinear_arith)
            requires
                a == a1 * 0x1_0000_0000_0000_0000 + a0,
        ;
        assert(b * n == (b1 * n) * 0x1_0000_0000_0000_0000 + b0 * n) by (nonlinear_arith)
            requires
                b == b1 * 0x1_0000_0000_0000_0000 + b0,
        ;
        assert(a * m == x_high * 0x1_0000_0000_0000_0000 + x_rest);
        assert(b * n == y_high * 0x1_0000_0000_0000_0000 + y_rest);
    }
    x_high > y_high || (x_high == y_high && x_rest > y_rest)
}

/// Whether a creation must come with a solved CAPTCHA, given the attempts
/// counted in the current and in the reference window of a dynamic trigger.
pub fn captcha_required(
    trigger: &CaptchaTrigger,
    current_attempts: u64,
    reference_attempts: u64,
) -> (r: bool)
    ensures
        r == spec_captcha_required(*trigger, current_attempts, reference_attempts),
{
    match trigger {
        CaptchaTrigger::Static(StaticCaptchaTrigger::CaptchaEnabled) => true,
        CaptchaTrigger::Static(StaticCaptchaTrigger::CaptchaDisabled) => false,
        CaptchaTrigger::Dynamic {
            threshold_pct,
            current_rate_sampling_interval_s,
            reference_rate_sampling_interval_s,
        } => {
            let cur: u128 = current_attempts as u128;
            let reference: u128 = reference_attempts as u128;
            let cur_window: u128 = *current_rate_sampling_interval_s as u128;
            let ref_window: u128 = *reference_rate_sampling_interval_s as u128;
            assert(cur * ref_window <= 0xffff_ffff_ffff_ffff * 0xffff_ffff_ffff_ffff)
                by (nonlinear_arith)
                requires
                    cur <= 0xffff_ffff_ffff_ffff,
                    ref_window <= 0xffff_ffff_ffff_ffff,
            ;
            assert(reference * cur_window <= 0xffff_ffff_ffff_ffff * 0xffff_ffff_ffff_ffff)
                by (nonlinear_arith)
                requires
                    reference <= 0xffff_ffff_ffff_ffff,
                    cur_window <= 0xffff_ffff_ffff_ffff,
            ;
            scaled_exceeds(cur * ref_window, 100, reference * cur_window, *threshold_pct as u128)
        },
    }
}

impl RateLimiter {
    /// A full bucket at `now`.
    pub fn new(config: &RateLimitConfig, now: Timestamp) -> (r: RateLimiter)
        ensures
            r == (RateLimiter { tokens: config.max_tokens, token_timestamp: now }),
    {
        RateLimiter { tokens: config.max_tokens, token_timestamp: now }
    }

    /// Brings the bucket up to `now`.
    pub fn refill(&mut self, config: &RateLimitConfig, now: Timestamp)
        requires
            config.time_per_token_ns > 0,
        ensures
            *final(self) == spec_refill(*old(self), *config, now),
    {
        if now < self.token_timestamp {
            return ;
        }
        let elapsed: u64 = now - self.token_timestamp;
        let earned: u64 = elapsed / config.time_per_token_ns;
        if earned == 0 {
            return ;
        }
        assert(earned * config.time_per_token_ns <= elapsed) by (nonlinear_arith)
            requires
                earned == elapsed / config.time_per_token_ns,
                config.time_per_token_ns > 0,
        ;
        if self.tokens >= config.max_tokens || earned >= config.max_tokens - self.tokens {
            self.tokens = config.max_tokens;
        } else {
            self.tokens = self.tokens + earned;
        }
        self.token_timestamp = self.token_timestamp + earned * config.time_per_token_ns;
    }

    /// Takes one token out of the bucket as it stands at `now`, if it holds one.
    pub fn try_acquire(&mut self, config: &RateLimitConfig, now: Timestamp) -> (r: Result<
        (),
        AdmissionError,
    >)
        requires
            config.time_per_token_ns > 0,
        ensures
            *final(self) == spec_acquire(*old(self), *config, now).0,
            r.is_ok() == spec_acquire(*old(self), *config, now).1,
            r.is_err() ==> r == Err::<(), AdmissionError>(AdmissionError::RateLimited),
    {
        self.refill(config, now);
        if self.tokens < 1 {
            Err(AdmissionError::RateLimited)
        } else {
            self.tokens = self.tokens - 1;
            Ok(())
        }
    }
}

/// What admission keeps: the bucket, the challenges that wait for an
/// answer, and the anchors created so far.
#[derive(Clone, Copy, Debug, PartialEq, Eq)]
pub struct RegistrationGate {
    pub limiter: RateLimiter,
    pub unsolved_captchas: u64,
    pub users_registered: u64,
}

/// The count of waiting challenges after the one that an attempt answered, if it answered
/// one, has been counted off.
pub open spec fn spec_unsolved_after(unsolved: u64, solved: Option<bool>) -> u64 {
    if solved.is_some() && unsolved > 0 {
        (unsolved - 1) as u64
    } else {
        unsolved
    }
}

/// What `attempt_registration` does: the state after it, and the answer.
///
/// The bucket is brought up to `now` first, and an empty one turns the
/// attempt away. Then a CAPTCHA that is asked for and not solved fails the
/// attempt, then a range of anchor numbers that is used up. Only a
/// creation that is accepted takes a token.
pub open spec fn spec_attempt(
    gate: RegistrationGate,
    limit: RateLimitConfig,
    captcha: CaptchaConfig,
    range: (AnchorNumber, AnchorNumber),
    now: Timestamp,
    solved: Option<bool>,
    current_attempts: u64,
    reference_attempts: u64,
) -> (RegistrationGate, Result<RegisterResponse, AdmissionError>) {
    let limiter = spec_refill(gate.limiter, limit, now);
    if limiter.tokens < 1 {
        (RegistrationGate { limiter, ..gate }, Err(AdmissionError::RateLimited))
    } else {
        let unsolved_captchas = spec_unsolved_after(gate.unsolved_captchas, solved);
        if spec_captcha_required(captcha.captcha_trigger, current_attempts, reference_attempts) && solved
            != Some(true) {
            (
                RegistrationGate { limiter, unsolved_captchas, ..gate },
                Ok(RegisterResponse::BadChallenge),
            )
        } else if range.0 + gate.users_registered >= range.1 {
            (
                RegistrationGate { limiter, unsolved_captchas, ..gate },
                Ok(RegisterResponse::CanisterFull),
            )
        } else {
            (
                RegistrationGate {
                    limiter: RateLimiter { tokens: (limiter.tokens - 1) as u64, ..limiter },
                    unsolved_captchas,
                    users_registered: (gate.users_registered + 1) as u64,
                },
                Ok(
                    RegisterResponse::Registered {
                        user_number: (range.0 + gate.users_registered) as u64,
                    },
                ),
            )
        }
    }
}

impl RegistrationGate {
    /// A gate with a full bucket, no challenge waiting and no anchor created.
    pub fn new(limit: &RateLimitConfig, now: Timestamp) -> (r: RegistrationGate)
        ensures
            r == (RegistrationGate {
                limiter: RateLimiter { tokens: limit.max_tokens, token_timestamp: now },
                unsolved_captchas: 0,
                users_registered: 0,
            }),
    {
        RegistrationGate {
            limiter: RateLimiter::new(limit, now),
            unsolved_captchas: 0,
            users_registered: 0,
        }
    }

    /// Counts a challenge that is handed out. Where as many wait for an
    /// answer as the configuration allows, none is handed out and nothing
    /// changes.
    pub fn issue_challenge(&mut self, captcha: &CaptchaConfig) -> (r: Result<(), AdmissionError>)
        ensures
            match r {
                Ok(_) => old(self).unsolved_captchas < captcha.max_unsolved_captchas
                    && *final(self) == (RegistrationGate {
                    unsolved_captchas: (old(self).unsolved_captchas + 1) as u64,
                    ..*old(self)
                }),
                Err(e) => e == AdmissionError::TooManyUnsolvedCaptchas
                    && old(self).unsolved_captchas >= captcha.max_unsolved_captchas
                    && *final(self) == *old(self),
            },
    {
        if self.unsolved_captchas >= captcha.max_unsolved_captchas {
            Err(AdmissionError::TooManyUnsolvedCaptchas)
        } else {
            self.unsolved_captchas = self.unsolved_captchas + 1;
            Ok(())
        }
    }

    /// One attempt to create an anchor at `now`.
    ///
    /// `solved` tells whether the attempt answered a challenge, and if so
    /// whether the answer was right. The anchor numbers are handed out from
    /// `range`, its upper end left out, in rising order.
    pub fn attempt_registration(
        &mut self,
        limit: &RateLimitConfig,
        captcha: &CaptchaConfig,
        range: (AnchorNumber, AnchorNumber),
        now: Timestamp,
        solved: Option<bool>,
        current_attempts: u64,
        reference_attempts: u64,
    ) -> (r: Result<RegisterResponse, AdmissionError>)
        requires
            limit.time_per_token_ns > 0,
        ensures
            *final(self) == spec_attempt(
                *old(self),
                *limit,
                *captcha,
                range,
                now,
                solved,
                current_attempts,
                reference_attempts,
            ).0,
            r == spec_attempt(
                *old(self),
                *limit,
                *captcha,
                range,
                now,
                solved,
                current_attempts,
                reference_attempts,
            ).1,
    {
        self.limiter.refill(limit, now);
        if self.limiter.tokens < 1 {
            return Err(AdmissionError::RateLimited);
        }
        let right = match solved {
            Some(b) => {
                if self.unsolved_captchas > 0 {
                    self.unsolved_captchas = self.unsolved_captchas - 1;
                }
                b
            },
            None => false,
        };
        if captcha_required(&captcha.captcha_trigger, current_attempts, reference_attempts) && !right {
            return Ok(RegisterResponse::BadChallenge);
        }
        if range.0 > range.1 || self.users_registered >= range.1 - range.0 {
            return Ok(RegisterResponse::CanisterFull);
        }
        let user_number: u64 = range.0 + self.users_registered;
        self.limiter.tokens = self.limiter.tokens - 1;
        self.users_registered = self.users_registered + 1;
        Ok(RegisterResponse::Registered { user_number })
    }
}

} // verus!
