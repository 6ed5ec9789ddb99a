//! The polling policy: when the scheduler parks itself (every enabled
//! provider auth-blocked), how long the next timer sleeps (configured
//! interval with jitter, or a rate-limit backoff), and when a keyring
//! failure surfaces from an on-demand refresh.

use vstd::prelude::*;

use crate::clock::clock_nanos;
use crate::types::{IpcResult, UsageSnapshotBundle, UsageStatus};

verus! {

/// The backoff base while any provider is rate limited: five minutes.
pub const RATE_LIMITED_BASE_MS: u64 = 300000;

/// The delay used before the first poll has produced a bundle.
pub const NO_SNAPSHOT_DELAY_MS: u64 = 60000;

/// No timer sleeps less than this, whatever the jitter.
pub const MIN_DELAY_MS: u64 = 1000;

/// A provider in this state cannot recover without new credentials, so
/// timer-driven polling would only repeat the same failure.
pub open spec fn auth_blocked(s: UsageStatus) -> bool {
    s == UsageStatus::MissingKey || s == UsageStatus::Unauthorized
}

pub open spec fn claude_auth_blocked(bundle: UsageSnapshotBundle) -> bool {
    match bundle.claude {
        Some(s) => auth_blocked(s.spec_status()),
        None => false,
    }
}

pub open spec fn codex_auth_blocked(bundle: UsageSnapshotBundle) -> bool {
    match bundle.codex {
        Some(s) => auth_blocked(s.spec_status()),
        None => false,
    }
}

/// Paused exactly when every enabled provider's latest snapshot is
/// auth-blocked; with both providers enabled, one healthy provider keeps
/// polling alive.
pub open spec fn should_pause_spec(
    track_claude: bool,
    track_codex: bool,
    bundle: UsageSnapshotBundle,
) -> bool {
    let claude_paused = track_claude && claude_auth_blocked(bundle);
    let codex_paused = track_codex && codex_auth_blocked(bundle);
    if track_claude && track_codex {
        claude_paused && codex_paused
    } else {
        claude_paused || codex_paused
    }
}

pub fn should_pause_polling(
    track_claude: bool,
    track_codex: bool,
    snapshot: &UsageSnapshotBundle,
) -> (r: bool)
    ensures
        r == should_pause_spec(track_claude, track_codex, *snapshot),
{
    let claude_paused = track_claude && match &snapshot.claude {
        Some(s) => {
            let st = s.status();
            st == UsageStatus::MissingKey || st == UsageStatus::Unauthorized
        },
        None => false,
    };
    let codex_paused = track_codex && match &snapshot.codex {
        Some(s) => {
            let st = s.status();
            st == UsageStatus::MissingKey || st == UsageStatus::Unauthorized
        },
        None => false,
    };
    if track_claude && track_codex {
        claude_paused && codex_paused
    } else {
        claude_paused || codex_paused
    }
}

pub open spec fn any_rate_limited(bundle: UsageSnapshotBundle) -> bool {
    ||| match bundle.claude {
        Some(s) => s.spec_status() == UsageStatus::RateLimited,
        None => false,
    }
    ||| match bundle.codex {
        Some(s) => s.spec_status() == UsageStatus::RateLimited,
        None => false,
    }
}

/// Base delay and jitter ratio (in percent) for the next timer: a fixed
/// five-minute base with ±20% while rate limited, otherwise the configured
/// interval floored at 30 s with ±10%.
pub open spec fn delay_base_ms(refresh_interval_seconds: u64, rate_limited: bool) -> (u64, u64) {
    if rate_limited {
        (RATE_LIMITED_BASE_MS, 20u64)
    } else {
        let base_seconds: u64 = if refresh_interval_seconds > 30 {
            refresh_interval_seconds
        } else {
            30u64
        };
        if base_seconds > u64::MAX / 1000 {
            (u64::MAX, 10u64)
        } else {
            ((base_seconds * 1000) as u64, 10u64)
        }
    }
}

/// The next delay for a given entropy sample: the base, moved by up to
/// `ratio_percent` of itself in either direction depending on the sample,
/// floored at `MIN_DELAY_MS` and capped at `u64::MAX`.
pub open spec fn jittered_delay(base_ms: u64, ratio_percent: u64, entropy: u64) -> u64 {
    let t = (entropy as int) % 1000;
    let v: int = if t >= 500 {
        base_ms + (2 * t - 1000) * base_ms * ratio_percent / 100000
    } else {
        base_ms - (1000 - 2 * t) * base_ms * ratio_percent / 100000
    };
    if v < MIN_DELAY_MS {
        MIN_DELAY_MS
    } else if v > u64::MAX {
        u64::MAX
    } else {
        v as u64
    }
}

/// Whatever the entropy, a jittered delay never sleeps less than the floor,
/// and a late-half sample never shortens the base.
pub proof fn lemma_jittered_delay_bounds(base_ms: u64, ratio_percent: u64, entropy: u64)
    ensures
        jittered_delay(base_ms, ratio_percent, entropy) >= MIN_DELAY_MS,
        (entropy as int) % 1000 >= 500 ==> jittered_delay(base_ms, ratio_percent, entropy)
            >= base_ms,
        (entropy as int) % 1000 < 500 && base_ms >= MIN_DELAY_MS ==> jittered_delay(
            base_ms,
            ratio_percent,
            entropy,
        ) <= base_ms,
{
    let t = (entropy as int) % 1000;
    if t >= 500 {
        assert((2 * t - 1000) * base_ms * ratio_percent >= 0) by (nonlinear_arith)
            requires t >= 500;
        assert((2 * t - 1000) * base_ms * ratio_percent / 100000 >= 0);
    } else {
        assert((1000 - 2 * t) * base_ms * ratio_percent >= 0) by (nonlinear_arith)
            requires t < 500;
        assert((1000 - 2 * t) * base_ms * ratio_percent / 100000 >= 0);
    }
}

pub fn compute_next_delay_ms_with_nanos(base_ms: u64, ratio_percent: u64, nanos: u64) -> (r: u64)
    requires
        ratio_percent <= 100,
    ensures
        r == jittered_delay(base_ms, ratio_percent, nanos),
        r >= MIN_DELAY_MS,
{
    proof {
        lemma_jittered_delay_bounds(base_ms, ratio_percent, nanos);
    }
    let t = nanos % 1000;
    if t >= 500 {
        let diff: u128 = 2 * (t as u128) - 1000;
        proof {
            assert(diff <= 998);
            assert(diff * (base_ms as u128) <= 998 * (u64::MAX as u128)) by (nonlinear_arith)
                requires
                    diff <= 998,
                    base_ms <= u64::MAX,
            ;
        }
        let scaled = diff * (base_ms as u128);
        proof {
            assert(scaled * (ratio_percent as u128) <= 998 * (u64::MAX as u128) * 100)
                by (nonlinear_arith)
                requires
                    scaled <= 998 * (u64::MAX as u128),
                    ratio_percent <= 100,
            ;
        }
        let add = scaled * (ratio_percent as u128) / 100000;
        let v = (base_ms as u128) + add;
        if v < MIN_DELAY_MS as u128 {
            MIN_DELAY_MS
        } else if v > u64::MAX as u128 {
            u64::MAX
        } else {
            v as u64
        }
    } else {
        let diff: u128 = 1000 - 2 * (t as u128);
        proof {
            assert(diff <= 1000);
            assert(diff * (base_ms as u128) <= 1000 * (u64::MAX as u128)) by (nonlinear_arith)
                requires
                    diff <= 1000,
                    base_ms <= u64::MAX,
            ;
        }
        let scaled = diff * (base_ms as u128);
        proof {
            assert(scaled * (ratio_percent as u128) <= 1000 * (u64::MAX as u128) * 100)
                by (nonlinear_arith)
                requires
                    scaled <= 1000 * (u64::MAX as u128),
                    ratio_percent <= 100,
            ;
        }
        let sub = scaled * (ratio_percent as u128) / 100000;
        let b = base_ms as u128;
        let v = if sub > b {
            0u128
        } else {
            b - sub
        };
        proof {
            assert((1000 - 2 * (t as int)) * base_ms * ratio_percent >= 0) by (nonlinear_arith)
                requires
                    0 <= t < 500,
            ;
        }
        if v < MIN_DELAY_MS as u128 {
            MIN_DELAY_MS
        } else {
            v as u64
        }
    }
}

/// Compute the next timer delay from the configured interval and the latest
/// bundle. The entropy comes from the clock, so only the base selection and
/// the bounds are pinned: the result is a jittered delay for *some* sample.
pub fn compute_next_delay_ms(refresh_interval_seconds: u64, snapshot: &UsageSnapshotBundle) -> (r:
    u64)
    ensures
        exists|e: u64|
            r == #[trigger] jittered_delay(
                delay_base_ms(refresh_interval_seconds, any_rate_limited(*snapshot)).0,
                delay_base_ms(refresh_interval_seconds, any_rate_limited(*snapshot)).1,
                e,
            ),
        r >= MIN_DELAY_MS,
{
    let base_seconds = if refresh_interval_seconds > 30 {
        refresh_interval_seconds
    } else {
        30
    };
    let configured_base_ms = if base_seconds > u64::MAX / 1000 {
        u64::MAX
    } else {
        base_seconds * 1000
    };

    let rate_limited = match &snapshot.claude {
        Some(s) => s.status() == UsageStatus::RateLimited,
        None => false,
    } || match &snapshot.codex {
        Some(s) => s.status() == UsageStatus::RateLimited,
        None => false,
    };

    let (base_ms, ratio_percent): (u64, u64) = if rate_limited {
        (RATE_LIMITED_BASE_MS, 20)
    } else {
        (configured_base_ms, 10)
    };

    let nanos = clock_nanos();
    let r = compute_next_delay_ms_with_nanos(base_ms, ratio_percent, nanos);
    proof {
        assert(r == jittered_delay(
            delay_base_ms(refresh_interval_seconds, any_rate_limited(*snapshot)).0,
            delay_base_ms(refresh_interval_seconds, any_rate_limited(*snapshot)).1,
            nanos,
        ));
    }
    r
}

/// The scheduler's next state, from the latest bundle: park with no timer
/// when paused, otherwise arm a jittered delay; before any bundle exists,
/// retry after a fixed minute.
pub fn compute_next_delay_for_latest(
    track_claude: bool,
    track_codex: bool,
    refresh_interval_seconds: u64,
    snapshot: Option<&UsageSnapshotBundle>,
) -> (r: Option<u64>)
    ensures
        match snapshot {
            None => r == Some(NO_SNAPSHOT_DELAY_MS),
            Some(b) => {
                &&& (r is None) == should_pause_spec(track_claude, track_codex, *b)
                &&& (r matches Some(d) ==> d >= MIN_DELAY_MS)
            },
        },
{
    let snapshot = match snapshot {
        None => {
            return Some(NO_SNAPSHOT_DELAY_MS);
        },
        Some(s) => s,
    };

    if should_pause_polling(track_claude, track_codex, snapshot) {
        None
    } else {
        Some(compute_next_delay_ms(refresh_interval_seconds, snapshot))
    }
}

/// A keyring failure surfaces from an on-demand refresh only when every
/// enabled provider hit one; a partial failure is tolerated because the
/// other provider's data is still useful.
pub open spec fn keyring_failure_surfaces(
    track_claude: bool,
    track_codex: bool,
    claude_keyring_error: bool,
    codex_keyring_error: bool,
) -> bool {
    &&& (track_claude || track_codex)
    &&& (track_claude ==> claude_keyring_error)
    &&& (track_codex ==> codex_keyring_error)
}

/// Fold a poll's keyring failures into the on-demand refresh outcome.
pub fn refresh_outcome(
    track_claude: bool,
    track_codex: bool,
    claude_keyring_error: bool,
    codex_keyring_error: bool,
) -> (r: IpcResult<()>)
    ensures
        (r is Failure) == keyring_failure_surfaces(
            track_claude,
            track_codex,
            claude_keyring_error && track_claude,
            codex_keyring_error && track_codex,
        ),
        r matches IpcResult::Failure { error, .. } ==> error.code@ == "KEYRING"@,
{
    let claude_hit = track_claude && claude_keyring_error;
    let codex_hit = track_codex && codex_keyring_error;
    let enabled: u32 = (if track_claude {
        1
    } else {
        0
    }) + (if track_codex {
        1
    } else {
        0
    });
    let errors: u32 = (if claude_hit {
        1
    } else {
        0
    }) + (if codex_hit {
        1
    } else {
        0
    });
    if errors > 0 && enabled > 0 && errors >= enabled {
        IpcResult::err("KEYRING", "OS keychain/secret service is unavailable.")
    } else {
        IpcResult::ok(())
    }
}

/// A bundle whose only enabled provider is unauthorized parks the scheduler:
/// no further timer-driven polls until an on-demand refresh succeeds.
pub proof fn lemma_single_blocked_provider_pauses(bundle: UsageSnapshotBundle)
    requires
        bundle.claude matches Some(s) && auth_blocked(s.spec_status()),
    ensures
        should_pause_spec(true, false, bundle),
{
}

/// Mixed health keeps polling: with both providers enabled, one healthy
/// snapshot prevents the pause even if the other is auth-blocked.
pub proof fn lemma_mixed_health_keeps_polling(bundle: UsageSnapshotBundle)
    requires
        bundle.claude matches Some(s) && !auth_blocked(s.spec_status()),
    ensures
        !should_pause_spec(true, true, bundle),
{
}

} // verus!
