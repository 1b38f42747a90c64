//! License-side decisions: the cached license status and its
//! freshness, offline grace periods, trial-day adjustment, duration
//! formatting for logs, and the conservative license-deletion check.

use vstd::prelude::*;
use vstd::string::*;

use crate::text::contains_bytes;
use crate::text::spec_dec_seq;
use crate::text::spec_lower_bytes;
use crate::text::u64_to_string;
use vstd::utf8::encode_utf8;

verus! {

/// The license states the application distinguishes.
#[derive(Debug, Clone, Copy, PartialEq, Eq, Structural)]
pub enum LicenseState {
    /// A valid license is active.
    Licensed,
    /// A trial is running.
    Trial,
    /// License or trial has expired.
    Expired,
    /// Neither license nor trial.
    Unlicensed,
}

/// A license status as reported to the application.
#[derive(Debug, PartialEq)]
pub struct LicenseStatus {
    /// The overall state.
    pub status: LicenseState,
    /// Days left of a running trial.
    pub trial_days_left: Option<i32>,
    /// Kind of license, when licensed.
    pub license_type: Option<String>,
    /// The license key, when one is stored.
    pub license_key: Option<String>,
    /// Expiry timestamp, when the license has one.
    pub expires_at: Option<String>,
}

fn clone_opt_string(s: &Option<String>) -> (r: Option<String>)
    ensures
        r == *s,
{
    match s {
        Option::None => Option::None,
        Option::Some(x) => Option::Some(x.clone()),
    }
}

impl Clone for LicenseStatus {
    fn clone(&self) -> (r: Self)
        ensures
            r == *self,
    {
        LicenseStatus {
            status: self.status,
            trial_days_left: self.trial_days_left,
            license_type: clone_opt_string(&self.license_type),
            license_key: clone_opt_string(&self.license_key),
            expires_at: clone_opt_string(&self.expires_at),
        }
    }
}

/// How long a cached license status stays valid: six hours, in
/// milliseconds.
pub const CACHE_DURATION_MS: u64 = 21_600_000;

/// A cached license status, so the licensing service is not asked on
/// every check.
#[derive(Debug, PartialEq)]
pub struct CachedLicense {
    /// The cached status.
    pub status: LicenseStatus,
    /// When it was cached (Unix timestamp, milliseconds).
    pub cached_at_ms: u64,
}

impl Clone for CachedLicense {
    fn clone(&self) -> (r: Self)
        ensures
            r == *self,
    {
        CachedLicense { status: self.status.clone(), cached_at_ms: self.cached_at_ms }
    }
}

impl CachedLicense {
    /// Cache a status as of now.
    pub fn new(status: LicenseStatus) -> (r: Self)
        ensures
            r.status == status,
    {
        CachedLicense { status, cached_at_ms: crate::remote::settings::current_timestamp() }
    }

    /// Whether the entry is valid at the given time: younger than the
    /// cache duration.  A clock that moved backwards counts as an age
    /// of zero.
    pub fn valid_at(&self, now_ms: u64) -> (r: bool)
        ensures
            r == ((now_ms as int) < (self.cached_at_ms as int) + CACHE_DURATION_MS),
    {
        if now_ms >= self.cached_at_ms {
            now_ms - self.cached_at_ms < CACHE_DURATION_MS
        } else {
            true
        }
    }

    /// Whether the entry is still valid now.  Reads the wall clock;
    /// the exact decision for a given time is `valid_at`.
    pub fn is_valid(&self) -> bool {
        let now = crate::remote::settings::current_timestamp();
        self.valid_at(now)
    }

    /// The entry's age at the given time, in milliseconds; zero when
    /// the clock moved backwards.
    pub fn age_at(&self, now_ms: u64) -> (r: u64)
        ensures
            now_ms >= self.cached_at_ms ==> r == now_ms - self.cached_at_ms,
            now_ms < self.cached_at_ms ==> r == 0,
    {
        if now_ms >= self.cached_at_ms {
            now_ms - self.cached_at_ms
        } else {
            0
        }
    }

    /// The entry's age now, in milliseconds, for logging.  Reads the
    /// wall clock; the exact decision for a given time is `age_at`.
    pub fn age(&self) -> u64 {
        let now = crate::remote::settings::current_timestamp();
        self.age_at(now)
    }
}

/// Hours rounded up to whole days.
pub open spec fn spec_hours_to_days(hours: int) -> int {
    if hours % 24 == 0 {
        hours / 24
    } else {
        hours / 24 + 1
    }
}

/// Convert hours to days, rounding up, saturating at the i32 range.
pub fn hours_to_days(hours: i64) -> (r: i32)
    requires
        hours > i64::MIN,
    ensures
        r as int == ({
            let d = spec_hours_to_days(hours as int);
            if d > i32::MAX {
                i32::MAX as int
            } else if d < i32::MIN {
                i32::MIN as int
            } else {
                d
            }
        }),
{
    if hours >= 0 {
        let h = hours as u64;
        let d = (h + 23) / 24;
        assert(d == spec_hours_to_days(hours as int)) by (nonlinear_arith)
            requires
                h == hours as int,
                hours >= 0,
                d == (h + 23) as int / 24,
        ;
        if d > 2_147_483_647 {
            2_147_483_647i32
        } else {
            d as i32
        }
    } else {
        let pos = (-hours) as u64;
        let d = pos / 24;
        assert(-(d as int) == spec_hours_to_days(hours as int)) by (nonlinear_arith)
            requires
                pos == -(hours as int),
                hours < 0,
                d == pos as int / 24,
        ;
        if d > 2_147_483_648 {
            -2_147_483_648i32
        } else {
            (-(d as i64)) as i32
        }
    }
}

/// Days of a grace period still left at the given time: the period
/// length minus the whole days elapsed since the last successful
/// validation, or nothing once the period is over.
pub open spec fn spec_grace_days_left(last_ms: int, now_ms: int, period_days: int) -> Option<
    int,
> {
    let days_elapsed = if now_ms >= last_ms {
        (now_ms - last_ms) / 86_400_000
    } else {
        -((last_ms - now_ms) / 86_400_000)
    };
    if days_elapsed < period_days {
        Option::Some(period_days - days_elapsed)
    } else {
        Option::None
    }
}

/// Offline grace period for licensed users, in days.
pub const OFFLINE_GRACE_PERIOD_DAYS: u64 = 90;

/// Offline grace period for trial users, in days.
pub const TRIAL_OFFLINE_GRACE_PERIOD_DAYS: u64 = 1;

/// Days of a grace period still left at the given time.
pub fn grace_days_left(last_ms: u64, now_ms: u64, period_days: u64) -> (r: Option<u64>)
    requires
        period_days <= 100_000,
    ensures
        match r {
            Option::Some(d) => spec_grace_days_left(
                last_ms as int,
                now_ms as int,
                period_days as int,
            ) == Option::Some(d as int),
            Option::None => spec_grace_days_left(
                last_ms as int,
                now_ms as int,
                period_days as int,
            ) is None,
        },
{
    if now_ms >= last_ms {
        let days_elapsed = (now_ms - last_ms) / 86_400_000;
        if days_elapsed < period_days {
            Option::Some(period_days - days_elapsed)
        } else {
            Option::None
        }
    } else {
        let days_back = (last_ms - now_ms) / 86_400_000;
        if period_days == 0 && days_back == 0 {
            Option::None
        } else {
            Option::Some(period_days + days_back)
        }
    }
}

/// Days left of a trial whose cached status said `original_days`,
/// after `elapsed_hours` have passed: the elapsed whole days (rounded
/// up) are subtracted and the result never goes below zero.
pub fn trial_days_remaining(original_days: i32, elapsed_hours: i64) -> (r: i32)
    requires
        elapsed_hours >= 0,
        original_days >= 0,
    ensures
        r as int == if original_days as int - spec_hours_to_days(elapsed_hours as int) > 0 {
            original_days as int - spec_hours_to_days(elapsed_hours as int)
        } else {
            0
        },
{
    let elapsed_days = hours_to_days(elapsed_hours);
    proof {
        assert(spec_hours_to_days(elapsed_hours as int) >= 0) by (nonlinear_arith)
            requires
                elapsed_hours >= 0,
        ;
    }
    if elapsed_days < original_days {
        original_days - elapsed_days
    } else {
        0
    }
}

/// `N days, H hours`, `H hours, M minutes`, or `M minutes`, from a
/// duration in milliseconds.
pub open spec fn spec_format_duration(ms: int) -> Seq<char> {
    let days = ms / 86_400_000;
    let hours = (ms / 3_600_000) % 24;
    let minutes = (ms / 60_000) % 60;
    if days > 0 {
        spec_dec_seq(days) + " days, "@ + spec_dec_seq(hours) + " hours"@
    } else if hours > 0 {
        spec_dec_seq(hours) + " hours, "@ + spec_dec_seq(minutes) + " minutes"@
    } else {
        spec_dec_seq(minutes) + " minutes"@
    }
}

/// Format a duration for logging.
pub fn format_duration(ms: u64) -> (r: String)
    ensures
        r@ == spec_format_duration(ms as int),
{
    let days = ms / 86_400_000;
    let hours = (ms / 3_600_000) % 24;
    let minutes = (ms / 60_000) % 60;
    if days > 0 {
        let mut r = u64_to_string(days);
        r.append(" days, ");
        r.append(u64_to_string(hours).as_str());
        r.append(" hours");
        assert(r@ =~= spec_format_duration(ms as int));
        r
    } else if hours > 0 {
        let mut r = u64_to_string(hours);
        r.append(" hours, ");
        r.append(u64_to_string(minutes).as_str());
        r.append(" minutes");
        assert(r@ =~= spec_format_duration(ms as int));
        r
    } else {
        let mut r = u64_to_string(minutes);
        r.append(" minutes");
        assert(r@ =~= spec_format_duration(ms as int));
        r
    }
}

/// The lowercased message contains this pattern.
pub open spec fn spec_msg_contains(msg: Seq<u8>, pattern: Seq<char>) -> bool {
    contains_bytes(spec_lower_bytes(msg), encode_utf8(pattern))
}

/// Whether an error message is certain enough to justify deleting the
/// stored license: only when it explicitly says the license is
/// invalid, missing, expired or revoked.  When in doubt, the license
/// is kept.
pub fn should_delete_invalid_license(error_msg: &str) -> (r: bool)
    ensures
        r == (spec_msg_contains(error_msg.spec_bytes(), "invalid license"@)
            || spec_msg_contains(error_msg.spec_bytes(), "license not found"@)
            || spec_msg_contains(error_msg.spec_bytes(), "license expired"@)
            || spec_msg_contains(error_msg.spec_bytes(), "license revoked"@)),
{
    let lowered = crate::text::ascii_lower_bytes(error_msg.as_bytes());
    let l = lowered.as_slice();
    crate::text::bytes_contains(l, "invalid license".as_bytes()) || crate::text::bytes_contains(
        l,
        "license not found".as_bytes(),
    ) || crate::text::bytes_contains(l, "license expired".as_bytes())
        || crate::text::bytes_contains(l, "license revoked".as_bytes())
}

} // verus!
