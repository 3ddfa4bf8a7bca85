//! The knobs of one scan and their validation.

use crate::navigation::valid_speed;
use vstd::prelude::*;

verus! {

/// Largest item count that can be given explicitly.
pub const MAX_TARGET_COUNT: u32 = 1500;

/// Smallest accepted bound of the stabilization wait, in milliseconds.
pub const MIN_WAIT_SWITCH_MS: u32 = 10;

/// Highest star rating an item can have.
pub const MAX_STAR: u32 = 5;

/// The settings of one scan; fixed for its whole run.
#[derive(Clone, Copy, Debug, PartialEq, Eq, Structural)]
pub struct ScanConfig {
    /// Pages to visit at most.
    pub max_row: u32,
    pub min_star: u32,
    pub min_level: u32,
    pub max_wait_switch: u32,
    pub max_wait_scroll: u32,
    pub scroll_stop: u32,
    pub speed_level: u32,
    /// Number of items to collect, where the user gives it.
    pub target_count: Option<u32>,
    pub offset_x: i32,
    pub offset_y: i32,
    /// Skip the check that the inventory panel is open.
    pub no_check: bool,
    pub dump: bool,
    pub mark: bool,
    pub capture_only: bool,
    pub use_alt_capture: bool,
    /// Retries of an unreadable field before it is marked degraded.
    pub max_retries: u32,
    /// Unchanged page turns in a row that end the scan.
    pub scroll_retry_limit: u32,
}

/// A knob with a value out of its range.
#[derive(Clone, Copy, Debug, PartialEq, Eq, Structural)]
pub enum ConfigError {
    SpeedLevel,
    MinStar,
    MaxWaitSwitch,
    TargetCount,
    MaxRow,
    ScrollRetryLimit,
}

/// The first knob out of range, in the order of `ConfigError`.
pub open spec fn config_error(c: ScanConfig) -> Option<ConfigError> {
    if !valid_speed(c.speed_level) {
        Some(ConfigError::SpeedLevel)
    } else if c.min_star < 1 || c.min_star > MAX_STAR {
        Some(ConfigError::MinStar)
    } else if c.max_wait_switch < MIN_WAIT_SWITCH_MS {
        Some(ConfigError::MaxWaitSwitch)
    } else if c.target_count matches Some(n) && (n < 1 || n > MAX_TARGET_COUNT) {
        Some(ConfigError::TargetCount)
    } else if c.max_row < 1 {
        Some(ConfigError::MaxRow)
    } else if c.scroll_retry_limit < 1 {
        Some(ConfigError::ScrollRetryLimit)
    } else {
        None
    }
}

impl ScanConfig {
    pub open spec fn valid(&self) -> bool {
        config_error(*self) is None
    }

    /// The defaults: every page, four stars and up, any level, at full speed.
    pub fn default_config() -> (r: ScanConfig)
        ensures
            r.valid(),
            r.max_row == 1000 && r.min_star == 4 && r.min_level == 0 && r.max_wait_switch == 800
                && r.max_wait_scroll == 0 && r.scroll_stop == 100 && r.speed_level == 5
                && r.target_count is None && r.offset_x == 0 && r.offset_y == 0 && !r.no_check
                && !r.dump && !r.mark && !r.capture_only && !r.use_alt_capture && r.max_retries
                == 3 && r.scroll_retry_limit == 3,
    {
        ScanConfig {
            max_row: 1000,
            min_star: 4,
            min_level: 0,
            max_wait_switch: 800,
            max_wait_scroll: 0,
            scroll_stop: 100,
            speed_level: 5,
            target_count: None,
            offset_x: 0,
            offset_y: 0,
            no_check: false,
            dump: false,
            mark: false,
            capture_only: false,
            use_alt_capture: false,
            max_retries: 3,
            scroll_retry_limit: 3,
        }
    }

    /// Checks every knob; the scan starts only on `Ok`.
    pub fn validate(&self) -> (r: Result<(), ConfigError>)
        ensures
            r is Ok <==> self.valid(),
            r matches Err(e) ==> config_error(*self) == Some(e),
    {
        if self.speed_level < 1 || self.speed_level > 5 {
            Err(ConfigError::SpeedLevel)
        } else if self.min_star < 1 || self.min_star > MAX_STAR {
            Err(ConfigError::MinStar)
        } else if self.max_wait_switch < MIN_WAIT_SWITCH_MS {
            Err(ConfigError::MaxWaitSwitch)
        } else if match self.target_count {
            Some(n) => n < 1 || n > MAX_TARGET_COUNT,
            None => false,
        } {
            Err(ConfigError::TargetCount)
        } else if self.max_row < 1 {
            Err(ConfigError::MaxRow)
        } else if self.scroll_retry_limit < 1 {
            Err(ConfigError::ScrollRetryLimit)
        } else {
            Ok(())
        }
    }
}

} // verus!
