//! The settings a user keeps between runs.

use vstd::prelude::*;

verus! {

/// The settings a run falls back on where the command line leaves one out.
#[derive(Debug, Clone)]
pub struct Config {
    pub default_threshold_mins: u64,
    pub start_time: Option<String>,
    pub end_time: Option<String>,
    pub timeout: Option<String>,
}

impl Default for Config {
    fn default() -> (config: Config)
        ensures
            config.default_threshold_mins == 5,
            config.start_time is None,
            config.end_time is None,
            config.timeout is None,
    {
        Config { default_threshold_mins: 5, start_time: None, end_time: None, timeout: None }
    }
}

impl Config {
    /// The settings of a run: each one as the command line gave it, or as
    /// `self` has it where the command line left it out.
    pub fn overridden_by(
        self,
        threshold: Option<u64>,
        start_time: Option<String>,
        end_time: Option<String>,
        timeout: Option<String>,
    ) -> (settings: Config)
        ensures
            settings.default_threshold_mins == match threshold {
                Some(mins) => mins,
                None => self.default_threshold_mins,
            },
            settings.start_time == if start_time is Some {
                start_time
            } else {
                self.start_time
            },
            settings.end_time == if end_time is Some {
                end_time
            } else {
                self.end_time
            },
            settings.timeout == if timeout is Some {
                timeout
            } else {
                self.timeout
            },
    {
        Config {
            default_threshold_mins: match threshold {
                Some(mins) => mins,
                None => self.default_threshold_mins,
            },
            start_time: match start_time {
                Some(text) => Some(text),
                None => self.start_time,
            },
            end_time: match end_time {
                Some(text) => Some(text),
                None => self.end_time,
            },
            timeout: match timeout {
                Some(text) => Some(text),
                None => self.timeout,
            },
        }
    }
}

} // verus!
