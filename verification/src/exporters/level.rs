//! The level that an application is configured to log at.

use crate::configs::AppConfigs;
use crate::exporters::envs::{level_of, log_level};
use crate::severity::SeverityLevel;
use vstd::prelude::*;

verus! {

/// Reads the level that the application is configured to log at; `Off`
/// where the configured text names no level.
pub fn get_log_level_filter(cfg: &AppConfigs) -> (r: SeverityLevel)
    ensures
        r == level_of(cfg.log_level@),
{
    log_level(cfg.log_level.as_str())
}

} // verus!
