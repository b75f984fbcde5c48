//! The colour source that rendering draws from.
use vstd::prelude::*;
use crate::config::Config;

verus! {

/// Holds the configuration whose colours the listings are drawn with.
#[derive(Debug)]
pub struct Styler {
    pub config: Config,
}

impl Styler {
    pub fn new(config: &Config) -> (r: Self)
        ensures
            r.config == *config,
    {
        Styler { config: config.clone() }
    }
}

} // verus!
