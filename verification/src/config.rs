//! The already-parsed configuration the decision logic runs against:
//! the rule set and the security settings. Loading and parsing the
//! configuration file is the surrounding process's job.

use vstd::prelude::*;
use crate::authenticate::Rule;

verus! {

/// The security settings: the optional sanitized PATH, the cache
/// validity window in seconds, and the authentication retry budget.
#[derive(Debug, Clone)]
pub struct SecurityConfig {
    pub safe_path: Option<String>,
    pub timeout: i64,
    pub tries: usize,
}

impl Default for SecurityConfig {
    fn default() -> (r: Self)
        ensures
            r.safe_path is None,
            r.timeout == 10,
            r.tries == 3,
    {
        SecurityConfig { safe_path: None, timeout: 10, tries: 3 }
    }
}

/// The configuration the core consumes: the ordered rule set and the
/// security settings.
#[derive(Debug, Clone)]
pub struct Config {
    pub rules: Vec<Rule>,
    pub security: SecurityConfig,
}

impl Default for Config {
    fn default() -> (r: Self)
        ensures
            r.rules@.len() == 0,
            r.security.safe_path is None,
            r.security.timeout == 10,
            r.security.tries == 3,
    {
        Config { rules: Vec::new(), security: SecurityConfig::default() }
    }
}

} // verus!
