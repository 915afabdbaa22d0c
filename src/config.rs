use vstd::prelude::*;

verus! {

/// Milliseconds in one minute.
pub const MS_PER_MINUTE: u64 = 60000;

/// Settings read at startup: the sync period, the working tree and the branch.
pub struct Config {
    interval_minutes: u32,
    repo_path: String,
    branch_name: String,
}

/// Why a configuration was refused.
#[derive(Debug, Clone, Copy, PartialEq, Eq, Structural)]
pub enum ConfigError {
    /// The sync period must be a positive number of minutes.
    ZeroInterval,
}

/// The sync period in milliseconds.
pub open spec fn interval_ms_of(minutes: u32) -> int {
    minutes as int * MS_PER_MINUTE as int
}

/// The deadline of one attempt: half of the sync period.
pub open spec fn deadline_ms_of(minutes: u32) -> int {
    interval_ms_of(minutes) / 2
}

impl Config {
    /// The sync period is never zero.
    #[verifier::type_invariant]
    spec fn positive_interval(&self) -> bool {
        self.interval_minutes > 0
    }

    pub closed spec fn spec_interval_minutes(&self) -> u32 {
        self.interval_minutes
    }

    pub closed spec fn spec_repo_path(&self) -> Seq<char> {
        self.repo_path@
    }

    pub closed spec fn spec_branch_name(&self) -> Seq<char> {
        self.branch_name@
    }

    /// Builds a configuration; a zero interval is refused.
    pub fn new(interval_minutes: u32, repo_path: String, branch_name: String) -> (r: Result<
        Config,
        ConfigError,
    >)
        ensures
            interval_minutes == 0 <==> r == Err::<Config, ConfigError>(ConfigError::ZeroInterval),
            r matches Ok(c) ==> c.spec_interval_minutes() == interval_minutes
                && c.spec_repo_path() == repo_path@ && c.spec_branch_name() == branch_name@,
    {
        if interval_minutes == 0 {
            Err(ConfigError::ZeroInterval)
        } else {
            Ok(Config { interval_minutes, repo_path, branch_name })
        }
    }

    pub fn interval_minutes(&self) -> (r: u32)
        ensures
            r == self.spec_interval_minutes(),
            r > 0,
    {
        proof {
            use_type_invariant(self);
        }
        self.interval_minutes
    }

    pub fn repo_path(&self) -> (r: &str)
        ensures
            r@ == self.spec_repo_path(),
    {
        self.repo_path.as_str()
    }

    pub fn branch_name(&self) -> (r: &str)
        ensures
            r@ == self.spec_branch_name(),
    {
        self.branch_name.as_str()
    }

    /// The sync period in milliseconds.
    pub fn interval_ms(&self) -> (r: u64)
        ensures
            r == interval_ms_of(self.spec_interval_minutes()),
    {
        self.interval_minutes as u64 * MS_PER_MINUTE
    }

    /// How long one attempt may run: half of the sync period.
    pub fn deadline_ms(&self) -> (r: u64)
        ensures
            r == deadline_ms_of(self.spec_interval_minutes()),
    {
        self.interval_ms() / 2
    }
}

} // verus!
