//! A source configuration referring to environment variables.
//!
//! The interpretation of environment variables is owed to the envious crate:
//! this module carries envious's own configuration (prefix, separator) beside
//! the secrecy capability, and the caller that reads the environment takes
//! the configuration out, performs the read, and attaches the outcome as a
//! [`crate::source::ConfigSource::External`].

use vstd::prelude::*;

verus! {

#[verifier::external_type_specification]
#[verifier::external_body]
pub struct ExEnvConfig<'a>(envious::Config<'a>);

/// Relies on `envious::Config::new`: builds envious's default configuration
/// (no prefix, case-insensitive, `"__"` as separator).
#[verifier::external_body]
fn env_config_new<'a>() -> (r: envious::Config<'a>) {
    envious::Config::new()
}

/// Relies on `envious::Config::with_prefix`: stores the prefix under which
/// environment variables will be looked up; variables without it are ignored.
#[verifier::external_body]
fn env_config_set_prefix<'a>(config: &mut envious::Config<'a>, prefix: &'a str) {
    config.with_prefix(prefix);
}

/// Relies on `envious::Config::with_separator`: stores the separator that
/// splits an environment variable's name into nested field path segments.
#[verifier::external_body]
fn env_config_set_separator<'a>(config: &mut envious::Config<'a>, separator: &'a str) {
    config.with_separator(separator);
}

/// A source referring to environment variables, interpreted by envious.
///
/// Secrets are refused unless [`EnvSource::allow_secrets`] is called.
pub struct EnvSource<'a> {
    config: envious::Config<'a>,
    allow_secrets: bool,
}

impl<'a> EnvSource<'a> {
    /// Whether this source is permitted to supply secret-marked fields.
    pub closed spec fn spec_allows_secrets(&self) -> bool {
        self.allow_secrets
    }

    /// The envious configuration this source carries.
    pub closed spec fn spec_config(&self) -> envious::Config<'a> {
        self.config
    }

    /// Creates a new source referring to environment variables, with
    /// envious's default configuration and secrets refused.
    pub fn new() -> (r: Self)
        ensures
            !r.spec_allows_secrets(),
    {
        EnvSource { config: env_config_new(), allow_secrets: false }
    }

    /// Sets the envious prefix.
    pub fn with_prefix(self, prefix: &'a str) -> (r: Self)
        ensures
            r.spec_allows_secrets() == self.spec_allows_secrets(),
    {
        let EnvSource { mut config, allow_secrets } = self;
        env_config_set_prefix(&mut config, prefix);
        EnvSource { config, allow_secrets }
    }

    /// Sets the envious separator.
    pub fn with_separator(self, separator: &'a str) -> (r: Self)
        ensures
            r.spec_allows_secrets() == self.spec_allows_secrets(),
    {
        let EnvSource { mut config, allow_secrets } = self;
        env_config_set_separator(&mut config, separator);
        EnvSource { config, allow_secrets }
    }

    /// Sets the envious config.
    pub fn with_config(self, config: envious::Config<'a>) -> (r: Self)
        ensures
            r.spec_allows_secrets() == self.spec_allows_secrets(),
            r.spec_config() == config,
    {
        let EnvSource { config: _, allow_secrets } = self;
        EnvSource { config, allow_secrets }
    }

    /// Allows this source to contain secrets.
    pub fn allow_secrets(self) -> (r: Self)
        ensures
            r.spec_allows_secrets(),
            r.spec_config() == self.spec_config(),
    {
        let EnvSource { config, allow_secrets: _ } = self;
        EnvSource { config, allow_secrets: true }
    }

    /// Whether this source is permitted to supply secret-marked fields.
    pub fn allows_secrets(&self) -> (b: bool)
        ensures
            b == self.spec_allows_secrets(),
    {
        self.allow_secrets
    }

    /// Hands the envious configuration out, with the secrecy capability, for
    /// the caller that performs the environment read.
    pub fn into_config(self) -> (r: (envious::Config<'a>, bool))
        ensures
            r.0 == self.spec_config(),
            r.1 == self.spec_allows_secrets(),
    {
        let EnvSource { config, allow_secrets } = self;
        (config, allow_secrets)
    }
}

impl<'a> Default for EnvSource<'a> {
    fn default() -> (r: Self)
        ensures
            !r.spec_allows_secrets(),
    {
        EnvSource::new()
    }
}

} // verus!
