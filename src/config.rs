use vstd::prelude::*;

use crate::arg_util::{Args, DeviceModel};

verus! {

/// The settings of the tool, read from the configuration file and the
/// environment and then adjusted by the command line.
#[derive(Clone, Copy, Debug, PartialEq, Eq, Structural)]
pub struct Config {
    /// The model to connect to.
    pub model: Option<DeviceModel>,
    /// Whether to bypass the cache for all secrets or not.
    pub no_cache: bool,
    /// The log level.
    pub verbosity: u8,
}

/// The built-in settings: no model preferred, the cache used, the least
/// output.
pub open spec fn default_config() -> Config {
    Config { model: None, no_cache: false, verbosity: 0 }
}

/// The settings of `lower` with each field that `higher` sets to something
/// other than its default taken from `higher`.
pub open spec fn merged(lower: Config, higher: Config) -> Config {
    Config {
        model: if higher.model is Some {
            higher.model
        } else {
            lower.model
        },
        no_cache: if higher.no_cache {
            true
        } else {
            lower.no_cache
        },
        verbosity: if higher.verbosity != 0 {
            higher.verbosity
        } else {
            lower.verbosity
        },
    }
}

/// The settings that the built-in defaults, the configuration file (if there
/// is one) and the environment give together, in rising priority.
pub open spec fn resolved(user: Option<Config>, env: Config) -> Config {
    let base = match user {
        Some(u) => merged(default_config(), u),
        None => default_config(),
    };
    merged(base, env)
}

/// The settings with the command line's explicit values taken over.
pub open spec fn updated(c: Config, args: Args) -> Config {
    merged(c, Config { model: args.model, no_cache: args.no_cache, verbosity: args.verbose })
}

/// Relies on the `Merge` impl of `Option` in the merge crate: `left` is
/// replaced by `right` only where it is `None`.
#[verifier::external_body]
fn overwrite_none(left: &mut Option<DeviceModel>, right: Option<DeviceModel>)
    ensures
        *final(left) == if old(left).is_none() {
            right
        } else {
            *old(left)
        },
{
    merge::Merge::merge(left, right)
}

/// Relies on `merge::bool::overwrite_false`: `left` is replaced by `right`
/// only where it is false.
#[verifier::external_body]
fn overwrite_false(left: &mut bool, right: bool)
    ensures
        *final(left) == if !*old(left) {
            right
        } else {
            *old(left)
        },
{
    merge::bool::overwrite_false(left, right)
}

/// Relies on `merge::num::overwrite_zero`: `left` is replaced by `right` only
/// where it is zero.
#[verifier::external_body]
fn overwrite_zero(left: &mut u8, right: u8)
    ensures
        *final(left) == if *old(left) == 0 {
            right
        } else {
            *old(left)
        },
{
    merge::num::overwrite_zero(left, right)
}

impl Default for Config {
    fn default() -> (r: Config)
        ensures
            r == default_config(),
    {
        Config { model: None, no_cache: false, verbosity: 0 }
    }
}

impl Config {
    /// Takes over each field that `higher`, a source of higher priority,
    /// sets to something other than the field's default. A default value in
    /// `higher` leaves the field as it was.
    pub fn merge(&mut self, higher: Config)
        ensures
            *final(self) == merged(*old(self), higher),
    {
        let mut m = higher;
        overwrite_none(&mut m.model, self.model);
        overwrite_false(&mut m.no_cache, self.no_cache);
        overwrite_zero(&mut m.verbosity, self.verbosity);
        *self = m;
    }

    /// Combines the built-in defaults, the configuration file's settings if
    /// there is a file, and the environment's settings, each overriding the
    /// ones before it field by field.
    pub fn resolve(user: Option<Config>, env: Config) -> (r: Config)
        ensures
            r == resolved(user, env),
    {
        let mut config = Config::default();
        match user {
            Some(u) => config.merge(u),
            None => {},
        }
        config.merge(env);
        config
    }

    /// Takes over the values that the command line sets explicitly.
    pub fn update(&mut self, args: &Args)
        ensures
            *final(self) == updated(*old(self), *args),
    {
        if args.model.is_some() {
            self.model = args.model;
        }
        if args.no_cache {
            self.no_cache = true;
        }
        if args.verbose > 0 {
            self.verbosity = args.verbose;
        }
    }
}

/// Every setting comes from the source of highest priority that sets it to
/// something other than its default: the command line over the environment,
/// the environment over the configuration file, the file over the built-in
/// defaults. A source that gives a field its default value never erases what
/// a source of lower priority set.
pub proof fn lemma_config_priority(user: Config, env: Config, args: Args)
    ensures
        ({
            let c = updated(resolved(Some(user), env), args);
            &&& c.model == if args.model is Some {
                args.model
            } else if env.model is Some {
                env.model
            } else {
                user.model
            }
            &&& c.no_cache == (args.no_cache || env.no_cache || user.no_cache)
            &&& c.verbosity == if args.verbose != 0 {
                args.verbose
            } else if env.verbosity != 0 {
                env.verbosity
            } else {
                user.verbosity
            }
        }),
        resolved(Some(user), default_config()) == merged(default_config(), user),
        resolved(None, default_config()) == default_config(),
{
}

} // verus!
