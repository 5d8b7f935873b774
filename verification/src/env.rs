//! Which environment the application runs for.

use vstd::prelude::*;
use vstd::string::*;

verus! {

/// The environment that a build of the application is meant for.
#[derive(Debug, Clone, Copy, PartialEq, Eq, Structural)]
pub enum Environment {
    Development,
    Production,
}

/// The environment that a text names: `development` or `production`, in
/// lower case and nothing around it.
pub open spec fn environment_named(name: Seq<char>) -> Option<Environment> {
    if name == "development"@ {
        Some(Environment::Development)
    } else if name == "production"@ {
        Some(Environment::Production)
    } else {
        None
    }
}

/// The environment of a build when nothing else decides: development for a
/// debug build, production for a release build.
pub open spec fn default_environment(debug_build: bool) -> Environment {
    if debug_build {
        Environment::Development
    } else {
        Environment::Production
    }
}

/// The environment to run for: the one that `setting` names, and the
/// build's own where there is no setting or it names none.
pub open spec fn environment_for(setting: Option<Seq<char>>, debug_build: bool) -> Environment {
    match setting {
        Some(name) => match environment_named(name) {
            Some(environment) => environment,
            None => default_environment(debug_build),
        },
        None => default_environment(debug_build),
    }
}

/// Whether two texts are the same.
fn same_text(left: &str, right: &str) -> (same: bool)
    ensures
        same == (left@ == right@),
{
    String::from_str(left) == String::from_str(right)
}

impl Default for Environment {
    /// Production.
    fn default() -> (environment: Environment)
        ensures
            environment == Environment::Production,
    {
        Environment::Production
    }
}

impl Environment {
    /// The environment that the text names, if it names one.
    pub fn parse(name: &str) -> (environment: Option<Environment>)
        ensures
            environment == environment_named(name@),
    {
        if same_text(name, "development") {
            Some(Environment::Development)
        } else if same_text(name, "production") {
            Some(Environment::Production)
        } else {
            None
        }
    }

    /// The most detailed level at which the environment logs: `debug` in
    /// development, `info` in production.
    pub fn log_level(&self) -> (level: &'static str)
        ensures
            level@ == (match self {
                Environment::Development => "debug"@,
                Environment::Production => "info"@,
            }),
    {
        match self {
            Environment::Development => "debug",
            Environment::Production => "info",
        }
    }
}

/// Decides which environment to run for.
///
/// `setting` is what the variable `ENV` holds, `None` where it is not set;
/// `debug_build` says whether the build carries debug assertions.
pub fn which(setting: Option<&str>, debug_build: bool) -> (environment: Environment)
    ensures
        environment == environment_for(
            match setting {
                Some(name) => Some(name@),
                None => None,
            },
            debug_build,
        ),
{
    let default_env = if debug_build {
        Environment::Development
    } else {
        Environment::Production
    };
    match setting {
        Some(name) => match Environment::parse(name) {
            Some(environment) => environment,
            None => default_env,
        },
        None => default_env,
    }
}

} // verus!
