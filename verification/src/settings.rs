//! Final, validated configuration values the core consumes: the deployment
//! environment, the application listener and service identity, and the trace
//! exporter endpoint with its sampling ratio. Reading raw values from the
//! process environment is the caller's job; the defaults and the validation
//! rules live here.

use vstd::prelude::*;
use vstd::string::StringExecFns;
use crate::text::str_eq;

verus! {

/// The lowercase form of a character sequence, as Unicode case mapping
/// defines it. It depends on the characters alone.
pub uninterp spec fn lower_of(s: Seq<char>) -> Seq<char>;

/// Relies on `str::to_lowercase`: the result is the Unicode lowercase of the
/// input and depends on the input characters alone.
#[verifier::external_body]
fn lowercase(s: &str) -> (r: String)
    ensures
        r@ == lower_of(s@),
{
    s.to_lowercase()
}

/// The deployment environment the service runs in.
#[derive(Clone, Copy, Debug, PartialEq, Eq, Structural)]
pub enum Environment {
    Development,
    Production,
}

/// The canonical name of an environment.
pub open spec fn environment_name(e: Environment) -> Seq<char> {
    match e {
        Environment::Development => "development"@,
        Environment::Production => "production"@,
    }
}

/// The text of the error for an environment name that is not supported.
pub open spec fn unsupported_environment_text(lowered: Seq<char>) -> Seq<char> {
    lowered + " is not a supported environment. Use either `local` or `production`."@
}

impl Environment {
    /// The canonical name of this environment.
    pub fn as_str(&self) -> (r: &'static str)
        ensures
            r@ == environment_name(*self),
    {
        match self {
            Environment::Development => "development",
            Environment::Production => "production",
        }
    }

    /// Parses an environment from its name, case-insensitively; any other
    /// name is rejected with a message naming the offered value.
    pub fn try_from(s: String) -> (r: Result<Environment, String>)
        ensures
            lower_of(s@) == "development"@ ==> r == Ok::<Environment, String>(
                Environment::Development,
            ),
            lower_of(s@) == "production"@ ==> r == Ok::<Environment, String>(
                Environment::Production,
            ),
            r is Ok <==> (lower_of(s@) == "development"@ || lower_of(s@) == "production"@),
            r matches Err(m) ==> m@ == unsupported_environment_text(lower_of(s@)),
    {
        let lowered = lowercase(s.as_str());
        if str_eq(lowered.as_str(), "development") {
            proof {
                reveal_strlit("development");
                reveal_strlit("production");
                assert("development"@.len() != "production"@.len());
            }
            Ok(Environment::Development)
        } else if str_eq(lowered.as_str(), "production") {
            Ok(Environment::Production)
        } else {
            Err(lowered.concat(" is not a supported environment. Use either `local` or `production`."))
        }
    }
}

/// The application listener and the service's identity.
#[derive(Clone, Debug)]
pub struct Application {
    pub host: String,
    pub port: u16,
    pub environment: Environment,
    pub service_name: String,
}

/// The trace exporter endpoint and its sampling ratio. The ratio is kept in
/// parts per thousand, so that one thousand stands for sampling everything.
#[derive(Clone, Debug)]
pub struct Jaeger {
    pub host: String,
    pub port: u32,
    pub sampler_per_mille: u32,
}

impl Jaeger {
    /// A sampling ratio must lie in the unit interval.
    pub open spec fn wf(&self) -> bool {
        self.sampler_per_mille <= 1000
    }

    /// Tells whether the sampling ratio lies in the unit interval.
    pub fn sampler_valid(&self) -> (r: bool)
        ensures
            r == self.wf(),
    {
        self.sampler_per_mille <= 1000
    }
}

/// Every value the process supplies before the pipeline is constructed.
#[derive(Clone, Debug)]
pub struct Settings {
    pub app: Application,
    pub jaeger: Jaeger,
}

impl Settings {
    /// All parts of the configuration are valid.
    pub open spec fn wf(&self) -> bool {
        self.jaeger.wf()
    }
}

/// The configuration used where the environment supplies nothing: the local
/// listener on port 7000, the development environment, the service name
/// `messaging`, and a local exporter sampling everything.
pub fn default_settings() -> (r: Settings)
    ensures
        r.app.host@ == "127.0.0.1"@,
        r.app.port == 7000,
        r.app.environment == Environment::Development,
        r.app.service_name@ == "messaging"@,
        r.jaeger.host@ == "127.0.0.1"@,
        r.jaeger.port == 6831,
        r.jaeger.sampler_per_mille == 1000,
        r.wf(),
{
    Settings {
        app: Application {
            host: String::from_str("127.0.0.1"),
            port: 7000,
            environment: Environment::Development,
            service_name: String::from_str("messaging"),
        },
        jaeger: Jaeger { host: String::from_str("127.0.0.1"), port: 6831, sampler_per_mille: 1000 },
    }
}

} // verus!
