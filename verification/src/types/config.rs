//! Configuration, as read from a TOML file.

use vstd::prelude::*;
use crate::text::str_eq;

verus! {

#[verifier::external_type_specification]
#[verifier::external_body]
pub struct ExTomlValue(toml::Value);

pub struct AppConfig {
    pub engine: EngineConfig,
    pub exchanges: Vec<ExchangeConfig>,
    pub strategies: Vec<StrategyConfig>,
    pub telemetry: TelemetryConfig,
}

#[derive(Clone, Copy, Debug, PartialEq, Eq, Structural)]
pub struct EngineConfig {
    pub tick_interval_ms: u64,
}

pub struct ExchangeConfig {
    pub name: String,
    /// Variable holding the API key (empty when the venue needs none).
    pub api_key_env: String,
    /// Variable holding the signing secret or private key.
    pub secret_key_env: String,
    pub testnet: bool,
    /// Venue-specific parameters (an empty table when absent).
    pub params: toml::Value,
}

pub struct StrategyConfig {
    pub name: String,
    pub strategy_type: String,
    pub instruments: Vec<String>,
    pub params: toml::Value,
}

#[derive(Clone, Debug)]
pub struct TelemetryConfig {
    pub log_level: String,
    pub metrics_port: u16,
    pub enable_tracing: bool,
}

/// Position of the first venue entry named `name`.
pub open spec fn first_named(es: Seq<ExchangeConfig>, name: Seq<char>) -> Option<int>
    decreases es.len(),
{
    if es.len() == 0 {
        None
    } else if es[0].name@ == name {
        Some(0)
    } else {
        match first_named(es.drop_first(), name) {
            Some(i) => Some(i + 1),
            None => None,
        }
    }
}

impl AppConfig {
    /// The first venue entry named `name`.
    pub fn find_exchange(&self, name: &str) -> (r: Option<&ExchangeConfig>)
        ensures
            match first_named(self.exchanges@, name@) {
                Some(i) => r == Some(&self.exchanges@[i]),
                None => r is None,
            },
    {
        let mut i: usize = 0;
        assert(self.exchanges@.skip(0) =~= self.exchanges@);
        while i < self.exchanges.len()
            invariant
                0 <= i <= self.exchanges@.len(),
                match first_named(self.exchanges@.skip(i as int), name@) {
                    Some(j) => first_named(self.exchanges@, name@) == Some(j + i),
                    None => first_named(self.exchanges@, name@) is None,
                },
            decreases self.exchanges@.len() - i,
        {
            let ghost rest = self.exchanges@.skip(i as int);
            assert(rest[0] == self.exchanges@[i as int]);
            assert(rest.drop_first() =~= self.exchanges@.skip(i + 1));
            if str_eq(self.exchanges[i].name.as_str(), name) {
                return Some(&self.exchanges[i]);
            }
            i = i + 1;
        }
        None
    }
}

} // verus!
