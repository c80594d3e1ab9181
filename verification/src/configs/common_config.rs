//! The configuration that every attack strategy shares.
use vstd::prelude::*;
use crate::configs::cmd_args::Args;

verus! {

/// The configuration that every attack strategy shares.
#[derive(Clone, Debug)]
pub struct CommonConfig {
    pub url_under_fire: String,
    pub connection_number: u32,
    pub connection_duration: u64,
    pub connection_pause: u64,
    pub waves_number: u32,
    pub waves_pause: u64,
    pub external_timer: bool,
}

/// The configuration that the arguments give: their values, with no outside
/// timer.
pub open spec fn config_of(args: Args) -> CommonConfig {
    CommonConfig {
        url_under_fire: args.url,
        connection_number: args.connection_number,
        connection_duration: args.connection_duration,
        connection_pause: args.connection_pause,
        waves_number: args.waves_number,
        waves_pause: args.waves_pause,
        external_timer: false,
    }
}

impl From<Args> for CommonConfig {
    fn from(value: Args) -> (config: CommonConfig) {
        CommonConfig {
            url_under_fire: value.url,
            connection_number: value.connection_number,
            connection_duration: value.connection_duration,
            connection_pause: value.connection_pause,
            waves_number: value.waves_number,
            waves_pause: value.waves_pause,
            external_timer: false,
        }
    }
}

impl vstd::std_specs::convert::FromSpecImpl<Args> for CommonConfig {
    open spec fn obeys_from_spec() -> bool {
        true
    }

    open spec fn from_spec(v: Args) -> CommonConfig {
        config_of(v)
    }
}

impl CommonConfig {
    /// The same configuration, with an outside timer.
    pub fn with_external_timer(self) -> (config: Self)
        ensures
            config == (CommonConfig { external_timer: true, ..self }),
    {
        let mut config = self;
        config.external_timer = true;
        config
    }
}

} // verus!
