use vstd::prelude::*;

verus! {

/// Settings of the monitor: the token and the address of the Geyser gRPC
/// endpoint, and the vote account whose votes are followed.
#[derive(Debug, Clone)]
pub struct Config {
    pub x_token: String,
    pub grpc_url: String,
    pub vote_account: String,
}

impl Config {
    /// Builds the settings from the three values that the environment gave.
    pub fn new(x_token: String, grpc_url: String, vote_account: String) -> (config: Config)
        ensures
            config.x_token@ == x_token@,
            config.grpc_url@ == grpc_url@,
            config.vote_account@ == vote_account@,
    {
        Config { x_token, grpc_url, vote_account }
    }
}

} // verus!
