use vstd::prelude::*;

verus! {

/// Settings of the contract collaborator, built by the caller and passed to
/// whatever needs them.
pub struct LocalCoinConfig {
    pub contract_path: String,
}

impl LocalCoinConfig {
    pub fn new(contract_path: String) -> (r: LocalCoinConfig)
        ensures
            r.contract_path@ == contract_path@,
    {
        LocalCoinConfig { contract_path }
    }
}

/// The directory of the smart contract that the configuration names.
pub fn contract_path(config: &LocalCoinConfig) -> (r: String)
    ensures
        r@ == config.contract_path@,
{
    config.contract_path.clone()
}

} // verus!
