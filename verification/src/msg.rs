//! The messages that the lockdrop vault for concentrated-liquidity pools accepts.
//! Amounts that the chain writes as `Uint128` are held as `u128`.
use vstd::prelude::*;

verus! {

/// The message that creates the vault.
#[derive(Debug, Clone)]
pub struct InstantiateMsg {
    /// The vault name, which eases the vault's recognition.
    pub name: String,
    /// Information that characterizes the vault.
    pub description: String,
    /// The lockdrop contract behind the vault.
    pub lockdrop_contract: String,
    /// The USDC/NTRN CL pool contract.
    pub usdc_cl_pool_contract: String,
    /// The ATOM/NTRN CL pool oracle contract.
    pub atom_cl_pool_contract: String,
    /// Owner can update all configs including changing the owner. This will generally be a DAO.
    pub owner: String,
}

/// The messages that change the vault: its configuration, and the bond and unbond
/// requests that every voting vault takes.
#[derive(Debug, Clone)]
pub enum ExecuteMsg {
    UpdateConfig {
        owner: Option<String>,
        lockdrop_contract: Option<String>,
        usdc_cl_pool_contract: Option<String>,
        atom_cl_pool_contract: Option<String>,
        name: Option<String>,
        description: Option<String>,
    },
    Bond {},
    Unbond { amount: u128 },
}

/// The queries that the vault answers: its configuration, the voting-power queries,
/// the queries of a voting vault, and the contract info.
#[derive(Debug, Clone, PartialEq)]
pub enum QueryMsg {
    Config {},
    VotingPowerAtHeight { address: String, height: Option<u64> },
    TotalPowerAtHeight { height: Option<u64> },
    Dao {},
    Name {},
    Description {},
    BondingStatus { height: Option<u64>, address: String },
    ListBonders { start_after: Option<String>, limit: Option<u32> },
    Info {},
}

/// The message that migrates the vault; it carries nothing.
#[derive(Clone, Debug, PartialEq, Eq, Structural)]
pub struct MigrateMsg {}

/// A message that carries nothing, for contracts that take no arguments.
#[derive(Debug, Clone)]
pub struct EmptyMsg {}

} // verus!
