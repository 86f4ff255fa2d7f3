//! The network configuration the sandbox simulates and executes under.

use vstd::prelude::*;

use crate::ledger_info::get_initial_ledger_info;

verus! {

/// One entry of a contract cost model: a constant and a linear term.
#[derive(Clone, Copy, Debug)]
pub struct CostParam {
    pub const_term: i64,
    pub linear_term: i64,
}

/// Resource fees.
#[derive(Clone, Copy, Debug)]
pub struct FeeConfiguration {
    pub fee_per_instruction_increment: i64,
    pub fee_per_disk_read_entry: i64,
    pub fee_per_write_entry: i64,
    pub fee_per_disk_read_1kb: i64,
    pub fee_per_write_1kb: i64,
    pub fee_per_historical_1kb: i64,
    pub fee_per_contract_event_1kb: i64,
    pub fee_per_transaction_size_1kb: i64,
}

/// Rent fees.
#[derive(Clone, Copy, Debug)]
pub struct RentFeeConfiguration {
    pub fee_per_rent_1kb: i64,
    pub fee_per_write_1kb: i64,
    pub fee_per_write_entry: i64,
    pub persistent_rent_rate_denominator: i64,
    pub temporary_rent_rate_denominator: i64,
}

/// The network configuration of a Soroban simulation.
pub struct NetworkConfig {
    pub fee_configuration: FeeConfiguration,
    pub rent_fee_configuration: RentFeeConfiguration,
    pub tx_max_instructions: i64,
    pub tx_memory_limit: u32,
    pub cpu_cost_params: Vec<CostParam>,
    pub memory_cost_params: Vec<CostParam>,
    pub min_temp_entry_ttl: u32,
    pub min_persistent_entry_ttl: u32,
    pub max_entry_ttl: u32,
}

/// The terms of a cost model, in order.
pub open spec fn cost_terms(params: Seq<CostParam>) -> Seq<(i64, i64)> {
    params.map_values(|p: CostParam| (p.const_term, p.linear_term))
}

/// The CPU cost model of the sandbox.
pub fn cpu_cost_params() -> (r: Vec<CostParam>)
    ensures
        cost_terms(r@) =~= seq![(35i64, 36i64), (37i64, 38i64)],
{
    vec![CostParam { const_term: 35, linear_term: 36 }, CostParam { const_term: 37, linear_term: 38 }]
}

/// The memory cost model of the sandbox.
pub fn memory_cost_params() -> (r: Vec<CostParam>)
    ensures
        cost_terms(r@) =~= seq![(39i64, 40i64), (41i64, 42i64), (43i64, 44i64)],
{
    vec![
        CostParam { const_term: 39, linear_term: 40 },
        CostParam { const_term: 41, linear_term: 42 },
        CostParam { const_term: 43, linear_term: 44 },
    ]
}

/// The network configuration of the sandbox: fixed fees, limits and cost
/// models, and the entry TTLs of the initial ledger.
pub open spec fn is_sandbox_network_config(r: NetworkConfig) -> bool {
    &&& r.fee_configuration == (FeeConfiguration {
        fee_per_instruction_increment: 10,
        fee_per_disk_read_entry: 20,
        fee_per_write_entry: 30,
        fee_per_disk_read_1kb: 40,
        fee_per_write_1kb: 50,
        fee_per_historical_1kb: 60,
        fee_per_contract_event_1kb: 70,
        fee_per_transaction_size_1kb: 80,
    })
    &&& r.rent_fee_configuration == (RentFeeConfiguration {
        fee_per_rent_1kb: 100,
        fee_per_write_1kb: 50,
        fee_per_write_entry: 30,
        persistent_rent_rate_denominator: 100,
        temporary_rent_rate_denominator: 1000,
    })
    &&& r.tx_max_instructions == 100_000_000
    &&& r.tx_memory_limit == 40_000_000
    &&& cost_terms(r.cpu_cost_params@) == seq![(35i64, 36i64), (37i64, 38i64)]
    &&& cost_terms(r.memory_cost_params@) == seq![(39i64, 40i64), (41i64, 42i64), (43i64, 44i64)]
    &&& r.min_temp_entry_ttl == 16
    &&& r.min_persistent_entry_ttl == 100_000
    &&& r.max_entry_ttl == 10_000_000
}

/// The network configuration of the sandbox (`is_sandbox_network_config`).
pub fn default_network_config() -> (r: NetworkConfig)
    ensures
        is_sandbox_network_config(r),
{
    let ledger_info = get_initial_ledger_info();
    NetworkConfig {
        fee_configuration: FeeConfiguration {
            fee_per_instruction_increment: 10,
            fee_per_disk_read_entry: 20,
            fee_per_write_entry: 30,
            fee_per_disk_read_1kb: 40,
            fee_per_write_1kb: 50,
            fee_per_historical_1kb: 60,
            fee_per_contract_event_1kb: 70,
            fee_per_transaction_size_1kb: 80,
        },
        rent_fee_configuration: RentFeeConfiguration {
            fee_per_rent_1kb: 100,
            fee_per_write_1kb: 50,
            fee_per_write_entry: 30,
            persistent_rent_rate_denominator: 100,
            temporary_rent_rate_denominator: 1000,
        },
        tx_max_instructions: 100_000_000,
        tx_memory_limit: 40_000_000,
        cpu_cost_params: cpu_cost_params(),
        memory_cost_params: memory_cost_params(),
        min_temp_entry_ttl: ledger_info.min_temp_entry_ttl,
        min_persistent_entry_ttl: ledger_info.min_persistent_entry_ttl,
        max_entry_ttl: ledger_info.max_entry_ttl,
    }
}

} // verus!
