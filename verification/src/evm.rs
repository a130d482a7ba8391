use vstd::prelude::*;

use revm::context::result::{ExecutionResult, Output};
use revm::context::TxEnv;
use revm::database::InMemoryDB;
use revm::primitives::{Address, Bytes, TxKind};
use revm::{ExecuteCommitEvm, MainBuilder, MainContext};

verus! {

/// A 20-byte account address: the handle by which the execution environment
/// identifies a deployed contract.
#[derive(Debug, Clone)]
pub struct ContractAddress {
    /// The address's 20 bytes.
    pub bytes: Vec<u8>,
}

impl ContractAddress {
    /// An address is exactly 20 bytes.
    pub open spec fn wf(self) -> bool {
        self.bytes@.len() == 20
    }
}

/// The outcome of one call transaction, as the execution environment reports
/// it. A fault is an abnormal halt, distinct from both success and an
/// explicit revert; the three are never conflated.
pub enum CallOutcome {
    /// The call ran to completion.
    Success {
        /// Gas spent by the call.
        gas_used: u64,
        /// The call's return data.
        output: Vec<u8>,
    },
    /// The call reverted explicitly.
    Revert {
        /// Gas spent up to the revert.
        gas_used: u64,
        /// The revert's return data.
        output: Vec<u8>,
    },
    /// The call halted abnormally or the transaction was rejected.
    Fault,
}

/// The outcome of one create transaction.
pub enum CreateOutcome {
    /// Deployment succeeded at the given address.
    Created(ContractAddress),
    /// Deployment reverted, halted abnormally or was rejected.
    Failed,
}

/// The deterministic in-memory execution environment that runs deployments
/// and calls. Its account and storage state lives inside revm and is opaque
/// here: the contracts of `create` and `call` state only what holds of every
/// outcome, and all logic that reads an outcome is verified for every value
/// the environment could report.
#[verifier::external_body]
pub struct Evm {
    inner: revm::MainnetEvm<revm::handler::MainnetContext<InMemoryDB>>,
}

impl Evm {
    /// Relies on revm's Context::mainnet, with_db and build_mainnet: a fresh
    /// environment over an empty in-memory database. The nonce check is
    /// disabled so consecutive transactions need no caller bookkeeping, and
    /// the per-transaction gas cap is lifted so that only logical faults,
    /// never resource exhaustion, end a call.
    #[verifier::external_body]
    pub fn new() -> Evm {
        let ctx = revm::Context::mainnet().with_db(InMemoryDB::default()).modify_cfg_chained(
            |c| {
                c.disable_nonce_check = true;
                c.tx_gas_limit_cap = Some(u64::MAX);
            },
        );
        Evm { inner: ctx.build_mainnet() }
    }

    /// Relies on revm's in-memory database: the byte length of the code
    /// deployed at the given address, or nothing when no code is there.
    #[verifier::external_body]
    pub fn code_size(&mut self, address: &ContractAddress) -> (r: Option<usize>)
        requires
            address.wf(),
    {
        let addr = Address::from_slice(address.bytes.as_slice());
        let accounts = &self.inner.ctx.journaled_state.database.cache.accounts;
        accounts.get(&addr).and_then(|a| a.info.code.as_ref()).map(|c| c.len())
    }

    /// Relies on revm's transact_commit with a create transaction: a created
    /// contract's address is a fixed 20-byte value; a revert, an abnormal
    /// halt or a rejected transaction is reported as a failure.
    #[verifier::external_body]
    pub fn create(&mut self, bytecode: Vec<u8>) -> (r: CreateOutcome)
        ensures
            r matches CreateOutcome::Created(a) ==> a.wf(),
    {
        let tx = TxEnv {
            kind: TxKind::Create,
            data: Bytes::from(bytecode),
            gas_limit: u64::MAX,
            ..TxEnv::default()
        };
        match self.inner.transact_commit(tx) {
            Ok(ExecutionResult::Success { output: Output::Create(_, Some(a)), .. }) => {
                CreateOutcome::Created(ContractAddress { bytes: a.as_slice().to_vec() })
            },
            _ => CreateOutcome::Failed,
        }
    }

    /// Relies on revm's transact_commit with a call transaction: success and
    /// revert each carry the gas spent and the return data; an abnormal halt
    /// or a rejected transaction is a fault. What a call returns depends on
    /// the environment's account state, so nothing more is assumed of it.
    #[verifier::external_body]
    pub fn call(&mut self, address: &ContractAddress, calldata: &Vec<u8>) -> (r: CallOutcome)
        requires
            address.wf(),
    {
        let tx = TxEnv {
            kind: TxKind::Call(Address::from_slice(address.bytes.as_slice())),
            data: Bytes::copy_from_slice(calldata.as_slice()),
            gas_limit: u64::MAX,
            ..TxEnv::default()
        };
        match self.inner.transact_commit(tx) {
            Ok(ExecutionResult::Success { gas, output, .. }) => {
                CallOutcome::Success { gas_used: gas.tx_gas_used(), output: output.into_data().to_vec() }
            },
            Ok(ExecutionResult::Revert { gas, output, .. }) => {
                CallOutcome::Revert { gas_used: gas.tx_gas_used(), output: output.to_vec() }
            },
            _ => CallOutcome::Fault,
        }
    }
}

} // verus!
