//! Coop sessions grouped under one contract, and the builders that
//! collect what a session fetch needs.  The builders validate at build
//! time and fail with a typed missing-field error when a required part
//! was never supplied.

use vstd::prelude::*;
use crate::coop_flag::CoopFlag;
use crate::engine::Coop;
use crate::error::MissingField;
use crate::model::Contract;
use crate::ranker::coops_sorted;
use crate::ranker::coops_wf;
use crate::ranker::rank_sort;

verus! {

/// Everything a coop status fetch needs: the owning contract and the
/// coop's code.
#[derive(Debug)]
pub struct CoopRequest {
    pub contract: Contract,
    pub coop_code: String,
}

/// Collects the parts of a [`CoopRequest`].
#[derive(Debug)]
pub struct CoopBuilder {
    pub contract: Option<Contract>,
    pub coop_code: Option<String>,
}

impl CoopBuilder {
    pub fn new() -> (r: Self)
        ensures
            r.contract is None,
            r.coop_code is None,
    {
        CoopBuilder { contract: None, coop_code: None }
    }

    pub fn with_contract(self, contract: Contract) -> (r: Self)
        ensures
            r.contract == Some(contract),
            r.coop_code == self.coop_code,
    {
        CoopBuilder { contract: Some(contract), coop_code: self.coop_code }
    }

    pub fn with_coop_code(self, coop_code: String) -> (r: Self)
        ensures
            r.contract == self.contract,
            r.coop_code == Some(coop_code),
    {
        CoopBuilder { contract: self.contract, coop_code: Some(coop_code) }
    }

    /// Validate and assemble; the contract is required first, then the
    /// coop code.
    pub fn build(self) -> (r: Result<CoopRequest, MissingField>)
        ensures
            self.contract is None ==> r == Err::<CoopRequest, MissingField>(MissingField::Contract),
            self.contract is Some && self.coop_code is None ==> r == Err::<
                CoopRequest,
                MissingField,
            >(MissingField::CoopCode),
            self.contract is Some && self.coop_code is Some ==> (r matches Ok(req)
                && Some(req.contract) == self.contract && Some(req.coop_code) == self.coop_code),
    {
        match self.contract {
            None => Err(MissingField::Contract),
            Some(contract) => match self.coop_code {
                None => Err(MissingField::CoopCode),
                Some(coop_code) => Ok(CoopRequest { contract, coop_code }),
            },
        }
    }
}

/// Everything an active-contract fetch needs: the contract id and the
/// flag to filter the coop list by.
#[derive(Debug)]
pub struct ActiveContractRequest {
    pub contract_id: String,
    pub coop_flag: CoopFlag,
}

/// Collects the parts of an [`ActiveContractRequest`].
#[derive(Debug)]
pub struct ActiveContractBuilder {
    pub contract_id: Option<String>,
    pub coop_flag: Option<CoopFlag>,
}

impl ActiveContractBuilder {
    pub fn new() -> (r: Self)
        ensures
            r.contract_id is None,
            r.coop_flag is None,
    {
        ActiveContractBuilder { contract_id: None, coop_flag: None }
    }

    pub fn with_contract_id(self, contract_id: String) -> (r: Self)
        ensures
            r.contract_id == Some(contract_id),
            r.coop_flag == self.coop_flag,
    {
        ActiveContractBuilder { contract_id: Some(contract_id), coop_flag: self.coop_flag }
    }

    pub fn with_coop_flag(self, coop_flag: CoopFlag) -> (r: Self)
        ensures
            r.contract_id == self.contract_id,
            r.coop_flag == Some(coop_flag),
    {
        ActiveContractBuilder { contract_id: self.contract_id, coop_flag: Some(coop_flag) }
    }

    /// Validate and assemble; the contract id is required first, then the
    /// coop flag.
    pub fn build(self) -> (r: Result<ActiveContractRequest, MissingField>)
        ensures
            self.contract_id is None ==> r == Err::<ActiveContractRequest, MissingField>(
                MissingField::ContractId,
            ),
            self.contract_id is Some && self.coop_flag is None ==> r == Err::<
                ActiveContractRequest,
                MissingField,
            >(MissingField::CoopFlag),
            self.contract_id is Some && self.coop_flag is Some ==> (r matches Ok(req)
                && Some(req.contract_id) == self.contract_id && Some(req.coop_flag)
                == self.coop_flag),
    {
        match self.contract_id {
            None => Err(MissingField::ContractId),
            Some(contract_id) => match self.coop_flag {
                None => Err(MissingField::CoopFlag),
                Some(coop_flag) => Ok(ActiveContractRequest { contract_id, coop_flag }),
            },
        }
    }
}

/// One contract with the coop sessions fetched for it.
#[derive(Debug)]
pub struct ActiveContract {
    pub contract: Contract,
    pub coop_flag: CoopFlag,
    pub coops: Vec<Coop>,
}

impl ActiveContract {
    pub open spec fn spec_coops(self) -> Seq<Coop> {
        self.coops@
    }

    /// Every held coop session is well formed.
    pub open spec fn wf(self) -> bool {
        coops_wf(self.spec_coops())
    }

    pub fn new(contract: Contract, coop_flag: CoopFlag) -> (r: Self)
        ensures
            r.contract == contract,
            r.coop_flag == coop_flag,
            r.spec_coops().len() == 0,
            r.wf(),
    {
        ActiveContract { contract, coop_flag, coops: Vec::new() }
    }

    pub fn contract_name(&self) -> (r: &String)
        ensures
            r@ == self.contract.identifier@,
    {
        &self.contract.identifier
    }

    pub fn coops(&self) -> (r: &Vec<Coop>)
        ensures
            r@ == self.spec_coops(),
    {
        &self.coops
    }

    /// Add one fetched coop session.
    pub fn add_coop(&mut self, coop: Coop)
        requires
            old(self).wf(),
            coop.wf(),
        ensures
            final(self).wf(),
            final(self).spec_coops() == old(self).spec_coops().push(coop),
            final(self).contract == old(self).contract,
            final(self).coop_flag == old(self).coop_flag,
    {
        self.coops.push(coop);
        proof {
            assert(coops_wf(self.coops@)) by {
                assert(forall|i: int|
                    0 <= i < self.coops@.len() - 1 ==> self.coops@[i] == old(self).coops@[i]);
            }
        }
    }

    /// Sort the held coops into leaderboard order.
    pub fn sort_coops(&mut self)
        requires
            old(self).wf(),
        ensures
            final(self).wf(),
            coops_sorted(final(self).spec_coops()),
            final(self).spec_coops().to_multiset() == old(self).spec_coops().to_multiset(),
            final(self).contract == old(self).contract,
            final(self).coop_flag == old(self).coop_flag,
    {
        rank_sort(&mut self.coops);
    }

    /// Whether every held coop has been cleared for exit.
    pub fn all_coops_green_scrolled(&self) -> (r: bool)
        ensures
            r == forall|i: int|
                0 <= i < self.spec_coops().len() ==> (#[trigger] self.spec_coops()[i])
                    .coop_status
                    .cleared_for_exit,
    {
        let mut i: usize = 0;
        while i < self.coops.len()
            invariant
                i <= self.coops@.len(),
                forall|k: int| 0 <= k < i ==> (#[trigger] self.coops@[k]).coop_status.cleared_for_exit,
            decreases self.coops@.len() - i,
    {
            if !self.coops[i].green_scrolled() {
                return false;
            }
            i = i + 1;
        }
        true
    }
}

} // verus!
