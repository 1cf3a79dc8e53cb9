//! The budget: the aggregate that holds a user's accounts and envelopes.

use vstd::prelude::*;
use chrono::NaiveDate;
use crate::account::{Account, AccountView};
use crate::envelope::{Envelope, EnvelopeView};

verus! {

/// What a budget is, as a mathematical value.
pub ghost struct BudgetView {
    pub accounts: Seq<AccountView>,
    pub envelopes: Seq<EnvelopeView>,
    pub last_allocation: Option<NaiveDate>,
}

impl BudgetView {
    /// The budget that holds no account and no envelope and has never seen
    /// an allocation run.
    pub open spec fn empty() -> BudgetView {
        BudgetView { accounts: Seq::empty(), envelopes: Seq::empty(), last_allocation: None }
    }
}

/// The aggregate root of a user's financial plan: the accounts, the
/// envelopes, and the date on which an allocation run last completed.
///
/// A budget comes into being empty, as the result of provisioning its
/// workspace.
#[derive(Debug)]
pub struct Budget {
    accounts: Vec<Account>,
    envelopes: Vec<Envelope>,
    last_allocation: Option<NaiveDate>,
}

impl View for Budget {
    type V = BudgetView;

    closed spec fn view(&self) -> BudgetView {
        BudgetView {
            accounts: self.accounts@.map_values(|account: Account| account@),
            envelopes: self.envelopes@.map_values(|envelope: Envelope| envelope@),
            last_allocation: self.last_allocation,
        }
    }
}

impl Budget {
    /// The empty budget.
    pub(crate) fn empty() -> (budget: Budget)
        ensures
            budget@ == BudgetView::empty(),
    {
        let budget = Budget { accounts: Vec::new(), envelopes: Vec::new(), last_allocation: None };
        assert(budget@.accounts =~= Seq::empty());
        assert(budget@.envelopes =~= Seq::empty());
        budget
    }

    /// The accounts of the budget.
    pub fn accounts(&self) -> (accounts: &Vec<Account>)
        ensures
            accounts@.map_values(|account: Account| account@) == self@.accounts,
    {
        &self.accounts
    }

    /// The envelopes of the budget.
    pub fn envelopes(&self) -> (envelopes: &Vec<Envelope>)
        ensures
            envelopes@.map_values(|envelope: Envelope| envelope@) == self@.envelopes,
    {
        &self.envelopes
    }

    /// The date on which an allocation run last completed, if one ever did.
    pub fn last_allocation(&self) -> (date: Option<NaiveDate>)
        ensures
            date == self@.last_allocation,
    {
        self.last_allocation
    }
}

} // verus!
