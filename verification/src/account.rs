//! Accounts: the real-world banking products in which funds reside.

use vstd::prelude::*;
use crate::error::ValidationError;

verus! {

/// What sort of banking product an account is.
#[derive(Debug, Clone, Copy, PartialEq, Eq, Structural)]
pub enum AccountKind {
    Savings,
    Checking,
    CreditCard,
    Loan,
    Investment,
}

/// What an account is, as a mathematical value.
pub ghost struct AccountView {
    pub name: Seq<char>,
    pub kind: AccountKind,
}

impl AccountView {
    /// The invariant of every account: its name is not empty.
    pub open spec fn valid(self) -> bool {
        self.name.len() > 0
    }
}

/// An account is a real-world banking product where money transactions
/// occur. It has a name, which is never empty, and exactly one kind.
#[derive(Debug)]
pub struct Account {
    name: String,
    kind: AccountKind,
}

impl View for Account {
    type V = AccountView;

    closed spec fn view(&self) -> AccountView {
        AccountView { name: self.name@, kind: self.kind }
    }
}

impl Account {
    #[verifier::type_invariant]
    spec fn well_formed(&self) -> bool {
        self@.valid()
    }

    /// An account called `name` of the given kind. An empty name is
    /// rejected with `ValidationError::EmptyName`; every other name is
    /// accepted.
    pub fn new(name: String, kind: AccountKind) -> (made: Result<Account, ValidationError>)
        ensures
            name@.len() == 0 ==> made == Err::<Account, ValidationError>(
                ValidationError::EmptyName,
            ),
            name@.len() > 0 ==> made is Ok && made->Ok_0@ == (AccountView { name: name@, kind }),
    {
        if name.as_str().is_empty() {
            Err(ValidationError::EmptyName)
        } else {
            Ok(Account { name, kind })
        }
    }

    /// The account's name, which is not empty.
    pub fn name(&self) -> (name: &str)
        ensures
            name@ == self@.name,
            name@.len() > 0,
    {
        proof {
            use_type_invariant(self);
        }
        self.name.as_str()
    }

    /// The account's kind.
    pub fn kind(&self) -> (kind: AccountKind)
        ensures
            kind == self@.kind,
    {
        self.kind
    }
}

impl Clone for Account {
    fn clone(&self) -> (copy: Account)
        ensures
            copy@ == self@,
    {
        proof {
            use_type_invariant(self);
        }
        Account { name: self.name.clone(), kind: self.kind }
    }
}

impl PartialEq for Account {
    /// Two accounts are the same account when they agree in name and kind.
    fn eq(&self, other: &Account) -> (same: bool) {
        self.name == other.name && self.kind == other.kind
    }
}

impl Eq for Account {}

impl vstd::std_specs::cmp::PartialEqSpecImpl for Account {
    open spec fn obeys_eq_spec() -> bool {
        true
    }

    open spec fn eq_spec(&self, other: &Account) -> bool {
        self@ == other@
    }
}

} // verus!
