//! Transfers: funds moved between two accounts, or between two envelopes.

use vstd::prelude::*;
use chrono::NaiveDate;
use crate::account::{Account, AccountView};
use crate::amount::Amount;
use crate::envelope::{Envelope, EnvelopeView};
use crate::error::ValidationError;

verus! {

/// What a transfer between accounts is, as a mathematical value.
pub ghost struct AccountTransferView {
    pub source: AccountView,
    pub sink: AccountView,
    pub amount: int,
    pub date: NaiveDate,
}

impl AccountTransferView {
    /// The invariant of every transfer between accounts: it joins two
    /// distinct accounts and moves an amount greater than zero.
    pub open spec fn valid(self) -> bool {
        &&& self.source != self.sink
        &&& self.amount > 0
    }
}

/// A transfer of funds between two accounts.
#[derive(Debug)]
pub struct AccountTransfer {
    source: Account,
    sink: Account,
    amount: Amount,
    date: NaiveDate,
}

impl View for AccountTransfer {
    type V = AccountTransferView;

    closed spec fn view(&self) -> AccountTransferView {
        AccountTransferView {
            source: self.source@,
            sink: self.sink@,
            amount: self.amount@,
            date: self.date,
        }
    }
}

impl AccountTransfer {
    #[verifier::type_invariant]
    spec fn well_formed(&self) -> bool {
        self@.valid()
    }

    /// The transfer of `amount` from `source` to `sink` on `date`.
    ///
    /// It is rejected with `ValidationError::SameEndpoints` where source and
    /// sink are the same account, and otherwise with
    /// `ValidationError::NonPositiveAmount` where the amount is zero or
    /// less.
    pub fn new(source: Account, sink: Account, amount: Amount, date: NaiveDate) -> (made: Result<
        AccountTransfer,
        ValidationError,
    >)
        ensures
            source@ == sink@ ==> made == Err::<AccountTransfer, ValidationError>(
                ValidationError::SameEndpoints,
            ),
            source@ != sink@ && amount@ <= 0 ==> made == Err::<AccountTransfer, ValidationError>(
                ValidationError::NonPositiveAmount,
            ),
            source@ != sink@ && amount@ > 0 ==> made is Ok && made->Ok_0@ == (AccountTransferView {
                source: source@,
                sink: sink@,
                amount: amount@,
                date,
            }),
    {
        if source == sink {
            Err(ValidationError::SameEndpoints)
        } else if !amount.is_positive() {
            Err(ValidationError::NonPositiveAmount)
        } else {
            Ok(AccountTransfer { source, sink, amount, date })
        }
    }

    /// The account that the funds leave, which is not the sink.
    pub fn source(&self) -> (source: &Account)
        ensures
            source@ == self@.source,
            source@ != self@.sink,
    {
        proof {
            use_type_invariant(self);
        }
        &self.source
    }

    /// The account that the funds arrive in, which is not the source.
    pub fn sink(&self) -> (sink: &Account)
        ensures
            sink@ == self@.sink,
            sink@ != self@.source,
    {
        proof {
            use_type_invariant(self);
        }
        &self.sink
    }

    /// The amount moved, which is greater than zero.
    pub fn amount(&self) -> (amount: Amount)
        ensures
            amount@ == self@.amount,
            amount@ > 0,
    {
        proof {
            use_type_invariant(self);
        }
        self.amount
    }

    /// The day of the transfer.
    pub fn date(&self) -> (date: NaiveDate)
        ensures
            date == self@.date,
    {
        self.date
    }
}

impl Clone for AccountTransfer {
    fn clone(&self) -> (copy: AccountTransfer)
        ensures
            copy@ == self@,
    {
        proof {
            use_type_invariant(self);
        }
        AccountTransfer {
            source: self.source.clone(),
            sink: self.sink.clone(),
            amount: self.amount,
            date: self.date,
        }
    }
}

/// What a transfer between envelopes is, as a mathematical value.
pub ghost struct EnvelopeTransferView {
    pub source: EnvelopeView,
    pub sink: EnvelopeView,
    pub amount: int,
    pub date: NaiveDate,
}

impl EnvelopeTransferView {
    /// The invariant of every transfer between envelopes: it joins two
    /// distinct envelopes.
    pub open spec fn valid(self) -> bool {
        self.source != self.sink
    }
}

/// A transfer of funds between two envelopes.
#[derive(Debug)]
pub struct EnvelopeTransfer {
    source: Envelope,
    sink: Envelope,
    amount: Amount,
    date: NaiveDate,
}

impl View for EnvelopeTransfer {
    type V = EnvelopeTransferView;

    closed spec fn view(&self) -> EnvelopeTransferView {
        EnvelopeTransferView {
            source: self.source@,
            sink: self.sink@,
            amount: self.amount@,
            date: self.date,
        }
    }
}

impl EnvelopeTransfer {
    #[verifier::type_invariant]
    spec fn well_formed(&self) -> bool {
        self@.valid()
    }

    /// The transfer of `amount` from `source` to `sink` on `date`.
    ///
    /// It is rejected with `ValidationError::SameEndpoints` where source and
    /// sink are the same envelope.
    pub fn new(source: Envelope, sink: Envelope, amount: Amount, date: NaiveDate) -> (made: Result<
        EnvelopeTransfer,
        ValidationError,
    >)
        ensures
            source@ == sink@ ==> made == Err::<EnvelopeTransfer, ValidationError>(
                ValidationError::SameEndpoints,
            ),
            source@ != sink@ ==> made is Ok && made->Ok_0@ == (EnvelopeTransferView {
                source: source@,
                sink: sink@,
                amount: amount@,
                date,
            }),
    {
        if source == sink {
            Err(ValidationError::SameEndpoints)
        } else {
            Ok(EnvelopeTransfer { source, sink, amount, date })
        }
    }

    /// The envelope that the funds leave, which is not the sink.
    pub fn source(&self) -> (source: &Envelope)
        ensures
            source@ == self@.source,
            source@ != self@.sink,
    {
        proof {
            use_type_invariant(self);
        }
        &self.source
    }

    /// The envelope that the funds arrive in, which is not the source.
    pub fn sink(&self) -> (sink: &Envelope)
        ensures
            sink@ == self@.sink,
            sink@ != self@.source,
    {
        proof {
            use_type_invariant(self);
        }
        &self.sink
    }

    /// The amount moved.
    pub fn amount(&self) -> (amount: Amount)
        ensures
            amount@ == self@.amount,
    {
        self.amount
    }

    /// The day of the transfer.
    pub fn date(&self) -> (date: NaiveDate)
        ensures
            date == self@.date,
    {
        self.date
    }
}

impl Clone for EnvelopeTransfer {
    fn clone(&self) -> (copy: EnvelopeTransfer)
        ensures
            copy@ == self@,
    {
        proof {
            use_type_invariant(self);
        }
        EnvelopeTransfer {
            source: self.source.clone(),
            sink: self.sink.clone(),
            amount: self.amount,
            date: self.date,
        }
    }
}

} // verus!
