//! Transactions: payments in the real world, each booked against one
//! account and one envelope.

use vstd::prelude::*;
use chrono::NaiveDate;
use crate::account::{Account, AccountView};
use crate::amount::Amount;
use crate::envelope::{Envelope, EnvelopeView};

verus! {

/// Whether a transaction takes funds out or brings funds in. The kind
/// describes the transaction; it is not derived from the sign of the
/// amount, and it does not constrain it.
#[derive(Debug, Clone, Copy, PartialEq, Eq, Structural)]
pub enum TransactionKind {
    Withdrawal,
    Deposit,
}

/// What a transaction is, as a mathematical value.
pub ghost struct TransactionView {
    pub payee: Seq<char>,
    pub date: NaiveDate,
    pub kind: TransactionKind,
    pub amount: int,
    pub envelope: EnvelopeView,
    pub account: AccountView,
}

/// A transaction represents a payment in the real world. It belongs to
/// exactly one account and exactly one envelope.
#[derive(Debug)]
pub struct Transaction {
    payee: String,
    date: NaiveDate,
    kind: TransactionKind,
    amount: Amount,
    envelope: Envelope,
    account: Account,
}

impl View for Transaction {
    type V = TransactionView;

    closed spec fn view(&self) -> TransactionView {
        TransactionView {
            payee: self.payee@,
            date: self.date,
            kind: self.kind,
            amount: self.amount@,
            envelope: self.envelope@,
            account: self.account@,
        }
    }
}

impl Transaction {
    /// The transaction with the given payee, date, kind and amount, booked
    /// against `envelope` and `account`.
    pub fn new(
        payee: String,
        date: NaiveDate,
        kind: TransactionKind,
        amount: Amount,
        envelope: Envelope,
        account: Account,
    ) -> (transaction: Transaction)
        ensures
            transaction@ == (TransactionView {
                payee: payee@,
                date,
                kind,
                amount: amount@,
                envelope: envelope@,
                account: account@,
            }),
    {
        Transaction { payee, date, kind, amount, envelope, account }
    }

    /// Who was paid, or who paid.
    pub fn payee(&self) -> (payee: &str)
        ensures
            payee@ == self@.payee,
    {
        self.payee.as_str()
    }

    /// The day of the payment.
    pub fn date(&self) -> (date: NaiveDate)
        ensures
            date == self@.date,
    {
        self.date
    }

    /// Whether funds went out or came in.
    pub fn kind(&self) -> (kind: TransactionKind)
        ensures
            kind == self@.kind,
    {
        self.kind
    }

    /// The amount paid.
    pub fn amount(&self) -> (amount: Amount)
        ensures
            amount@ == self@.amount,
    {
        self.amount
    }

    /// The envelope that the transaction is booked against.
    pub fn envelope(&self) -> (envelope: &Envelope)
        ensures
            envelope@ == self@.envelope,
    {
        &self.envelope
    }

    /// The account that the transaction is booked against.
    pub fn account(&self) -> (account: &Account)
        ensures
            account@ == self@.account,
    {
        &self.account
    }
}

impl Clone for Transaction {
    fn clone(&self) -> (copy: Transaction)
        ensures
            copy@ == self@,
    {
        Transaction {
            payee: self.payee.clone(),
            date: self.date,
            kind: self.kind,
            amount: self.amount,
            envelope: self.envelope.clone(),
            account: self.account.clone(),
        }
    }
}

} // verus!
