use chrono::NaiveDate;
use envelope_budget::{
    Account, AccountKind, AccountTransfer, Amount, Envelope, EnvelopeKind, EnvelopeTransfer,
    Transaction, TransactionKind, ValidationError,
};

fn day(year: i32, month: u32, day: u32) -> NaiveDate {
    NaiveDate::from_ymd_opt(year, month, day).expect("a date of the calendar")
}

fn account(name: &str, kind: AccountKind) -> Account {
    Account::new(name.to_string(), kind).expect("a named account")
}

fn envelope(name: &str, kind: EnvelopeKind) -> Envelope {
    Envelope::new(name.to_string(), kind).expect("a named envelope")
}

#[test]
fn amount_holds_minor_units() {
    assert_eq!(Amount::new(1999).value(), 1999);
    assert_eq!(Amount::new(-250).value(), -250);
    assert_eq!(Amount::new(0).value(), 0);
    assert_eq!(Amount::new(i64::MAX).value(), i64::MAX);
    assert_eq!(Amount::new(i64::MIN).value(), i64::MIN);
    assert_eq!(Amount::new(5), Amount::new(5));
    assert_ne!(Amount::new(5), Amount::new(-5));
}

#[test]
fn amount_sign() {
    assert!(Amount::new(1).is_positive());
    assert!(!Amount::new(0).is_positive());
    assert!(!Amount::new(-1).is_positive());
}

#[test]
fn account_keeps_name_and_kind() {
    let checking = account("Everyday", AccountKind::Checking);
    assert_eq!(checking.name(), "Everyday");
    assert_eq!(checking.kind(), AccountKind::Checking);
    let loan = account("Car", AccountKind::Loan);
    assert_eq!(loan.name(), "Car");
    assert_eq!(loan.kind(), AccountKind::Loan);
}

#[test]
fn account_of_every_kind() {
    let kinds = [
        AccountKind::Savings,
        AccountKind::Checking,
        AccountKind::CreditCard,
        AccountKind::Loan,
        AccountKind::Investment,
    ];
    for kind in kinds {
        assert_eq!(account("a", kind).kind(), kind);
    }
}

#[test]
fn account_without_name_is_rejected() {
    let made = Account::new(String::new(), AccountKind::Savings);
    assert_eq!(made.err(), Some(ValidationError::EmptyName));
}

#[test]
fn account_with_blank_name_is_accepted() {
    let made = Account::new(" ".to_string(), AccountKind::Savings);
    assert_eq!(made.expect("a blank is a character").name(), " ");
}

#[test]
fn accounts_are_compared_by_name_and_kind() {
    let a = account("Main", AccountKind::Checking);
    assert_eq!(a, account("Main", AccountKind::Checking));
    assert_eq!(a, a.clone());
    assert_ne!(a, account("Main", AccountKind::Savings));
    assert_ne!(a, account("Other", AccountKind::Checking));
}

#[test]
fn envelope_keeps_name_and_kind() {
    let salary = envelope("Salary", EnvelopeKind::Income);
    assert_eq!(salary.name(), "Salary");
    assert_eq!(salary.kind(), EnvelopeKind::Income);
    let rent = envelope("Rent", EnvelopeKind::Expense);
    assert_eq!(rent.name(), "Rent");
    assert_eq!(rent.kind(), EnvelopeKind::Expense);
}

#[test]
fn envelope_without_name_is_rejected() {
    let made = Envelope::new(String::new(), EnvelopeKind::Expense);
    assert_eq!(made.err(), Some(ValidationError::EmptyName));
}

#[test]
fn envelopes_are_compared_by_name_and_kind() {
    let a = envelope("Food", EnvelopeKind::Expense);
    assert_eq!(a, envelope("Food", EnvelopeKind::Expense));
    assert_eq!(a, a.clone());
    assert_ne!(a, envelope("Food", EnvelopeKind::Income));
    assert_ne!(a, envelope("Fuel", EnvelopeKind::Expense));
}

#[test]
fn transaction_keeps_what_it_was_given() {
    let transaction = Transaction::new(
        "Grocer".to_string(),
        day(2024, 2, 29),
        TransactionKind::Withdrawal,
        Amount::new(4250),
        envelope("Food", EnvelopeKind::Expense),
        account("Everyday", AccountKind::Checking),
    );
    assert_eq!(transaction.payee(), "Grocer");
    assert_eq!(transaction.date(), day(2024, 2, 29));
    assert_eq!(transaction.kind(), TransactionKind::Withdrawal);
    assert_eq!(transaction.amount(), Amount::new(4250));
    assert_eq!(transaction.envelope(), &envelope("Food", EnvelopeKind::Expense));
    assert_eq!(transaction.account(), &account("Everyday", AccountKind::Checking));
}

#[test]
fn transaction_kind_does_not_constrain_the_amount() {
    let deposit = Transaction::new(
        String::new(),
        day(2023, 12, 31),
        TransactionKind::Deposit,
        Amount::new(-100),
        envelope("Salary", EnvelopeKind::Income),
        account("Everyday", AccountKind::Checking),
    );
    assert_eq!(deposit.kind(), TransactionKind::Deposit);
    assert_eq!(deposit.amount().value(), -100);
    assert_eq!(deposit.payee(), "");
    let copy = deposit.clone();
    assert_eq!(copy.date(), day(2023, 12, 31));
    assert_eq!(copy.amount().value(), -100);
    assert_eq!(copy.account(), deposit.account());
    assert_eq!(copy.envelope(), deposit.envelope());
}

#[test]
fn account_transfer_keeps_what_it_was_given() {
    let transfer = AccountTransfer::new(
        account("Everyday", AccountKind::Checking),
        account("Rainy day", AccountKind::Savings),
        Amount::new(50_000),
        day(2024, 1, 15),
    )
    .expect("two accounts and a positive amount");
    assert_eq!(transfer.source(), &account("Everyday", AccountKind::Checking));
    assert_eq!(transfer.sink(), &account("Rainy day", AccountKind::Savings));
    assert_eq!(transfer.amount().value(), 50_000);
    assert_eq!(transfer.date(), day(2024, 1, 15));
    let copy = transfer.clone();
    assert_eq!(copy.source(), transfer.source());
    assert_eq!(copy.sink(), transfer.sink());
    assert_eq!(copy.amount(), transfer.amount());
    assert_eq!(copy.date(), transfer.date());
}

#[test]
fn account_transfer_between_accounts_of_one_name_and_two_kinds() {
    let transfer = AccountTransfer::new(
        account("Main", AccountKind::Checking),
        account("Main", AccountKind::Savings),
        Amount::new(1),
        day(2024, 1, 15),
    );
    assert!(transfer.is_ok());
}

#[test]
fn account_transfer_to_itself_is_rejected() {
    let made = AccountTransfer::new(
        account("Everyday", AccountKind::Checking),
        account("Everyday", AccountKind::Checking),
        Amount::new(100),
        day(2024, 1, 15),
    );
    assert_eq!(made.err(), Some(ValidationError::SameEndpoints));
}

#[test]
fn account_transfer_of_nothing_is_rejected() {
    let made = AccountTransfer::new(
        account("Everyday", AccountKind::Checking),
        account("Rainy day", AccountKind::Savings),
        Amount::new(0),
        day(2024, 1, 15),
    );
    assert_eq!(made.err(), Some(ValidationError::NonPositiveAmount));
}

#[test]
fn account_transfer_of_a_negative_amount_is_rejected() {
    let made = AccountTransfer::new(
        account("Everyday", AccountKind::Checking),
        account("Rainy day", AccountKind::Savings),
        Amount::new(-1),
        day(2024, 1, 15),
    );
    assert_eq!(made.err(), Some(ValidationError::NonPositiveAmount));
}

#[test]
fn account_transfer_checks_the_endpoints_first() {
    let made = AccountTransfer::new(
        account("Everyday", AccountKind::Checking),
        account("Everyday", AccountKind::Checking),
        Amount::new(0),
        day(2024, 1, 15),
    );
    assert_eq!(made.err(), Some(ValidationError::SameEndpoints));
}

#[test]
fn envelope_transfer_keeps_what_it_was_given() {
    let transfer = EnvelopeTransfer::new(
        envelope("Salary", EnvelopeKind::Income),
        envelope("Rent", EnvelopeKind::Expense),
        Amount::new(120_000),
        day(2024, 3, 1),
    )
    .expect("two envelopes");
    assert_eq!(transfer.source(), &envelope("Salary", EnvelopeKind::Income));
    assert_eq!(transfer.sink(), &envelope("Rent", EnvelopeKind::Expense));
    assert_eq!(transfer.amount().value(), 120_000);
    assert_eq!(transfer.date(), day(2024, 3, 1));
    let copy = transfer.clone();
    assert_eq!(copy.source(), transfer.source());
    assert_eq!(copy.sink(), transfer.sink());
    assert_eq!(copy.amount(), transfer.amount());
    assert_eq!(copy.date(), transfer.date());
}

#[test]
fn envelope_transfer_to_itself_is_rejected() {
    let made = EnvelopeTransfer::new(
        envelope("Rent", EnvelopeKind::Expense),
        envelope("Rent", EnvelopeKind::Expense),
        Amount::new(100),
        day(2024, 3, 1),
    );
    assert_eq!(made.err(), Some(ValidationError::SameEndpoints));
}

#[test]
fn envelope_transfer_between_envelopes_of_one_name_and_two_kinds() {
    let made = EnvelopeTransfer::new(
        envelope("Side job", EnvelopeKind::Income),
        envelope("Side job", EnvelopeKind::Expense),
        Amount::new(100),
        day(2024, 3, 1),
    );
    assert!(made.is_ok());
}
