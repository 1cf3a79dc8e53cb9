//! Data model of an envelope-budgeting ledger, and the one-time provisioning
//! of the workspace that a new budget lives in.

pub mod account;
pub mod amount;
pub mod budget;
pub mod date;
pub mod envelope;
pub mod error;
pub mod init;
pub mod layout;
pub mod provision;
pub mod transaction;
pub mod transfer;
pub mod workspace;

pub use account::{Account, AccountKind, AccountView};
pub use amount::Amount;
pub use budget::{Budget, BudgetView};
pub use envelope::{Envelope, EnvelopeKind, EnvelopeView};
pub use error::{IoError, IoErrorKind, ValidationError};
pub use layout::{Artifact, EntryKind};
pub use provision::{Action, ActionView, Provisioning};
pub use transaction::{Transaction, TransactionKind, TransactionView};
pub use transfer::{AccountTransfer, AccountTransferView, EnvelopeTransfer, EnvelopeTransferView};
pub use workspace::Workspace;
