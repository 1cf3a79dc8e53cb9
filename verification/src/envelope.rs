//! Envelopes: the virtual sub-accounts that a budget is planned in.

use vstd::prelude::*;
use crate::error::ValidationError;

verus! {

/// Whether an envelope collects income or pays for expenses.
#[derive(Debug, Clone, Copy, PartialEq, Eq, Structural)]
pub enum EnvelopeKind {
    Income,
    Expense,
}

/// What an envelope is, as a mathematical value.
pub ghost struct EnvelopeView {
    pub name: Seq<char>,
    pub kind: EnvelopeKind,
}

impl EnvelopeView {
    /// The invariant of every envelope: its name is not empty.
    pub open spec fn valid(self) -> bool {
        self.name.len() > 0
    }
}

/// An envelope is a virtual account backed by actual funds in the accounts.
/// Funds are moved between envelopes, often from an income envelope to
/// expense envelopes, and transactions are made against envelopes. It has a
/// name, which is never empty, and exactly one kind.
#[derive(Debug)]
pub struct Envelope {
    name: String,
    kind: EnvelopeKind,
}

impl View for Envelope {
    type V = EnvelopeView;

    closed spec fn view(&self) -> EnvelopeView {
        EnvelopeView { name: self.name@, kind: self.kind }
    }
}

impl Envelope {
    #[verifier::type_invariant]
    spec fn well_formed(&self) -> bool {
        self@.valid()
    }

    /// An envelope called `name` of the given kind. An empty name is
    /// rejected with `ValidationError::EmptyName`; every other name is
    /// accepted.
    pub fn new(name: String, kind: EnvelopeKind) -> (made: Result<Envelope, ValidationError>)
        ensures
            name@.len() == 0 ==> made == Err::<Envelope, ValidationError>(
                ValidationError::EmptyName,
            ),
            name@.len() > 0 ==> made is Ok && made->Ok_0@ == (EnvelopeView { name: name@, kind }),
    {
        if name.as_str().is_empty() {
            Err(ValidationError::EmptyName)
        } else {
            Ok(Envelope { name, kind })
        }
    }

    /// The envelope's name, which is not empty.
    pub fn name(&self) -> (name: &str)
        ensures
            name@ == self@.name,
            name@.len() > 0,
    {
        proof {
            use_type_invariant(self);
        }
        self.name.as_str()
    }

    /// The envelope's kind.
    pub fn kind(&self) -> (kind: EnvelopeKind)
        ensures
            kind == self@.kind,
    {
        self.kind
    }
}

impl Clone for Envelope {
    fn clone(&self) -> (copy: Envelope)
        ensures
            copy@ == self@,
    {
        proof {
            use_type_invariant(self);
        }
        Envelope { name: self.name.clone(), kind: self.kind }
    }
}

impl PartialEq for Envelope {
    /// Two envelopes are the same envelope when they agree in name and kind.
    fn eq(&self, other: &Envelope) -> (same: bool) {
        self.name == other.name && self.kind == other.kind
    }
}

impl Eq for Envelope {}

impl vstd::std_specs::cmp::PartialEqSpecImpl for Envelope {
    open spec fn obeys_eq_spec() -> bool {
        true
    }

    open spec fn eq_spec(&self, other: &Envelope) -> bool {
        self@ == other@
    }
}

} // verus!
