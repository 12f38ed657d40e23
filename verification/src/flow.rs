//! The guided transaction-entry flow: a state machine that classifies the
//! first input of an iteration, collects an account name, and assembles the
//! transaction request handed to the ledger collaborator. The prompt layer
//! drives it: it performs each returned action and feeds the next event.

use vstd::prelude::*;

use crate::commands::{classify_chars, CliCommand};
use crate::usernames::KnownUsernames;

verus! {

/// A typed reference to one side of a transaction. Equality is by variant
/// and name.
#[derive(Clone, Debug, PartialEq, Eq)]
pub enum AccountReference {
    /// A user account, by its name.
    User(String),
    /// A system-reserved source account, by its label.
    Source(String),
}

impl AccountReference {
    /// An equal copy of the reference.
    pub fn duplicate(&self) -> (r: Self)
        ensures
            r == *self,
    {
        match self {
            AccountReference::User(name) => AccountReference::User(name.clone()),
            AccountReference::Source(label) => AccountReference::Source(label.clone()),
        }
    }
}

/// The assembled, not-yet-submitted description of a ledger-mutating
/// transfer: built once per completed flow iteration and handed to the
/// ledger collaborator. The amount is a signed count of minor currency
/// units.
#[derive(Clone, Debug, PartialEq, Eq)]
pub struct TransactionRequest {
    pub from: AccountReference,
    pub to: AccountReference,
    pub amount: i64,
    pub description: Option<String>,
    pub meta: Option<String>,
}

/// The request is the zero-amount transfer from the distinguished source
/// account to the new user account that registers the user with the ledger.
pub open spec fn is_create_user_request(r: TransactionRequest, name: Seq<char>) -> bool {
    &&& r.from matches AccountReference::Source(l) && l@ == "cash"@
    &&& r.to matches AccountReference::User(n) && n@ == name
    &&& r.amount == 0
    &&& r.description matches Some(d) && d@ == "Create user "@ + name
    &&& r.meta is None
}

/// The request is the payment of `amount` minor units from the named user
/// account to the configured target account.
pub open spec fn is_payment_request(
    r: TransactionRequest,
    name: Seq<char>,
    target: AccountReference,
    amount: i64,
) -> bool {
    &&& r.from matches AccountReference::User(n) && n@ == name
    &&& r.to == target
    &&& r.amount == amount
    &&& r.description is None
    &&& r.meta is None
}

/// Build the account-creation request for a new user name.
pub fn create_user_request(name: &str) -> (r: TransactionRequest)
    ensures
        is_create_user_request(r, name@),
{
    TransactionRequest {
        from: AccountReference::Source(String::from_str("cash")),
        to: AccountReference::User(name.to_owned()),
        amount: 0,
        description: Some(String::from_str("Create user ").concat(name)),
        meta: None,
    }
}

/// Build the payment request for a counterparty name, a target account and
/// an already converted amount in minor units.
pub fn payment_request(name: &str, target: &AccountReference, amount_minor: i64) -> (r:
    TransactionRequest)
    ensures
        is_payment_request(r, name@, *target, amount_minor),
{
    TransactionRequest {
        from: AccountReference::User(name.to_owned()),
        to: target.duplicate(),
        amount: amount_minor,
        description: None,
        meta: None,
    }
}

/// Where one iteration of the entry flow stands.
#[derive(Clone, Copy, Debug, PartialEq, Eq, Structural)]
pub enum EntryState {
    /// The first prompt is open: a command, or the start of a payment.
    AwaitingFirstInput,
    /// The first input matched no command and is being read as an amount.
    ParsingAmount,
    /// The add-user branch is waiting for the new user's name.
    AwaitingNewUsername,
    /// The payment branch is waiting for the counterparty's name, the
    /// amount already converted to minor units.
    AwaitingCounterparty { amount_minor: i64 },
}

/// What the prompt layer reports to the flow.
#[derive(Clone, Debug, PartialEq, Eq)]
pub enum EntryEvent {
    /// The operator answered the first prompt with this line, as typed.
    FirstInput(String),
    /// The prompt layer tried to read the line as an amount: the line, and
    /// the converted minor units where parsing succeeded.
    AmountParsed { raw: String, minor: Option<i64> },
    /// A name prompt was answered with this name.
    NameEntered(String),
}

/// What the flow asks the prompt layer to do next.
#[derive(Clone, Debug, PartialEq, Eq)]
pub enum EntryAction {
    /// Open the new-user name prompt, with the new-username validator.
    PromptNewUsername,
    /// Print the static help text.
    ShowHelp,
    /// Parse this line as a decimal amount and report back.
    ParseAmount(String),
    /// Show this error inline; the iteration restarts from the first prompt.
    ReportInvalidAmount(String),
    /// Open the counterparty prompt, with the existing-username validator
    /// and the user-name suggestion provider.
    PromptCounterparty,
    /// Hand this request to the ledger collaborator, then print the message
    /// if one is given. A submission failure is fatal to the session.
    Submit { request: TransactionRequest, success_message: Option<String> },
}

/// The events each state accepts: the flow's protocol with the prompt layer.
pub open spec fn accepts(state: EntryState, event: EntryEvent) -> bool {
    match (state, event) {
        (EntryState::AwaitingFirstInput, EntryEvent::FirstInput(_)) => true,
        (EntryState::ParsingAmount, EntryEvent::AmountParsed { .. }) => true,
        (EntryState::AwaitingNewUsername, EntryEvent::NameEntered(_)) => true,
        (EntryState::AwaitingCounterparty { .. }, EntryEvent::NameEntered(_)) => true,
        _ => false,
    }
}

/// The transition relation of the flow, written out case by case.
pub open spec fn step_spec(
    flow: EntryFlow,
    state: EntryState,
    event: EntryEvent,
    r: (EntryState, EntryAction),
) -> bool {
    let (next, action) = r;
    match (state, event) {
        (EntryState::AwaitingFirstInput, EntryEvent::FirstInput(line)) => match classify_chars(
            line@,
        ) {
            Some(CliCommand::AddUser) => next == EntryState::AwaitingNewUsername && action
                == EntryAction::PromptNewUsername,
            Some(CliCommand::Help) => next == EntryState::AwaitingFirstInput && action
                == EntryAction::ShowHelp,
            None => next == EntryState::ParsingAmount && (action matches EntryAction::ParseAmount(
                l,
            ) && l@ == line@),
        },
        (EntryState::ParsingAmount, EntryEvent::AmountParsed { raw, minor }) => match minor {
            Some(m) => next == (EntryState::AwaitingCounterparty { amount_minor: m }) && action
                == EntryAction::PromptCounterparty,
            None => next == EntryState::AwaitingFirstInput && (action
                matches EntryAction::ReportInvalidAmount(msg) && msg@ == "Invalid amount: "@
                + raw@),
        },
        (EntryState::AwaitingNewUsername, EntryEvent::NameEntered(name)) => next
            == EntryState::AwaitingFirstInput && (action matches EntryAction::Submit {
            request,
            success_message,
        } && is_create_user_request(request, name@) && (success_message matches Some(m) && m@
            == "Successfully added user "@ + name@)),
        (EntryState::AwaitingCounterparty { amount_minor }, EntryEvent::NameEntered(name)) => next
            == EntryState::AwaitingFirstInput && (action matches EntryAction::Submit {
            request,
            success_message,
        } && is_payment_request(request, name@, flow.target, amount_minor) && success_message
            is None),
        _ => false,
    }
}

/// One interactive session's entry flow: the read-only snapshot of known
/// user names and the configured default target account of payments.
pub struct EntryFlow {
    pub usernames: KnownUsernames,
    pub target: AccountReference,
}

impl EntryFlow {
    /// Take one transition: consume an event in a state, give the next
    /// state and the action the prompt layer must perform.
    pub fn step(&self, state: EntryState, event: EntryEvent) -> (r: (EntryState, EntryAction))
        requires
            accepts(state, event),
        ensures
            step_spec(*self, state, event, r),
    {
        match (state, event) {
            (EntryState::AwaitingFirstInput, EntryEvent::FirstInput(line)) => {
                match CliCommand::classify(line.as_str()) {
                    Some(CliCommand::AddUser) => (
                        EntryState::AwaitingNewUsername,
                        EntryAction::PromptNewUsername,
                    ),
                    Some(CliCommand::Help) => (EntryState::AwaitingFirstInput, EntryAction::ShowHelp),
                    None => (EntryState::ParsingAmount, EntryAction::ParseAmount(line)),
                }
            },
            (EntryState::ParsingAmount, EntryEvent::AmountParsed { raw, minor }) => {
                match minor {
                    Some(m) => (
                        EntryState::AwaitingCounterparty { amount_minor: m },
                        EntryAction::PromptCounterparty,
                    ),
                    None => (
                        EntryState::AwaitingFirstInput,
                        EntryAction::ReportInvalidAmount(
                            String::from_str("Invalid amount: ").concat(raw.as_str()),
                        ),
                    ),
                }
            },
            (EntryState::AwaitingNewUsername, EntryEvent::NameEntered(name)) => {
                let message = String::from_str("Successfully added user ").concat(name.as_str());
                let request = create_user_request(name.as_str());
                (
                    EntryState::AwaitingFirstInput,
                    EntryAction::Submit { request, success_message: Some(message) },
                )
            },
            (EntryState::AwaitingCounterparty { amount_minor }, EntryEvent::NameEntered(name)) => {
                let request = payment_request(name.as_str(), &self.target, amount_minor);
                (
                    EntryState::AwaitingFirstInput,
                    EntryAction::Submit { request, success_message: None },
                )
            },
            _ => {
                proof {
                    assert(false);
                }
                (EntryState::AwaitingFirstInput, EntryAction::ShowHelp)
            },
        }
    }
}

} // verus!
