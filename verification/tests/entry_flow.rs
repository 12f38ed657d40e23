use gitcash::flow::{
    AccountReference, EntryAction, EntryEvent, EntryFlow, EntryState, TransactionRequest,
};
use gitcash::usernames::KnownUsernames;

fn flow(names: &[&str]) -> EntryFlow {
    EntryFlow {
        usernames: KnownUsernames::new(names.iter().map(|n| n.to_string()).collect()),
        target: AccountReference::Source("buffet".to_string()),
    }
}

#[test]
fn payment_entry_end_to_end() {
    let flow = flow(&["alice"]);

    let (state, action) = flow.step(
        EntryState::AwaitingFirstInput,
        EntryEvent::FirstInput("2.50".to_string()),
    );
    assert_eq!(state, EntryState::ParsingAmount);
    assert_eq!(action, EntryAction::ParseAmount("2.50".to_string()));

    // The prompt layer parses "2.50" and converts it to minor units.
    let (state, action) = flow.step(
        state,
        EntryEvent::AmountParsed {
            raw: "2.50".to_string(),
            minor: Some(250),
        },
    );
    assert_eq!(state, EntryState::AwaitingCounterparty { amount_minor: 250 });
    assert_eq!(action, EntryAction::PromptCounterparty);

    // The counterparty prompt accepts only known names.
    assert!(matches!(
        flow.usernames.validate_existing("alice"),
        gitcash::usernames::ValidationOutcome::Valid
    ));

    let (state, action) = flow.step(state, EntryEvent::NameEntered("alice".to_string()));
    assert_eq!(state, EntryState::AwaitingFirstInput);
    assert_eq!(
        action,
        EntryAction::Submit {
            request: TransactionRequest {
                from: AccountReference::User("alice".to_string()),
                to: AccountReference::Source("buffet".to_string()),
                amount: 250,
                description: None,
                meta: None,
            },
            success_message: None,
        }
    );
}

#[test]
fn add_user_entry_end_to_end() {
    let flow = flow(&["alice"]);

    let (state, action) = flow.step(
        EntryState::AwaitingFirstInput,
        EntryEvent::FirstInput("adduser".to_string()),
    );
    assert_eq!(state, EntryState::AwaitingNewUsername);
    assert_eq!(action, EntryAction::PromptNewUsername);

    // "bob" is not yet known, so the new-username validator accepts it.
    assert!(matches!(
        flow.usernames.validate_new("bob"),
        gitcash::usernames::ValidationOutcome::Valid
    ));

    let (state, action) = flow.step(state, EntryEvent::NameEntered("bob".to_string()));
    assert_eq!(state, EntryState::AwaitingFirstInput);
    assert_eq!(
        action,
        EntryAction::Submit {
            request: TransactionRequest {
                from: AccountReference::Source("cash".to_string()),
                to: AccountReference::User("bob".to_string()),
                amount: 0,
                description: Some("Create user bob".to_string()),
                meta: None,
            },
            success_message: Some("Successfully added user bob".to_string()),
        }
    );
}

#[test]
fn unparseable_amount_restarts_the_iteration() {
    let flow = flow(&["alice"]);

    let (state, action) = flow.step(
        EntryState::AwaitingFirstInput,
        EntryEvent::FirstInput("xyz".to_string()),
    );
    assert_eq!(state, EntryState::ParsingAmount);
    assert_eq!(action, EntryAction::ParseAmount("xyz".to_string()));

    // "xyz" is not a decimal number, as the prompt layer finds out.
    assert!("xyz".parse::<f32>().is_err());

    let (state, action) = flow.step(
        state,
        EntryEvent::AmountParsed {
            raw: "xyz".to_string(),
            minor: None,
        },
    );
    assert_eq!(state, EntryState::AwaitingFirstInput);
    match action {
        EntryAction::ReportInvalidAmount(message) => {
            assert_eq!(message, "Invalid amount: xyz");
            assert!(message.contains("xyz"));
        }
        other => panic!("expected an invalid-amount report, got {:?}", other),
    }
}

#[test]
fn help_returns_to_the_first_prompt() {
    let flow = flow(&[]);
    let (state, action) = flow.step(
        EntryState::AwaitingFirstInput,
        EntryEvent::FirstInput("HELP".to_string()),
    );
    assert_eq!(state, EntryState::AwaitingFirstInput);
    assert_eq!(action, EntryAction::ShowHelp);
}
