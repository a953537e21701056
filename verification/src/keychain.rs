//! The rules behind the API key commands. The keys themselves live in the
//! credential store of the operating system; this module names the entries
//! and words the answers.

use vstd::prelude::*;

verus! {

/// The account under which every key is stored.
pub const KEY_ACCOUNT: &'static str = "api-key";

/// The answer to a command that stores or deletes a key.
#[derive(Debug)]
pub struct ApiKeyResult {
    pub success: bool,
    pub message: String,
}

/// What an `ApiKeyResult` holds.
pub struct ApiKeyResultView {
    pub success: bool,
    pub message: Seq<char>,
}

impl View for ApiKeyResult {
    type V = ApiKeyResultView;

    open spec fn view(&self) -> ApiKeyResultView {
        ApiKeyResultView { success: self.success, message: self.message@ }
    }
}

/// What a command on the credential store is asked to do.
#[derive(Debug, Clone, Copy, PartialEq, Eq, Structural)]
pub enum KeyAction {
    Store,
    Fetch,
    Delete,
}

/// How far a command on the credential store came.
#[derive(Debug)]
pub enum KeyOutcome {
    /// The entry could not be opened; the store's words say why.
    NoEntry { reason: String },
    /// The entry was opened and the store refused the action.
    Refused { reason: String },
    /// The action was done; a fetch brings the key.
    Done { key: String },
}

/// What a `KeyOutcome` holds.
pub enum KeyOutcomeView {
    NoEntry { reason: Seq<char> },
    Refused { reason: Seq<char> },
    Done { key: Seq<char> },
}

impl View for KeyOutcome {
    type V = KeyOutcomeView;

    open spec fn view(&self) -> KeyOutcomeView {
        match self {
            KeyOutcome::NoEntry { reason } => KeyOutcomeView::NoEntry { reason: reason@ },
            KeyOutcome::Refused { reason } => KeyOutcomeView::Refused { reason: reason@ },
            KeyOutcome::Done { key } => KeyOutcomeView::Done { key: key@ },
        }
    }
}

/// The service under which the key of `provider` is stored.
pub open spec fn service_of(provider: Seq<char>) -> Seq<char> {
    "vibe-studio-"@ + provider
}

/// What is said when no entry could be opened.
pub open spec fn entry_failure(action: KeyAction, reason: Seq<char>) -> Seq<char> {
    match action {
        KeyAction::Store => "Failed to create keyring entry: "@ + reason,
        _ => "Failed to access keyring: "@ + reason,
    }
}

/// What is said when the store refused to store or delete.
pub open spec fn action_failure(action: KeyAction, reason: Seq<char>) -> Seq<char> {
    match action {
        KeyAction::Delete => "Failed to delete API key: "@ + reason,
        _ => "Failed to store API key: "@ + reason,
    }
}

/// What is said when a key was stored or deleted.
pub open spec fn action_success(action: KeyAction, provider: Seq<char>) -> Seq<char> {
    match action {
        KeyAction::Delete => "API key for "@ + provider + " deleted"@,
        _ => "API key for "@ + provider + " stored securely"@,
    }
}

/// The answer to a command that stores or deletes the key of `provider`:
/// success with a confirmation, or the failure in words.
pub open spec fn change_answer(
    action: KeyAction,
    provider: Seq<char>,
    outcome: KeyOutcomeView,
) -> Result<ApiKeyResultView, Seq<char>> {
    match outcome {
        KeyOutcomeView::NoEntry { reason } => Err(entry_failure(action, reason)),
        KeyOutcomeView::Refused { reason } => Err(action_failure(action, reason)),
        KeyOutcomeView::Done { .. } => Ok(
            ApiKeyResultView { success: true, message: action_success(action, provider) },
        ),
    }
}

/// The answer to a command that fetches a key: the key, or nothing where the
/// store has none to give; a failure only where no entry could be opened.
pub open spec fn fetch_answer(outcome: KeyOutcomeView) -> Result<Seq<char>, Seq<char>> {
    match outcome {
        KeyOutcomeView::NoEntry { reason } => Err(entry_failure(KeyAction::Fetch, reason)),
        KeyOutcomeView::Refused { .. } => Ok(Seq::empty()),
        KeyOutcomeView::Done { key } => Ok(key),
    }
}

/// The service under which the key of `provider` is stored.
pub fn service_name(provider: &str) -> (service: String)
    ensures
        service@ == service_of(provider@),
{
    let mut service = "vibe-studio-".to_owned();
    service.append(provider);
    service
}

/// Words the answer to a command that stores or deletes a key. `action` is
/// `Store` or `Delete`.
pub fn answer_change(action: KeyAction, provider: &str, outcome: &KeyOutcome) -> (answer: Result<
    ApiKeyResult,
    String,
>)
    ensures
        match answer {
            Ok(result) => change_answer(action, provider@, outcome@) == Ok::<
                ApiKeyResultView,
                Seq<char>,
            >(result@),
            Err(message) => change_answer(action, provider@, outcome@) == Err::<
                ApiKeyResultView,
                Seq<char>,
            >(message@),
        },
{
    match outcome {
        KeyOutcome::NoEntry { reason } => {
            let mut message = match action {
                KeyAction::Store => "Failed to create keyring entry: ".to_owned(),
                _ => "Failed to access keyring: ".to_owned(),
            };
            message.append(reason.as_str());
            Err(message)
        },
        KeyOutcome::Refused { reason } => {
            let mut message = match action {
                KeyAction::Delete => "Failed to delete API key: ".to_owned(),
                _ => "Failed to store API key: ".to_owned(),
            };
            message.append(reason.as_str());
            Err(message)
        },
        KeyOutcome::Done { .. } => {
            let mut message = "API key for ".to_owned();
            message.append(provider);
            match action {
                KeyAction::Delete => message.append(" deleted"),
                _ => message.append(" stored securely"),
            }
            Ok(ApiKeyResult { success: true, message })
        },
    }
}

/// Words the answer to a command that fetches a key.
pub fn answer_fetch(outcome: &KeyOutcome) -> (answer: Result<String, String>)
    ensures
        match answer {
            Ok(key) => fetch_answer(outcome@) == Ok::<Seq<char>, Seq<char>>(key@),
            Err(message) => fetch_answer(outcome@) == Err::<Seq<char>, Seq<char>>(message@),
        },
{
    match outcome {
        KeyOutcome::NoEntry { reason } => {
            let mut message = "Failed to access keyring: ".to_owned();
            message.append(reason.as_str());
            Err(message)
        },
        KeyOutcome::Refused { .. } => Ok(String::new()),
        KeyOutcome::Done { key } => Ok(key.clone()),
    }
}

} // verus!
