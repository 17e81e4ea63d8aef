//! The request handlers: what a list request and a write request are
//! answered with, and what a write request does to the registry.
//!
//! A write request passes three stations. Its token is checked, its method
//! word selects addition or removal, and the registry accepts or refuses the
//! mutation. [`step`] is the whole of it as one function on
//! views; the executable handlers are tied to it by their contracts.

use crate::auth::{admits, token_admits};
use crate::clock::clock_text;
use crate::config::default_token;
use crate::registry::{
    added, deleted, distinct_identities, lemma_added_keeps_distinct, lemma_deleted_keeps_distinct,
    lemma_first_match, settled, snapshot_view, Registry, RegistryError,
};
use crate::text::{lowercased, same_text, trimmed};
use crate::user::{text_of, views, UserView, VerifiedUser};
use vstd::prelude::*;

verus! {

/// The class of an answer, as an HTTP status.
#[derive(Clone, Copy, Debug, PartialEq, Eq, Structural)]
pub enum Status {
    /// 200: the request was carried out.
    Success,
    /// 401: the token was not accepted.
    Unauthorized,
    /// 403: the request was refused.
    Forbidden,
}

impl Status {
    /// The number of the status.
    pub open spec fn number(self) -> int {
        match self {
            Status::Success => 200,
            Status::Unauthorized => 401,
            Status::Forbidden => 403,
        }
    }

    /// The number of the status, as it goes on the wire.
    pub fn code(self) -> (code: u16)
        ensures
            code == self.number(),
    {
        match self {
            Status::Success => 200,
            Status::Unauthorized => 401,
            Status::Forbidden => 403,
        }
    }
}

/// What a write request is answered with.
#[derive(Clone, Copy, Debug, PartialEq, Eq, Structural)]
pub enum Reply {
    /// The token was not accepted.
    InvalidToken,
    /// A removal found no record to remove.
    UserNotFound,
    /// An addition found its key taken.
    UserAlreadyExists,
    /// A record was removed.
    Deleted,
    /// A record was added.
    AddedUser,
}

impl Reply {
    /// The status of each answer. A removal that finds nothing and an
    /// addition that finds its key taken are both answered as forbidden, the
    /// status of a refused request, although neither is a matter of access.
    pub open spec fn status_of(self) -> Status {
        match self {
            Reply::InvalidToken => Status::Unauthorized,
            Reply::UserNotFound => Status::Forbidden,
            Reply::UserAlreadyExists => Status::Forbidden,
            Reply::Deleted => Status::Success,
            Reply::AddedUser => Status::Success,
        }
    }

    /// The body of each answer.
    pub open spec fn text(self) -> Seq<char> {
        match self {
            Reply::InvalidToken => "Invalid token"@,
            Reply::UserNotFound => "User not found"@,
            Reply::UserAlreadyExists => "User already exists"@,
            Reply::Deleted => "Deleted"@,
            Reply::AddedUser => "Added user"@,
        }
    }

    /// The status that the answer is sent with.
    pub fn status(self) -> (status: Status)
        ensures
            status == self.status_of(),
    {
        match self {
            Reply::InvalidToken => Status::Unauthorized,
            Reply::UserNotFound => Status::Forbidden,
            Reply::UserAlreadyExists => Status::Forbidden,
            Reply::Deleted => Status::Success,
            Reply::AddedUser => Status::Success,
        }
    }

    /// The body that the answer is sent with.
    pub fn body(self) -> (body: &'static str)
        ensures
            body@ == self.text(),
    {
        match self {
            Reply::InvalidToken => "Invalid token",
            Reply::UserNotFound => "User not found",
            Reply::UserAlreadyExists => "User already exists",
            Reply::Deleted => "Deleted",
            Reply::AddedUser => "Added user",
        }
    }
}

/// What a write request asks for.
#[derive(Clone, Copy, Debug, PartialEq, Eq, Structural)]
pub enum Intent {
    /// Add a record.
    Add,
    /// Remove a record.
    Delete,
}

/// The intent that a normalised method word stands for: `delete` asks for a
/// removal, every other word for an addition.
pub open spec fn intent_of_word(word: Seq<char>) -> Intent {
    if word == "delete"@ {
        Intent::Delete
    } else {
        Intent::Add
    }
}

/// The intent of a request by its method field. The field is normalised
/// first: trimmed, then put in lowercase. A request without the field asks
/// for an addition.
pub open spec fn intent_of(method: Option<Seq<char>>) -> Intent {
    match method {
        Some(m) => intent_of_word(lowercased(trimmed(m))),
        None => Intent::Add,
    }
}

impl Intent {
    /// Reads the intent off a method word that is already normalised.
    pub fn from_word(word: &str) -> (intent: Intent)
        ensures
            intent == intent_of_word(word@),
    {
        if same_text(word, "delete") {
            Intent::Delete
        } else {
            Intent::Add
        }
    }

    /// Reads the intent off the method field of a request.
    pub fn of(method: &Option<String>) -> (intent: Intent)
        ensures
            intent == intent_of(text_of(*method)),
    {
        match method {
            Some(m) => {
                let word = m.as_str().trim().to_lowercase();
                Intent::from_word(word.as_str())
            },
            None => Intent::Add,
        }
    }
}

/// A write request, as decoded from a form. The method and the token may be
/// missing.
#[derive(Debug, PartialEq, Eq)]
pub struct VerifyRequest {
    pub method: Option<String>,
    pub ckey: String,
    pub discord: String,
    pub token: Option<String>,
}

/// What a [`VerifyRequest`] holds, as character sequences.
pub struct RequestView {
    pub method: Option<Seq<char>>,
    pub ckey: Seq<char>,
    pub discord: Seq<char>,
    pub token: Option<Seq<char>>,
}

impl View for VerifyRequest {
    type V = RequestView;

    open spec fn view(&self) -> RequestView {
        RequestView {
            method: text_of(self.method),
            ckey: self.ckey@,
            discord: self.discord@,
            token: text_of(self.token),
        }
    }
}

/// The answer to a write request, and the list to write to storage before
/// the answer is sent. The list is there exactly when the registry changed.
pub struct Outcome {
    pub reply: Reply,
    pub persist: Option<Vec<VerifiedUser>>,
}

/// What an [`Outcome`] holds, with the list as record views.
pub struct OutcomeView {
    pub reply: Reply,
    pub persist: Option<Seq<UserView>>,
}

impl View for Outcome {
    type V = OutcomeView;

    open spec fn view(&self) -> OutcomeView {
        OutcomeView {
            reply: self.reply,
            persist: match self.persist {
                Some(snapshot) => Some(views(snapshot@)),
                None => None,
            },
        }
    }
}

/// The records after a write request, and its outcome.
pub struct Step {
    pub records: Seq<UserView>,
    pub outcome: OutcomeView,
}

/// What the registry makes of a mutation.
pub open spec fn mutated(
    records: Seq<UserView>,
    intent: Intent,
    ckey: Seq<char>,
    discord: Seq<char>,
    now: Seq<char>,
) -> Result<Seq<UserView>, RegistryError> {
    match intent {
        Intent::Add => added(records, ckey, discord, now),
        Intent::Delete => deleted(records, ckey, discord),
    }
}

/// The answer to a mutation that the registry accepted or refused. An
/// accepted mutation hands on the new list for storage.
pub open spec fn answered(intent: Intent, result: Result<Seq<UserView>, RegistryError>) -> OutcomeView {
    match result {
        Ok(after) => OutcomeView {
            reply: match intent {
                Intent::Add => Reply::AddedUser,
                Intent::Delete => Reply::Deleted,
            },
            persist: Some(after),
        },
        Err(_) => OutcomeView {
            reply: match intent {
                Intent::Add => Reply::UserAlreadyExists,
                Intent::Delete => Reply::UserNotFound,
            },
            persist: None,
        },
    }
}

/// A write request under a given intent, at a given time: the token check
/// first, then the registry.
pub open spec fn step_as(
    records: Seq<UserView>,
    secret: Seq<char>,
    request: RequestView,
    intent: Intent,
    now: Seq<char>,
) -> Step {
    if token_admits(secret, request.token) {
        let result = mutated(records, intent, request.ckey, request.discord, now);
        Step { records: settled(records, result), outcome: answered(intent, result) }
    } else {
        Step { records, outcome: OutcomeView { reply: Reply::InvalidToken, persist: None } }
    }
}

/// A write request at a given time, its intent read off its method field.
pub open spec fn step(
    records: Seq<UserView>,
    secret: Seq<char>,
    request: RequestView,
    now: Seq<char>,
) -> Step {
    step_as(records, secret, request, intent_of(request.method), now)
}

/// The state that all handlers share: the registry and the configured
/// secret. A handler that writes takes it by exclusive reference, so no other
/// handler reads or writes between its lookup and its mutation.
pub struct PersistentState {
    verify_list: Registry,
    civ_token: String,
}

impl PersistentState {
    /// The records of the registry.
    pub closed spec fn records(&self) -> Seq<UserView> {
        self.verify_list@
    }

    /// The configured secret.
    pub closed spec fn secret(&self) -> Seq<char> {
        self.civ_token@
    }
}

/// Builds the shared state from the loaded records and the configured secret.
pub fn create_app_state(v_file: Vec<VerifiedUser>, civ_token: String) -> (state: PersistentState)
    ensures
        state.records() == views(v_file@),
        state.secret() == civ_token@,
{
    PersistentState { verify_list: Registry::new(v_file), civ_token }
}

/// Answers a list request: all records, in insertion order. Nothing changes.
pub fn get_verified(state: &PersistentState) -> (answer: (Status, Vec<VerifiedUser>))
    ensures
        answer.0 == Status::Success,
        views(answer.1@) == state.records(),
{
    (Status::Success, state.verify_list.list())
}

/// Answers a request for the root path, or for any path that is not served:
/// access is denied, whoever asks and by whatever method.
pub fn deny_access() -> (answer: (Status, &'static str))
    ensures
        answer.0 == Status::Forbidden,
        answer.1@ == "<h1>Forbidden</h1>"@,
{
    (Status::Forbidden, "<h1>Forbidden</h1>")
}

/// Turns what the registry returned for a mutation into the outcome.
fn conclude(intent: Intent, result: Result<Vec<VerifiedUser>, RegistryError>) -> (outcome: Outcome)
    ensures
        outcome@ == answered(intent, snapshot_view(result)),
{
    match result {
        Ok(snapshot) => Outcome {
            reply: match intent {
                Intent::Add => Reply::AddedUser,
                Intent::Delete => Reply::Deleted,
            },
            persist: Some(snapshot),
        },
        Err(_) => Outcome {
            reply: match intent {
                Intent::Add => Reply::UserAlreadyExists,
                Intent::Delete => Reply::UserNotFound,
            },
            persist: None,
        },
    }
}

/// Carries out a write request whose intent is given, with `now` as the
/// creation time of a record that it may add. The method field of the form
/// is not looked at.
pub fn update_verified_as(
    state: &mut PersistentState,
    form: VerifyRequest,
    intent: Intent,
    now: String,
) -> (outcome: Outcome)
    ensures
        final(state).secret() == old(state).secret(),
        step_as(old(state).records(), old(state).secret(), form@, intent, now@) == (Step {
            records: final(state).records(),
            outcome: outcome@,
        }),
{
    if !admits(state.civ_token.as_str(), &form.token) {
        return Outcome { reply: Reply::InvalidToken, persist: None };
    }
    let result = match intent {
        Intent::Add => state.verify_list.add_at(form.ckey, form.discord, now),
        Intent::Delete => state.verify_list.delete(form.ckey.as_str(), form.discord.as_str()),
    };
    conclude(intent, result)
}

/// Carries out a write request. The token is checked first; the method field
/// selects removal or addition; the registry does the rest. A record that is
/// added is stamped with the current time in UTC.
///
/// This is [`step`] at a time that the clock chooses.
pub fn update_verified(state: &mut PersistentState, form: VerifyRequest) -> (outcome: Outcome)
    ensures
        final(state).secret() == old(state).secret(),
        exists|now: Seq<char>|
            clock_text(now) && #[trigger] step(old(state).records(), old(state).secret(), form@, now)
                == (Step { records: final(state).records(), outcome: outcome@ }),
{
    let ghost before = state.records();
    let ghost secret = state.secret();
    let ghost request = form@;
    let ghost any = Seq::new(20, |i: int| ' ');
    if !admits(state.civ_token.as_str(), &form.token) {
        assert(step(before, secret, request, any) == (Step {
            records: before,
            outcome: OutcomeView { reply: Reply::InvalidToken, persist: None },
        }));
        return Outcome { reply: Reply::InvalidToken, persist: None };
    }
    let intent = Intent::of(&form.method);
    match intent {
        Intent::Add => {
            let result = state.verify_list.add(form.ckey, form.discord);
            let outcome = conclude(intent, result);
            proof {
                let now = choose|now: Seq<char>|
                    clock_text(now) && snapshot_view(result) == #[trigger] added(
                        before,
                        request.ckey,
                        request.discord,
                        now,
                    );
                assert(step(before, secret, request, now) == (Step {
                    records: state.records(),
                    outcome: outcome@,
                }));
            }
            outcome
        },
        Intent::Delete => {
            let result = state.verify_list.delete(form.ckey.as_str(), form.discord.as_str());
            let outcome = conclude(intent, result);
            assert(step(before, secret, request, any) == (Step {
                records: state.records(),
                outcome: outcome@,
            }));
            outcome
        },
    }
}

/// Under a secret other than the default, a write request whose token is
/// wrong or missing is answered as unauthorized, whatever it asks for, and
/// the records stay as they were; nothing is handed on for storage.
pub proof fn lemma_wrong_token_rejected(
    records: Seq<UserView>,
    secret: Seq<char>,
    request: RequestView,
    intent: Intent,
    now: Seq<char>,
)
    requires
        secret != default_token(),
        request.token != Some(secret),
    ensures
        step_as(records, secret, request, intent, now) == (Step {
            records,
            outcome: OutcomeView { reply: Reply::InvalidToken, persist: None },
        }),
        step(records, secret, request, now) == step_as(records, secret, request, intent, now),
        Reply::InvalidToken.status_of() == Status::Unauthorized,
{
}

/// Under the default secret a write request is let through with any token
/// and with none: it is never answered as unauthorized, and the registry
/// alone decides what becomes of it.
pub proof fn lemma_default_secret_accepts(
    records: Seq<UserView>,
    request: RequestView,
    intent: Intent,
    now: Seq<char>,
)
    ensures
        step_as(records, default_token(), request, intent, now).outcome.reply
            != Reply::InvalidToken,
        step_as(records, default_token(), request, intent, now).records == settled(
            records,
            mutated(records, intent, request.ckey, request.discord, now),
        ),
        step(records, default_token(), request, now).outcome.reply != Reply::InvalidToken,
{
}

/// A write request hands a list on for storage exactly when it changed the
/// records, and the list is then the whole of the new records. An accepted
/// addition makes the records one longer, an accepted removal one shorter.
pub proof fn lemma_persist_iff_changed(
    records: Seq<UserView>,
    secret: Seq<char>,
    request: RequestView,
    intent: Intent,
    now: Seq<char>,
)
    ensures
        ({
            let after = step_as(records, secret, request, intent, now);
            match after.outcome.persist {
                Some(list) => {
                    &&& list == after.records
                    &&& after.outcome.reply.status_of() == Status::Success
                    &&& intent == Intent::Add ==> after.records.len() == records.len() + 1
                    &&& intent == Intent::Delete ==> after.records.len() + 1 == records.len()
                },
                None => after.records == records && after.outcome.reply.status_of()
                    != Status::Success,
            }
        }),
{
    lemma_first_match(records, request.ckey, request.discord);
}

/// No write request breaks the uniqueness invariant: where no two records
/// shared an identity before, none do after.
pub proof fn lemma_step_keeps_distinct(
    records: Seq<UserView>,
    secret: Seq<char>,
    request: RequestView,
    intent: Intent,
    now: Seq<char>,
)
    requires
        distinct_identities(records),
    ensures
        distinct_identities(step_as(records, secret, request, intent, now).records),
{
    lemma_added_keeps_distinct(records, request.ckey, request.discord, now);
    lemma_deleted_keeps_distinct(records, request.ckey, request.discord);
}

/// A write request as it is served: with the intent that was read off it and
/// the time that the clock gave.
pub struct Served {
    pub request: RequestView,
    pub intent: Intent,
    pub now: Seq<char>,
}

/// The records after a sequence of write requests, served one after the
/// other.
pub open spec fn run(records: Seq<UserView>, secret: Seq<char>, served: Seq<Served>) -> Seq<
    UserView,
>
    decreases served.len(),
{
    if served.len() == 0 {
        records
    } else {
        let last = served.last();
        step_as(
            run(records, secret, served.drop_last()),
            secret,
            last.request,
            last.intent,
            last.now,
        ).records
    }
}

/// The uniqueness invariant holds in every state that write requests can
/// reach from records that have it, and so in every state that they can
/// reach from the empty registry.
pub proof fn lemma_run_keeps_distinct(
    records: Seq<UserView>,
    secret: Seq<char>,
    served: Seq<Served>,
)
    requires
        distinct_identities(records),
    ensures
        distinct_identities(run(records, secret, served)),
        distinct_identities(run(Seq::empty(), secret, served)),
    decreases served.len(),
{
    if served.len() > 0 {
        let last = served.last();
        lemma_run_keeps_distinct(records, secret, served.drop_last());
        lemma_step_keeps_distinct(
            run(records, secret, served.drop_last()),
            secret,
            last.request,
            last.intent,
            last.now,
        );
        lemma_step_keeps_distinct(
            run(Seq::empty(), secret, served.drop_last()),
            secret,
            last.request,
            last.intent,
            last.now,
        );
    } else {
        assert(distinct_identities(Seq::<UserView>::empty()));
    }
}

} // verus!
