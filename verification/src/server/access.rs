//! Which events the relay takes in, and what it answers to those who send
//! them.

use crate::event::{hex_text, is_ephemeral, is_job_request, is_job_result, signature_valid, Event, EventView};
use crate::message::{RelayMessage, RelayMessageView};
use crate::server::ServerOptions;
use crate::text::{cat, decimal, decimal_text};
use vstd::prelude::*;

verus! {

/// What the relay asks its database about an event.
#[derive(Clone, Copy, Debug, PartialEq, Eq, Structural)]
pub enum Question {
    /// Does the author have access?
    UserAllowed,
    /// Does a stored event refer to this one?
    ReferredEvent,
    /// Does a stored event refer to the author, or is it by them?
    ReferredPubkey,
}

/// Where the check of an event stands.
#[derive(Clone, Debug, PartialEq, Eq)]
pub enum CheckStep {
    Allowed,
    /// The event is refused, and this is why.
    Denied(String),
    Ask(Question),
}

/// The mathematical model of a [`CheckStep`].
pub enum CheckStepView {
    Allowed,
    Denied(Seq<char>),
    Ask(Question),
}

impl View for CheckStep {
    type V = CheckStepView;

    open spec fn view(&self) -> CheckStepView {
        match self {
            CheckStep::Allowed => CheckStepView::Allowed,
            CheckStep::Denied(message) => CheckStepView::Denied(message@),
            CheckStep::Ask(question) => CheckStepView::Ask(*question),
        }
    }
}

/// The kinds that the relay never stores: ephemeral events, jobs and their
/// results, and encrypted messages where they are not wanted.
pub open spec fn unsupported(kind: u16, allow_encrypted_messages: bool) -> bool {
    ||| 20000 <= kind < 30000
    ||| 5000 <= kind < 7000
    ||| kind == 4 && !allow_encrypted_messages
}

/// Whether the relay never stores events of this kind.
pub fn unsupported_kind(kind: u16, options: &ServerOptions) -> (answer: bool)
    ensures
        answer == unsupported(kind, options.allow_encrypted_messages),
        answer <==> {
            ||| 20000 <= kind < 30000
            ||| 5000 <= kind < 7000
            ||| kind == 4 && !options.allow_encrypted_messages
        },
{
    is_ephemeral(kind) || is_job_request(kind) || is_job_result(kind) || (kind == 4
        && !options.allow_encrypted_messages)
}

/// The check of an event up to the first question, where its signature was
/// found valid or not.
pub open spec fn first_step(event: EventView, valid: bool) -> CheckStepView {
    if unsupported(event.kind, false) {
        CheckStepView::Denied("blocked: Unsupported event kind: "@ + decimal_text(event.kind as nat))
    } else if !valid {
        CheckStepView::Denied("invalid: Invalid signature"@)
    } else {
        CheckStepView::Ask(Question::UserAllowed)
    }
}

/// What someone without access is told.
pub open spec fn not_granted(event: EventView) -> Seq<char> {
    "blocked: Access not granted for pubkey "@ + hex_text(event.pubkey)
}

/// The check of an event after the database replied to a question.
pub open spec fn next_step(
    event: EventView,
    question: Question,
    reply: Result<bool, Seq<char>>,
) -> CheckStepView {
    match reply {
        Err(error) => CheckStepView::Denied("error: "@ + error),
        Ok(true) => CheckStepView::Allowed,
        Ok(false) => match question {
            Question::UserAllowed => CheckStepView::Ask(Question::ReferredEvent),
            Question::ReferredEvent if event.kind == 0 => CheckStepView::Ask(Question::ReferredPubkey),
            _ => CheckStepView::Denied(not_granted(event)),
        },
    }
}

/// The reply of the database, by its view.
pub open spec fn reply_view(reply: Result<bool, String>) -> Result<bool, Seq<char>> {
    match reply {
        Ok(answer) => Ok(answer),
        Err(error) => Err(error@),
    }
}

/// Refuses an event of a kind that the relay never stores.
pub fn check_kind(event: &Event, options: &ServerOptions) -> (refusal: Option<String>)
    ensures
        refusal is Some <==> unsupported(event@.kind, options.allow_encrypted_messages),
        refusal is Some ==> refusal->0@ == "blocked: Unsupported event kind: "@ + decimal_text(
            event@.kind as nat,
        ),
        refusal is Some <==> {
            ||| 20000 <= event.kind < 30000
            ||| 5000 <= event.kind < 7000
            ||| event.kind == 4 && !options.allow_encrypted_messages
        },
{
    if unsupported_kind(event.kind, options) {
        Some(cat("blocked: Unsupported event kind: ", &decimal(event.kind as u64)))
    } else {
        None
    }
}

/// Refuses an event whose signature was found not to be valid; else the
/// author's access is asked about first.
pub fn check_signature(valid: bool) -> (step: CheckStep)
    ensures
        step@ == if valid {
            CheckStepView::Ask(Question::UserAllowed)
        } else {
            CheckStepView::Denied("invalid: Invalid signature"@)
        },
{
    if valid {
        CheckStep::Ask(Question::UserAllowed)
    } else {
        CheckStep::Denied("invalid: Invalid signature".to_owned())
    }
}

/// Starts the check of an event, cheapest tests first.
pub fn check_allowed(event: &Event) -> (step: CheckStep)
    ensures
        step@ == first_step(event@, signature_valid(event@.json)),
        step is Ask <==> {
            &&& !(20000 <= event.kind < 30000)
            &&& !(5000 <= event.kind < 7000)
            &&& event.kind != 4
            &&& signature_valid(event.json@)
        },
        step is Ask ==> step->Ask_0 == Question::UserAllowed,
        !(step is Allowed),
{
    let options = ServerOptions::default();
    match check_kind(event, &options) {
        Some(message) => CheckStep::Denied(message),
        None => check_signature(event.verify()),
    }
}

/// Goes on with the check of an event after the database replied.
pub fn check_replied(event: &Event, question: Question, reply: Result<bool, String>) -> (step:
    CheckStep)
    ensures
        step@ == next_step(event@, question, reply_view(reply)),
        step is Allowed <==> reply is Ok && reply->Ok_0,
        step is Ask <==> reply is Ok && !reply->Ok_0 && (question == Question::UserAllowed
            || question == Question::ReferredEvent && event.kind == 0),
        reply is Err ==> step is Denied && step->Denied_0@ == "error: "@ + reply->Err_0@,
{
    match reply {
        Err(error) => CheckStep::Denied(cat("error: ", &error)),
        Ok(true) => CheckStep::Allowed,
        Ok(false) => {
            if question == Question::UserAllowed {
                CheckStep::Ask(Question::ReferredEvent)
            } else if question == Question::ReferredEvent && event.kind == 0 {
                CheckStep::Ask(Question::ReferredPubkey)
            } else {
                CheckStep::Denied(
                    cat("blocked: Access not granted for pubkey ", &event.pubkey.to_hex()),
                )
            }
        },
    }
}

/// All that the database would reply about an event.
pub struct Answers {
    pub user_allowed: Result<bool, Seq<char>>,
    pub referred_event: Result<bool, Seq<char>>,
    pub referred_pubkey: Result<bool, Seq<char>>,
}

/// The reply to one question.
pub open spec fn answer(answers: Answers, question: Question) -> Result<bool, Seq<char>> {
    match question {
        Question::UserAllowed => answers.user_allowed,
        Question::ReferredEvent => answers.referred_event,
        Question::ReferredPubkey => answers.referred_pubkey,
    }
}

/// How many questions can still come.
pub open spec fn questions_left(step: CheckStepView) -> nat {
    match step {
        CheckStepView::Ask(Question::UserAllowed) => 3,
        CheckStepView::Ask(Question::ReferredEvent) => 2,
        CheckStepView::Ask(Question::ReferredPubkey) => 1,
        _ => 0,
    }
}

/// Where the check ends: nothing to object, or why the event is refused.
pub open spec fn outcome(event: EventView, step: CheckStepView, answers: Answers) -> Result<
    (),
    Seq<char>,
>
    decreases questions_left(step),
{
    match step {
        CheckStepView::Allowed => Ok(()),
        CheckStepView::Denied(message) => Err(message),
        CheckStepView::Ask(question) => outcome(
            event,
            next_step(event, question, answer(answers, question)),
            answers,
        ),
    }
}

/// The whole check of an event.
pub open spec fn verdict(event: EventView, valid: bool, answers: Answers) -> Result<(), Seq<char>> {
    outcome(event, first_step(event, valid), answers)
}

/// The kinds that the relay never stores are these and no others: 20000 up to
/// 29999, 5000 up to 6999, and 4 unless encrypted messages are wanted.
pub proof fn refused_kinds(kind: u16, allow_encrypted_messages: bool)
    ensures
        unsupported(kind, allow_encrypted_messages) <==> {
            ||| 20000 <= kind < 30000
            ||| 5000 <= kind < 7000
            ||| kind == 4 && !allow_encrypted_messages
        },
{
}

/// Who may write: an event is taken in exactly when its kind is not one of
/// those that the relay never stores (20000 up to 29999, 5000 up to 6999, and
/// 4), its signature is valid, and its author has access, or else a stored
/// event refers to it, or else it is the profile of someone the relay knows.
/// A question that the database fails to answer refuses the event.
pub proof fn access_policy(event: EventView, valid: bool, answers: Answers)
    ensures
        verdict(event, valid, answers) is Ok <==> {
            &&& !(20000 <= event.kind < 30000)
            &&& !(5000 <= event.kind < 7000)
            &&& event.kind != 4
            &&& valid
            &&& {
                ||| answers.user_allowed == Ok::<bool, Seq<char>>(true)
                ||| answers.user_allowed == Ok::<bool, Seq<char>>(false) && {
                    ||| answers.referred_event == Ok::<bool, Seq<char>>(true)
                    ||| answers.referred_event == Ok::<bool, Seq<char>>(false) && event.kind == 0
                        && answers.referred_pubkey == Ok::<bool, Seq<char>>(true)
                }
            }
        },
{
    reveal_with_fuel(outcome, 4);
}

/// A refused event is told why, and the first reason counts: its kind, its
/// signature, what the database failed to answer, or that nobody granted its
/// author access.
pub proof fn refusals_give_the_first_reason(event: EventView, valid: bool, answers: Answers)
    ensures
        ({
            let reason = verdict(event, valid, answers)->Err_0;
            let refused = verdict(event, valid, answers) is Err;
            let kind = 20000 <= event.kind < 30000 || 5000 <= event.kind < 7000 || event.kind == 4;
            let unknown = answers.user_allowed == Ok::<bool, Seq<char>>(false);
            let unreferred = unknown && answers.referred_event == Ok::<bool, Seq<char>>(false);
            &&& kind ==> refused && reason == "blocked: Unsupported event kind: "@ + decimal_text(
                event.kind as nat,
            )
            &&& !kind && !valid ==> refused && reason == "invalid: Invalid signature"@
            &&& !kind && valid && answers.user_allowed is Err ==> refused && reason == "error: "@
                + answers.user_allowed->Err_0
            &&& !kind && valid && unknown && answers.referred_event is Err ==> refused && reason
                == "error: "@ + answers.referred_event->Err_0
            &&& !kind && valid && unreferred && event.kind == 0 && answers.referred_pubkey is Err
                ==> refused && reason == "error: "@ + answers.referred_pubkey->Err_0
            &&& !kind && valid && unreferred && (event.kind != 0 || answers.referred_pubkey == Ok::<
                bool,
                Seq<char>,
            >(false)) ==> refused && reason == "blocked: Access not granted for pubkey "@ + hex_text(
                event.pubkey,
            )
        }),
{
    reveal_with_fuel(outcome, 4);
}

/// Users are denied write access by default: nothing that the relay knows of
/// the author or the event means no.
pub proof fn denied_by_default(event: EventView, valid: bool, answers: Answers)
    requires
        answers.user_allowed == Ok::<bool, Seq<char>>(false),
        answers.referred_event == Ok::<bool, Seq<char>>(false),
        answers.referred_pubkey == Ok::<bool, Seq<char>>(false),
    ensures
        verdict(event, valid, answers) is Err,
        valid && !unsupported(event.kind, false) ==> verdict(event, valid, answers)->Err_0
            == not_granted(event),
{
    reveal_with_fuel(outcome, 4);
}

/// Content is allowed for users that have access: the relay looks no further
/// than the author for a signed event, unless its kind is one of those that it
/// never stores.
pub proof fn granted_users_may_write(event: EventView, answers: Answers)
    requires
        event.kind != 4,
        !(5000 <= event.kind < 7000),
        !(20000 <= event.kind < 30000),
        answers.user_allowed == Ok::<bool, Seq<char>>(true),
    ensures
        verdict(event, true, answers) is Ok,
{
    reveal_with_fuel(outcome, 2);
}

/// The author is asked about first, then whether the event is referred to, and
/// only for profiles whether the author is; each yes grants access.
pub proof fn questions_come_in_order(event: EventView, question: Question, error: Seq<char>)
    ensures
        first_step(event, true) is Ask <==> {
            &&& !(20000 <= event.kind < 30000)
            &&& !(5000 <= event.kind < 7000)
            &&& event.kind != 4
        },
        first_step(event, true) is Ask ==> first_step(event, true) == CheckStepView::Ask(
            Question::UserAllowed,
        ),
        first_step(event, false) is Denied,
        next_step(event, question, Ok(true)) == CheckStepView::Allowed,
        next_step(event, question, Err(error)) == CheckStepView::Denied("error: "@ + error),
        next_step(event, Question::UserAllowed, Ok(false)) == CheckStepView::Ask(
            Question::ReferredEvent,
        ),
        event.kind == 0 ==> next_step(event, Question::ReferredEvent, Ok(false))
            == CheckStepView::Ask(Question::ReferredPubkey),
        event.kind != 0 ==> next_step(event, Question::ReferredEvent, Ok(false))
            == CheckStepView::Denied(
            "blocked: Access not granted for pubkey "@ + hex_text(event.pubkey),
        ),
        next_step(event, Question::ReferredPubkey, Ok(false)) == CheckStepView::Denied(
            "blocked: Access not granted for pubkey "@ + hex_text(event.pubkey),
        ),
{
}

/// What the check does next about an event that was sent in.
#[derive(Clone, Debug, PartialEq, Eq)]
pub enum SaveStep {
    Ask(Question),
    /// The event is to be stored.
    Store,
    /// The sender is told this, and that is all.
    Reply(RelayMessage),
}

/// The mathematical model of a [`SaveStep`].
pub enum SaveStepView {
    Ask(Question),
    Store,
    Reply(RelayMessageView),
}

impl View for SaveStep {
    type V = SaveStepView;

    open spec fn view(&self) -> SaveStepView {
        match self {
            SaveStep::Ask(question) => SaveStepView::Ask(*question),
            SaveStep::Store => SaveStepView::Store,
            SaveStep::Reply(message) => SaveStepView::Reply(message@),
        }
    }
}

/// `OK` with a status and a message.
pub open spec fn status(event: EventView, accepted: bool, message: Seq<char>) -> RelayMessageView {
    RelayMessageView::Status { event_id: event.id, accepted, message }
}

/// What follows from where the check stands.
pub open spec fn save_step(event: EventView, step: CheckStepView) -> SaveStepView {
    match step {
        CheckStepView::Allowed => SaveStepView::Store,
        CheckStepView::Denied(message) => SaveStepView::Reply(status(event, false, message)),
        CheckStepView::Ask(question) => SaveStepView::Ask(question),
    }
}

/// What follows from where the check stands: a refusal is answered.
pub fn after_check(event: &Event, step: CheckStep) -> (next: SaveStep)
    ensures
        next@ == save_step(event@, step@),
{
    match step {
        CheckStep::Allowed => SaveStep::Store,
        CheckStep::Denied(message) => SaveStep::Reply(
            RelayMessage::Status { event_id: event.id, accepted: false, message },
        ),
        CheckStep::Ask(question) => SaveStep::Ask(question),
    }
}

/// Takes an event that a client sent.
pub fn save_event(event: &Event) -> (next: SaveStep)
    ensures
        next@ == save_step(event@, first_step(event@, signature_valid(event@.json))),
{
    after_check(event, check_allowed(event))
}

/// Goes on after the database replied.
pub fn save_replied(event: &Event, question: Question, reply: Result<bool, String>) -> (next:
    SaveStep)
    ensures
        next@ == save_step(event@, next_step(event@, question, reply_view(reply))),
{
    after_check(event, check_replied(event, question, reply))
}

/// Why an event could not be stored.
#[derive(Clone, Debug, PartialEq, Eq)]
pub struct StoreError {
    /// The database already holds an event with this identifier.
    pub unique_violation: bool,
    pub message: String,
}

/// The mathematical model of a [`StoreError`].
#[verifier::ext_equal]
pub struct StoreErrorView {
    pub unique_violation: bool,
    pub message: Seq<char>,
}

/// The result of storing an event, by its view.
pub open spec fn stored_view(result: Result<(), StoreError>) -> Result<(), StoreErrorView> {
    match result {
        Ok(()) => Ok(()),
        Err(error) => Err(
            StoreErrorView { unique_violation: error.unique_violation, message: error.message@ },
        ),
    }
}

/// What the sender is told once the event was handed to the database.
pub open spec fn stored_reply(event: EventView, result: Result<(), StoreErrorView>) -> RelayMessageView {
    match result {
        Ok(()) => status(event, true, ""@),
        Err(error) => if error.unique_violation {
            status(event, true, "duplicate: duplicate event"@)
        } else {
            status(event, false, error.message)
        },
    }
}

/// Answers the sender once the event was handed to the database: an event
/// that is already there counts as accepted.
pub fn save_stored(event: &Event, result: Result<(), StoreError>) -> (reply: RelayMessage)
    ensures
        reply@ == stored_reply(event@, stored_view(result)),
        reply is Status && reply->event_id.bytes@ == event.id.bytes@,
        reply->accepted <==> result is Ok || result->Err_0.unique_violation,
        result is Ok ==> reply->Status_message@ == ""@,
        result is Err && result->Err_0.unique_violation ==> reply->Status_message@
            == "duplicate: duplicate event"@,
        result is Err && !result->Err_0.unique_violation ==> reply->Status_message@
            == result->Err_0.message@,
{
    match result {
        Ok(()) => RelayMessage::Status {
            event_id: event.id,
            accepted: true,
            message: "".to_owned(),
        },
        Err(error) => {
            if error.unique_violation {
                RelayMessage::Status {
                    event_id: event.id,
                    accepted: true,
                    message: "duplicate: duplicate event".to_owned(),
                }
            } else {
                RelayMessage::Status { event_id: event.id, accepted: false, message: error.message }
            }
        },
    }
}

/// The reply at the end of the steps, whatever the database says on the way.
pub open spec fn reply_after(
    event: EventView,
    step: CheckStepView,
    answers: Answers,
    stored: Result<(), StoreErrorView>,
) -> RelayMessageView
    decreases questions_left(step),
{
    match save_step(event, step) {
        SaveStepView::Ask(question) => reply_after(
            event,
            next_step(event, question, answer(answers, question)),
            answers,
            stored,
        ),
        SaveStepView::Store => stored_reply(event, stored),
        SaveStepView::Reply(message) => message,
    }
}

/// Every event that a client sends is answered with one `OK` that names it.
/// It says yes exactly when the event was allowed and is in the database
/// afterwards, and a refused event is told why.
pub proof fn every_event_is_answered(
    event: EventView,
    valid: bool,
    answers: Answers,
    stored: Result<(), StoreErrorView>,
)
    ensures
        reply_after(event, first_step(event, valid), answers, stored) == match verdict(
            event,
            valid,
            answers,
        ) {
            Ok(()) => stored_reply(event, stored),
            Err(message) => status(event, false, message),
        },
        ({
            let reply = reply_after(event, first_step(event, valid), answers, stored);
            &&& reply is Status
            &&& reply->event_id == event.id
            &&& reply->accepted <==> verdict(event, valid, answers) is Ok && (stored is Ok
                || stored->Err_0.unique_violation)
        }),
{
    reveal_with_fuel(outcome, 4);
    reveal_with_fuel(reply_after, 4);
}

/// What the sender is told once the event was handed to the database: that it
/// is stored, that it was there already, or what the database said; in each
/// case about this event.
pub proof fn stored_events_are_confirmed(event: EventView, error: StoreErrorView)
    ensures
        stored_reply(event, Ok(())) == (RelayMessageView::Status {
            event_id: event.id,
            accepted: true,
            message: ""@,
        }),
        error.unique_violation ==> stored_reply(event, Err(error)) == (RelayMessageView::Status {
            event_id: event.id,
            accepted: true,
            message: "duplicate: duplicate event"@,
        }),
        !error.unique_violation ==> stored_reply(event, Err(error)) == (RelayMessageView::Status {
            event_id: event.id,
            accepted: false,
            message: error.message,
        }),
{
}

/// A check that goes on is gone on with, an allowed event is stored, and a
/// refused one is answered with the reason.
pub proof fn every_check_has_a_consequence(event: EventView, message: Seq<char>, question: Question)
    ensures
        save_step(event, CheckStepView::Allowed) == SaveStepView::Store,
        save_step(event, CheckStepView::Ask(question)) == SaveStepView::Ask(question),
        save_step(event, CheckStepView::Denied(message)) == SaveStepView::Reply(
            RelayMessageView::Status { event_id: event.id, accepted: false, message },
        ),
{
}

/// The models of the steps of a check and of what the database replied hold
/// all of it.
pub proof fn check_steps_are_modelled_whole(
    message: String,
    question: Question,
    reply: Result<bool, String>,
    answer: RelayMessage,
    stored: Result<(), StoreError>,
)
    ensures
        CheckStep::Allowed@ is Allowed,
        CheckStep::Denied(message)@ == CheckStepView::Denied(message@),
        CheckStep::Ask(question)@ == CheckStepView::Ask(question),
        SaveStep::Store@ is Store,
        SaveStep::Ask(question)@ == SaveStepView::Ask(question),
        SaveStep::Reply(answer)@ == SaveStepView::Reply(answer@),
        reply is Ok ==> reply_view(reply) == Ok::<bool, Seq<char>>(reply->Ok_0),
        reply is Err ==> reply_view(reply) == Err::<bool, Seq<char>>(reply->Err_0@),
        stored is Ok <==> stored_view(stored) is Ok,
        stored is Err ==> stored_view(stored)->Err_0.unique_violation
            == stored->Err_0.unique_violation,
        stored is Err ==> stored_view(stored)->Err_0.message == stored->Err_0.message@,
{
}

} // verus!
