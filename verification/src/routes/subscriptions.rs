//! The onboarding of one subscriber: parse the submission, store a record of
//! it, then send the welcome message.
//!
//! Storing and sending are done by whoever drives the workflow. The workflow
//! says what to do next ([`Action`]) and is told what came of it ([`Event`]).
//! It asks for each of the two at most once, and for the message only after
//! the record was stored.

use vstd::prelude::*;
use crate::domain::{first_failure, SubscriberDetails, SubscriberEmail, SubscriptionFormData};
use crate::email_client::{send_result, Delivery, SendError};
use crate::validation::{valid_email, valid_name};

verus! {

/// The status of a subscription that has not been confirmed yet.
pub const INVITED_STATUS: &'static str = "invited";

/// The subject of the welcome message.
pub const WELCOME_SUBJECT: &'static str = "Hello";

/// The welcome message as HTML.
pub const WELCOME_HTML: &'static str = "<h1> Hello </h1>";

/// The welcome message as plain text.
pub const WELCOME_TEXT: &'static str = "Hello";

// ---------------------------------------------------------------------------
// Data
// ---------------------------------------------------------------------------

/// A moment: the seconds since the start of 1970 in UTC, and the nanoseconds
/// since that second began.
#[derive(Debug, Clone, Copy, PartialEq, Eq, Structural)]
pub struct Timestamp {
    pub seconds: i64,
    pub nanoseconds: u32,
}

/// The datastore could not keep a record.
#[derive(Debug, Clone, Copy, PartialEq, Eq, Structural)]
pub struct StoreError;

/// Why a submission was turned down.
#[derive(Debug, Clone, Copy, PartialEq, Eq, Structural)]
pub enum Rejection {
    /// The name or the email address is not valid.
    InvalidInput,
}

/// Which step of the onboarding failed.
#[derive(Debug, Clone, Copy, PartialEq, Eq, Structural)]
pub enum Failure {
    /// The record could not be stored. No message was sent.
    PersistenceError,
    /// The record was stored, and stays stored, but the message could not be
    /// sent.
    NotificationError,
}

/// How the onboarding of one submission ended.
#[derive(Debug, Clone, Copy, PartialEq, Eq, Structural)]
pub enum Outcome {
    Accepted,
    Rejected(Rejection),
    Failed(Failure),
}

/// A subscription as the datastore keeps it. `id` is a UUID read as a
/// number, most significant byte first.
#[derive(Debug)]
pub struct SubscriptionRecord {
    pub id: u128,
    pub email: String,
    pub name: String,
    pub subscribed_at: Timestamp,
    pub status: &'static str,
}

/// A message for the email sender.
#[derive(Debug)]
pub struct Notification {
    pub recipient: SubscriberEmail,
    pub subject: &'static str,
    pub html_content: &'static str,
    pub text_content: &'static str,
}

/// Where the onboarding of one submission stands.
#[derive(Debug)]
pub enum Stage {
    /// The record was handed out; the datastore's answer is awaited.
    Persisting { recipient: SubscriberEmail },
    /// The message was handed out; the sender's answer is awaited.
    Notifying,
    /// Nothing is left to do.
    Finished(Outcome),
}

/// What came of the last action.
#[derive(Debug, Clone, Copy)]
pub enum Event {
    StoreReplied(Result<(), StoreError>),
    SenderReplied(Result<(), SendError>),
}

/// What to do next.
#[derive(Debug)]
pub enum Action {
    /// Insert the record into the datastore, then report `StoreReplied`.
    Persist(SubscriptionRecord),
    /// Send the message, then report `SenderReplied`.
    Notify(Notification),
    /// Report the outcome to the submitter.
    Finish(Outcome),
    /// Nothing: the event did not answer what is awaited.
    Wait,
}

// ---------------------------------------------------------------------------
// Model
// ---------------------------------------------------------------------------

/// A record, as plain values.
pub struct RecordView {
    pub id: u128,
    pub email: Seq<char>,
    pub name: Seq<char>,
    pub subscribed_at: Timestamp,
    pub status: Seq<char>,
}

/// A message, as plain values.
pub struct NotificationView {
    pub recipient: Seq<char>,
    pub subject: Seq<char>,
    pub html_content: Seq<char>,
    pub text_content: Seq<char>,
}

/// A stage, as plain values.
pub enum StageView {
    Persisting { recipient: Seq<char> },
    Notifying,
    Finished(Outcome),
}

/// An action, as plain values.
pub enum ActionView {
    Persist(RecordView),
    Notify(NotificationView),
    Finish(Outcome),
    Wait,
}

impl View for SubscriptionRecord {
    type V = RecordView;

    open spec fn view(&self) -> RecordView {
        RecordView {
            id: self.id,
            email: self.email@,
            name: self.name@,
            subscribed_at: self.subscribed_at,
            status: self.status@,
        }
    }
}

impl View for Notification {
    type V = NotificationView;

    open spec fn view(&self) -> NotificationView {
        NotificationView {
            recipient: self.recipient@,
            subject: self.subject@,
            html_content: self.html_content@,
            text_content: self.text_content@,
        }
    }
}

impl View for Stage {
    type V = StageView;

    open spec fn view(&self) -> StageView {
        match self {
            Stage::Persisting { recipient } => StageView::Persisting { recipient: recipient@ },
            Stage::Notifying => StageView::Notifying,
            Stage::Finished(outcome) => StageView::Finished(*outcome),
        }
    }
}

impl View for Action {
    type V = ActionView;

    open spec fn view(&self) -> ActionView {
        match self {
            Action::Persist(record) => ActionView::Persist(record@),
            Action::Notify(notification) => ActionView::Notify(notification@),
            Action::Finish(outcome) => ActionView::Finish(*outcome),
            Action::Wait => ActionView::Wait,
        }
    }
}

/// The record of a subscriber who was just admitted.
pub open spec fn invited(id: u128, name: Seq<char>, email: Seq<char>, at: Timestamp) -> RecordView {
    RecordView { id, email, name, subscribed_at: at, status: INVITED_STATUS@ }
}

/// The welcome message for `recipient`.
pub open spec fn welcome_for(recipient: Seq<char>) -> NotificationView {
    NotificationView {
        recipient,
        subject: WELCOME_SUBJECT@,
        html_content: WELCOME_HTML@,
        text_content: WELCOME_TEXT@,
    }
}

/// How the onboarding of a submission that is not valid starts and ends: it
/// is rejected, and nothing is to be stored or sent.
pub open spec fn rejection() -> (StageView, ActionView) {
    (
        StageView::Finished(Outcome::Rejected(Rejection::InvalidInput)),
        ActionView::Finish(Outcome::Rejected(Rejection::InvalidInput)),
    )
}

/// How the onboarding of a valid submission starts, given the identifier and
/// the time for its record: the record is to be stored, and its answer is
/// awaited.
pub open spec fn enrollment(name: Seq<char>, email: Seq<char>, id: u128, at: Timestamp) -> (
    StageView,
    ActionView,
) {
    (StageView::Persisting { recipient: email }, ActionView::Persist(invited(id, name, email, at)))
}

/// How the onboarding of a submission starts, given the identifier and the
/// time that its record would get: a submission that is not valid is
/// rejected at once; for a valid one the record is to be stored.
pub open spec fn admission(name: Seq<char>, email: Seq<char>, id: u128, at: Timestamp) -> (
    StageView,
    ActionView,
) {
    if first_failure(name, email) is Some {
        rejection()
    } else {
        enrollment(name, email, id, at)
    }
}

/// How the onboarding goes on when `event` is reported at `stage`.
pub open spec fn transition(stage: StageView, event: Event) -> (StageView, ActionView) {
    match stage {
        StageView::Persisting { recipient } => match event {
            Event::StoreReplied(Ok(_)) => (
                StageView::Notifying,
                ActionView::Notify(welcome_for(recipient)),
            ),
            Event::StoreReplied(Err(_)) => (
                StageView::Finished(Outcome::Failed(Failure::PersistenceError)),
                ActionView::Finish(Outcome::Failed(Failure::PersistenceError)),
            ),
            Event::SenderReplied(_) => (stage, ActionView::Wait),
        },
        StageView::Notifying => match event {
            Event::SenderReplied(Ok(_)) => (
                StageView::Finished(Outcome::Accepted),
                ActionView::Finish(Outcome::Accepted),
            ),
            Event::SenderReplied(Err(_)) => (
                StageView::Finished(Outcome::Failed(Failure::NotificationError)),
                ActionView::Finish(Outcome::Failed(Failure::NotificationError)),
            ),
            Event::StoreReplied(_) => (stage, ActionView::Wait),
        },
        StageView::Finished(outcome) => (stage, ActionView::Finish(outcome)),
    }
}

/// The identifiers that are UUIDs of version 4 in the variant of RFC 4122.
pub open spec fn is_random_uuid(id: u128) -> bool {
    id & 0x0000_0000_0000_F000_C000_0000_0000_0000u128
        == 0x0000_0000_0000_4000_8000_0000_0000_0000u128
}

/// The moments that a clock set after the start of 1970 shows.
pub open spec fn is_clock_reading(at: Timestamp) -> bool {
    at.seconds >= 0 && at.nanoseconds < 1_000_000_000
}

// ---------------------------------------------------------------------------
// Calls into other crates, whose contracts are taken on trust
// ---------------------------------------------------------------------------

/// `uuid::Uuid::new_v4`, read as a number by `Uuid::as_u128`. Trusted:
/// whatever the random bits are, the version is 4 and the variant is that of
/// RFC 4122.
#[verifier::external_body]
fn fresh_identifier() -> (id: u128)
    ensures
        is_random_uuid(id),
{
    uuid::Uuid::new_v4().as_u128()
}

/// `chrono::Utc::now`, read by `DateTime::timestamp` and
/// `DateTime::timestamp_subsec_nanos`. Trusted: the seconds are not negative
/// and the nanoseconds are less than a second. On a machine whose clock is
/// set before 1970 the call panics.
#[verifier::external_body]
fn current_time() -> (now: Timestamp)
    ensures
        is_clock_reading(now),
{
    let now = chrono::Utc::now();
    Timestamp { seconds: now.timestamp(), nanoseconds: now.timestamp_subsec_nanos() }
}

// ---------------------------------------------------------------------------
// The workflow
// ---------------------------------------------------------------------------

/// The record to store for a subscriber admitted at the time `at` under the
/// identifier `id`.
pub fn new_record(id: u128, details: &SubscriberDetails, at: Timestamp) -> (record:
    SubscriptionRecord)
    ensures
        record@ == invited(id, details.name@, details.email@, at),
        valid_name(record@.name),
        valid_email(record@.email),
{
    SubscriptionRecord {
        id,
        email: details.email.as_ref().to_owned(),
        name: details.name.as_ref().to_owned(),
        subscribed_at: at,
        status: INVITED_STATUS,
    }
}

/// The welcome message for `recipient`.
pub fn welcome(recipient: SubscriberEmail) -> (notification: Notification)
    ensures
        notification@ == welcome_for(recipient@),
{
    Notification {
        recipient,
        subject: WELCOME_SUBJECT,
        html_content: WELCOME_HTML,
        text_content: WELCOME_TEXT,
    }
}

/// Starts the onboarding of subscriber `details`, with `id` and `at` for the
/// record.
pub fn enroll(details: SubscriberDetails, id: u128, at: Timestamp) -> (start: (Stage, Action))
    ensures
        (start.0@, start.1@) == enrollment(details.name@, details.email@, id, at),
{
    let record = new_record(id, &details, at);
    (Stage::Persisting { recipient: details.email }, Action::Persist(record))
}

/// Starts the onboarding of the submission `form`, with `id` and `at` for
/// the record if the submission is valid.
pub fn begin(form: SubscriptionFormData, id: u128, at: Timestamp) -> (start: (Stage, Action))
    ensures
        (start.0@, start.1@) == admission(form.name@, form.email@, id, at),
{
    match SubscriberDetails::from_submission(form) {
        Ok(details) => enroll(details, id, at),
        Err(_) => {
            let outcome = Outcome::Rejected(Rejection::InvalidInput);
            (Stage::Finished(outcome), Action::Finish(outcome))
        },
    }
}

/// Starts the onboarding of the submission `form`. A submission that is not
/// valid is rejected. A valid one gets a record with a new random identifier
/// and the time of the call, whatever the two turn out to be.
pub fn subscribe(form: SubscriptionFormData) -> (start: (Stage, Action))
    ensures
        first_failure(form.name@, form.email@) is Some ==> (start.0@, start.1@) == rejection(),
        first_failure(form.name@, form.email@) is None ==> {
            &&& start.1@ matches ActionView::Persist(record)
            &&& is_random_uuid(record.id)
            &&& is_clock_reading(record.subscribed_at)
            &&& (start.0@, start.1@) == enrollment(
                form.name@,
                form.email@,
                record.id,
                record.subscribed_at,
            )
        },
{
    match SubscriberDetails::from_submission(form) {
        Ok(details) => {
            let id = fresh_identifier();
            let at = current_time();
            enroll(details, id, at)
        },
        Err(_) => {
            let outcome = Outcome::Rejected(Rejection::InvalidInput);
            (Stage::Finished(outcome), Action::Finish(outcome))
        },
    }
}

/// Takes the onboarding one step further: from where it stands and what was
/// reported to where it stands then and what to do next.
pub fn step(stage: Stage, event: Event) -> (next: (Stage, Action))
    ensures
        (next.0@, next.1@) == transition(stage@, event),
{
    match stage {
        Stage::Persisting { recipient } => match event {
            Event::StoreReplied(Ok(_)) => (Stage::Notifying, Action::Notify(welcome(recipient))),
            Event::StoreReplied(Err(_)) => {
                let outcome = Outcome::Failed(Failure::PersistenceError);
                (Stage::Finished(outcome), Action::Finish(outcome))
            },
            Event::SenderReplied(_) => (Stage::Persisting { recipient }, Action::Wait),
        },
        Stage::Notifying => match event {
            Event::SenderReplied(Ok(_)) => {
                let outcome = Outcome::Accepted;
                (Stage::Finished(outcome), Action::Finish(outcome))
            },
            Event::SenderReplied(Err(_)) => {
                let outcome = Outcome::Failed(Failure::NotificationError);
                (Stage::Finished(outcome), Action::Finish(outcome))
            },
            Event::StoreReplied(_) => (Stage::Notifying, Action::Wait),
        },
        Stage::Finished(outcome) => (Stage::Finished(outcome), Action::Finish(outcome)),
    }
}

impl Outcome {
    /// The HTTP status that reports the outcome.
    pub open spec fn status(self) -> u16 {
        match self {
            Outcome::Accepted => 200,
            Outcome::Rejected(_) => 400,
            Outcome::Failed(_) => 500,
        }
    }

    /// The HTTP status that reports the outcome: 200 when the subscriber was
    /// accepted, 400 when the submission was not valid, 500 when storing or
    /// sending failed.
    pub fn status_code(&self) -> (code: u16)
        ensures
            code == self.status(),
    {
        match self {
            Outcome::Accepted => 200,
            Outcome::Rejected(_) => 400,
            Outcome::Failed(_) => 500,
        }
    }
}

// ---------------------------------------------------------------------------
// Laws
// ---------------------------------------------------------------------------

/// The stage reached from `stage` when `events` are reported one after
/// another.
pub open spec fn stage_after(stage: StageView, events: Seq<Event>) -> StageView
    decreases events.len(),
{
    if events.len() == 0 {
        stage
    } else {
        stage_after(transition(stage, events.first()).0, events.drop_first())
    }
}

/// The actions asked for when `events` are reported one after another from
/// `stage` on: one action for each event.
pub open spec fn actions_after(stage: StageView, events: Seq<Event>) -> Seq<ActionView>
    decreases events.len(),
{
    if events.len() == 0 {
        Seq::empty()
    } else {
        seq![transition(stage, events.first()).1] + actions_after(
            transition(stage, events.first()).0,
            events.drop_first(),
        )
    }
}

/// How the onboarding of a valid submission ends, given the answers of the
/// datastore and of the email sender.
pub open spec fn outcome_of(stored: Result<(), StoreError>, sent: Result<(), SendError>) -> Outcome {
    if stored is Err {
        Outcome::Failed(Failure::PersistenceError)
    } else if sent is Err {
        Outcome::Failed(Failure::NotificationError)
    } else {
        Outcome::Accepted
    }
}

/// Each event is answered by exactly one action: the first by the action of
/// the first step, the others by the actions of the run that goes on from
/// there.
pub proof fn lemma_actions_follow_events(stage: StageView, events: Seq<Event>, i: int)
    requires
        0 <= i < events.len(),
    ensures
        actions_after(stage, events).len() == events.len(),
        i == 0 ==> actions_after(stage, events)[i] == transition(stage, events[0]).1,
        i > 0 ==> actions_after(stage, events)[i] == actions_after(
            transition(stage, events[0]).0,
            events.drop_first(),
        )[i - 1],
    decreases events.len(),
{
    let next = transition(stage, events[0]).0;
    let rest = events.drop_first();
    if rest.len() > 0 {
        lemma_actions_follow_events(next, rest, 0);
    } else {
        assert(actions_after(next, rest).len() == 0);
    }
}

/// Once the onboarding has finished, it stays finished with the same
/// outcome, and every further event is answered by that outcome: nothing is
/// stored and nothing is sent any more. So a rejected submission is never
/// stored and its sender is never written to.
pub proof fn lemma_finished_stays_finished(outcome: Outcome, events: Seq<Event>, i: int)
    requires
        0 <= i < events.len(),
    ensures
        stage_after(StageView::Finished(outcome), events) == StageView::Finished(outcome),
        actions_after(StageView::Finished(outcome), events)[i] == ActionView::Finish(outcome),
    decreases events.len(),
{
    let stage = StageView::Finished(outcome);
    let rest = events.drop_first();
    lemma_actions_follow_events(stage, events, i);
    if rest.len() > 0 {
        lemma_finished_stays_finished(outcome, rest, if i > 0 { i - 1 } else { 0 });
    }
}

/// After it has started, the workflow never asks to store a record: the
/// record of a submission is handed out once, at the start.
pub proof fn lemma_record_is_stored_at_most_once(stage: StageView, events: Seq<Event>, i: int)
    requires
        0 <= i < events.len(),
    ensures
        !(actions_after(stage, events)[i] is Persist),
    decreases events.len(),
{
    lemma_actions_follow_events(stage, events, i);
    if i > 0 {
        lemma_record_is_stored_at_most_once(
            transition(stage, events[0]).0,
            events.drop_first(),
            i - 1,
        );
    }
}

/// Once the datastore has answered, the workflow never asks to send a
/// message.
proof fn lemma_no_message_after_the_store_answered(stage: StageView, events: Seq<Event>, i: int)
    requires
        !(stage is Persisting),
        0 <= i < events.len(),
    ensures
        !(actions_after(stage, events)[i] is Notify),
    decreases events.len(),
{
    lemma_actions_follow_events(stage, events, i);
    if i > 0 {
        lemma_no_message_after_the_store_answered(
            transition(stage, events[0]).0,
            events.drop_first(),
            i - 1,
        );
    }
}

/// The workflow asks to send a message only in answer to the report that the
/// record was stored, and only while it awaits that report.
pub proof fn lemma_message_follows_stored_record(stage: StageView, events: Seq<Event>, i: int)
    requires
        0 <= i < events.len(),
        actions_after(stage, events)[i] is Notify,
    ensures
        stage is Persisting,
        events[i] matches Event::StoreReplied(Ok(_)),
        actions_after(stage, events)[i] == ActionView::Notify(welcome_for(stage->recipient)),
        forall|k: int| 0 <= k < i ==> #[trigger] events[k] is SenderReplied,
    decreases events.len(),
{
    lemma_actions_follow_events(stage, events, i);
    if !(stage is Persisting) {
        lemma_no_message_after_the_store_answered(stage, events, i);
    }
    if i > 0 {
        let next = transition(stage, events[0]).0;
        let rest = events.drop_first();
        if !(next is Persisting) {
            lemma_no_message_after_the_store_answered(next, rest, i - 1);
        }
        lemma_message_follows_stored_record(next, rest, i - 1);
        assert forall|k: int| 0 <= k < i implies #[trigger] events[k] is SenderReplied by {
            if k > 0 {
                assert(events[k] == rest[k - 1]);
            }
        }
    }
}

/// The workflow asks to send a message at most once.
pub proof fn lemma_message_is_sent_at_most_once(
    stage: StageView,
    events: Seq<Event>,
    i: int,
    j: int,
)
    requires
        0 <= i < j < events.len(),
        actions_after(stage, events)[i] is Notify,
    ensures
        !(actions_after(stage, events)[j] is Notify),
    decreases events.len(),
{
    let next = transition(stage, events[0]).0;
    let rest = events.drop_first();
    lemma_actions_follow_events(stage, events, i);
    lemma_actions_follow_events(stage, events, j);
    if i == 0 {
        lemma_no_message_after_the_store_answered(next, rest, j - 1);
    } else {
        lemma_message_is_sent_at_most_once(next, rest, i - 1, j - 1);
    }
}

/// When the datastore fails, the onboarding ends as failed for want of
/// persistence, whatever is reported afterwards, and no message is asked
/// for.
pub proof fn lemma_failed_store_ends_the_workflow(
    recipient: Seq<char>,
    error: StoreError,
    later: Seq<Event>,
    i: int,
)
    requires
        0 <= i <= later.len(),
    ensures
        stage_after(
            StageView::Persisting { recipient },
            seq![Event::StoreReplied(Err(error))] + later,
        ) == StageView::Finished(Outcome::Failed(Failure::PersistenceError)),
        actions_after(
            StageView::Persisting { recipient },
            seq![Event::StoreReplied(Err(error))] + later,
        )[i] == ActionView::Finish(Outcome::Failed(Failure::PersistenceError)),
{
    let stage = StageView::Persisting { recipient };
    let events = seq![Event::StoreReplied(Err(error))] + later;
    let outcome = Outcome::Failed(Failure::PersistenceError);
    assert(events.drop_first() =~= later);
    lemma_actions_follow_events(stage, events, i);
    if later.len() > 0 {
        lemma_finished_stays_finished(outcome, later, if i > 0 { i - 1 } else { 0 });
    }
}

/// The onboarding of a valid submission, told the answer of the datastore
/// and then that of the email sender, ends with the outcome that the two
/// answers call for: failed for want of persistence when the record was not
/// stored, failed for want of notification when it was stored and the
/// message was not sent, accepted when both succeeded.
pub proof fn lemma_outcome_follows_the_answers(
    recipient: Seq<char>,
    stored: Result<(), StoreError>,
    sent: Result<(), SendError>,
)
    ensures
        stage_after(
            StageView::Persisting { recipient },
            seq![Event::StoreReplied(stored), Event::SenderReplied(sent)],
        ) == StageView::Finished(outcome_of(stored, sent)),
{
    let stage = StageView::Persisting { recipient };
    let events = seq![Event::StoreReplied(stored), Event::SenderReplied(sent)];
    let second = events.drop_first();
    assert(second =~= seq![Event::SenderReplied(sent)]);
    assert(second.drop_first() =~= Seq::<Event>::empty());
    let middle = transition(stage, events.first()).0;
    assert(stage_after(stage, events) == stage_after(middle, second));
    let last = transition(middle, second.first()).0;
    assert(stage_after(middle, second) == stage_after(last, second.drop_first()));
    assert(stage_after(last, second.drop_first()) == last);
}

/// What became of the request to the provider decides how the onboarding
/// ends once the record is stored: an answer with a status from 200 to 299
/// ends it as accepted; any other answer, and no answer in time, end it as
/// failed for want of notification.
pub proof fn lemma_delivery_decides_the_outcome(delivery: Delivery)
    ensures
        transition(StageView::Notifying, Event::SenderReplied(send_result(delivery))).0
            == StageView::Finished(
            match delivery {
                Delivery::Responded(status) if 200 <= status <= 299 => Outcome::Accepted,
                _ => Outcome::Failed(Failure::NotificationError),
            },
        ),
{
}

} // verus!
