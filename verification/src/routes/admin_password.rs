//! The admin's password change: the page with the form, and the decisions
//! taken when the form is posted.
//!
//! Posting the form takes three round trips to the account store (look up
//! the user's name, check the current password, store the new one). The
//! decisions between them are a state machine: `change_password` takes the
//! stage reached so far and the outcome of the last piece of outside work,
//! and says what to do next and which stage that leads to. The caller
//! performs each action and feeds its outcome back, until the action is a
//! reply to the browser.

use vstd::prelude::*;

use crate::authentication::AuthError;

verus! {

// ---------------------------------------------------------------------------
// Texts of the flow
// ---------------------------------------------------------------------------

/// The page every answer of the flow sends the browser back to.
pub open spec fn password_page_path() -> Seq<char> {
    "/admin/password"@
}

/// Notice shown when the two copies of the new password differ.
pub open spec fn mismatch_notice() -> Seq<char> {
    "You entered two different new passwords - the field values must match."@
}

/// Notice shown when the current password is not accepted.
pub open spec fn wrong_password_notice() -> Seq<char> {
    "The current password is incorrect."@
}

/// Notice shown once the new password is stored.
pub open spec fn changed_notice() -> Seq<char> {
    "Your password has been changed."@
}

// ---------------------------------------------------------------------------
// Stages, events, actions
// ---------------------------------------------------------------------------

/// How far the handling of one posted form has got, with what the later
/// steps still need from the form.
#[derive(Debug)]
pub enum ChangePasswordStage {
    /// Nothing has happened yet: the form is expected.
    AwaitingForm,
    /// The name of user `user_id` was asked of the account store; the
    /// current password and the new one (typed twice alike) are kept.
    AwaitingUsername { user_id: u128, current_password: String, new_password: String },
    /// The current password was handed to the credential check; the user
    /// and the new password are kept.
    AwaitingValidation { user_id: u128, new_password: String },
    /// The new password was handed to the account store.
    AwaitingUpdate,
    /// The browser has been answered.
    Finished,
}

/// Mathematical model of a stage.
pub enum StageModel {
    AwaitingForm,
    AwaitingUsername { user_id: u128, current_password: Seq<char>, new_password: Seq<char> },
    AwaitingValidation { user_id: u128, new_password: Seq<char> },
    AwaitingUpdate,
    Finished,
}

impl View for ChangePasswordStage {
    type V = StageModel;

    open spec fn view(&self) -> StageModel {
        match self {
            ChangePasswordStage::AwaitingForm => StageModel::AwaitingForm,
            ChangePasswordStage::AwaitingUsername { user_id, current_password, new_password } =>
                StageModel::AwaitingUsername {
                user_id: *user_id,
                current_password: current_password@,
                new_password: new_password@,
            },
            ChangePasswordStage::AwaitingValidation { user_id, new_password } =>
                StageModel::AwaitingValidation { user_id: *user_id, new_password: new_password@ },
            ChangePasswordStage::AwaitingUpdate => StageModel::AwaitingUpdate,
            ChangePasswordStage::Finished => StageModel::Finished,
        }
    }
}

/// What the browser is answered.
#[derive(Debug)]
pub enum ChangePasswordReply {
    /// `303 See Other` to `location`, with `error_flash` queued as a flash
    /// message of level error.
    SeeOther { location: String, error_flash: String },
    /// `500 Internal Server Error`.
    InternalServerError,
}

/// Mathematical model of a reply.
pub enum ReplyModel {
    SeeOther { location: Seq<char>, error_flash: Seq<char> },
    InternalServerError,
}

impl View for ChangePasswordReply {
    type V = ReplyModel;

    open spec fn view(&self) -> ReplyModel {
        match self {
            ChangePasswordReply::SeeOther { location, error_flash } => ReplyModel::SeeOther {
                location: location@,
                error_flash: error_flash@,
            },
            ChangePasswordReply::InternalServerError => ReplyModel::InternalServerError,
        }
    }
}

/// Outcome of a piece of outside work, handed to the state machine.
#[derive(Debug)]
pub enum ChangePasswordEvent {
    /// The form arrived from the logged-in user `user_id`, with the current
    /// password and the two copies of the new password.
    FormSubmitted {
        user_id: u128,
        current_password: String,
        new_password: String,
        new_password_check: String,
    },
    /// The account store answered the name lookup: the name, or `None`
    /// when the lookup failed.
    UsernameFetched(Option<String>),
    /// The credential check answered.
    CredentialsChecked(Result<(), AuthError>),
    /// The account store answered the update: `true` when it was stored.
    PasswordUpdated(bool),
}

/// Mathematical model of an event.
pub enum EventModel {
    FormSubmitted {
        user_id: u128,
        current_password: Seq<char>,
        new_password: Seq<char>,
        new_password_check: Seq<char>,
    },
    UsernameFetched(Option<Seq<char>>),
    CredentialsChecked(Result<(), AuthError>),
    PasswordUpdated(bool),
}

impl View for ChangePasswordEvent {
    type V = EventModel;

    open spec fn view(&self) -> EventModel {
        match self {
            ChangePasswordEvent::FormSubmitted {
                user_id,
                current_password,
                new_password,
                new_password_check,
            } => EventModel::FormSubmitted {
                user_id: *user_id,
                current_password: current_password@,
                new_password: new_password@,
                new_password_check: new_password_check@,
            },
            ChangePasswordEvent::UsernameFetched(name) => EventModel::UsernameFetched(
                match name {
                    Some(n) => Some(n@),
                    None => None,
                },
            ),
            ChangePasswordEvent::CredentialsChecked(outcome) => EventModel::CredentialsChecked(
                *outcome,
            ),
            ChangePasswordEvent::PasswordUpdated(stored) => EventModel::PasswordUpdated(*stored),
        }
    }
}

/// What the caller is to do next.
#[derive(Debug)]
pub enum ChangePasswordAction {
    /// Look up the name of user `user_id`.
    FetchUsername { user_id: u128 },
    /// Check `password` as the password of the account named `username`.
    ValidateCredentials { username: String, password: String },
    /// Store `new_password` as the password of user `user_id`.
    UpdatePassword { user_id: u128, new_password: String },
    /// Answer the browser; nothing more is to be done.
    Respond(ChangePasswordReply),
}

/// Mathematical model of an action.
pub enum ActionModel {
    FetchUsername { user_id: u128 },
    ValidateCredentials { username: Seq<char>, password: Seq<char> },
    UpdatePassword { user_id: u128, new_password: Seq<char> },
    Respond(ReplyModel),
}

impl View for ChangePasswordAction {
    type V = ActionModel;

    open spec fn view(&self) -> ActionModel {
        match self {
            ChangePasswordAction::FetchUsername { user_id } => ActionModel::FetchUsername {
                user_id: *user_id,
            },
            ChangePasswordAction::ValidateCredentials { username, password } =>
                ActionModel::ValidateCredentials { username: username@, password: password@ },
            ChangePasswordAction::UpdatePassword { user_id, new_password } =>
                ActionModel::UpdatePassword { user_id: *user_id, new_password: new_password@ },
            ChangePasswordAction::Respond(reply) => ActionModel::Respond(reply@),
        }
    }
}

// ---------------------------------------------------------------------------
// The rules
// ---------------------------------------------------------------------------

/// The stage waits for exactly this kind of event.
pub open spec fn accepts(stage: StageModel, event: EventModel) -> bool {
    match stage {
        StageModel::AwaitingForm => event is FormSubmitted,
        StageModel::AwaitingUsername { .. } => event is UsernameFetched,
        StageModel::AwaitingValidation { .. } => event is CredentialsChecked,
        StageModel::AwaitingUpdate => event is PasswordUpdated,
        StageModel::Finished => false,
    }
}

/// Redirect back to the password page with a notice.
pub open spec fn back_to_form(notice: Seq<char>) -> ActionModel {
    ActionModel::Respond(ReplyModel::SeeOther { location: password_page_path(), error_flash: notice })
}

/// The answer when outside work failed.
pub open spec fn internal_error() -> ActionModel {
    ActionModel::Respond(ReplyModel::InternalServerError)
}

/// The transition taken on an accepted event: the next stage and the action.
/// (A pair the stage does not accept ends the flow with an internal error.)
pub open spec fn step(stage: StageModel, event: EventModel) -> (StageModel, ActionModel) {
    match (stage, event) {
        (
            StageModel::AwaitingForm,
            EventModel::FormSubmitted { user_id, current_password, new_password, new_password_check },
        ) => {
            if new_password == new_password_check {
                (
                    StageModel::AwaitingUsername { user_id, current_password, new_password },
                    ActionModel::FetchUsername { user_id },
                )
            } else {
                (StageModel::Finished, back_to_form(mismatch_notice()))
            }
        },
        (
            StageModel::AwaitingUsername { user_id, current_password, new_password },
            EventModel::UsernameFetched(Some(username)),
        ) => (
            StageModel::AwaitingValidation { user_id, new_password },
            ActionModel::ValidateCredentials { username, password: current_password },
        ),
        (StageModel::AwaitingUsername { .. }, EventModel::UsernameFetched(None)) => (
            StageModel::Finished,
            internal_error(),
        ),
        (
            StageModel::AwaitingValidation { user_id, new_password },
            EventModel::CredentialsChecked(Ok(())),
        ) => (StageModel::AwaitingUpdate, ActionModel::UpdatePassword { user_id, new_password }),
        (
            StageModel::AwaitingValidation { .. },
            EventModel::CredentialsChecked(Err(AuthError::InvalidCredentials)),
        ) => (StageModel::Finished, back_to_form(wrong_password_notice())),
        (
            StageModel::AwaitingValidation { .. },
            EventModel::CredentialsChecked(Err(AuthError::UnexpectedError)),
        ) => (StageModel::Finished, internal_error()),
        (StageModel::AwaitingUpdate, EventModel::PasswordUpdated(stored)) => if stored {
            (StageModel::Finished, back_to_form(changed_notice()))
        } else {
            (StageModel::Finished, internal_error())
        },
        _ => (StageModel::Finished, internal_error()),
    }
}

// ---------------------------------------------------------------------------
// Whole runs of the flow
// ---------------------------------------------------------------------------

/// The stage reached and the actions taken when `events` are handled one
/// after the other, starting at `stage`.
pub open spec fn run_flow(stage: StageModel, events: Seq<EventModel>) -> (
    StageModel,
    Seq<ActionModel>,
)
    decreases events.len(),
{
    if events.len() == 0 {
        (stage, Seq::empty())
    } else {
        let (next, action) = step(stage, events[0]);
        let (last, rest) = run_flow(next, events.drop_first());
        (last, seq![action] + rest)
    }
}

/// Each event of `events` is the one the flow waits for when it arrives.
pub open spec fn accepted_trace(stage: StageModel, events: Seq<EventModel>) -> bool
    decreases events.len(),
{
    events.len() == 0 || (accepts(stage, events[0]) && accepted_trace(
        step(stage, events[0]).0,
        events.drop_first(),
    ))
}

/// The most decisions still to come from a stage.
pub open spec fn rounds_left(stage: StageModel) -> nat {
    match stage {
        StageModel::AwaitingForm => 4,
        StageModel::AwaitingUsername { .. } => 3,
        StageModel::AwaitingValidation { .. } => 2,
        StageModel::AwaitingUpdate => 1,
        StageModel::Finished => 0,
    }
}

/// Every stage but the last waits for something: the flow never gets stuck
/// before the browser is answered.
pub proof fn lemma_waiting_until_finished(stage: StageModel)
    ensures
        !(stage is Finished) <==> exists|e: EventModel| accepts(stage, e),
{
    let e = match stage {
        StageModel::AwaitingForm => EventModel::FormSubmitted {
            user_id: 0,
            current_password: Seq::empty(),
            new_password: Seq::empty(),
            new_password_check: Seq::empty(),
        },
        StageModel::AwaitingUsername { .. } => EventModel::UsernameFetched(None),
        StageModel::AwaitingValidation { .. } => EventModel::CredentialsChecked(Ok(())),
        _ => EventModel::PasswordUpdated(true),
    };
    if !(stage is Finished) {
        assert(accepts(stage, e));
    }
}

/// A transition answers the browser exactly when it leads to the last stage.
proof fn lemma_reply_ends(stage: StageModel, event: EventModel)
    ensures
        step(stage, event).1 is Respond <==> step(stage, event).0 is Finished,
{
}

/// Handling a posted form takes at most as many decisions as the stage has
/// rounds left: four from the start (form, name lookup, credential check,
/// update).
pub proof fn lemma_run_is_bounded(stage: StageModel, events: Seq<EventModel>)
    requires
        accepted_trace(stage, events),
    ensures
        events.len() <= rounds_left(stage),
    decreases events.len(),
{
    if events.len() > 0 {
        lemma_run_is_bounded(step(stage, events[0]).0, events.drop_first());
    }
}

/// Every handled event leads to exactly one action, the browser is answered
/// at most once, and only by the last action, and the flow is over exactly
/// when that answer has been given.
pub proof fn lemma_answered_once(stage: StageModel, events: Seq<EventModel>)
    requires
        accepted_trace(stage, events),
    ensures
        run_flow(stage, events).1.len() == events.len(),
        forall|i: int|
            0 <= i < events.len() - 1 ==> !(#[trigger] run_flow(stage, events).1[i] is Respond),
        events.len() == 0 ==> run_flow(stage, events).0 == stage,
        events.len() > 0 ==> (run_flow(stage, events).0 is Finished
            <==> run_flow(stage, events).1.last() is Respond),
    decreases events.len(),
{
    if events.len() > 0 {
        let next = step(stage, events[0]).0;
        let rest = events.drop_first();
        lemma_answered_once(next, rest);
        let actions = run_flow(stage, events).1;
        let tail = run_flow(next, rest).1;
        assert(actions == seq![step(stage, events[0]).1] + tail);
        lemma_reply_ends(stage, events[0]);
        if rest.len() == 0 {
            assert(actions.last() == step(stage, events[0]).1);
        } else {
            assert(actions.last() == tail.last());
            // a reply leads to the last stage, which accepts nothing more
            assert(accepted_trace(next, rest));
            assert(!(next is Finished));
        }
        assert forall|i: int| 0 <= i < events.len() - 1 implies !(#[trigger] actions[i] is Respond) by {
            if i > 0 {
                assert(actions[i] == tail[i - 1]);
            }
        }
    }
}

/// One more level of `run_flow` and `accepted_trace`, spelled out.
proof fn lemma_unfold_run(stage: StageModel, events: Seq<EventModel>)
    requires
        events.len() > 0,
    ensures
        run_flow(stage, events).1 == seq![step(stage, events[0]).1] + run_flow(
            step(stage, events[0]).0,
            events.drop_first(),
        ).1,
        accepted_trace(stage, events) ==> accepts(stage, events[0]) && accepted_trace(
            step(stage, events[0]).0,
            events.drop_first(),
        ),
{
}

/// Only the account of the user who posted the form is touched, and only as
/// the form asks:
/// - the name looked up is that of the user who posted the form;
/// - the password checked is the current password from the form, against
///   the name the account store gave for that user, and only once the two
///   copies of the new password agreed;
/// - the password stored is the new password from the form, for the user who
///   posted it, and only once its two copies agreed and the credential check
///   accepted the current password.
pub proof fn lemma_update_only_after_checks(events: Seq<EventModel>, i: int)
    requires
        accepted_trace(StageModel::AwaitingForm, events),
        0 <= i < events.len(),
    ensures
        run_flow(StageModel::AwaitingForm, events).1[i] matches ActionModel::FetchUsername {
            user_id,
        } ==> {
            &&& i == 0
            &&& events[0] matches EventModel::FormSubmitted { user_id: u, .. } && u == user_id
        },
        run_flow(StageModel::AwaitingForm, events).1[i] matches ActionModel::ValidateCredentials {
            username,
            password,
        } ==> {
            &&& i == 1
            &&& (events[0] matches EventModel::FormSubmitted {
                current_password,
                new_password,
                new_password_check,
                ..
            } && current_password == password && new_password == new_password_check)
            &&& events[1] == EventModel::UsernameFetched(Some(username))
        },
        run_flow(StageModel::AwaitingForm, events).1[i] matches ActionModel::UpdatePassword {
            user_id,
            new_password,
        } ==> {
            &&& i == 2
            &&& (events[0] matches EventModel::FormSubmitted {
                user_id: u,
                new_password: n,
                new_password_check: c,
                ..
            } && u == user_id && n == new_password && c == new_password)
            &&& events[1] matches EventModel::UsernameFetched(Some(_))
            &&& events[2] matches EventModel::CredentialsChecked(Ok(_))
        },
{
    let s0 = StageModel::AwaitingForm;
    let acts = run_flow(s0, events).1;
    lemma_run_is_bounded(s0, events);
    lemma_unfold_run(s0, events);
    let s1 = step(s0, events[0]).0;
    let r1 = events.drop_first();
    assert(acts[0] == step(s0, events[0]).1);
    if r1.len() > 0 {
        lemma_unfold_run(s1, r1);
        let s2 = step(s1, r1[0]).0;
        let r2 = r1.drop_first();
        assert(r1[0] == events[1]);
        assert(acts[1] == step(s1, events[1]).1);
        if r2.len() > 0 {
            lemma_unfold_run(s2, r2);
            let s3 = step(s2, r2[0]).0;
            let r3 = r2.drop_first();
            assert(r2[0] == events[2]);
            assert(acts[2] == step(s2, events[2]).1);
            if r3.len() > 0 {
                lemma_unfold_run(s3, r3);
                assert(r3[0] == events[3]);
                assert(acts[3] == step(s3, events[3]).1);
            }
        }
    }
}

/// Every redirect of the flow leads back to the password page.
pub proof fn lemma_redirects_to_password_page(stage: StageModel, events: Seq<EventModel>, i: int)
    requires
        0 <= i < run_flow(stage, events).1.len(),
        run_flow(stage, events).1[i] matches ActionModel::Respond(ReplyModel::SeeOther { .. }),
    ensures
        run_flow(stage, events).1[i] matches ActionModel::Respond(
            ReplyModel::SeeOther { location, .. },
        ) && location == password_page_path(),
    decreases events.len(),
{
    let next = step(stage, events[0]).0;
    let tail = run_flow(next, events.drop_first()).1;
    assert(run_flow(stage, events).1 == seq![step(stage, events[0]).1] + tail);
    if i > 0 {
        assert(run_flow(stage, events).1[i] == tail[i - 1]);
        lemma_redirects_to_password_page(next, events.drop_first(), i - 1);
    }
}

// ---------------------------------------------------------------------------
// What each decision does, case by case
// ---------------------------------------------------------------------------

/// The starting stage takes every posted form, whatever its fields. When the
/// two copies of the new password are the same, the flow goes on to look up
/// the name of the user who posted the form, keeping the current password
/// and the new one; when they differ, and only then, it answers at once with
/// a redirect to the password page carrying the mismatch notice.
pub proof fn lemma_form_decision(
    user_id: u128,
    current_password: Seq<char>,
    new_password: Seq<char>,
    new_password_check: Seq<char>,
)
    ensures
        ({
            let form = EventModel::FormSubmitted {
                user_id,
                current_password,
                new_password,
                new_password_check,
            };
            &&& accepts(StageModel::AwaitingForm, form)
            &&& new_password == new_password_check ==> step(StageModel::AwaitingForm, form) == (
                StageModel::AwaitingUsername { user_id, current_password, new_password },
                ActionModel::FetchUsername { user_id },
            )
            &&& new_password != new_password_check ==> step(StageModel::AwaitingForm, form) == (
                StageModel::Finished,
                ActionModel::Respond(
                    ReplyModel::SeeOther {
                        location: "/admin/password"@,
                        error_flash: "You entered two different new passwords - the field values must match."@,
                    },
                ),
            )
        }),
{
}

/// After the name lookup: with the user's name, the current password from
/// the form is checked against that name; without it, the answer is an
/// internal error.
pub proof fn lemma_lookup_decision(
    user_id: u128,
    current_password: Seq<char>,
    new_password: Seq<char>,
    username: Seq<char>,
)
    ensures
        ({
            let stage = StageModel::AwaitingUsername { user_id, current_password, new_password };
            &&& accepts(stage, EventModel::UsernameFetched(Some(username)))
            &&& accepts(stage, EventModel::UsernameFetched(None))
            &&& step(stage, EventModel::UsernameFetched(Some(username))) == (
                StageModel::AwaitingValidation { user_id, new_password },
                ActionModel::ValidateCredentials { username, password: current_password },
            )
            &&& step(stage, EventModel::UsernameFetched(None)) == (
                StageModel::Finished,
                ActionModel::Respond(ReplyModel::InternalServerError),
            )
        }),
{
}

/// After the credential check: an accepted current password always leads to
/// storing the new password for the user who posted the form, whatever the
/// user and the password; a refused one to a redirect with the wrong
/// password notice; a failed check to an internal error.
pub proof fn lemma_check_decision(user_id: u128, new_password: Seq<char>)
    ensures
        ({
            let stage = StageModel::AwaitingValidation { user_id, new_password };
            &&& accepts(stage, EventModel::CredentialsChecked(Ok(())))
            &&& accepts(stage, EventModel::CredentialsChecked(Err(AuthError::InvalidCredentials)))
            &&& accepts(stage, EventModel::CredentialsChecked(Err(AuthError::UnexpectedError)))
            &&& step(stage, EventModel::CredentialsChecked(Ok(()))) == (
                StageModel::AwaitingUpdate,
                ActionModel::UpdatePassword { user_id, new_password },
            )
            &&& step(stage, EventModel::CredentialsChecked(Err(AuthError::InvalidCredentials))) == (
                StageModel::Finished,
                ActionModel::Respond(
                    ReplyModel::SeeOther {
                        location: "/admin/password"@,
                        error_flash: "The current password is incorrect."@,
                    },
                ),
            )
            &&& step(stage, EventModel::CredentialsChecked(Err(AuthError::UnexpectedError))) == (
                StageModel::Finished,
                ActionModel::Respond(ReplyModel::InternalServerError),
            )
        }),
{
}

/// After the update: a stored password is confirmed by a redirect with the
/// changed notice; a failed update is an internal error.
pub proof fn lemma_update_decision()
    ensures
        accepts(StageModel::AwaitingUpdate, EventModel::PasswordUpdated(true)),
        accepts(StageModel::AwaitingUpdate, EventModel::PasswordUpdated(false)),
        step(StageModel::AwaitingUpdate, EventModel::PasswordUpdated(true)) == (
            StageModel::Finished,
            ActionModel::Respond(
                ReplyModel::SeeOther {
                    location: "/admin/password"@,
                    error_flash: "Your password has been changed."@,
                },
            ),
        ),
        step(StageModel::AwaitingUpdate, EventModel::PasswordUpdated(false)) == (
            StageModel::Finished,
            ActionModel::Respond(ReplyModel::InternalServerError),
        ),
{
}

impl ChangePasswordStage {
    /// Whether this stage waits for `event`.
    pub fn accepts(&self, event: &ChangePasswordEvent) -> (r: bool)
        ensures
            r == accepts(self@, event@),
    {
        match self {
            ChangePasswordStage::AwaitingForm => matches!(event, ChangePasswordEvent::FormSubmitted { .. }),
            ChangePasswordStage::AwaitingUsername { .. } => matches!(event, ChangePasswordEvent::UsernameFetched(_)),
            ChangePasswordStage::AwaitingValidation { .. } => matches!(event, ChangePasswordEvent::CredentialsChecked(_)),
            ChangePasswordStage::AwaitingUpdate => matches!(event, ChangePasswordEvent::PasswordUpdated(_)),
            ChangePasswordStage::Finished => false,
        }
    }

    /// Whether the browser has been answered.
    pub fn is_finished(&self) -> (r: bool)
        ensures
            r == (self@ is Finished),
    {
        matches!(self, ChangePasswordStage::Finished)
    }
}

fn redirect_back(notice: &str) -> (action: ChangePasswordAction)
    ensures
        action@ == back_to_form(notice@),
{
    ChangePasswordAction::Respond(
        ChangePasswordReply::SeeOther {
            location: "/admin/password".to_owned(),
            error_flash: notice.to_owned(),
        },
    )
}

fn fail() -> (action: ChangePasswordAction)
    ensures
        action@ == internal_error(),
{
    ChangePasswordAction::Respond(ChangePasswordReply::InternalServerError)
}

/// One decision of the password change flow: from the stage reached and the
/// outcome of the last outside work, the next stage and what to do.
pub fn change_password(stage: ChangePasswordStage, event: ChangePasswordEvent) -> (next: (
    ChangePasswordStage,
    ChangePasswordAction,
))
    requires
        accepts(stage@, event@),
    ensures
        (next.0@, next.1@) == step(stage@, event@),
{
    match (stage, event) {
        (
            ChangePasswordStage::AwaitingForm,
            ChangePasswordEvent::FormSubmitted {
                user_id,
                current_password,
                new_password,
                new_password_check,
            },
        ) => {
            if new_password == new_password_check {
                (
                    ChangePasswordStage::AwaitingUsername { user_id, current_password, new_password },
                    ChangePasswordAction::FetchUsername { user_id },
                )
            } else {
                (
                    ChangePasswordStage::Finished,
                    redirect_back(
                        "You entered two different new passwords - the field values must match.",
                    ),
                )
            }
        },
        (
            ChangePasswordStage::AwaitingUsername { user_id, current_password, new_password },
            ChangePasswordEvent::UsernameFetched(Some(username)),
        ) => (
            ChangePasswordStage::AwaitingValidation { user_id, new_password },
            ChangePasswordAction::ValidateCredentials { username, password: current_password },
        ),
        (
            ChangePasswordStage::AwaitingValidation { user_id, new_password },
            ChangePasswordEvent::CredentialsChecked(Ok(())),
        ) => (
            ChangePasswordStage::AwaitingUpdate,
            ChangePasswordAction::UpdatePassword { user_id, new_password },
        ),
        (
            ChangePasswordStage::AwaitingValidation { .. },
            ChangePasswordEvent::CredentialsChecked(Err(AuthError::InvalidCredentials)),
        ) => (ChangePasswordStage::Finished, redirect_back("The current password is incorrect.")),
        (ChangePasswordStage::AwaitingUpdate, ChangePasswordEvent::PasswordUpdated(true)) => (
            ChangePasswordStage::Finished,
            redirect_back("Your password has been changed."),
        ),
        // a failed name lookup, a failed credential check or a failed update
        (_, _) => (ChangePasswordStage::Finished, fail()),
    }
}

// ---------------------------------------------------------------------------
// The page with the form
// ---------------------------------------------------------------------------

/// The page up to the place of the notices.
pub const FORM_PAGE_HEAD: &'static str = "<!DOCTYPE html>\n<html lang=\"en\">\n<head>\n<meta http-equiv=\"content-type\" content=\"text/html; charset=utf-8\">\n<title>Change Password</title>\n</head>\n<body>\n";

/// The page after the notices: the form itself and the way back.
pub const FORM_PAGE_TAIL: &'static str = "\n<form action=\"/admin/password\" method=\"post\">\n<label>Current password\n<input\ntype=\"password\"\nplaceholder=\"Enter current password\"\nname=\"current_password\"\n>\n</label>\n<br>\n<label>New password\n<input\ntype=\"password\"\nplaceholder=\"Enter new password\"\nname=\"new_password\"\n>\n</label>\n<br>\n<label>Confirm new password\n<input\ntype=\"password\"\nplaceholder=\"Type the new password again\"\nname=\"new_password_check\"\n>\n</label>\n<br>\n<button type=\"submit\">Change password</button>\n</form>\n<p><a href=\"/admin/dashboard\">&lt;- Back</a></p>\n</body>\n</html>";

/// One notice as shown on the page, as it is (no escaping).
pub open spec fn notice_html(notice: Seq<char>) -> Seq<char> {
    "<p><i>"@ + notice + "</i></p>"@
}

/// The notices as shown on the page, one after the other, in order.
pub open spec fn notices_html(notices: Seq<String>) -> Seq<char>
    decreases notices.len(),
{
    if notices.len() == 0 {
        Seq::empty()
    } else {
        notices_html(notices.drop_last()) + notice_html(notices.last()@)
    }
}

/// The whole password change page showing `notices`.
pub open spec fn change_password_page(notices: Seq<String>) -> Seq<char> {
    FORM_PAGE_HEAD@ + notices_html(notices) + FORM_PAGE_TAIL@
}

/// The page always begins with the fixed head and ends with the fixed tail,
/// so the form is always there, whatever notices are pending.
pub proof fn lemma_form_page_frame(notices: Seq<String>)
    ensures
        ({
            let page = change_password_page(notices);
            &&& page.len() >= FORM_PAGE_HEAD@.len() + FORM_PAGE_TAIL@.len()
            &&& page.take(FORM_PAGE_HEAD@.len() as int) == FORM_PAGE_HEAD@
            &&& page.skip(page.len() - FORM_PAGE_TAIL@.len()) == FORM_PAGE_TAIL@
        }),
{
    let page = change_password_page(notices);
    let mid = notices_html(notices);
    assert(page == FORM_PAGE_HEAD@ + mid + FORM_PAGE_TAIL@);
    assert(page.take(FORM_PAGE_HEAD@.len() as int) =~= FORM_PAGE_HEAD@);
    assert(page.skip(page.len() - FORM_PAGE_TAIL@.len()) =~= FORM_PAGE_TAIL@);
}

/// Without notices the page is the head followed by the tail; one more
/// notice `m` adds exactly `<p><i>`, the whole of `m`, and `</i></p>` right
/// before the tail, after the notices already shown.
pub proof fn lemma_form_page_notices(notices: Seq<String>, m: String)
    ensures
        change_password_page(Seq::empty()) == FORM_PAGE_HEAD@ + FORM_PAGE_TAIL@,
        ({
            let before = change_password_page(notices);
            let after = change_password_page(notices.push(m));
            after == before.take(before.len() - FORM_PAGE_TAIL@.len()) + "<p><i>"@ + m@
                + "</i></p>"@ + FORM_PAGE_TAIL@
        }),
{
    assert(change_password_page(Seq::empty()) =~= FORM_PAGE_HEAD@ + FORM_PAGE_TAIL@);
    let pushed = notices.push(m);
    assert(pushed.drop_last() =~= notices);
    assert(pushed.last() == m);
    let before = change_password_page(notices);
    let mid = notices_html(notices);
    assert(before == FORM_PAGE_HEAD@ + mid + FORM_PAGE_TAIL@);
    assert(before.take(before.len() - FORM_PAGE_TAIL@.len()) =~= FORM_PAGE_HEAD@ + mid);
    assert(change_password_page(pushed) =~= FORM_PAGE_HEAD@ + mid + ("<p><i>"@ + m@ + "</i></p>"@)
        + FORM_PAGE_TAIL@);
    assert(FORM_PAGE_HEAD@ + mid + ("<p><i>"@ + m@ + "</i></p>"@) + FORM_PAGE_TAIL@
        =~= (FORM_PAGE_HEAD@ + mid) + "<p><i>"@ + m@ + "</i></p>"@ + FORM_PAGE_TAIL@);
}

/// The password change page: the pending flash messages, each in its own
/// paragraph, above the form that asks for the current password and twice
/// for the new one.
pub fn change_password_form(flash_messages: &Vec<String>) -> (page: String)
    ensures
        page@ == change_password_page(flash_messages@),
{
    let mut msg_html = String::new();
    let mut i: usize = 0;
    while i < flash_messages.len()
        invariant
            i <= flash_messages.len(),
            msg_html@ == notices_html(flash_messages@.take(i as int)),
        decreases flash_messages.len() - i,
    {
        assert(flash_messages@.take(i + 1).drop_last() == flash_messages@.take(i as int));
        msg_html.append("<p><i>");
        msg_html.append(flash_messages[i].as_str());
        msg_html.append("</i></p>");
        i = i + 1;
    }
    assert(flash_messages@.take(i as int) == flash_messages@);
    let mut page = FORM_PAGE_HEAD.to_owned();
    page.append(msg_html.as_str());
    page.append(FORM_PAGE_TAIL);
    page
}

} // verus!
