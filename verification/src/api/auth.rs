//! Register, login and logout.
//!
//! A handler cannot reach the user store itself. It runs as a small state
//! machine instead: each step takes the store's last reply and answers with
//! the next thing to ask of the store, or with the response. Whoever drives it
//! performs the action and comes back with the reply.

use vstd::prelude::*;
use vstd::std_specs::convert::FromSpec;

use crate::api::error::ApiError;
use crate::models::user::{CreateUser, NewUser, PasswordError, User};
use crate::session::{user_id_key, SessionContext, SessionView};

verus! {

/// Body of a registration request.
#[derive(Debug, Clone)]
pub struct RegisterRequest {
    pub email: String,
    pub password: String,
    pub name: Option<String>,
}

/// Body of a login request.
#[derive(Debug, Clone)]
pub struct LoginRequest {
    pub email: String,
    pub password: String,
}

/// What a client may see of a user. The password hash is not part of it.
#[derive(Debug, Clone, PartialEq, Eq)]
pub struct UserResponse {
    pub id: String,
    pub email: String,
    pub name: Option<String>,
    pub avatar_url: Option<String>,
}

impl From<User> for UserResponse {
    fn from(user: User) -> (response: UserResponse) {
        UserResponse { id: user.id, email: user.email, name: user.name, avatar_url: user.avatar_url }
    }
}

impl vstd::std_specs::convert::FromSpecImpl<User> for UserResponse {
    open spec fn obeys_from_spec() -> bool {
        true
    }

    open spec fn from_spec(user: User) -> UserResponse {
        UserResponse { id: user.id, email: user.email, name: user.name, avatar_url: user.avatar_url }
    }
}

/// Where a handler stands.
#[derive(Debug, Clone)]
pub enum AuthState {
    /// Registering: the lookup of the email is under way.
    RegisterLookup(CreateUser),
    /// Registering: the insertion of the new user is under way.
    RegisterInsert,
    /// Logging in with this password: the lookup of the email is under way.
    LoginLookup(String),
    /// The response has been given.
    Done,
}

/// What the user store answered.
#[derive(Debug, Clone, PartialEq, Eq)]
pub enum StoreReply {
    /// The lookup by email finished, with the user it found.
    Found(Option<User>),
    /// The insertion succeeded; this is the stored record.
    Inserted(User),
    /// The insertion was refused because the email is taken.
    Conflict,
    /// The store failed.
    Failed,
}

/// What a handler wants done next.
#[derive(Debug, PartialEq, Eq)]
pub enum AuthAction {
    /// Look up the user with this email.
    FindByEmail(String),
    /// Insert this user.
    Insert(NewUser),
    /// Answer the request.
    Respond(Result<UserResponse, ApiError>),
}

/// One step of a handler: its new state and what it wants done.
#[derive(Debug)]
pub struct AuthStep {
    pub state: AuthState,
    pub action: AuthAction,
}

/// The last step of a handler.
pub open spec fn responded(response: Result<UserResponse, ApiError>) -> AuthStep {
    AuthStep { state: AuthState::Done, action: AuthAction::Respond(response) }
}

/// The first step of a registration.
pub open spec fn register_begun(payload: RegisterRequest) -> AuthStep {
    AuthStep {
        state: AuthState::RegisterLookup(
            CreateUser { email: payload.email, password: payload.password, name: payload.name },
        ),
        action: AuthAction::FindByEmail(payload.email),
    }
}

/// The first step of a login.
pub open spec fn login_begun(payload: LoginRequest) -> AuthStep {
    AuthStep {
        state: AuthState::LoginLookup(payload.password),
        action: AuthAction::FindByEmail(payload.email),
    }
}

/// The step a handler in `state` takes on `reply`. `hashed` is the outcome of
/// hashing the new password; only a registration whose email was found free
/// reads it.
///
/// Registration answers `UserExists` if the email is found or the insertion
/// conflicts, and the new user's public face once it is stored. Login answers
/// `InvalidCredentials` alike for an unknown email and a wrong password. A
/// store failure is `Database`; a credential failure is classed by
/// [`ApiError::classified`]; a reply that does not fit the state is `Internal`.
pub open spec fn stepped(
    state: AuthState,
    reply: StoreReply,
    hashed: Result<String, PasswordError>,
) -> AuthStep {
    match state {
        AuthState::RegisterLookup(create_user) => match reply {
            StoreReply::Found(Some(_)) => responded(Err(ApiError::UserExists)),
            StoreReply::Found(None) => match hashed {
                Ok(password_hash) => AuthStep {
                    state: AuthState::RegisterInsert,
                    action: AuthAction::Insert(
                        NewUser { email: create_user.email, name: create_user.name, password_hash },
                    ),
                },
                Err(error) => responded(Err(ApiError::classified(error))),
            },
            StoreReply::Failed => responded(Err(ApiError::Database)),
            _ => responded(Err(ApiError::Internal)),
        },
        AuthState::RegisterInsert => match reply {
            StoreReply::Inserted(user) => responded(Ok(UserResponse::from_spec(user))),
            StoreReply::Conflict => responded(Err(ApiError::UserExists)),
            StoreReply::Failed => responded(Err(ApiError::Database)),
            StoreReply::Found(_) => responded(Err(ApiError::Internal)),
        },
        AuthState::LoginLookup(password) => match reply {
            StoreReply::Found(found) => match User::authenticated(found, password@) {
                Ok(Some(user)) => responded(Ok(UserResponse::from_spec(user))),
                Ok(None) => responded(Err(ApiError::InvalidCredentials)),
                Err(error) => responded(Err(ApiError::classified(error))),
            },
            StoreReply::Failed => responded(Err(ApiError::Database)),
            _ => responded(Err(ApiError::Internal)),
        },
        AuthState::Done => responded(Err(ApiError::Internal)),
    }
}

/// The id of the user that the step on `reply` signs in, if it signs one in:
/// the user just stored by a registration, or the one a login authenticated.
pub open spec fn signs_in(state: AuthState, reply: StoreReply) -> Option<Seq<char>> {
    match (state, reply) {
        (AuthState::RegisterInsert, StoreReply::Inserted(user)) => Some(user.id@),
        (AuthState::LoginLookup(password), StoreReply::Found(found)) => match User::authenticated(
            found,
            password@,
        ) {
            Ok(Some(user)) => Some(user.id@),
            _ => None,
        },
        _ => None,
    }
}

/// The session after the step on `reply`: made the signed-in user's own, or
/// left alone.
pub open spec fn session_stepped(
    state: AuthState,
    reply: StoreReply,
    session: SessionView,
) -> SessionView {
    match signs_in(state, reply) {
        Some(id) => SessionView { id: session.id, data: session.data.insert(user_id_key(), id) },
        None => session,
    }
}

/// Whether the step on `reply` hashes a password: the step of a registration
/// whose lookup found the email free.
pub open spec fn hashes_password(state: AuthState, reply: StoreReply) -> bool {
    state is RegisterLookup && reply == StoreReply::Found(None)
}

/// What holds of the outcome of hashing in a step that hashes the password of
/// a registration: a hash is a hash of that password, and hashing fails only
/// on a password too long for the hash function.
pub open spec fn hash_fits(
    state: AuthState,
    reply: StoreReply,
    hashed: Result<String, PasswordError>,
) -> bool {
    state matches AuthState::RegisterLookup(create_user) ==> (hashes_password(state, reply)
        ==> match hashed {
        Ok(hash) => User::hashes(hash@, create_user.password@),
        Err(e) => e == PasswordError::HashingFailed && !User::hashable(create_user.password@),
    })
}

/// Begins a registration: asks for the user with the request's email.
pub fn register(payload: RegisterRequest) -> (step: AuthStep)
    ensures
        step == register_begun(payload),
{
    let email = payload.email.clone();
    let create_user = CreateUser {
        email: payload.email,
        password: payload.password,
        name: payload.name,
    };
    AuthStep { state: AuthState::RegisterLookup(create_user), action: AuthAction::FindByEmail(email) }
}

/// Begins a login: asks for the user with the request's email.
pub fn login(payload: LoginRequest) -> (step: AuthStep)
    ensures
        step == login_begun(payload),
{
    AuthStep {
        state: AuthState::LoginLookup(payload.password),
        action: AuthAction::FindByEmail(payload.email),
    }
}

/// Logs out: gives the session up, whether or not anyone was logged in.
/// Never fails.
pub fn logout(session: &mut SessionContext) -> (r: Result<(), ApiError>)
    ensures
        r is Ok,
        final(session)@ == SessionView::anonymous(),
{
    session.delete();
    Ok(())
}

fn respond(response: Result<UserResponse, ApiError>) -> (step: AuthStep)
    ensures
        step == responded(response),
{
    AuthStep { state: AuthState::Done, action: AuthAction::Respond(response) }
}

fn sign_in(user: User, session: &mut SessionContext) -> (step: AuthStep)
    ensures
        step == responded(Ok(UserResponse::from_spec(user))),
        final(session).id == old(session).id,
        final(session)@.data == old(session)@.data.insert(user_id_key(), user.id@),
{
    session.set_user_id(user.id.clone());
    respond(Ok(UserResponse::from(user)))
}

/// Takes the step of [`stepped`] with a given outcome of hashing, and signs
/// the user in where [`signs_in`] says so.
pub fn advance_hashed(
    state: AuthState,
    reply: StoreReply,
    hashed: Result<String, PasswordError>,
    session: &mut SessionContext,
) -> (step: AuthStep)
    ensures
        step == stepped(state, reply, hashed),
        final(session).id == old(session).id,
        final(session)@ == session_stepped(state, reply, old(session)@),
{
    match state {
        AuthState::RegisterLookup(create_user) => match reply {
            StoreReply::Found(Some(_)) => respond(Err(ApiError::UserExists)),
            StoreReply::Found(None) => match hashed {
                Ok(password_hash) => AuthStep {
                    state: AuthState::RegisterInsert,
                    action: AuthAction::Insert(NewUser::new(create_user, password_hash)),
                },
                Err(error) => respond(Err(ApiError::classify(error))),
            },
            StoreReply::Failed => respond(Err(ApiError::Database)),
            _ => respond(Err(ApiError::Internal)),
        },
        AuthState::RegisterInsert => match reply {
            StoreReply::Inserted(user) => sign_in(user, session),
            StoreReply::Conflict => respond(Err(ApiError::UserExists)),
            StoreReply::Failed => respond(Err(ApiError::Database)),
            StoreReply::Found(_) => respond(Err(ApiError::Internal)),
        },
        AuthState::LoginLookup(password) => match reply {
            StoreReply::Found(found) => match User::authenticate(found, password.as_str()) {
                Ok(Some(user)) => sign_in(user, session),
                Ok(None) => respond(Err(ApiError::InvalidCredentials)),
                Err(error) => respond(Err(ApiError::classify(error))),
            },
            StoreReply::Failed => respond(Err(ApiError::Database)),
            _ => respond(Err(ApiError::Internal)),
        },
        AuthState::Done => respond(Err(ApiError::Internal)),
    }
}

/// Takes a handler's next step on the store's reply.
///
/// Where the step hashes a password, the hash is drawn afresh, so the step is
/// [`stepped`] for some outcome of hashing that [`hash_fits`] allows. Hashing
/// succeeds on every password the hash function takes, and the step then asks
/// for the insertion. Every other step is determined by state and reply.
pub fn advance(state: AuthState, reply: StoreReply, session: &mut SessionContext) -> (step:
    AuthStep)
    ensures
        exists|hashed: Result<String, PasswordError>|
            hash_fits(state, reply, hashed) && step == #[trigger] stepped(state, reply, hashed),
        state matches AuthState::RegisterLookup(create_user) ==> (hashes_password(state, reply)
            && User::hashable(create_user.password@) ==> step.action is Insert),
        final(session).id == old(session).id,
        final(session)@ == session_stepped(state, reply, old(session)@),
{
    let hashed = match (&state, &reply) {
        (AuthState::RegisterLookup(create_user), StoreReply::Found(None)) => User::hash_password(
            create_user.password.as_str(),
        ),
        _ => Err(PasswordError::HashingFailed),
    };
    advance_hashed(state, reply, hashed, session)
}

/// What a user store that keeps its records faithfully answers to a lookup.
/// The store is a map from email to the user stored under it.
pub open spec fn directory_find(users: Map<Seq<char>, User>, email: Seq<char>) -> StoreReply {
    if users.contains_key(email) {
        StoreReply::Found(Some(users[email]))
    } else {
        StoreReply::Found(None)
    }
}

/// What such a store answers to an insertion, given the record `stored` that
/// it would make of the row by adding an id and timestamps.
pub open spec fn directory_insert(
    users: Map<Seq<char>, User>,
    row: NewUser,
    stored: User,
) -> StoreReply {
    if users.contains_key(row.email@) {
        StoreReply::Conflict
    } else {
        StoreReply::Inserted(stored)
    }
}

/// A handler's run to its end: the store and the session it leaves, and its
/// response.
pub struct Outcome {
    pub users: Map<Seq<char>, User>,
    pub session: SessionView,
    pub response: Result<UserResponse, ApiError>,
}

/// The response a step gives, if it is the last.
pub open spec fn response_of(step: AuthStep) -> Result<UserResponse, ApiError> {
    match step.action {
        AuthAction::Respond(response) => response,
        _ => Err(ApiError::Internal),
    }
}

/// A whole registration against a faithful store. `hashed` is the outcome of
/// hashing the password, `stored` the record the store makes of the new row.
pub open spec fn registration(
    users: Map<Seq<char>, User>,
    session: SessionView,
    payload: RegisterRequest,
    hashed: Result<String, PasswordError>,
    stored: User,
) -> Outcome {
    let begun = register_begun(payload);
    let found = directory_find(users, payload.email@);
    let looked = stepped(begun.state, found, hashed);
    match looked.action {
        AuthAction::Insert(row) => {
            let reply = directory_insert(users, row, stored);
            Outcome {
                users: if reply is Inserted {
                    users.insert(row.email@, stored)
                } else {
                    users
                },
                session: session_stepped(looked.state, reply, session),
                response: response_of(stepped(looked.state, reply, hashed)),
            }
        },
        _ => Outcome {
            users,
            session: session_stepped(begun.state, found, session),
            response: response_of(looked),
        },
    }
}

/// A whole login against a faithful store.
pub open spec fn login_attempt(
    users: Map<Seq<char>, User>,
    session: SessionView,
    payload: LoginRequest,
) -> Outcome {
    let begun = login_begun(payload);
    let found = directory_find(users, payload.email@);
    Outcome {
        users,
        session: session_stepped(begun.state, found, session),
        response: response_of(stepped(begun.state, found, Err(PasswordError::HashingFailed))),
    }
}

/// Registering an email that is free, with a password the hash function
/// takes, stores the user, signs them in and answers with their public face,
/// whatever hash was drawn. Registering the same email again, with any
/// password and name, answers `UserExists` and changes neither the store nor
/// the session: nothing of the second attempt remains.
pub proof fn lemma_second_registration_is_rejected(
    users: Map<Seq<char>, User>,
    session: SessionView,
    first: RegisterRequest,
    drawn: Result<String, PasswordError>,
    stored: User,
    later_session: SessionView,
    second: RegisterRequest,
    hashed: Result<String, PasswordError>,
    other: User,
)
    requires
        !users.contains_key(first.email@),
        User::hashable(first.password@),
        hash_fits(register_begun(first).state, StoreReply::Found(None), drawn),
        drawn matches Ok(hash) ==> stored.password_hash == hash,
        stored.email == first.email,
        stored.name == first.name,
        second.email@ == first.email@,
    ensures
        ({
            let one = registration(users, session, first, drawn, stored);
            let two = registration(one.users, later_session, second, hashed, other);
            &&& one.response == Ok::<UserResponse, ApiError>(UserResponse::from_spec(stored))
            &&& one.users == users.insert(first.email@, stored)
            &&& one.session.user_id() == Some(stored.id@)
            &&& User::hashes(stored.password_hash@, first.password@)
            &&& two.response == Err::<UserResponse, ApiError>(ApiError::UserExists)
            &&& two.users == one.users
            &&& two.session == later_session
        }),
{
}

/// A login with an unknown email and a login with a known email and a wrong
/// password end alike: the same `InvalidCredentials`, with the same status and
/// the same message, and a session left as it was.
pub proof fn lemma_login_failures_are_alike(
    users: Map<Seq<char>, User>,
    session: SessionView,
    unknown: LoginRequest,
    wrong: LoginRequest,
)
    requires
        !users.contains_key(unknown.email@),
        users.contains_key(wrong.email@),
        User::check(users[wrong.email@].password_hash@, wrong.password@) == Ok::<
            bool,
            PasswordError,
        >(false),
    ensures
        ({
            let a = login_attempt(users, session, unknown);
            let b = login_attempt(users, session, wrong);
            &&& a.response == Err::<UserResponse, ApiError>(ApiError::InvalidCredentials)
            &&& b.response == a.response
            &&& a.session == session
            &&& b.session == session
            &&& a.response->Err_0.status() == 401
            &&& a.response->Err_0.message_text() == "Invalid credentials"@
        }),
{
}

/// A login with the stored user's password answers with that user's public
/// face and makes the session theirs.
pub proof fn lemma_login_signs_in(
    users: Map<Seq<char>, User>,
    session: SessionView,
    payload: LoginRequest,
)
    requires
        users.contains_key(payload.email@),
        User::check(users[payload.email@].password_hash@, payload.password@) == Ok::<
            bool,
            PasswordError,
        >(true),
    ensures
        ({
            let done = login_attempt(users, session, payload);
            let user = users[payload.email@];
            &&& done.response == Ok::<UserResponse, ApiError>(UserResponse::from_spec(user))
            &&& done.session.user_id() == Some(user.id@)
            &&& done.session.id == session.id
        }),
{
}

/// What the handlers ask of the store. No step asks for a second lookup. An
/// insertion is asked for only by a registration whose lookup found the email
/// free, and whatever the store replies to it ends the handler: a
/// registration writes at most one user, a login none. A handler is done
/// exactly when it has responded, and stays done.
pub proof fn lemma_handlers_write_at_most_once(
    state: AuthState,
    reply: StoreReply,
    hashed: Result<String, PasswordError>,
)
    ensures
        ({
            let step = stepped(state, reply, hashed);
            &&& step.action !is FindByEmail
            &&& step.action is Insert ==> state is RegisterLookup && reply == StoreReply::Found(None)
                && hashed is Ok && step.state is RegisterInsert
            &&& step.action is Respond <==> step.state is Done
            &&& !(state is RegisterLookup) ==> step.state is Done
        }),
{
}

} // verus!
