//! What every reconciler shares: the outcome of a reconcile, its errors, the
//! commands a reconciler issues and the events that answer them.

use vstd::prelude::*;
use crate::connection::{ConnectionSettings, ConnectionSettingsView};
use crate::types::{PostgresAdminConnectionSpec, PostgresRoleStatus};

verus! {

/// When the controller should look at a resource again: after a number of
/// seconds, or only when something about it changes.
#[derive(Debug, Clone, Copy, PartialEq, Eq)]
pub struct Action {
    pub requeue_after_secs: Option<u64>,
}

impl Action {
    /// Do nothing until a change is detected.
    pub fn await_change() -> (action: Action)
        ensures
            action.requeue_after_secs is None,
    {
        Action { requeue_after_secs: None }
    }

    /// Reconcile again after the given number of seconds.
    pub fn requeue(secs: u64) -> (action: Action)
        ensures
            action.requeue_after_secs == Some(secs),
    {
        Action { requeue_after_secs: Some(secs) }
    }
}

/// An error that ended a reconcile, with the message it is displayed as.
#[derive(Debug, Clone)]
pub struct Error {
    pub message: String,
}

impl Error {
    /// An error displayed as `message`.
    pub fn new(message: &str) -> (e: Error)
        ensures
            e.message@ == message@,
    {
        Error { message: String::from_str(message) }
    }
}

/// The number of seconds after which a failed reconcile is retried.
pub const ERROR_REQUEUE_SECS: u64 = 15;

/// What the controller does after a reconcile failed: it tries again after
/// fifteen seconds, whatever the error.
pub fn error_policy(error: &Error) -> (action: Action)
    ensures
        action.requeue_after_secs == Some(ERROR_REQUEUE_SECS),
        action.requeue_after_secs == Some(15u64),
{
    Action::requeue(ERROR_REQUEUE_SECS)
}

/// A piece of outside work that a reconciler asks for.  `P` is the type of a
/// stored password.
pub enum Command<P> {
    /// Add the operator's finalizer to the resource; answered by
    /// `FinalizerEnsured` with the updated resource.
    EnsureFinalizer,
    /// Remove the operator's finalizer from the resource; answered by
    /// `Completed`.
    RemoveFinalizer,
    /// Look up a role resource; answered by `RoleFetched` with its role name.
    FetchRole { namespace: String, name: String },
    /// Look up an admin connection resource; answered by
    /// `AdminConnectionFetched`.
    FetchAdminConnection { namespace: String, name: String },
    /// Open a connection to PostgreSQL; answered by `Completed`.
    Connect { settings: ConnectionSettings, password: P },
    /// Run a query that yields at most one row whose first column is a role
    /// name; answered by `OwnerFetched`.
    QueryOwner { sql: String, parameter: String },
    /// Run a query and report whether it yields a row; answered by
    /// `ExistenceChecked`.
    QueryExists { sql: String, parameter: String },
    /// Execute an SQL statement; answered by `Completed`.
    Execute { sql: String },
    /// Encode the role's password for the given role name; answered by
    /// `PasswordEncoded`.
    EncodePassword { role: String },
    /// Store the given status on the role resource; answered by
    /// `StatusPatched` with the updated resource.
    PatchStatus { status: PostgresRoleStatus<P> },
    /// Create or update the PgBouncer user of a role; answered by
    /// `Completed`.
    RegisterInPgBouncer { registration: PgBouncerRegistration },
    /// The reconcile is over, with this result.
    Finish { result: Result<Action, Error> },
}

/// The PgBouncer user that a role reconcile applies: its object's namespace
/// and name, the role object that owns it, and the login it holds.
pub struct PgBouncerRegistration {
    pub namespace: String,
    pub name: String,
    pub owner_name: String,
    pub owner_uid: String,
    pub username: String,
    pub password_text: String,
}

/// The answer to a command.  `R` is the type of the resource being
/// reconciled.
pub enum Event<P, R> {
    Completed,
    /// The command failed with this message.
    Failed(String),
    FinalizerEnsured(R),
    /// The role name of the role resource, if it exists.
    RoleFetched(Option<String>),
    AdminConnectionFetched(Option<PostgresAdminConnectionSpec<P>>),
    /// The first column of the row, if the query yielded one.
    OwnerFetched(Option<String>),
    ExistenceChecked(bool),
    PasswordEncoded(String),
    StatusPatched(R),
}

/// A registration with its strings taken by their views.
pub struct PgBouncerRegistrationView {
    pub namespace: Seq<char>,
    pub name: Seq<char>,
    pub owner_name: Seq<char>,
    pub owner_uid: Seq<char>,
    pub username: Seq<char>,
    pub password_text: Seq<char>,
}

impl View for PgBouncerRegistration {
    type V = PgBouncerRegistrationView;

    open spec fn view(&self) -> PgBouncerRegistrationView {
        PgBouncerRegistrationView {
            namespace: self.namespace@,
            name: self.name@,
            owner_name: self.owner_name@,
            owner_uid: self.owner_uid@,
            username: self.username@,
            password_text: self.password_text@,
        }
    }
}

/// A command with its strings taken by their views.
pub enum CommandView<P> {
    EnsureFinalizer,
    RemoveFinalizer,
    FetchRole { namespace: Seq<char>, name: Seq<char> },
    FetchAdminConnection { namespace: Seq<char>, name: Seq<char> },
    Connect { settings: ConnectionSettingsView, password: P },
    QueryOwner { sql: Seq<char>, parameter: Seq<char> },
    QueryExists { sql: Seq<char>, parameter: Seq<char> },
    Execute { sql: Seq<char> },
    EncodePassword { role: Seq<char> },
    PatchStatus { status: PostgresRoleStatus<P> },
    RegisterInPgBouncer { registration: PgBouncerRegistrationView },
    Finish { result: Result<Action, Seq<char>> },
}

/// A reconcile result with the error taken by its message.
pub open spec fn result_view(result: Result<Action, Error>) -> Result<Action, Seq<char>> {
    match result {
        Ok(a) => Ok(a),
        Err(e) => Err(e.message@),
    }
}

impl<P> View for Command<P> {
    type V = CommandView<P>;

    open spec fn view(&self) -> CommandView<P> {
        match self {
            Command::EnsureFinalizer => CommandView::EnsureFinalizer,
            Command::RemoveFinalizer => CommandView::RemoveFinalizer,
            Command::FetchRole { namespace, name } => CommandView::FetchRole { namespace: namespace@, name: name@ },
            Command::FetchAdminConnection { namespace, name } => CommandView::FetchAdminConnection { namespace: namespace@, name: name@ },
            Command::Connect { settings, password } => CommandView::Connect { settings: settings@, password: *password },
            Command::QueryOwner { sql, parameter } => CommandView::QueryOwner { sql: sql@, parameter: parameter@ },
            Command::QueryExists { sql, parameter } => CommandView::QueryExists { sql: sql@, parameter: parameter@ },
            Command::Execute { sql } => CommandView::Execute { sql: sql@ },
            Command::EncodePassword { role } => CommandView::EncodePassword { role: role@ },
            Command::PatchStatus { status } => CommandView::PatchStatus { status: *status },
            Command::RegisterInPgBouncer { registration } => CommandView::RegisterInPgBouncer { registration: registration@ },
            Command::Finish { result } => CommandView::Finish { result: result_view(*result) },
        }
    }
}

/// The end of a reconcile that failed with `message`.
pub fn fail<P>(message: String) -> (command: Command<P>)
    ensures
        command@ == (CommandView::<P>::Finish { result: Err(message@) }),
{
    Command::Finish { result: Err(Error { message }) }
}

/// The end of a reconcile that succeeded and waits for the next change.
pub fn finish_await_change<P>() -> (command: Command<P>)
    ensures
        command@ == (CommandView::<P>::Finish { result: Ok(Action { requeue_after_secs: None }) }),
{
    Command::Finish { result: Ok(Action::await_change()) }
}

} // verus!
