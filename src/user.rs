//! The credential store's logic: identity records, password hashing, the
//! steps of registration, and the login check.

use crate::outside::{bcrypt_check, bcrypt_hash, bcrypt_verify, fresh_uuid};
use vstd::prelude::*;

verus! {

/// How an attempt to store a new identity ended.
#[derive(Debug, Clone, Copy, PartialEq, Eq, Structural)]
pub enum AddUserResult {
    Success,
    UsernameTaken,
    DatabaseError,
    /// The password could not be hashed.
    HashingFailure,
    /// The username or the password is empty.
    ValidationError,
}

/// An identity record. `password_hash` holds a salted bcrypt hash, never the
/// plaintext.
#[derive(Debug, Clone)]
pub struct User {
    pub id: String,
    pub username: String,
    pub password_hash: String,
}

/// Whether `password` is the one that `hash` was made from, as bcrypt's
/// verification decides it.
pub open spec fn password_matches(password: Seq<char>, hash: Seq<char>) -> bool {
    bcrypt_check(password, hash) == Some(true)
}

impl User {
    /// A new identity for `username` whose stored hash accepts `password`.
    /// The identifier is a fresh random UUID and the hash has a fresh salt;
    /// fails only where bcrypt fails to hash.
    pub fn new(username: &String, password: &String) -> (r: Result<User, bcrypt::BcryptError>)
        ensures
            r matches Ok(u) ==> {
                &&& u.username@ == username@
                &&& u.id@.len() == 36
                &&& password_matches(password@, u.password_hash@)
            },
    {
        let hash = match bcrypt_hash(password.as_str()) {
            Ok(h) => h,
            Err(e) => return Err(e),
        };
        Ok(User { username: username.clone(), id: fresh_uuid(), password_hash: hash })
    }
}

/// A registration that passed validation and hashing, ready to be stored; or
/// the outcome that ends it early.
///
/// Empty usernames and passwords are refused with `ValidationError`; a
/// hashing failure becomes `HashingFailure`.
pub fn prepare_registration(username: &String, password: &String) -> (r: Result<User, AddUserResult>)
    ensures
        username@.len() == 0 || password@.len() == 0 <==> r == Err::<User, AddUserResult>(
            AddUserResult::ValidationError,
        ),
        r matches Ok(u) ==> {
            &&& u.username@ == username@
            &&& u.id@.len() == 36
            &&& password_matches(password@, u.password_hash@)
        },
        r matches Err(e) ==> e is ValidationError || e is HashingFailure,
{
    if username.as_str().is_empty() || password.as_str().is_empty() {
        return Err(AddUserResult::ValidationError);
    }
    match User::new(username, password) {
        Ok(u) => Ok(u),
        Err(_) => Err(AddUserResult::HashingFailure),
    }
}

/// What the store answered when asked whether a username is taken.
#[derive(Debug, Clone, Copy, PartialEq, Eq, Structural)]
pub enum UsernameLookup {
    Taken,
    Free,
    Failed,
}

/// What the store answered to the insertion of a new row.
#[derive(Debug, Clone, Copy, PartialEq, Eq, Structural)]
pub enum InsertOutcome {
    Inserted,
    /// A uniqueness constraint of the store refused the row.
    UniqueViolation,
    Failed,
}

/// The next thing a registration does after its username check.
#[derive(Debug)]
pub enum AddUserStep {
    Insert,
    Done(AddUserResult),
}

/// Decides a registration after the username check: a taken name ends it
/// with `UsernameTaken`, a failed query with `DatabaseError`, and a free name
/// goes on to the insert.
pub fn after_username_check(lookup: UsernameLookup) -> (r: AddUserStep)
    ensures
        r == username_check_step(lookup),
{
    match lookup {
        UsernameLookup::Taken => AddUserStep::Done(AddUserResult::UsernameTaken),
        UsernameLookup::Free => AddUserStep::Insert,
        UsernameLookup::Failed => AddUserStep::Done(AddUserResult::DatabaseError),
    }
}

pub open spec fn username_check_step(lookup: UsernameLookup) -> AddUserStep {
    match lookup {
        UsernameLookup::Taken => AddUserStep::Done(AddUserResult::UsernameTaken),
        UsernameLookup::Free => AddUserStep::Insert,
        UsernameLookup::Failed => AddUserStep::Done(AddUserResult::DatabaseError),
    }
}

/// Ends a registration after its insert. A row refused by the uniqueness
/// constraint lost a race for the name and is reported as `UsernameTaken`,
/// not as a storage failure.
pub fn after_insert(outcome: InsertOutcome) -> (r: AddUserResult)
    ensures
        r == insert_result(outcome),
{
    match outcome {
        InsertOutcome::Inserted => AddUserResult::Success,
        InsertOutcome::UniqueViolation => AddUserResult::UsernameTaken,
        InsertOutcome::Failed => AddUserResult::DatabaseError,
    }
}

pub open spec fn insert_result(outcome: InsertOutcome) -> AddUserResult {
    match outcome {
        InsertOutcome::Inserted => AddUserResult::Success,
        InsertOutcome::UniqueViolation => AddUserResult::UsernameTaken,
        InsertOutcome::Failed => AddUserResult::DatabaseError,
    }
}

/// What the store answered when asked for the identity with a given username
/// or identifier.
#[derive(Debug)]
pub enum UserLookup {
    Found(User),
    Absent,
    Failed,
}

/// How a login attempt ended.
#[derive(Debug)]
pub enum LoginResult {
    Success(User),
    /// No such user, or the wrong password: the two are not told apart.
    InvalidCredentials,
    DatabaseError,
}

/// Decides a login from the lookup of the username and the offered password.
/// It succeeds with the identity exactly when one was found and its stored
/// hash accepts the password; every other answer of the store but a failure
/// gives the same `InvalidCredentials`.
pub fn check_login(lookup: UserLookup, password: &String) -> (r: LoginResult)
    ensures
        r == login_outcome(lookup, password@),
{
    match lookup {
        UserLookup::Found(u) => {
            match bcrypt_verify(password.as_str(), u.password_hash.as_str()) {
                Ok(true) => LoginResult::Success(u),
                _ => LoginResult::InvalidCredentials,
            }
        },
        UserLookup::Absent => LoginResult::InvalidCredentials,
        UserLookup::Failed => LoginResult::DatabaseError,
    }
}

pub open spec fn login_outcome(lookup: UserLookup, password: Seq<char>) -> LoginResult {
    match lookup {
        UserLookup::Found(u) => if password_matches(password, u.password_hash@) {
            LoginResult::Success(u)
        } else {
            LoginResult::InvalidCredentials
        },
        UserLookup::Absent => LoginResult::InvalidCredentials,
        UserLookup::Failed => LoginResult::DatabaseError,
    }
}

/// A login succeeds exactly when the username names an identity whose stored
/// hash accepts the password, and then returns that identity. An unknown
/// username and a wrong password end in one and the same outcome.
pub proof fn lemma_login_correct(found: User, password: Seq<char>)
    ensures
        login_outcome(UserLookup::Found(found), password) is Success <==> password_matches(
            password,
            found.password_hash@,
        ),
        login_outcome(UserLookup::Found(found), password) matches LoginResult::Success(u) ==> u
            == found,
        !password_matches(password, found.password_hash@) ==> login_outcome(
            UserLookup::Found(found),
            password,
        ) == login_outcome(UserLookup::Absent, password),
        !(login_outcome(UserLookup::Absent, password) is Success),
{
}

/// An identity made for a password accepts that password at login.
pub proof fn lemma_registered_password_accepted(u: User, password: Seq<char>)
    requires
        password_matches(password, u.password_hash@),
    ensures
        login_outcome(UserLookup::Found(u), password) == LoginResult::Success(u),
{
}

/// The identity table holds no two rows with the same username.
pub open spec fn usernames_unique(rows: Seq<User>) -> bool {
    forall|i: int, j: int|
        0 <= i < rows.len() && 0 <= j < rows.len() && i != j ==> #[trigger] rows[i].username@
            != #[trigger] rows[j].username@
}

pub open spec fn username_present(rows: Seq<User>, name: Seq<char>) -> bool {
    exists|i: int| 0 <= i < rows.len() && #[trigger] rows[i].username@ == name
}

/// A store whose uniqueness constraint on usernames refuses a row whose
/// username is present, and otherwise appends it.
pub open spec fn constrained_insert(rows: Seq<User>, u: User) -> (Seq<User>, InsertOutcome) {
    if username_present(rows, u.username@) {
        (rows, InsertOutcome::UniqueViolation)
    } else {
        (rows.push(u), InsertOutcome::Inserted)
    }
}

/// Registration against a store with a uniqueness constraint keeps usernames
/// unique, and reports `Success` exactly when the username was free.
pub proof fn lemma_insert_keeps_usernames_unique(rows: Seq<User>, u: User)
    requires
        usernames_unique(rows),
    ensures
        usernames_unique(constrained_insert(rows, u).0),
        insert_result(constrained_insert(rows, u).1) is Success <==> !username_present(
            rows,
            u.username@,
        ),
        insert_result(constrained_insert(rows, u).1) is Success || insert_result(
            constrained_insert(rows, u).1,
        ) is UsernameTaken,
{
    if !username_present(rows, u.username@) {
        let next = rows.push(u);
        assert forall|i: int, j: int|
            0 <= i < next.len() && 0 <= j < next.len() && i != j implies #[trigger] next[i].username@
            != #[trigger] next[j].username@ by {
            if i == rows.len() as int {
                assert(rows[j].username@ == next[j].username@);
            } else if j == rows.len() as int {
                assert(rows[i].username@ == next[i].username@);
            }
        }
    }
}

/// Of two registrations of one username that reach the store one after the
/// other, in either order, at most one succeeds; where the name was free,
/// exactly one does. The one that does not succeed sees `UsernameTaken`.
pub proof fn lemma_racing_registrations(rows: Seq<User>, a: User, b: User)
    requires
        usernames_unique(rows),
        a.username@ == b.username@,
    ensures
        ({
            let first = insert_result(constrained_insert(rows, a).1);
            let second = insert_result(constrained_insert(constrained_insert(rows, a).0, b).1);
            &&& !(first is Success && second is Success)
            &&& !username_present(rows, a.username@) ==> (first is Success || second is Success)
            &&& first is Success || first is UsernameTaken
            &&& second is Success || second is UsernameTaken
        }),
{
    let after_a = constrained_insert(rows, a).0;
    if !username_present(rows, a.username@) {
        assert(after_a[rows.len() as int].username@ == b.username@);
        assert(username_present(after_a, b.username@));
    }
}

/// A registration ends in `Success` only when the username check found the
/// name free and the store then accepted the row.
pub proof fn lemma_success_needs_insert(lookup: UsernameLookup, outcome: InsertOutcome)
    ensures
        (match username_check_step(lookup) {
            AddUserStep::Insert => insert_result(outcome),
            AddUserStep::Done(r) => r,
        }) is Success <==> (lookup is Free && outcome is Inserted),
{
}

} // verus!
