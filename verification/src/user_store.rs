//! The credential store: one table of users, with email, display name and
//! identifier each unique across all rows.
//!
//! The store's view is the sequence of its rows; `users_wf` is the
//! uniqueness invariant, which every constructor establishes and every
//! operation preserves. Durable storage sits outside the library: whoever
//! holds the store persists its rows as they change.

use vstd::prelude::*;

use crate::errors::UserDbError;

verus! {

/// One row of the user table.
#[derive(Clone, Debug)]
pub struct UserRow {
    pub email: String,
    pub password: String,
    pub display_name: String,
    pub uuid: String,
    pub email_verified: bool,
}

/// The mathematical image of a row.
pub ghost struct UserRecord {
    pub email: Seq<char>,
    pub password: Seq<char>,
    pub display_name: Seq<char>,
    pub uuid: Seq<char>,
    pub email_verified: bool,
}

impl View for UserRow {
    type V = UserRecord;

    open spec fn view(&self) -> UserRecord {
        UserRecord {
            email: self.email@,
            password: self.password@,
            display_name: self.display_name@,
            uuid: self.uuid@,
            email_verified: self.email_verified,
        }
    }
}

/// A user as callers see one: no password hash in it.
#[derive(Clone, Debug)]
pub struct User {
    pub uuid: String,
    pub display_name: String,
    pub email: String,
}

/// Some row carries this email.
pub open spec fn has_email(s: Seq<UserRecord>, email: Seq<char>) -> bool {
    exists|i: int| 0 <= i < s.len() && s[i].email == email
}

/// Some row carries this display name.
pub open spec fn has_display_name(s: Seq<UserRecord>, display_name: Seq<char>) -> bool {
    exists|i: int| 0 <= i < s.len() && s[i].display_name == display_name
}

/// Some row carries this identifier.
pub open spec fn has_uuid(s: Seq<UserRecord>, uuid: Seq<char>) -> bool {
    exists|i: int| 0 <= i < s.len() && s[i].uuid == uuid
}

/// The position of the row carrying this email; meaningful only under
/// `has_email`.
pub open spec fn email_index(s: Seq<UserRecord>, email: Seq<char>) -> int {
    choose|i: int| 0 <= i < s.len() && s[i].email == email
}

/// The row carrying this email; meaningful only under `has_email`.
pub open spec fn record_of_email(s: Seq<UserRecord>, email: Seq<char>) -> UserRecord {
    s[email_index(s, email)]
}

/// The store's invariant: emails, display names and identifiers are each
/// unique across all rows.
pub open spec fn users_wf(s: Seq<UserRecord>) -> bool {
    forall|i: int, j: int|
        #![trigger s[i], s[j]]
        0 <= i < j < s.len() ==> (s[i].email != s[j].email && s[i].display_name
            != s[j].display_name && s[i].uuid != s[j].uuid)
}

/// Under the invariant, a row that carries the email is the row that
/// `email_index` picks.
pub proof fn lemma_email_index_is_unique(s: Seq<UserRecord>, email: Seq<char>, i: int)
    requires
        users_wf(s),
        0 <= i < s.len(),
        s[i].email == email,
    ensures
        email_index(s, email) == i,
{
    assert(has_email(s, email));
    let j = email_index(s, email);
    if i < j {
        assert(s[i].email != s[j].email);
    } else if j < i {
        assert(s[j].email != s[i].email);
    }
}

/// The credential store.
#[derive(Debug)]
pub struct UserDbService {
    users: Vec<UserRow>,
}

impl View for UserDbService {
    type V = Seq<UserRecord>;

    closed spec fn view(&self) -> Seq<UserRecord> {
        self.users@.map_values(|u: UserRow| u@)
    }
}

impl UserDbService {
    /// An empty store.
    pub fn new() -> (r: UserDbService)
        ensures
            r@ =~= Seq::<UserRecord>::empty(),
            users_wf(r@),
    {
        UserDbService { users: Vec::new() }
    }

    /// The rows of the store, in insertion order, for whoever persists them.
    pub fn rows(&self) -> (r: &Vec<UserRow>)
        ensures
            r@.map_values(|u: UserRow| u@) == self@,
    {
        &self.users
    }

    /// The position of the row with this email, if any.
    fn email_position(&self, email: &String) -> (r: Option<usize>)
        ensures
            r matches Some(i) ==> 0 <= i < self@.len() && self@[i as int].email == email@,
            r is None ==> !has_email(self@, email@),
    {
        let n = self.users.len();
        let mut i: usize = 0;
        while i < n
            invariant
                n == self@.len(),
                i <= n,
                forall|k: int| 0 <= k < i ==> self@[k].email != email@,
            decreases n - i,
        {
            if self.users[i].email == *email {
                return Some(i);
            }
            i = i + 1;
        }
        None
    }

    /// The position of the row with this display name, if any.
    fn display_name_position(&self, display_name: &String) -> (r: Option<usize>)
        ensures
            r matches Some(i) ==> 0 <= i < self@.len() && self@[i as int].display_name
                == display_name@,
            r is None ==> !has_display_name(self@, display_name@),
    {
        let n = self.users.len();
        let mut i: usize = 0;
        while i < n
            invariant
                n == self@.len(),
                i <= n,
                forall|k: int| 0 <= k < i ==> self@[k].display_name != display_name@,
            decreases n - i,
        {
            if self.users[i].display_name == *display_name {
                return Some(i);
            }
            i = i + 1;
        }
        None
    }

    /// The position of the row with this identifier, if any.
    fn uuid_position(&self, uuid: &String) -> (r: Option<usize>)
        ensures
            r matches Some(i) ==> 0 <= i < self@.len() && self@[i as int].uuid == uuid@,
            r is None ==> !has_uuid(self@, uuid@),
    {
        let n = self.users.len();
        let mut i: usize = 0;
        while i < n
            invariant
                n == self@.len(),
                i <= n,
                forall|k: int| 0 <= k < i ==> self@[k].uuid != uuid@,
            decreases n - i,
        {
            if self.users[i].uuid == *uuid {
                return Some(i);
            }
            i = i + 1;
        }
        None
    }

    /// Whether some user carries this email.
    pub fn contains_email(&self, email: &str) -> (r: bool)
        ensures
            r == has_email(self@, email@),
    {
        let email_owned = String::from_str(email);
        match self.email_position(&email_owned) {
            Some(_) => {
                proof {
                    assert(has_email(self@, email@));
                }
                true
            },
            None => false,
        }
    }

    /// Whether some user carries this display name.
    pub fn contains_display_name(&self, display_name: &str) -> (r: bool)
        ensures
            r == has_display_name(self@, display_name@),
    {
        let display_name_owned = String::from_str(display_name);
        match self.display_name_position(&display_name_owned) {
            Some(_) => {
                proof {
                    assert(has_display_name(self@, display_name@));
                }
                true
            },
            None => false,
        }
    }

    /// Inserts a user. The email, the display name and the identifier must
    /// each be new; the first of them that is not decides the error, the
    /// email checked first, as the uniqueness constraints of the underlying
    /// table report them.
    pub fn add_user(&mut self, email: &str, password: &str, display_name: &str, uuid: &str) -> (r:
        Result<(), UserDbError>)
        requires
            users_wf(old(self)@),
        ensures
            users_wf(final(self)@),
            r is Ok <==> (!has_email(old(self)@, email@) && !has_display_name(
                old(self)@,
                display_name@,
            ) && !has_uuid(old(self)@, uuid@)),
            r is Ok ==> final(self)@ =~= old(self)@.push(
                UserRecord {
                    email: email@,
                    password: password@,
                    display_name: display_name@,
                    uuid: uuid@,
                    email_verified: false,
                },
            ),
            r is Err ==> final(self)@ == old(self)@,
            r == Err::<(), UserDbError>(UserDbError::UserWithEmailAlreadyExist) <==> has_email(
                old(self)@,
                email@,
            ),
            r == Err::<(), UserDbError>(UserDbError::UserWithDisplayNameAlreadyExist) <==> (
            !has_email(old(self)@, email@) && has_display_name(old(self)@, display_name@)),
            r == Err::<(), UserDbError>(UserDbError::GenericError) <==> (!has_email(
                old(self)@,
                email@,
            ) && !has_display_name(old(self)@, display_name@) && has_uuid(old(self)@, uuid@)),
    {
        let email_owned = String::from_str(email);
        let password_owned = String::from_str(password);
        let display_name_owned = String::from_str(display_name);
        let uuid_owned = String::from_str(uuid);
        if self.email_position(&email_owned).is_some() {
            return Err(UserDbError::UserWithEmailAlreadyExist);
        }
        if self.display_name_position(&display_name_owned).is_some() {
            return Err(UserDbError::UserWithDisplayNameAlreadyExist);
        }
        if self.uuid_position(&uuid_owned).is_some() {
            return Err(UserDbError::GenericError);
        }
        let row = UserRow {
            email: email_owned,
            password: password_owned,
            display_name: display_name_owned,
            uuid: uuid_owned,
            email_verified: false,
        };
        self.users.push(row);
        proof {
            assert(final(self)@ =~= old(self)@.push(
                UserRecord {
                    email: email@,
                    password: password@,
                    display_name: display_name@,
                    uuid: uuid@,
                    email_verified: false,
                },
            ));
        }
        Ok(())
    }

    /// The stored password hash of the user with this email.
    pub fn get_password_from_email(&self, email: &str) -> (r: Result<String, UserDbError>)
        requires
            users_wf(self@),
        ensures
            r is Ok <==> has_email(self@, email@),
            r matches Ok(p) ==> p@ == record_of_email(self@, email@).password,
            r is Err ==> r == Err::<String, UserDbError>(UserDbError::UserNotFound),
    {
        let email_owned = String::from_str(email);
        match self.email_position(&email_owned) {
            Some(i) => {
                proof {
                    lemma_email_index_is_unique(self@, email@, i as int);
                }
                Ok(self.users[i].password.clone())
            },
            None => Err(UserDbError::UserNotFound),
        }
    }

    /// The user with this email, without the password hash.
    pub fn get_user_from_email(&self, email: &str) -> (r: Result<User, UserDbError>)
        requires
            users_wf(self@),
        ensures
            r is Ok <==> has_email(self@, email@),
            r matches Ok(u) ==> u.uuid@ == record_of_email(self@, email@).uuid && u.display_name@
                == record_of_email(self@, email@).display_name && u.email@ == email@,
            r is Err ==> r == Err::<User, UserDbError>(UserDbError::UserNotFound),
    {
        let email_owned = String::from_str(email);
        match self.email_position(&email_owned) {
            Some(i) => {
                proof {
                    lemma_email_index_is_unique(self@, email@, i as int);
                }
                Ok(
                    User {
                        uuid: self.users[i].uuid.clone(),
                        display_name: self.users[i].display_name.clone(),
                        email: email_owned,
                    },
                )
            },
            None => Err(UserDbError::UserNotFound),
        }
    }
}

} // verus!
