//! The boundary operations of the service: register, login, authenticate,
//! and the post operations scoped to an authenticated identity.
//!
//! Registration hashes before storing — a plaintext password never reaches
//! the store. Login collapses an unknown email and a wrong password into the
//! one same error, so a caller cannot enumerate accounts. A post operation
//! selects its partition by the identifier inside the validated identity and
//! nothing else, so a user can only ever address their own partition.

use vstd::prelude::*;

use crate::auth_gate::{authenticate_at, is_token_space, trimmed_token, UserAuthentication};
use crate::errors::{AuthError, LoginError, RegisterError, UserPostError};
use crate::hashing::{bcrypt_matches, hash_password, verify_password};
use crate::ids::fresh_uuid;
use crate::post_store::{
    has_partition, has_post, parts_wf, partition_index, post_of, posts_of, post_index,
    lemma_partition_index_is_unique, lemma_post_index_is_unique, PartitionRecord, Post, PostDb,
    PostRecord,
};
use crate::settings::EnvSettings;
use crate::token::{issue, jwt_of, now_timestamp};
use crate::user_store::{
    has_display_name, has_email, has_uuid, record_of_email, users_wf, User, UserDbService,
    UserRecord,
};

verus! {

/// Inserts a user whose password is already hashed. Exact: the outcome is
/// decided by the three uniqueness checks alone, the email's first, then
/// the display name's, then the identifier's.
pub fn register_hashed(
    user_db_service: &mut UserDbService,
    email: &str,
    password_hash: &str,
    display_name: &str,
    uuid: &str,
) -> (r: Result<(), RegisterError>)
    requires
        users_wf(old(user_db_service)@),
    ensures
        users_wf(final(user_db_service)@),
        r is Ok <==> (!has_email(old(user_db_service)@, email@) && !has_display_name(
            old(user_db_service)@,
            display_name@,
        ) && !has_uuid(old(user_db_service)@, uuid@)),
        r is Ok ==> final(user_db_service)@ =~= old(user_db_service)@.push(
            UserRecord {
                email: email@,
                password: password_hash@,
                display_name: display_name@,
                uuid: uuid@,
                email_verified: false,
            },
        ),
        r is Err ==> final(user_db_service)@ == old(user_db_service)@,
        r == Err::<(), RegisterError>(RegisterError::EmailAlreadyExist) <==> has_email(
            old(user_db_service)@,
            email@,
        ),
        r == Err::<(), RegisterError>(RegisterError::DisplayNameAlreadyExist) <==> (!has_email(
            old(user_db_service)@,
            email@,
        ) && has_display_name(old(user_db_service)@, display_name@)),
        r == Err::<(), RegisterError>(RegisterError::GenericError) <==> (!has_email(
            old(user_db_service)@,
            email@,
        ) && !has_display_name(old(user_db_service)@, display_name@) && has_uuid(
            old(user_db_service)@,
            uuid@,
        )),
{
    match user_db_service.add_user(email, password_hash, display_name, uuid) {
        Ok(()) => Ok(()),
        Err(db_err) => Err(RegisterError::from(db_err)),
    }
}

/// Registers a user: generates an identifier, hashes the password, inserts.
///
/// Both conflicts are exact, checked before the password is hashed: a taken
/// email fails with `EmailAlreadyExist`, and a taken display name under a
/// new email fails with `DisplayNameAlreadyExist` — nothing else ever
/// surfaces as either. On success the store grew by exactly the new user: a
/// 60-character hash in place of the password, and a fresh identifier no
/// stored user had. `GenericError` is the residue of the outside world (the
/// hasher's randomness source failing, or the generated identifier
/// colliding), and never arises from a taken email or display name.
pub fn register(user_db_service: &mut UserDbService, email: &str, password: &str, display_name: &str)
    -> (r: Result<String, RegisterError>)
    requires
        users_wf(old(user_db_service)@),
    ensures
        users_wf(final(user_db_service)@),
        r is Err ==> final(user_db_service)@ == old(user_db_service)@,
        r == Err::<String, RegisterError>(RegisterError::EmailAlreadyExist) <==> has_email(
            old(user_db_service)@,
            email@,
        ),
        r == Err::<String, RegisterError>(RegisterError::DisplayNameAlreadyExist) <==> (!has_email(
            old(user_db_service)@,
            email@,
        ) && has_display_name(old(user_db_service)@, display_name@)),
        r matches Ok(uid) ==> {
            &&& !has_email(old(user_db_service)@, email@)
            &&& !has_display_name(old(user_db_service)@, display_name@)
            &&& !has_uuid(old(user_db_service)@, uid@)
            &&& uid@.len() == 36
            &&& exists|h: Seq<char>|
                #[trigger] bcrypt_matches(password@, h) && h.len() == 60 && final(user_db_service)@
                    =~= old(user_db_service)@.push(
                    UserRecord {
                        email: email@,
                        password: h,
                        display_name: display_name@,
                        uuid: uid@,
                        email_verified: false,
                    },
                )
        },
        r == Err::<String, RegisterError>(RegisterError::GenericError) ==> (!has_email(
            old(user_db_service)@,
            email@,
        ) && !has_display_name(old(user_db_service)@, display_name@)),
{
    let uuid = fresh_uuid();
    if user_db_service.contains_email(email) {
        return Err(RegisterError::EmailAlreadyExist);
    }
    if user_db_service.contains_display_name(display_name) {
        return Err(RegisterError::DisplayNameAlreadyExist);
    }
    let hashed_password = match hash_password(password) {
        Some(h) => h,
        None => {
            return Err(RegisterError::GenericError);
        },
    };
    match register_hashed(user_db_service, email, hashed_password.as_str(), display_name, &uuid) {
        Ok(()) => Ok(uuid),
        Err(e) => Err(e),
    }
}

/// Checks a password against the stored hash of the user with this email.
/// Exact: a user comes back if and only if the email is stored and the
/// password verifies against its hash — and the caller cannot tell which of
/// the two failed.
pub fn verify_credentials(user_db_service: &UserDbService, email: &str, password: &str) -> (r:
    Option<User>)
    requires
        users_wf(user_db_service@),
    ensures
        r is Some <==> (has_email(user_db_service@, email@) && bcrypt_matches(
            password@,
            record_of_email(user_db_service@, email@).password,
        )),
        r matches Some(u) ==> u.uuid@ == record_of_email(user_db_service@, email@).uuid
            && u.display_name@ == record_of_email(user_db_service@, email@).display_name
            && u.email@ == email@,
{
    let password_from_db = match user_db_service.get_password_from_email(email) {
        Ok(p) => p,
        Err(_) => {
            return None;
        },
    };
    if !verify_password(password, password_from_db.as_str()) {
        return None;
    }
    match user_db_service.get_user_from_email(email) {
        Ok(user) => Some(user),
        Err(_) => None,
    }
}

/// Logs a user in at time `now`: verifies the credentials and issues a
/// token expiring exactly the configured window later. Exact: login
/// succeeds if and only if the email is stored and the password verifies
/// against its hash, returning the token and the user's identifier; wrong
/// password and unknown email fail with the one same error.
pub fn login_at(
    user_db_service: &UserDbService,
    secret: &str,
    expiration_minutes: i64,
    now: i64,
    email: &str,
    password: &str,
) -> (r: Result<(String, String), LoginError>)
    requires
        users_wf(user_db_service@),
        0 < expiration_minutes,
        0 <= now,
        now + expiration_minutes * 60 <= u64::MAX,
    ensures
        r is Err ==> r == Err::<(String, String), LoginError>(LoginError::InvalidEmailOrPassword),
        r is Ok <==> (has_email(user_db_service@, email@) && bcrypt_matches(
            password@,
            record_of_email(user_db_service@, email@).password,
        )),
        r matches Ok(p) ==> {
            &&& p.1@ == record_of_email(user_db_service@, email@).uuid
            &&& p.0@ == jwt_of(secret@, (now + expiration_minutes * 60) as u64, p.1@)
            &&& p.0@.len() > 0
            &&& !is_token_space(p.0@[0])
            &&& !is_token_space(p.0@[p.0@.len() - 1])
        },
{
    let auth_user = match verify_credentials(user_db_service, email, password) {
        Some(u) => u,
        None => {
            return Err(LoginError::InvalidEmailOrPassword);
        },
    };
    let (jwt_token, _exp) = issue(auth_user.uuid.as_str(), expiration_minutes, secret, now);
    Ok((jwt_token, auth_user.uuid))
}

/// Logs a user in at the clock's current time, under the process
/// configuration. What `login_at` promises holds with the clock reading for
/// `now`; a clock outside the issuable range fails like bad credentials do.
pub fn login(
    user_db_service: &UserDbService,
    env_settings: &EnvSettings,
    email: &str,
    password: &str,
) -> (r: Result<(String, String), LoginError>)
    requires
        users_wf(user_db_service@),
        env_settings.wf(),
    ensures
        r is Err ==> r == Err::<(String, String), LoginError>(LoginError::InvalidEmailOrPassword),
        !(has_email(user_db_service@, email@) && bcrypt_matches(
            password@,
            record_of_email(user_db_service@, email@).password,
        )) ==> r is Err,
        r matches Ok(p) ==> {
            &&& has_email(user_db_service@, email@)
            &&& bcrypt_matches(password@, record_of_email(user_db_service@, email@).password)
            &&& p.1@ == record_of_email(user_db_service@, email@).uuid
            &&& exists|e: u64| p.0@ == #[trigger] jwt_of(env_settings.user_jwt_secret@, e, p.1@)
            &&& p.0@.len() > 0
            &&& !is_token_space(p.0@[0])
            &&& !is_token_space(p.0@[p.0@.len() - 1])
        },
{
    let now = now_timestamp();
    if now < 0 {
        return Err(LoginError::InvalidEmailOrPassword);
    }
    let window = match (env_settings.user_jwt_expiration_minutes as u64).checked_mul(60) {
        Some(w) => w,
        None => {
            return Err(LoginError::InvalidEmailOrPassword);
        },
    };
    if (now as u64).checked_add(window).is_none() {
        return Err(LoginError::InvalidEmailOrPassword);
    }
    login_at(
        user_db_service,
        env_settings.user_jwt_secret.as_str(),
        env_settings.user_jwt_expiration_minutes,
        now,
        email,
        password,
    )
}

/// Authenticates the raw authorization header value at the clock's current
/// time. What `authenticate_at` promises holds with the clock reading for
/// `now`; only a missing header yields `NoAuthenticationToken`, and a header
/// too short to carry the scheme prefix, or empty once the prefix and the
/// whitespace are stripped, is rejected whatever the clock reads.
pub fn authenticate(header: Option<&str>, env_settings: &EnvSettings) -> (r: Result<
    UserAuthentication,
    AuthError,
>)
    ensures
        r == Err::<UserAuthentication, AuthError>(AuthError::NoAuthenticationToken) <==> header
            is None,
        header matches Some(h) ==> (h@.len() < 6 ==> r == Err::<UserAuthentication, AuthError>(
            AuthError::InvalidAuthenticationToken,
        )),
        header matches Some(h) ==> (h@.len() >= 6 && trimmed_token(h@).len() == 0 ==> r == Err::<
            UserAuthentication,
            AuthError,
        >(AuthError::InvalidAuthenticationToken)),
        r matches Ok(a) ==> (header matches Some(h) && a.token_spec() == h@),
{
    let now = now_timestamp();
    if now < 0 {
        return match header {
            None => Err(AuthError::NoAuthenticationToken),
            Some(_) => Err(AuthError::InvalidAuthenticationToken),
        };
    }
    authenticate_at(header, env_settings.user_jwt_secret.as_str(), now as u64)
}

/// Stores a new post for the authenticated user — and nobody else: the
/// partition written is selected by the identifier inside the authenticated
/// identity, never by client-supplied input. The promises of the store's own
/// operation hold with that identifier for the user.
pub fn create_post(post_db: &mut PostDb, user: &UserAuthentication, title: &str, body: &str) -> (r:
    Result<String, UserPostError>)
    requires
        parts_wf(old(post_db)@),
    ensures
        parts_wf(final(post_db)@),
        r matches Ok(pid) ==> {
            let rec = PostRecord { uuid: pid@, title: title@, body: body@ };
            if has_partition(old(post_db)@, user.uuid_spec()) {
                &&& !has_post(posts_of(old(post_db)@, user.uuid_spec()), pid@)
                &&& final(post_db)@ =~= old(post_db)@.update(
                    partition_index(old(post_db)@, user.uuid_spec()),
                    PartitionRecord {
                        user_uuid: user.uuid_spec(),
                        posts: posts_of(old(post_db)@, user.uuid_spec()).push(rec),
                    },
                )
            } else {
                final(post_db)@ =~= old(post_db)@.push(
                    PartitionRecord { user_uuid: user.uuid_spec(), posts: seq![rec] },
                )
            }
        },
        r is Err ==> final(post_db)@ == old(post_db)@ && r == Err::<String, UserPostError>(
            UserPostError::GenericError,
        ) && has_partition(old(post_db)@, user.uuid_spec()),
{
    post_db.create_post(user.uuid().as_str(), title, body)
}

/// Reads one of the authenticated user's posts; only their own partition is
/// ever consulted.
pub fn get_post(post_db: &PostDb, user: &UserAuthentication, post_uuid: &str) -> (r: Result<
    Post,
    UserPostError,
>)
    requires
        parts_wf(post_db@),
    ensures
        r is Ok <==> (has_partition(post_db@, user.uuid_spec()) && has_post(
            posts_of(post_db@, user.uuid_spec()),
            post_uuid@,
        )),
        r matches Ok(p) ==> p@ == post_of(posts_of(post_db@, user.uuid_spec()), post_uuid@),
        r is Err ==> r == Err::<Post, UserPostError>(UserPostError::PostNotFound),
{
    post_db.get_post(user.uuid().as_str(), post_uuid)
}

/// Lists the authenticated user's posts, at most the listing cap of them;
/// only their own partition is ever consulted. A user with no partition —
/// nothing was ever stored for them — gets `PostNotFound`.
pub fn list_posts(post_db: &PostDb, user: &UserAuthentication) -> (r: Result<
    Vec<Post>,
    UserPostError,
>)
    requires
        parts_wf(post_db@),
    ensures
        r is Ok <==> has_partition(post_db@, user.uuid_spec()),
        r matches Ok(v) ==> v@.map_values(|p: Post| p@) =~= posts_of(
            post_db@,
            user.uuid_spec(),
        ).take(
            vstd::math::min(
                posts_of(post_db@, user.uuid_spec()).len() as int,
                crate::post_store::POST_LIST_LIMIT as int,
            ),
        ),
        r is Err ==> r == Err::<Vec<Post>, UserPostError>(UserPostError::PostNotFound),
{
    post_db.list_posts(user.uuid().as_str())
}

/// A post just stored is found again, identical, and nothing else moved:
/// when a store satisfying the invariant goes from `s0` to `s1` by the step
/// that a successful `create_post` of `rec` for `user` promises, the user's
/// partition exists in `s1`, holds `rec` under its identifier, grew by
/// exactly one, and every other user's partition is exactly what it was.
pub proof fn lemma_created_post_is_found(
    s0: Seq<PartitionRecord>,
    s1: Seq<PartitionRecord>,
    user: Seq<char>,
    rec: PostRecord,
)
    requires
        parts_wf(s0),
        has_partition(s0, user) ==> !has_post(posts_of(s0, user), rec.uuid) && s1 =~= s0.update(
            partition_index(s0, user),
            PartitionRecord { user_uuid: user, posts: posts_of(s0, user).push(rec) },
        ),
        !has_partition(s0, user) ==> s1 =~= s0.push(
            PartitionRecord { user_uuid: user, posts: seq![rec] },
        ),
    ensures
        has_partition(s1, user),
        has_post(posts_of(s1, user), rec.uuid),
        post_of(posts_of(s1, user), rec.uuid) == rec,
        posts_of(s1, user).len() == if has_partition(s0, user) {
            posts_of(s0, user).len() + 1
        } else {
            1nat
        },
        forall|other: Seq<char>|
            other != user ==> (#[trigger] has_partition(s1, other) <==> has_partition(s0, other)),
        forall|other: Seq<char>|
            other != user && has_partition(s0, other) ==> #[trigger] posts_of(s1, other)
                == posts_of(s0, other),
{
    if has_partition(s0, user) {
        let i = partition_index(s0, user);
        assert(0 <= i < s0.len() && s0[i].user_uuid == user);
        assert(s1[i].user_uuid == user);
        assert(has_partition(s1, user));
        lemma_partition_index_is_unique_updated(s0, s1, user, rec, i);
    } else {
        let i = s0.len() as int;
        assert(s1[i].user_uuid == user);
        assert(has_partition(s1, user));
        assert forall|x: int, y: int| 0 <= x < y < s1.len() implies (#[trigger] s1[x]).user_uuid
            != (#[trigger] s1[y]).user_uuid by {
            if y == i {
                if s0[x].user_uuid == user {
                    assert(has_partition(s0, user));
                }
            } else {
                assert(s0[x].user_uuid != s0[y].user_uuid);
            }
        }
        assert(parts_wf_users_unique(s1));
        lemma_partition_index_unique_wfless(s1, user, i);
        assert(posts_of(s1, user) == seq![rec]);
        assert(posts_of(s1, user)[0] == rec);
        assert(has_post(posts_of(s1, user), rec.uuid));
        assert(post_index(posts_of(s1, user), rec.uuid) == 0);
        assert forall|other: Seq<char>|
            other != user && #[trigger] has_partition(s0, other) implies has_partition(
            s1,
            other,
        ) by {
            let k = partition_index(s0, other);
            assert(0 <= k < s0.len() && s0[k].user_uuid == other);
            assert(s1[k].user_uuid == other);
        }
        assert forall|other: Seq<char>|
            other != user && #[trigger] has_partition(s1, other) implies has_partition(
            s0,
            other,
        ) by {
            let k = choose|k: int| 0 <= k < s1.len() && s1[k].user_uuid == other;
            assert(k != i);
            assert(s0[k].user_uuid == other);
        }
        assert forall|other: Seq<char>|
            other != user && has_partition(s0, other) implies #[trigger] posts_of(s1, other)
            == posts_of(s0, other) by {
            let k = partition_index(s0, other);
            assert(0 <= k < s0.len() && s0[k].user_uuid == other);
            assert(s1[k].user_uuid == other);
            lemma_partition_index_unique_wfless(s1, other, k);
        }
    }
}

/// Partitions of `s` carry pairwise distinct user identifiers.
spec fn parts_wf_users_unique(s: Seq<PartitionRecord>) -> bool {
    forall|i: int, j: int|
        #![trigger s[i], s[j]]
        0 <= i < j < s.len() ==> s[i].user_uuid != s[j].user_uuid
}

/// Uniqueness of user identifiers alone pins `partition_index`.
proof fn lemma_partition_index_unique_wfless(s: Seq<PartitionRecord>, user: Seq<char>, i: int)
    requires
        parts_wf_users_unique(s),
        0 <= i < s.len(),
        s[i].user_uuid == user,
    ensures
        partition_index(s, user) == i,
{
    assert(has_partition(s, user));
    let j = partition_index(s, user);
    if i < j {
        assert(s[i].user_uuid != s[j].user_uuid);
    } else if j < i {
        assert(s[j].user_uuid != s[i].user_uuid);
    }
}

/// The updated-partition case of `lemma_created_post_is_found`.
proof fn lemma_partition_index_is_unique_updated(
    s0: Seq<PartitionRecord>,
    s1: Seq<PartitionRecord>,
    user: Seq<char>,
    rec: PostRecord,
    i: int,
)
    requires
        parts_wf(s0),
        has_partition(s0, user),
        i == partition_index(s0, user),
        !has_post(posts_of(s0, user), rec.uuid),
        s1 =~= s0.update(
            i,
            PartitionRecord { user_uuid: user, posts: posts_of(s0, user).push(rec) },
        ),
    ensures
        has_partition(s1, user),
        has_post(posts_of(s1, user), rec.uuid),
        post_of(posts_of(s1, user), rec.uuid) == rec,
        posts_of(s1, user).len() == posts_of(s0, user).len() + 1,
        forall|other: Seq<char>|
            other != user ==> (#[trigger] has_partition(s1, other) <==> has_partition(s0, other)),
        forall|other: Seq<char>|
            other != user && has_partition(s0, other) ==> #[trigger] posts_of(s1, other)
                == posts_of(s0, other),
{
    assert(0 <= i < s0.len() && s0[i].user_uuid == user);
    assert(s1[i].user_uuid == user);
    assert(has_partition(s1, user));
    assert forall|x: int, y: int| 0 <= x < y < s1.len() implies (#[trigger] s1[x]).user_uuid
        != (#[trigger] s1[y]).user_uuid by {
        assert(s0[x].user_uuid != s0[y].user_uuid);
        assert(s1[x].user_uuid == s0[x].user_uuid);
        assert(s1[y].user_uuid == s0[y].user_uuid);
    }
    lemma_partition_index_unique_wfless(s1, user, i);
    let ps = posts_of(s0, user).push(rec);
    assert(posts_of(s1, user) == ps);
    assert(ps[ps.len() - 1] == rec);
    assert(has_post(ps, rec.uuid));
    crate::post_store::lemma_posts_wf_push(posts_of(s0, user), rec);
    lemma_post_index_is_unique(ps, rec.uuid, ps.len() - 1);
    assert forall|other: Seq<char>|
        other != user implies (#[trigger] has_partition(s1, other) <==> has_partition(
        s0,
        other,
    )) by {
        if has_partition(s0, other) {
            let k = partition_index(s0, other);
            assert(k != i);
            assert(s1[k].user_uuid == other);
        }
        if has_partition(s1, other) {
            let k = choose|k: int| 0 <= k < s1.len() && s1[k].user_uuid == other;
            assert(k != i);
            assert(s0[k].user_uuid == other);
        }
    }
    assert forall|other: Seq<char>|
        other != user && has_partition(s0, other) implies #[trigger] posts_of(s1, other)
        == posts_of(s0, other) by {
        let k = partition_index(s0, other);
        assert(0 <= k < s0.len() && s0[k].user_uuid == other);
        assert(k != i);
        assert(s1[k].user_uuid == other);
        lemma_partition_index_unique_wfless(s1, other, k);
        lemma_partition_index_is_unique(s0, other, k);
    }
}

/// A user's first post lists alone: after the step a successful first
/// `create_post` promises, the user's partition holds exactly that one
/// post, so a listing returns exactly it.
pub proof fn lemma_first_post_lists_alone(
    s0: Seq<PartitionRecord>,
    s1: Seq<PartitionRecord>,
    user: Seq<char>,
    rec: PostRecord,
)
    requires
        parts_wf(s0),
        !has_partition(s0, user),
        s1 =~= s0.push(PartitionRecord { user_uuid: user, posts: seq![rec] }),
    ensures
        has_partition(s1, user),
        posts_of(s1, user) =~= seq![rec],
{
    lemma_created_post_is_found(s0, s1, user, rec);
    let i = s0.len() as int;
    assert(s1[i].user_uuid == user);
    assert forall|x: int, y: int| 0 <= x < y < s1.len() implies (#[trigger] s1[x]).user_uuid
        != (#[trigger] s1[y]).user_uuid by {
        if y == i {
            if s0[x].user_uuid == user {
                assert(has_partition(s0, user));
            }
        } else {
            assert(s0[x].user_uuid != s0[y].user_uuid);
        }
    }
    lemma_partition_index_unique_wfless(s1, user, i);
}

} // verus!
