use vstd::prelude::*;
use vstd::string::StringSliceAdditionalSpecFns;

use crate::auth::{Auth, RoleLv};
use crate::cursor::{b64_encode, base64_encode};
use crate::error::{status_code_of, status_message_of, Error, StatusCode};
use crate::hash::{agree_on_common_prefix, hash, hash_eq, spec_hash};
use vstd::utf8::encode_utf8;

use crate::time::{into_chrono, spec_into_chrono, spec_is_after, DateTime, Timestamp};

verus! {

/// The role a new user gets, checked against the role of its creator. Only
/// super users may create users; a creator ranked above the configured
/// default role must also be an admin and may not create a user ranked above
/// itself.
pub fn create_user_check(perm: RoleLv, new_perm: RoleLv, default_role: Option<RoleLv>) -> (res: Result<(), Error>)
    ensures
        perm.spec_level() < RoleLv::Super.spec_level() ==> res == Err::<(), Error>(
            Error::RequirePermission(RoleLv::Super),
        ),
        perm.spec_level() >= RoleLv::Super.spec_level() ==> {
            let default_level: int = match default_role {
                Some(r) => r.spec_level(),
                None => 0,
            };
            if perm.spec_level() > default_level {
                if perm.spec_level() < RoleLv::Admin.spec_level() {
                    res == Err::<(), Error>(Error::RequirePermission(RoleLv::Admin))
                } else if new_perm.spec_level() > perm.spec_level() {
                    res == Err::<(), Error>(Error::RequirePermission(new_perm))
                } else {
                    res is Ok
                }
            } else {
                res is Ok
            }
        },
{
    perm.super_user()?;
    let default_level: u8 = match default_role {
        Some(r) => r.level(),
        None => 0,
    };
    if perm.level() > default_level {
        perm.admin()?;
        if new_perm.level() > perm.level() {
            return Err(Error::RequirePermission(new_perm));
        }
    }
    Ok(())
}

/// Updating a user takes an admin; a new role, if given, may not rank above
/// the updater. Returns the rank to store for the new role.
pub fn update_user_check(perm: RoleLv, new_perm: Option<RoleLv>) -> (res: Result<Option<u8>, Error>)
    ensures
        perm.spec_level() < RoleLv::Admin.spec_level() ==> res == Err::<Option<u8>, Error>(
            Error::RequirePermission(RoleLv::Admin),
        ),
        perm.spec_level() >= RoleLv::Admin.spec_level() ==> res == (match new_perm {
            None => Ok(None),
            Some(r) => if r.spec_level() > perm.spec_level() {
                Err(Error::RequirePermission(r))
            } else {
                Ok(Some(r.spec_level() as u8))
            },
        }),
{
    perm.admin()?;
    match new_perm {
        None => Ok(None),
        Some(r) => {
            if perm.level() < r.level() {
                return Err(Error::RequirePermission(r));
            }
            Ok(Some(r.level()))
        },
    }
}

/// Whether a caller may join a contest: a contest with a password needs one
/// whose hash matches, and a contest that has a start time must have
/// started.
pub open spec fn spec_join_check(
    stored: Option<Seq<u8>>,
    given: Option<Seq<u8>>,
    salt: Seq<u8>,
    begin: Option<DateTime>,
    now: DateTime,
) -> Result<(), Error> {
    match stored {
        Some(tar) => match given {
            None => Err(Error::NotInPayload("password")),
            Some(p) => if !agree_on_common_prefix(spec_hash(p, salt), tar) {
                Err(Error::PremissionDeny("mismatched password"))
            } else {
                begin_check(begin, now)
            },
        },
        None => begin_check(begin, now),
    }
}

pub open spec fn begin_check(begin: Option<DateTime>, now: DateTime) -> Result<(), Error> {
    match begin {
        Some(b) => if spec_is_after(b, now) {
            Err(Error::PremissionDeny("contest not begin"))
        } else {
            Ok(())
        },
        None => Ok(()),
    }
}

/// Checks a request to join a contest.
pub fn join_contest_check(
    stored: &Option<Vec<u8>>,
    given: Option<&str>,
    salt: &str,
    begin: Option<DateTime>,
    now: DateTime,
) -> (res: Result<(), Error>)
    ensures
        res == spec_join_check(
            match *stored {
                Some(v) => Some(v@),
                None => None,
            },
            match given {
                Some(p) => Some(p.spec_bytes()),
                None => None,
            },
            salt.spec_bytes(),
            begin,
            now,
        ),
{
    if let Some(tar) = stored {
        let password = match given {
            Some(p) => p,
            None => return Err(Error::NotInPayload("password")),
        };
        if !hash_eq(password, salt, tar) {
            return Err(Error::PremissionDeny("mismatched password"));
        }
    }
    if let Some(b) = begin {
        if b.is_after(&now) {
            return Err(Error::PremissionDeny("contest not begin"));
        }
    }
    Ok(())
}

/// A caller who gives the password that was set on a contest may join it
/// once it has started.
pub proof fn lemma_join_with_set_password(password: Seq<u8>, salt: Seq<u8>, begin: Option<DateTime>, now: DateTime)
    requires
        match begin {
            Some(b) => !spec_is_after(b, now),
            None => true,
        },
    ensures
        spec_join_check(Some(spec_hash(password, salt)), Some(password), salt, begin, now) is Ok,
{
}

/// Whether a problem may be added to a contest, given the contest that the
/// pending change to the problem already sets: a change that sets one is
/// refused. A problem just read from the store carries no pending change,
/// so the check lets it through whatever contest it is stored with.
pub fn link_problem_check(contest_id: Option<i32>) -> (res: Result<(), Error>)
    ensures
        res == (match contest_id {
            Some(_) => Err(Error::AlreadyExist("problem already linked")),
            None => Ok(()),
        }),
{
    match contest_id {
        Some(_) => Err(Error::AlreadyExist("problem already linked")),
        None => Ok(()),
    }
}

/// Whether submitting to a problem needs the caller to be in the problem's
/// contest: so it is for a private problem of another user.
pub fn submit_needs_contest(problem_owner: i32, problem_public: bool, user_id: i32) -> (res: bool)
    ensures
        res == (problem_owner != user_id && !problem_public),
{
    problem_owner != user_id && !problem_public
}

/// A removal that touched no row found nothing to remove.
pub fn removal_result(rows_affected: u64, what: &'static str) -> (res: Result<(), Error>)
    ensures
        res == (if rows_affected == 0 {
            Err(Error::NotInDB(what))
        } else {
            Ok(())
        }),
{
    if rows_affected == 0 {
        Err(Error::NotInDB(what))
    } else {
        Ok(())
    }
}

/// The most whole seconds that chrono's `TimeDelta` holds:
/// `i64::MAX / 1000`.
pub const MAX_DELTA_SECS: u64 = 9_223_372_036_854_775;

/// Calls `chrono::Duration::from_std` on `std::time::Duration::from_secs`
/// and reports whether it succeeded. Claimed, from chrono's source: it
/// succeeds exactly when the seconds are at most `i64::MAX / 1000`.
#[verifier::external_body]
fn chrono_accepts_duration(secs: u64) -> (res: bool)
    ensures
        res == (secs <= MAX_DELTA_SECS),
{
    chrono::Duration::from_std(std::time::Duration::from_secs(secs)).is_ok()
}

/// The default lifetime of a token: twelve hours.
pub const DEFAULT_TOKEN_SECS: u64 = 43200;

/// The lifetime of a new token in seconds: the one asked for, or twelve
/// hours; one that chrono cannot hold is a bad argument.
pub fn token_lifetime(expiry: Option<u64>) -> (res: Result<u64, Error>)
    ensures
        ({
            let secs = match expiry {
                Some(s) => s,
                None => DEFAULT_TOKEN_SECS,
            };
            res == if secs <= MAX_DELTA_SECS {
                Ok(secs)
            } else {
                Err(Error::BadArgument("expiry"))
            }
        }),
{
    let secs: u64 = match expiry {
        Some(s) => s,
        None => DEFAULT_TOKEN_SECS,
    };
    if chrono_accepts_duration(secs) {
        Ok(secs)
    } else {
        Err(Error::BadArgument("expiry"))
    }
}

/// Publishing and linking need a logged-in caller that holds the capability
/// or is root.
pub fn capability_gate(auth: &Auth, granted: bool, denial: &'static str) -> (res: Result<(i32, RoleLv), Error>)
    ensures
        res == (match *auth {
            Auth::Guest => Err(Error::PremissionDeny("Guest is not allow in this endpoint")),
            Auth::User((id, p)) => if !granted && p != RoleLv::Root {
                Err(Error::PremissionDeny(denial))
            } else {
                Ok((id, p))
            },
        }),
{
    let (id, perm) = auth.ok_or_default()?;
    let root = match perm {
        RoleLv::Root => true,
        _ => false,
    };
    if !granted && !root {
        return Err(Error::PremissionDeny(denial));
    }
    Ok((id, perm))
}

/// The owner of a newly created entity: a root caller owns it directly;
/// anyone else goes through the entity's own creation check.
pub fn creator_id(auth: &Auth, can_create: Result<i32, Error>) -> (res: Result<i32, Error>)
    ensures
        res == (match *auth {
            Auth::User((id, p)) => if p == RoleLv::Root {
                Ok(id)
            } else {
                can_create
            },
            Auth::Guest => can_create,
        }),
{
    match auth {
        Auth::User((id, RoleLv::Root)) => Ok(*id),
        _ => can_create,
    }
}

/// What the token header of a request came to.
#[derive(Clone, Copy, Debug, PartialEq, Eq)]
pub enum TokenCheck {
    /// The request carries no token.
    Missing,
    /// The token belongs to this user.
    Valid((i32, RoleLv)),
    /// The token is unknown.
    Unknown,
    /// Verifying the token failed.
    Failed,
}

/// Who a request comes from: a guest without a token, the token's user
/// with a valid one. An unknown token is refused as not existing, and a
/// token the store could not check as failing verification; both answer
/// the client "unauthenticated" with that reason.
pub fn auth_from_token(check: TokenCheck) -> (res: Result<Auth, Error>)
    ensures
        res == (match check {
            TokenCheck::Missing => Ok(Auth::Guest),
            TokenCheck::Valid(u) => Ok(Auth::User(u)),
            TokenCheck::Unknown => Err(Error::TokenNotExist),
            TokenCheck::Failed => Err(Error::TokenVerificationFailed),
        }),
        res matches Err(e) ==> status_code_of(e) == StatusCode::Unauthenticated,
        check is Unknown ==> (res matches Err(e) && status_message_of(e) == "Token does not exist"@),
        check is Failed ==> (res matches Err(e) && status_message_of(e)
            == "Token verification failed"@),
{
    match check {
        TokenCheck::Missing => Ok(Auth::Guest),
        TokenCheck::Valid(u) => Ok(Auth::User(u)),
        TokenCheck::Unknown => Err(Error::TokenNotExist),
        TokenCheck::Failed => Err(Error::TokenVerificationFailed),
    }
}

/// The value that a text parses to as a UUID, if it is one.
pub uninterp spec fn uuid_parse(text: Seq<char>) -> Option<u128>;

/// Calls `uuid::Uuid::parse_str` and reads the UUID as a number. Claimed:
/// the outcome depends on the text alone. Which texts parse is not stated.
#[verifier::external_body]
fn parse_uuid(text: &str) -> (res: Option<u128>)
    ensures
        res == uuid_parse(text@),
{
    match uuid::Uuid::parse_str(text) {
        Ok(u) => Some(u.as_u128()),
        Err(_) => None,
    }
}

/// The client-chosen id that makes a request idempotent; one that is not a
/// UUID is refused.
pub fn parse_request_id(text: &str) -> (res: Result<u128, Error>)
    ensures
        res == (match uuid_parse(text@) {
            Some(u) => Ok(u),
            None => Err(Error::InvaildUUID),
        }),
{
    match parse_uuid(text) {
        Some(u) => Ok(u),
        None => Err(Error::InvaildUUID),
    }
}

/// The text of a login token that the client receives: its random bytes
/// in unpadded standard Base64.
pub fn token_text(rand: &Vec<u8>) -> (res: String)
    ensures
        res@ == base64_encode(rand@),
{
    b64_encode(rand.as_slice())
}

/// Creating a contest, a problem, an announcement, an education or a test
/// case takes a logged-in super user; gives its id and role.
pub fn require_super(auth: &Auth) -> (res: Result<(i32, RoleLv), Error>)
    ensures
        res == (match *auth {
            Auth::Guest => Err(Error::Unauthenticated),
            Auth::User((id, p)) => if p.spec_level() >= RoleLv::Super.spec_level() {
                Ok((id, p))
            } else {
                Err(Error::RequirePermission(RoleLv::Super))
            },
        }),
{
    let (user_id, perm) = auth.assume_login()?;
    perm.super_user()?;
    Ok((user_id, perm))
}

/// Checks a password against the stored hash, refusing with `denial`.
pub fn password_check(stored: &Vec<u8>, given: &str, salt: &str, denial: &'static str) -> (res: Result<(), Error>)
    ensures
        res == (if agree_on_common_prefix(spec_hash(given.spec_bytes(), salt.spec_bytes()), stored@) {
            Ok(())
        } else {
            Err(Error::PremissionDeny(denial))
        }),
{
    if hash_eq(given, salt, stored) {
        Ok(())
    } else {
        Err(Error::PremissionDeny(denial))
    }
}

/// What an update asks of a contest's password.
pub enum PasswordUpdate {
    Keep,
    Unset,
    Replace(String),
}

/// The bytes of an optional byte vector.
pub open spec fn opt_bytes(o: Option<Vec<u8>>) -> Option<Seq<u8>> {
    match o {
        Some(v) => Some(v@),
        None => None,
    }
}

/// A contest's password hash through an update: the value the update puts
/// on the contest record it read, and the value the store keeps.
#[derive(Debug, PartialEq, Eq)]
pub struct ContestPassword {
    pub record: Option<Vec<u8>>,
    pub stored: Option<Vec<u8>>,
}

/// A contest's password hash through an update. The update sets the new
/// hash (or none) on the record it read, and only after that turns the
/// record into the change it sends to the store; such a change marks every
/// column as unchanged, so the store keeps the password the contest had.
pub fn contest_password_after(current: Option<Vec<u8>>, update: PasswordUpdate, salt: &str) -> (res: ContestPassword)
    ensures
        opt_bytes(res.stored) == opt_bytes(current),
        match update {
            PasswordUpdate::Keep => opt_bytes(res.record) == opt_bytes(current),
            PasswordUpdate::Unset => res.record is None,
            PasswordUpdate::Replace(p) => res.record matches Some(h) && h@ == spec_hash(
                encode_utf8(p@),
                salt.spec_bytes(),
            ),
        },
{
    let record = match update {
        PasswordUpdate::Unset => None,
        PasswordUpdate::Replace(p) => Some(hash(p.as_str(), salt)),
        PasswordUpdate::Keep => match &current {
            Some(v) => Some(copy_bytes(v)),
            None => None,
        },
    };
    ContestPassword { record, stored: current }
}

/// A copy of some bytes.
fn copy_bytes(v: &Vec<u8>) -> (res: Vec<u8>)
    ensures
        res@ == v@,
{
    let mut res: Vec<u8> = Vec::new();
    let mut i: usize = 0;
    while i < v.len()
        invariant
            i <= v@.len(),
            res@ == v@.subrange(0, i as int),
        decreases v@.len() - i,
    {
        res.push(v[i]);
        i = i + 1;
    }
    assert(v@.subrange(0, v@.len() as int) == v@);
    res
}

/// What an update asks of a contest's end.
pub enum EndUpdate {
    Keep,
    Unset,
    Replace(Timestamp),
}

/// The new end of a contest, or `None` to leave it as it is. Asking to
/// unset the end leaves it as it is too.
pub fn contest_end_after(update: EndUpdate) -> (res: Option<DateTime>)
    ensures
        match update {
            EndUpdate::Replace(t) => res == Some(spec_into_chrono(t)),
            _ => res is None,
        },
{
    match update {
        EndUpdate::Replace(t) => Some(into_chrono(t)),
        _ => None,
    }
}

/// Rejudging a submission takes a logged-in super user and a request id
/// that is a UUID; gives the user's id and the request id.
pub fn rejudge_check(auth: &Auth, request_id: &str) -> (res: Result<(i32, u128), Error>)
    ensures
        res == (match *auth {
            Auth::Guest => Err(Error::Unauthenticated),
            Auth::User((id, p)) => if p.spec_level() < RoleLv::Super.spec_level() {
                Err(Error::RequirePermission(RoleLv::Super))
            } else {
                match uuid_parse(request_id@) {
                    Some(u) => Ok((id, u)),
                    None => Err(Error::InvaildUUID),
                }
            },
        }),
{
    let (user_id, perm) = auth.assume_login()?;
    if !perm.at_least(RoleLv::Super) {
        return Err(Error::RequirePermission(RoleLv::Super));
    }
    let uuid = parse_request_id(request_id)?;
    Ok((user_id, uuid))
}

/// Posting a chat message takes a logged-in caller and a request id that is
/// a UUID; gives the user's id and the request id.
pub fn chat_create_check(auth: &Auth, request_id: &str) -> (res: Result<(i32, u128), Error>)
    ensures
        res == (match *auth {
            Auth::Guest => Err(Error::Unauthenticated),
            Auth::User((id, _)) => match uuid_parse(request_id@) {
                Some(u) => Ok((id, u)),
                None => Err(Error::InvaildUUID),
            },
        }),
{
    let (user_id, _) = auth.assume_login()?;
    let uuid = parse_request_id(request_id)?;
    Ok((user_id, uuid))
}


/// Refreshing a login token, and logging out, act on the token the request
/// carries; a request without one is unauthenticated.
pub fn require_token(token: Option<String>) -> (res: Result<String, Error>)
    ensures
        match token {
            Some(t) => res == Ok::<String, Error>(t),
            None => res == Err::<String, Error>(Error::Unauthenticated),
        },
{
    match token {
        Some(t) => Ok(t),
        None => Err(Error::Unauthenticated),
    }
}

/// A field after an update that may leave it out: the new value when the
/// update gives one, the current value otherwise.
pub fn fill_exist<T>(current: T, update: Option<T>) -> (res: T)
    ensures
        res == (match update {
            Some(x) => x,
            None => current,
        }),
{
    match update {
        Some(x) => x,
        None => current,
    }
}

/// What the judger is asked to run: the code in a language, for a user and
/// a problem, within the problem's time and memory limits.
#[derive(Debug, PartialEq, Eq)]
pub struct JudgeRequest {
    pub user: i32,
    pub problem: i32,
    pub time_limit: i64,
    pub memory_limit: i64,
    pub code: Vec<u8>,
    pub lang: u128,
}

/// The judge request for a submission, or for a rejudge of one: `user` is
/// the caller (for a rejudge, the one who asked for it), the limits are the
/// problem's, and the language, named by a UUID, must parse.
pub fn judge_request(
    user: i32,
    problem_id: i32,
    time: i64,
    memory: i64,
    code: Vec<u8>,
    lang: &str,
) -> (res: Result<JudgeRequest, Error>)
    ensures
        match uuid_parse(lang@) {
            Some(l) => res matches Ok(r) && r.user == user && r.problem == problem_id && r.time_limit
                == time && r.memory_limit == memory && r.code@ == code@ && r.lang == l,
            None => res == Err::<JudgeRequest, Error>(Error::InvaildUUID),
        },
{
    let lang = parse_request_id(lang)?;
    Ok(JudgeRequest { user, problem: problem_id, time_limit: time, memory_limit: memory, code, lang })
}


/// A contest with a password is closed to anyone who gives none or a
/// wrong one, and a contest that has not begun is closed to everyone; a
/// contest with no password that has begun (or has no start) is open.
pub proof fn lemma_join_refusals(
    stored: Option<Seq<u8>>,
    given: Option<Seq<u8>>,
    salt: Seq<u8>,
    begin: Option<DateTime>,
    now: DateTime,
)
    ensures
        (stored is Some && given is None) ==> spec_join_check(stored, given, salt, begin, now)
            == Err::<(), Error>(Error::NotInPayload("password")),
        (stored matches Some(t) && given matches Some(p) && !agree_on_common_prefix(spec_hash(p, salt), t))
            ==> spec_join_check(stored, given, salt, begin, now) is Err,
        (begin matches Some(b) && spec_is_after(b, now)) ==> spec_join_check(
            stored,
            given,
            salt,
            begin,
            now,
        ) is Err,
        (stored is None && match begin {
            Some(b) => !spec_is_after(b, now),
            None => true,
        }) ==> spec_join_check(stored, given, salt, begin, now) is Ok,
{
}

} // verus!
