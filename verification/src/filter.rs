use vstd::prelude::*;

use crate::auth::{Auth, RoleLv};
use crate::error::Error;

verus! {

/// The tables whose rows a caller may read or write.
#[derive(Clone, Copy, Debug, PartialEq, Eq, Structural)]
pub enum EntityKind {
    Announcement,
    Contest,
    Chat,
    Education,
    Testcase,
    Token,
    Problem,
    Test,
    Submit,
    User,
}

/// What a filter reads of a row. `owner` is the column that names the
/// row's owner (the author, the contest's host, the token's user; for a
/// user row, its own id) and `permission` is a user row's stored rank.
#[derive(Clone, Copy, Debug, PartialEq, Eq, Structural)]
pub struct Row {
    pub id: i32,
    pub owner: i32,
    pub public: bool,
    pub permission: i32,
}

/// The condition that a read or a write is restricted to.
#[derive(Clone, Copy, Debug, PartialEq, Eq, Structural)]
pub enum RowFilter {
    /// Every row.
    All,
    /// Public rows.
    Public,
    /// Public rows and those of the given owner.
    PublicOrOwner(i32),
    /// Rows of the given owner.
    Owner(i32),
    /// User rows ranked below the given level, and the given user's own row.
    PermissionBelowOrSelf(i32, i32),
}

/// Whether a filter lets a row through.
pub open spec fn spec_admits(f: RowFilter, row: Row) -> bool {
    match f {
        RowFilter::All => true,
        RowFilter::Public => row.public,
        RowFilter::PublicOrOwner(id) => row.public || row.owner == id,
        RowFilter::Owner(id) => row.owner == id,
        RowFilter::PermissionBelowOrSelf(level, id) => row.permission < level || row.owner == id,
    }
}

impl RowFilter {
    /// Whether this filter lets `row` through.
    pub fn admits(&self, row: &Row) -> (res: bool)
        ensures
            res == spec_admits(*self, *row),
    {
        match self {
            RowFilter::All => true,
            RowFilter::Public => row.public,
            RowFilter::PublicOrOwner(id) => row.public || row.owner == *id,
            RowFilter::Owner(id) => row.owner == *id,
            RowFilter::PermissionBelowOrSelf(level, id) => row.permission < *level || row.owner
                == *id,
        }
    }
}

pub open spec fn is_admin(r: RoleLv) -> bool {
    r.spec_level() >= RoleLv::Admin.spec_level()
}

pub open spec fn is_super(r: RoleLv) -> bool {
    r.spec_level() >= RoleLv::Super.spec_level()
}

/// Public rows for guests, public and own rows for users and super users,
/// everything for admins.
pub open spec fn public_or_own_read(auth: Auth) -> RowFilter {
    match auth.spec_perm() {
        RoleLv::Guest => RowFilter::Public,
        RoleLv::User | RoleLv::Super => RowFilter::PublicOrOwner(auth.spec_user_id().unwrap()),
        RoleLv::Admin | RoleLv::Root => RowFilter::All,
    }
}

/// Own rows for logged-in callers, everything for admins.
pub open spec fn own_read(auth: Auth) -> Result<RowFilter, Error> {
    match auth {
        Auth::Guest => Err(Error::Unauthenticated),
        Auth::User((id, p)) => Ok(
            match p {
                RoleLv::Admin | RoleLv::Root => RowFilter::All,
                _ => RowFilter::Owner(id),
            },
        ),
    }
}

/// Everything for admins, own rows for super users; others need `Super`.
pub open spec fn super_own_write(auth: Auth) -> Result<RowFilter, Error> {
    match auth {
        Auth::Guest => Err(Error::Unauthenticated),
        Auth::User((id, p)) => match p {
            RoleLv::Admin | RoleLv::Root => Ok(RowFilter::All),
            RoleLv::Super => Ok(RowFilter::Owner(id)),
            _ => Err(Error::RequirePermission(RoleLv::Super)),
        },
    }
}

/// The rows that a caller may read in a table.
pub open spec fn spec_read_filter(kind: EntityKind, auth: Auth) -> Result<RowFilter, Error> {
    match kind {
        EntityKind::Announcement | EntityKind::Contest => Ok(public_or_own_read(auth)),
        EntityKind::Chat | EntityKind::Submit | EntityKind::User => Ok(RowFilter::All),
        EntityKind::Education | EntityKind::Testcase => own_read(auth),
        EntityKind::Token => match auth {
            Auth::Guest => Err(Error::Unauthenticated),
            Auth::User((id, p)) => Ok(
                if p == RoleLv::Root {
                    RowFilter::All
                } else {
                    RowFilter::Owner(id)
                },
            ),
        },
        EntityKind::Problem => match auth {
            Auth::Guest => Ok(RowFilter::Public),
            Auth::User((id, p)) => Ok(
                if is_admin(p) {
                    RowFilter::All
                } else {
                    RowFilter::PublicOrOwner(id)
                },
            ),
        },
        EntityKind::Test => match auth {
            Auth::Guest => Err(Error::NotInDB("testcase")),
            Auth::User((id, p)) => Ok(
                if is_admin(p) {
                    RowFilter::All
                } else {
                    RowFilter::Owner(id)
                },
            ),
        },
    }
}

/// The rows that a caller may change or remove in a table.
pub open spec fn spec_write_filter(kind: EntityKind, auth: Auth) -> Result<RowFilter, Error> {
    match kind {
        EntityKind::Announcement | EntityKind::Education | EntityKind::Testcase => super_own_write(
            auth,
        ),
        EntityKind::Contest => match auth {
            Auth::Guest => Err(Error::Unauthenticated),
            Auth::User((id, p)) => Ok(
                match p {
                    RoleLv::Admin | RoleLv::Root => RowFilter::All,
                    _ => RowFilter::Owner(id),
                },
            ),
        },
        EntityKind::Chat => if is_admin(auth.spec_perm()) {
            Ok(RowFilter::All)
        } else {
            Err(Error::RequirePermission(RoleLv::Admin))
        },
        EntityKind::Token => spec_read_filter(EntityKind::Token, auth),
        EntityKind::Problem | EntityKind::Test => match auth {
            Auth::Guest => Err(Error::PremissionDeny("Guest is not allow in this endpoint")),
            Auth::User((id, p)) => if is_admin(p) {
                Ok(RowFilter::All)
            } else if is_super(p) {
                Ok(RowFilter::Owner(id))
            } else if kind == EntityKind::Problem {
                Err(Error::NotInDB("problem"))
            } else {
                Err(Error::NotInDB("testcase"))
            },
        },
        EntityKind::Submit => if is_admin(auth.spec_perm()) {
            Ok(RowFilter::All)
        } else {
            Err(Error::Unauthenticated)
        },
        EntityKind::User => match auth {
            Auth::Guest => Err(Error::Unauthenticated),
            Auth::User((id, p)) => Ok(
                if is_admin(p) {
                    RowFilter::PermissionBelowOrSelf(p.spec_level() as i32, id)
                } else {
                    RowFilter::Owner(id)
                },
            ),
        },
    }
}

/// Whether the full view of a row tells the caller that it may edit it.
pub open spec fn spec_writable(kind: EntityKind, row: Row, auth: Auth) -> bool {
    let p = auth.spec_perm();
    match kind {
        EntityKind::Announcement | EntityKind::Contest | EntityKind::Education
        | EntityKind::Testcase => is_admin(p) || (auth.spec_user_id() == Some(row.owner) && p
            != RoleLv::User),
        EntityKind::Chat => is_admin(p),
        EntityKind::Token => p == RoleLv::Root,
        _ => false,
    }
}

/// The read filter: which rows of `kind` the caller sees.
pub fn read_filter(kind: EntityKind, auth: &Auth) -> (res: Result<RowFilter, Error>)
    ensures
        res == spec_read_filter(kind, *auth),
{
    match kind {
        EntityKind::Announcement | EntityKind::Contest => {
            let perm = auth.perm();
            match perm {
                RoleLv::Guest => Ok(RowFilter::Public),
                RoleLv::User | RoleLv::Super => {
                    let id = match auth {
                        Auth::User((id, _)) => *id,
                        Auth::Guest => 0,
                    };
                    Ok(RowFilter::PublicOrOwner(id))
                },
                RoleLv::Admin | RoleLv::Root => Ok(RowFilter::All),
            }
        },
        EntityKind::Chat | EntityKind::Submit | EntityKind::User => Ok(RowFilter::All),
        EntityKind::Education | EntityKind::Testcase => {
            let (user_id, perm) = auth.assume_login()?;
            Ok(
                match perm {
                    RoleLv::Admin | RoleLv::Root => RowFilter::All,
                    _ => RowFilter::Owner(user_id),
                },
            )
        },
        EntityKind::Token => {
            let (user_id, role) = auth.assume_login()?;
            Ok(
                match role {
                    RoleLv::Root => RowFilter::All,
                    _ => RowFilter::Owner(user_id),
                },
            )
        },
        EntityKind::Problem => {
            if let Ok((user_id, perm)) = auth.ok_or_default() {
                if perm.at_least(RoleLv::Admin) {
                    return Ok(RowFilter::All);
                }
                return Ok(RowFilter::PublicOrOwner(user_id));
            }
            Ok(RowFilter::Public)
        },
        EntityKind::Test => {
            if let Ok((user_id, perm)) = auth.ok_or_default() {
                if perm.at_least(RoleLv::Admin) {
                    return Ok(RowFilter::All);
                }
                return Ok(RowFilter::Owner(user_id));
            }
            Err(Error::NotInDB("testcase"))
        },
    }
}

/// The write filter: which rows of `kind` the caller may change or remove.
pub fn write_filter(kind: EntityKind, auth: &Auth) -> (res: Result<RowFilter, Error>)
    ensures
        res == spec_write_filter(kind, *auth),
{
    match kind {
        EntityKind::Announcement | EntityKind::Education | EntityKind::Testcase => {
            let (user_id, perm) = auth.assume_login()?;
            match perm {
                RoleLv::Admin | RoleLv::Root => Ok(RowFilter::All),
                RoleLv::Super => Ok(RowFilter::Owner(user_id)),
                _ => Err(Error::RequirePermission(RoleLv::Super)),
            }
        },
        EntityKind::Contest => {
            let (user_id, perm) = auth.assume_login()?;
            Ok(
                match perm {
                    RoleLv::Admin | RoleLv::Root => RowFilter::All,
                    _ => RowFilter::Owner(user_id),
                },
            )
        },
        EntityKind::Chat => {
            if auth.perm().at_least(RoleLv::Admin) {
                Ok(RowFilter::All)
            } else {
                Err(Error::RequirePermission(RoleLv::Admin))
            }
        },
        EntityKind::Token => read_filter(EntityKind::Token, auth),
        EntityKind::Problem | EntityKind::Test => {
            let (user_id, perm) = auth.ok_or_default()?;
            if perm.at_least(RoleLv::Admin) {
                return Ok(RowFilter::All);
            }
            if perm.at_least(RoleLv::Super) {
                return Ok(RowFilter::Owner(user_id));
            }
            match kind {
                EntityKind::Problem => Err(Error::NotInDB("problem")),
                _ => Err(Error::NotInDB("testcase")),
            }
        },
        EntityKind::Submit => {
            if auth.perm().at_least(RoleLv::Admin) {
                return Ok(RowFilter::All);
            }
            Err(Error::Unauthenticated)
        },
        EntityKind::User => {
            let (user_id, perm) = auth.assume_login()?;
            if perm.at_least(RoleLv::Admin) {
                let level = perm.level();
                return Ok(RowFilter::PermissionBelowOrSelf(level as i32, user_id));
            }
            Ok(RowFilter::Owner(user_id))
        },
    }
}

/// Whether the caller is told that it may edit this row.
pub fn writable(kind: EntityKind, row: &Row, auth: &Auth) -> (res: bool)
    ensures
        res == spec_writable(kind, *row, *auth),
{
    let perm = auth.perm();
    match kind {
        EntityKind::Announcement | EntityKind::Contest | EntityKind::Education
        | EntityKind::Testcase => {
            let own = match auth.user_id() {
                Some(id) => id == row.owner,
                None => false,
            };
            let is_user = match perm {
                RoleLv::User => true,
                _ => false,
            };
            perm.at_least(RoleLv::Admin) || (own && !is_user)
        },
        EntityKind::Chat => perm.at_least(RoleLv::Admin),
        EntityKind::Token => match perm {
            RoleLv::Root => true,
            _ => false,
        },
        _ => false,
    }
}

/// Whether a row passes the filter that a filter result grants; an error
/// grants nothing.
pub open spec fn grants(f: Result<RowFilter, Error>, row: Row) -> bool {
    match f {
        Ok(f) => spec_admits(f, row),
        Err(_) => false,
    }
}

/// What a caller may write, it may also read: every row that the write
/// filter of a table lets through, the read filter lets through too. A
/// logged-in caller whose role is `Guest` may write its own private
/// contests without seeing them, so that case is left out.
pub proof fn lemma_write_within_read(kind: EntityKind, auth: Auth, row: Row)
    requires
        !(kind == EntityKind::Contest && auth.spec_perm() == RoleLv::Guest),
        grants(spec_write_filter(kind, auth), row),
    ensures
        grants(spec_read_filter(kind, auth), row),
{
}

/// For announcements, contests, educations, test cases and chats, the
/// editable flag shown with a row is exactly whether the write filter lets
/// that row through. Left out: a logged-in caller whose role is `Guest`
/// (shown its own rows as editable, refused by the write filter) and, for
/// contests, a plain `User` (let through on its own contests, shown them as
/// not editable).
pub proof fn lemma_writable_matches_write_filter(kind: EntityKind, auth: Auth, row: Row)
    requires
        kind == EntityKind::Announcement || kind == EntityKind::Contest || kind
            == EntityKind::Education || kind == EntityKind::Testcase || kind == EntityKind::Chat,
        !(auth is User && auth.spec_perm() == RoleLv::Guest),
        !(kind == EntityKind::Contest && auth.spec_perm() == RoleLv::User),
    ensures
        spec_writable(kind, row, auth) == grants(spec_write_filter(kind, auth), row),
{
}


/// Submissions, chats and users are listed to everyone: every caller,
/// logged in or not and whatever its role, reads every row of those tables.
pub proof fn lemma_open_tables_read_by_all(auth: Auth, row: Row)
    ensures
        spec_read_filter(EntityKind::Submit, auth) == Ok::<RowFilter, Error>(RowFilter::All),
        spec_read_filter(EntityKind::Chat, auth) == Ok::<RowFilter, Error>(RowFilter::All),
        spec_read_filter(EntityKind::User, auth) == Ok::<RowFilter, Error>(RowFilter::All),
        grants(spec_read_filter(EntityKind::Submit, auth), row),
        grants(spec_read_filter(EntityKind::Chat, auth), row),
        grants(spec_read_filter(EntityKind::User, auth), row),
{
}

/// An admin reads every row of every table but the token table, and only
/// root reads every token.
pub proof fn lemma_admins_read_everything(kind: EntityKind, id: i32, role: RoleLv, row: Row)
    requires
        is_admin(role),
    ensures
        kind != EntityKind::Token ==> spec_read_filter(kind, Auth::User((id, role)))
            == Ok::<RowFilter, Error>(RowFilter::All),
        kind == EntityKind::Token ==> (grants(spec_read_filter(kind, Auth::User((id, role))), row)
            <==> (role == RoleLv::Root || row.owner == id)),
{
}

/// A guest sees only the public rows of announcements, contests and
/// problems, and sees all of those.
pub proof fn lemma_guests_read_public_rows(kind: EntityKind, row: Row)
    requires
        kind == EntityKind::Announcement || kind == EntityKind::Contest || kind == EntityKind::Problem,
    ensures
        grants(spec_read_filter(kind, Auth::Guest), row) <==> row.public,
{
}

/// A logged-in caller always reads its own announcements, contests,
/// problems, educations, test cases and tokens. Left out: a logged-in
/// caller whose role is `Guest`, which reads announcements and contests as
/// a guest does, public ones only.
pub proof fn lemma_owners_read_their_rows(kind: EntityKind, id: i32, role: RoleLv, row: Row)
    requires
        row.owner == id,
        role != RoleLv::Guest,
        kind == EntityKind::Announcement || kind == EntityKind::Contest || kind == EntityKind::Problem
            || kind == EntityKind::Education || kind == EntityKind::Testcase || kind
            == EntityKind::Token,
    ensures
        grants(spec_read_filter(kind, Auth::User((id, role))), row),
{
}


/// A guest may change or remove nothing, in any table.
pub proof fn lemma_guests_write_nothing(kind: EntityKind, row: Row)
    ensures
        spec_write_filter(kind, Auth::Guest) is Err,
        !grants(spec_write_filter(kind, Auth::Guest), row),
{
}

/// A super user changes exactly its own announcements, educations, test
/// cases, problems and tests; a plain user changes none of them; an admin
/// changes all of them, and every contest, chat and submission.
pub proof fn lemma_write_by_role(kind: EntityKind, id: i32, role: RoleLv, row: Row)
    requires
        kind == EntityKind::Announcement || kind == EntityKind::Education || kind
            == EntityKind::Testcase || kind == EntityKind::Problem || kind == EntityKind::Test,
    ensures
        role == RoleLv::Super ==> (grants(spec_write_filter(kind, Auth::User((id, role))), row)
            <==> row.owner == id),
        role == RoleLv::User ==> spec_write_filter(kind, Auth::User((id, role))) is Err,
        is_admin(role) ==> spec_write_filter(kind, Auth::User((id, role))) == Ok::<RowFilter, Error>(
            RowFilter::All,
        ),
        is_admin(role) ==> spec_write_filter(EntityKind::Contest, Auth::User((id, role)))
            == Ok::<RowFilter, Error>(RowFilter::All),
        is_admin(role) ==> spec_write_filter(EntityKind::Chat, Auth::User((id, role)))
            == Ok::<RowFilter, Error>(RowFilter::All),
        is_admin(role) ==> spec_write_filter(EntityKind::Submit, Auth::User((id, role)))
            == Ok::<RowFilter, Error>(RowFilter::All),
{
}

/// An admin changes the user rows ranked below it and its own row, and no
/// other; anyone else changes only its own user row.
pub proof fn lemma_user_rows_written(id: i32, role: RoleLv, row: Row)
    ensures
        is_admin(role) ==> (grants(spec_write_filter(EntityKind::User, Auth::User((id, role))), row)
            <==> (row.permission < role.spec_level() || row.owner == id)),
        !is_admin(role) ==> (grants(spec_write_filter(EntityKind::User, Auth::User((id, role))), row)
            <==> row.owner == id),
{
}

} // verus!
