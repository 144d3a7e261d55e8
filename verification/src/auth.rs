use vstd::prelude::*;

use crate::error::Error;

verus! {

/// The role of a caller, from the least to the most privileged.
#[derive(Clone, Copy, Debug, PartialEq, Eq, Structural)]
pub enum RoleLv {
    Guest,
    User,
    Super,
    Admin,
    Root,
}

impl RoleLv {
    /// The rank of a role: `Guest` is 0 and `Root` is 4.
    pub open spec fn spec_level(self) -> int {
        match self {
            RoleLv::Guest => 0,
            RoleLv::User => 1,
            RoleLv::Super => 2,
            RoleLv::Admin => 3,
            RoleLv::Root => 4,
        }
    }

    /// The rank of the role, as stored in the `permission` column.
    pub fn level(&self) -> (res: u8)
        ensures
            res == self.spec_level(),
    {
        match self {
            RoleLv::Guest => 0,
            RoleLv::User => 1,
            RoleLv::Super => 2,
            RoleLv::Admin => 3,
            RoleLv::Root => 4,
        }
    }

    /// The role whose rank is `level`, if there is one.
    pub fn from_level(level: i32) -> (res: Option<RoleLv>)
        ensures
            res matches Some(r) ==> r.spec_level() == level,
            res is None <==> !(0 <= level <= 4),
    {
        if level == 0 {
            Some(RoleLv::Guest)
        } else if level == 1 {
            Some(RoleLv::User)
        } else if level == 2 {
            Some(RoleLv::Super)
        } else if level == 3 {
            Some(RoleLv::Admin)
        } else if level == 4 {
            Some(RoleLv::Root)
        } else {
            None
        }
    }

    /// Whether this role ranks at least as high as `other`.
    pub fn at_least(&self, other: RoleLv) -> (res: bool)
        ensures
            res == (self.spec_level() >= other.spec_level()),
    {
        self.level() >= other.level()
    }

    /// Succeeds when the role is `Super` or above; otherwise the caller
    /// needs `Super`.
    pub fn super_user(&self) -> (res: Result<(), Error>)
        ensures
            res is Ok <==> self.spec_level() >= RoleLv::Super.spec_level(),
            res is Err ==> res == Err::<(), Error>(Error::RequirePermission(RoleLv::Super)),
    {
        if self.at_least(RoleLv::Super) {
            Ok(())
        } else {
            Err(Error::RequirePermission(RoleLv::Super))
        }
    }

    /// Succeeds when the role is `Admin` or above; otherwise the caller
    /// needs `Admin`.
    pub fn admin(&self) -> (res: Result<(), Error>)
        ensures
            res is Ok <==> self.spec_level() >= RoleLv::Admin.spec_level(),
            res is Err ==> res == Err::<(), Error>(Error::RequirePermission(RoleLv::Admin)),
    {
        if self.at_least(RoleLv::Admin) {
            Ok(())
        } else {
            Err(Error::RequirePermission(RoleLv::Admin))
        }
    }
}

/// Who sent a request: nobody known, or a logged-in user with its id and role.
#[derive(Clone, Copy, Debug, PartialEq, Eq)]
pub enum Auth {
    Guest,
    User((i32, RoleLv)),
}

/// A logged-in user as the handlers see it.
#[derive(Clone, Copy, Debug, PartialEq, Eq, Structural)]
pub struct UserInfo {
    pub perm: RoleLv,
    pub user_id: i32,
}

impl Auth {
    /// The role of the caller; a guest has the role `Guest`.
    pub open spec fn spec_perm(self) -> RoleLv {
        match self {
            Auth::Guest => RoleLv::Guest,
            Auth::User((_, p)) => p,
        }
    }

    /// The id of the caller, if logged in.
    pub open spec fn spec_user_id(self) -> Option<i32> {
        match self {
            Auth::Guest => None,
            Auth::User((id, _)) => Some(id),
        }
    }

    pub fn is_guest(&self) -> (res: bool)
        ensures
            res == (*self is Guest),
    {
        match self {
            Auth::Guest => true,
            _ => false,
        }
    }

    pub fn user_perm(&self) -> (res: Option<RoleLv>)
        ensures
            res == (match *self {
                Auth::Guest => None,
                Auth::User((_, p)) => Some(p),
            }),
    {
        match self {
            Auth::User((_, x)) => Some(*x),
            _ => None,
        }
    }

    pub fn user_id(&self) -> (res: Option<i32>)
        ensures
            res == self.spec_user_id(),
    {
        match self {
            Auth::User((x, _)) => Some(*x),
            _ => None,
        }
    }

    /// The role of the caller; `Guest` when nobody is logged in.
    pub fn perm(&self) -> (res: RoleLv)
        ensures
            res == self.spec_perm(),
    {
        match self {
            Auth::User((_, p)) => *p,
            _ => RoleLv::Guest,
        }
    }

    /// The id and role of a logged-in caller, or `err` for a guest.
    pub fn ok_or(&self, err: Error) -> (res: Result<(i32, RoleLv), Error>)
        ensures
            res == (match *self {
                Auth::Guest => Err(err),
                Auth::User(x) => Ok(x),
            }),
    {
        match self {
            Auth::User(x) => Ok(*x),
            _ => Err(err),
        }
    }

    /// Whether the caller is a logged-in `Root`.
    pub fn is_root(&self) -> (res: bool)
        ensures
            res == (*self matches Auth::User((_, p)) && p == RoleLv::Root),
    {
        match self {
            Auth::User((_, perm)) => match perm {
                RoleLv::Root => true,
                _ => false,
            },
            _ => false,
        }
    }

    /// The id and role of a logged-in caller; a guest is refused with a
    /// permission error.
    pub fn ok_or_default(&self) -> (res: Result<(i32, RoleLv), Error>)
        ensures
            res == (match *self {
                Auth::Guest => Err(Error::PremissionDeny("Guest is not allow in this endpoint")),
                Auth::User(x) => Ok(x),
            }),
    {
        self.ok_or(Error::PremissionDeny("Guest is not allow in this endpoint"))
    }

    /// The id and role of a logged-in caller; a guest is unauthenticated.
    pub fn assume_login(&self) -> (res: Result<(i32, RoleLv), Error>)
        ensures
            res == (match *self {
                Auth::Guest => Err(Error::Unauthenticated),
                Auth::User(x) => Ok(x),
            }),
    {
        self.ok_or(Error::Unauthenticated)
    }
}

impl Auth {
    /// The key and stored rank of the caller's user row, for a logged-in
    /// caller; the rest of the row is left empty by the queries that use it.
    pub fn new_with_auth(&self) -> (res: Option<(i32, i32)>)
        ensures
            res == (match *self {
                Auth::Guest => None,
                Auth::User((id, p)) => Some((id, p.spec_level() as i32)),
            }),
    {
        match self.assume_login() {
            Ok((id, perm)) => {
                let level = perm.level();
                Some((id, level as i32))
            },
            Err(_) => None,
        }
    }
}

} // verus!
