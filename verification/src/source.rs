use vstd::prelude::*;

use crate::auth::Auth;
use crate::error::Error;
use crate::filter::{read_filter, spec_read_filter, spec_writable, writable, EntityKind, Row, RowFilter};
use crate::time::{spec_is_after, DateTime};

verus! {

/// The column that a text search looks in.
#[derive(Clone, Copy, Debug, PartialEq, Eq, Structural)]
pub enum TextColumn {
    Title,
    Username,
    /// The title, or the tags.
    TitleOrTags,
}

/// How a text search matches: the column contains the text, or the column
/// matches the text as a `LIKE` pattern.
#[derive(Clone, Copy, Debug, PartialEq, Eq, Structural)]
pub enum TextMatch {
    Contains,
    Like,
}

/// The rows of a text search: those the caller may read whose column
/// matches the text.
#[derive(Clone, Debug, PartialEq, Eq)]
pub struct TextQuery {
    pub rows: RowFilter,
    pub column: TextColumn,
    pub how: TextMatch,
    pub text: String,
}

/// A list searched by text.
#[derive(Clone, Copy, Debug, PartialEq, Eq, Structural)]
pub struct TextPagerTrait {
    pub kind: EntityKind,
}

/// The tables that can be searched by text.
pub open spec fn has_text_source(kind: EntityKind) -> bool {
    kind == EntityKind::Announcement || kind == EntityKind::Contest || kind == EntityKind::Education
        || kind == EntityKind::Problem || kind == EntityKind::User
}

pub open spec fn text_column_of(kind: EntityKind) -> TextColumn {
    match kind {
        EntityKind::User => TextColumn::Username,
        EntityKind::Problem => TextColumn::TitleOrTags,
        _ => TextColumn::Title,
    }
}

pub open spec fn text_match_of(kind: EntityKind) -> TextMatch {
    if kind == EntityKind::Education {
        TextMatch::Like
    } else {
        TextMatch::Contains
    }
}

impl TextPagerTrait {
    /// The text search of a table, if the table has one.
    pub fn new(kind: EntityKind) -> (res: Option<TextPagerTrait>)
        ensures
            res is Some <==> has_text_source(kind),
            res matches Some(t) ==> t.kind == kind,
    {
        match kind {
            EntityKind::Announcement | EntityKind::Contest | EntityKind::Education
            | EntityKind::Problem | EntityKind::User => Some(TextPagerTrait { kind }),
            _ => None,
        }
    }

    /// The rows that a search for `text` goes through: the table's read
    /// filter, and a match on its text column.
    pub fn filter(&self, auth: &Auth, text: String) -> (res: Result<TextQuery, Error>)
        ensures
            match spec_read_filter(self.kind, *auth) {
                Ok(rows) => res == Ok::<TextQuery, Error>(
                    TextQuery {
                        rows,
                        column: text_column_of(self.kind),
                        how: text_match_of(self.kind),
                        text,
                    },
                ),
                Err(e) => res == Err::<TextQuery, Error>(e),
            },
    {
        let rows = read_filter(self.kind, auth)?;
        let column = match self.kind {
            EntityKind::User => TextColumn::Username,
            EntityKind::Problem => TextColumn::TitleOrTags,
            _ => TextColumn::Title,
        };
        let how = match self.kind {
            EntityKind::Education => TextMatch::Like,
            _ => TextMatch::Contains,
        };
        Ok(TextQuery { rows, column, how, text })
    }
}

/// What a parental check reads of a parent row: its key, its owner (the
/// contest's host or the problem's author), whether it is public, the
/// contest it belongs to (for a problem) and when it begins (for a contest).
#[derive(Clone, Copy, Debug, PartialEq, Eq, Structural)]
pub struct IdModel {
    pub id: i32,
    pub owner: i32,
    pub public: bool,
    pub contest_id: Option<i32>,
    pub begin: Option<DateTime>,
}

/// The column that the children of a parent are ordered by.
#[derive(Clone, Copy, Debug, PartialEq, Eq, Structural)]
pub enum ChildOrder {
    UpdateAt,
    Order,
    CreateAt,
    UploadAt,
    Score,
    /// By key alone.
    Key,
}

/// A list of the children of a parent.
#[derive(Clone, Copy, Debug, PartialEq, Eq, Structural)]
pub struct ParentPagerTrait {
    pub kind: EntityKind,
}

/// The tables listed by parent.
pub open spec fn has_parent_source(kind: EntityKind) -> bool {
    kind == EntityKind::Announcement || kind == EntityKind::Problem || kind == EntityKind::Chat
        || kind == EntityKind::Education || kind == EntityKind::Submit || kind
        == EntityKind::Testcase
}

/// The table of a child's parent: contests hold announcements and
/// problems; problems hold the rest.
pub open spec fn spec_parent_kind(kind: EntityKind) -> EntityKind {
    if kind == EntityKind::Announcement || kind == EntityKind::Problem {
        EntityKind::Contest
    } else {
        EntityKind::Problem
    }
}

/// Whether a caller may list the children of a parent. A contest is open to
/// its host, to those who joined it, and to everyone once it is public and
/// has begun; a guest sees any public contest. A problem is open to its
/// author and, when public, to everyone.
pub open spec fn spec_parent_visible(
    parent_kind: EntityKind,
    auth: Auth,
    parent: IdModel,
    joined: bool,
    now: DateTime,
) -> bool {
    if parent_kind == EntityKind::Contest {
        match auth {
            Auth::Guest => parent.public,
            Auth::User((id, _)) => joined || parent.owner == id || (parent.public && match parent.begin {
                Some(b) => !spec_is_after(b, now),
                None => false,
            }),
        }
    } else {
        match auth {
            Auth::Guest => parent.public,
            Auth::User((id, _)) => parent.owner == id || parent.public,
        }
    }
}

impl ParentPagerTrait {
    /// The list by parent of a table, if the table has one.
    pub fn new(kind: EntityKind) -> (res: Option<ParentPagerTrait>)
        ensures
            res is Some <==> has_parent_source(kind),
            res matches Some(t) ==> t.kind == kind,
    {
        match kind {
            EntityKind::Announcement | EntityKind::Problem | EntityKind::Chat
            | EntityKind::Education | EntityKind::Submit | EntityKind::Testcase => Some(
                ParentPagerTrait { kind },
            ),
            _ => None,
        }
    }

    /// The table of the parent.
    pub fn parent_kind(&self) -> (res: EntityKind)
        ensures
            res == spec_parent_kind(self.kind),
    {
        match self.kind {
            EntityKind::Announcement | EntityKind::Problem => EntityKind::Contest,
            _ => EntityKind::Problem,
        }
    }

    /// The column the children are ordered by.
    pub fn sort_col(&self) -> (res: ChildOrder)
        ensures
            res == (match self.kind {
                EntityKind::Announcement => ChildOrder::UpdateAt,
                EntityKind::Problem => ChildOrder::Order,
                EntityKind::Chat => ChildOrder::CreateAt,
                EntityKind::Submit => ChildOrder::UploadAt,
                EntityKind::Testcase => ChildOrder::Score,
                _ => ChildOrder::Key,
            }),
    {
        match self.kind {
            EntityKind::Announcement => ChildOrder::UpdateAt,
            EntityKind::Problem => ChildOrder::Order,
            EntityKind::Chat => ChildOrder::CreateAt,
            EntityKind::Submit => ChildOrder::UploadAt,
            EntityKind::Testcase => ChildOrder::Score,
            _ => ChildOrder::Key,
        }
    }

    /// Checks that the caller may list the children of `parent`; a parent it
    /// may not see is reported as missing. `joined` tells whether the caller
    /// joined the contest, when the parent is one.
    pub fn filter(&self, auth: &Auth, parent: &IdModel, joined: bool, now: DateTime) -> (res: Result<i32, Error>)
        ensures
            spec_parent_visible(spec_parent_kind(self.kind), *auth, *parent, joined, now) ==> res
                == Ok::<i32, Error>(parent.id),
            !spec_parent_visible(spec_parent_kind(self.kind), *auth, *parent, joined, now) ==> res
                == Err::<i32, Error>(
                Error::NotInDB(
                    if spec_parent_kind(self.kind) == EntityKind::Contest {
                        "contest"
                    } else {
                        "problem"
                    },
                ),
            ),
    {
        let parent_kind = self.parent_kind();
        let visible = match parent_kind {
            EntityKind::Contest => match auth {
                Auth::Guest => parent.public,
                Auth::User((id, _)) => {
                    let started = match parent.begin {
                        Some(b) => !b.is_after(&now),
                        None => false,
                    };
                    joined || parent.owner == *id || (parent.public && started)
                },
            },
            _ => match auth {
                Auth::Guest => parent.public,
                Auth::User((id, _)) => parent.owner == *id || parent.public,
            },
        };
        if visible {
            Ok(parent.id)
        } else {
            match parent_kind {
                EntityKind::Contest => Err(Error::NotInDB("contest")),
                _ => Err(Error::NotInDB("problem")),
            }
        }
    }
}

/// The owner of a parent may always list its children.
pub proof fn lemma_owner_sees_children(
    parent_kind: EntityKind,
    id: i32,
    role: crate::auth::RoleLv,
    parent: IdModel,
    joined: bool,
    now: DateTime,
)
    requires
        parent.owner == id,
    ensures
        spec_parent_visible(parent_kind, Auth::User((id, role)), parent, joined, now),
{
}

/// A value paired with the caller it is shown to.
pub struct WithAuth<'a, T>(pub &'a Auth, pub T);

/// Pairs a value with the caller it is shown to.
pub trait WithAuthTrait: Sized {
    fn with_auth<'a>(self, auth: &'a Auth) -> (res: WithAuth<'a, Self>)
        ensures
            *res.0 == *auth,
            res.1 == self,
    {
        WithAuth(auth, self)
    }
}

impl WithAuthTrait for Row {

}

impl<'a> WithAuth<'a, Row> {
    /// Whether the full view of the row tells its caller that it may edit
    /// it.
    pub fn writable(&self, kind: EntityKind) -> (res: bool)
        ensures
            res == spec_writable(kind, self.1, *self.0),
    {
        writable(kind, &self.1, self.0)
    }
}


/// A public problem is open as a parent to every caller, guest or logged
/// in; a private problem only to its author.
pub proof fn lemma_public_problems_visible_to_all(
    auth: Auth,
    parent: IdModel,
    joined: bool,
    now: DateTime,
)
    ensures
        parent.public ==> spec_parent_visible(EntityKind::Problem, auth, parent, joined, now),
        !parent.public ==> (spec_parent_visible(EntityKind::Problem, auth, parent, joined, now)
            <==> auth.spec_user_id() == Some(parent.owner)),
{
}

/// The children of any public problem may be listed by every caller: the
/// check lets them through for every table whose parent is a problem.
pub proof fn lemma_children_of_public_problem_listable(
    kind: EntityKind,
    auth: Auth,
    parent: IdModel,
    joined: bool,
    now: DateTime,
)
    requires
        has_parent_source(kind),
        kind != EntityKind::Announcement,
        kind != EntityKind::Problem,
        parent.public,
    ensures
        spec_parent_kind(kind) == EntityKind::Problem,
        spec_parent_visible(spec_parent_kind(kind), auth, parent, joined, now),
{
}

/// A guest may list the children of a public contest, and only of one; a
/// logged-in caller may list those of a public contest that has begun.
pub proof fn lemma_public_contests_visible(auth: Auth, parent: IdModel, joined: bool, now: DateTime)
    ensures
        auth is Guest ==> (spec_parent_visible(EntityKind::Contest, auth, parent, joined, now)
            <==> parent.public),
        (auth is User && parent.public && match parent.begin {
            Some(b) => !spec_is_after(b, now),
            None => false,
        }) ==> spec_parent_visible(EntityKind::Contest, auth, parent, joined, now),
        (auth is User && joined) ==> spec_parent_visible(EntityKind::Contest, auth, parent, joined, now),
{
}

/// Text search looks for the text inside the column on every searchable
/// table but educations, whose titles are matched as a `LIKE` pattern.
/// Users are searched by name, problems by title or tags, the rest by
/// title.
pub proof fn lemma_text_search_matches(kind: EntityKind)
    requires
        has_text_source(kind),
    ensures
        kind != EntityKind::Education ==> text_match_of(kind) == TextMatch::Contains,
        kind == EntityKind::Education ==> text_match_of(kind) == TextMatch::Like,
        kind == EntityKind::User ==> text_column_of(kind) == TextColumn::Username,
        kind == EntityKind::Problem ==> text_column_of(kind) == TextColumn::TitleOrTags,
        (kind == EntityKind::Announcement || kind == EntityKind::Contest || kind
            == EntityKind::Education) ==> text_column_of(kind) == TextColumn::Title,
{
}

} // verus!
