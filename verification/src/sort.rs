use vstd::prelude::*;

use crate::filter::EntityKind;

verus! {

/// The sort keys that list requests name.
#[derive(Clone, Copy, Debug, PartialEq, Eq, Structural)]
pub enum SortKey {
    UpdateDate,
    CreateDate,
    Public,
    Begin,
    End,
    AcRate,
    SubmitCount,
    Difficulty,
    Order,
    Score,
}

/// The columns that lists are ordered by.
#[derive(Clone, Copy, Debug, PartialEq, Eq, Structural)]
pub enum SortColumn {
    UpdateAt,
    CreateAt,
    Public,
    Begin,
    End,
    AcRate,
    SubmitCount,
    Difficulty,
    Order,
    Score,
}

/// The column a sorted list of `kind` orders by, when the list offers the
/// key: announcements by update, creation and publicity; contests also by
/// begin and end; problems by update, creation, acceptance rate, submit
/// count, difficulty, order and publicity; users by score and creation.
pub open spec fn spec_sort_col(kind: EntityKind, key: SortKey) -> Option<SortColumn> {
    match kind {
        EntityKind::Announcement => match key {
            SortKey::UpdateDate => Some(SortColumn::UpdateAt),
            SortKey::CreateDate => Some(SortColumn::CreateAt),
            SortKey::Public => Some(SortColumn::Public),
            _ => None,
        },
        EntityKind::Contest => match key {
            SortKey::UpdateDate => Some(SortColumn::UpdateAt),
            SortKey::CreateDate => Some(SortColumn::CreateAt),
            SortKey::Begin => Some(SortColumn::Begin),
            SortKey::End => Some(SortColumn::End),
            SortKey::Public => Some(SortColumn::Public),
            _ => None,
        },
        EntityKind::Problem => match key {
            SortKey::UpdateDate => Some(SortColumn::UpdateAt),
            SortKey::CreateDate => Some(SortColumn::CreateAt),
            SortKey::AcRate => Some(SortColumn::AcRate),
            SortKey::SubmitCount => Some(SortColumn::SubmitCount),
            SortKey::Difficulty => Some(SortColumn::Difficulty),
            SortKey::Order => Some(SortColumn::Order),
            SortKey::Public => Some(SortColumn::Public),
            _ => None,
        },
        EntityKind::User => match key {
            SortKey::Score => Some(SortColumn::Score),
            SortKey::CreateDate => Some(SortColumn::CreateAt),
            _ => None,
        },
        _ => None,
    }
}

/// The column a sorted list orders by.
pub fn sort_col(kind: EntityKind, key: SortKey) -> (res: Option<SortColumn>)
    ensures
        res == spec_sort_col(kind, key),
{
    match kind {
        EntityKind::Announcement => match key {
            SortKey::UpdateDate => Some(SortColumn::UpdateAt),
            SortKey::CreateDate => Some(SortColumn::CreateAt),
            SortKey::Public => Some(SortColumn::Public),
            _ => None,
        },
        EntityKind::Contest => match key {
            SortKey::UpdateDate => Some(SortColumn::UpdateAt),
            SortKey::CreateDate => Some(SortColumn::CreateAt),
            SortKey::Begin => Some(SortColumn::Begin),
            SortKey::End => Some(SortColumn::End),
            SortKey::Public => Some(SortColumn::Public),
            _ => None,
        },
        EntityKind::Problem => match key {
            SortKey::UpdateDate => Some(SortColumn::UpdateAt),
            SortKey::CreateDate => Some(SortColumn::CreateAt),
            SortKey::AcRate => Some(SortColumn::AcRate),
            SortKey::SubmitCount => Some(SortColumn::SubmitCount),
            SortKey::Difficulty => Some(SortColumn::Difficulty),
            SortKey::Order => Some(SortColumn::Order),
            SortKey::Public => Some(SortColumn::Public),
            _ => None,
        },
        EntityKind::User => match key {
            SortKey::Score => Some(SortColumn::Score),
            SortKey::CreateDate => Some(SortColumn::CreateAt),
            _ => None,
        },
        _ => None,
    }
}


/// The column that bears a sort key's name: dates sort by the matching
/// timestamp column, every other key by the column of the same name.
pub open spec fn column_named(key: SortKey) -> SortColumn {
    match key {
        SortKey::UpdateDate => SortColumn::UpdateAt,
        SortKey::CreateDate => SortColumn::CreateAt,
        SortKey::Public => SortColumn::Public,
        SortKey::Begin => SortColumn::Begin,
        SortKey::End => SortColumn::End,
        SortKey::AcRate => SortColumn::AcRate,
        SortKey::SubmitCount => SortColumn::SubmitCount,
        SortKey::Difficulty => SortColumn::Difficulty,
        SortKey::Order => SortColumn::Order,
        SortKey::Score => SortColumn::Score,
    }
}

/// A sort key, when a list offers it, orders by the column of its own
/// name; and a list offers a key only on a table that has that column.
pub proof fn lemma_sort_by_named_column(kind: EntityKind, key: SortKey)
    ensures
        spec_sort_col(kind, key) is None || spec_sort_col(kind, key) == Some(column_named(key)),
        kind == EntityKind::Problem ==> (spec_sort_col(kind, key) is Some <==> (key
            != SortKey::Begin && key != SortKey::End && key != SortKey::Score)),
        kind == EntityKind::Announcement ==> (spec_sort_col(kind, key) is Some <==> (key
            == SortKey::UpdateDate || key == SortKey::CreateDate || key == SortKey::Public)),
        kind == EntityKind::Contest ==> (spec_sort_col(kind, key) is Some <==> (key
            == SortKey::UpdateDate || key == SortKey::CreateDate || key == SortKey::Public || key
            == SortKey::Begin || key == SortKey::End)),
        kind == EntityKind::User ==> (spec_sort_col(kind, key) is Some <==> (key == SortKey::Score
            || key == SortKey::CreateDate)),
        (kind != EntityKind::Problem && kind != EntityKind::Announcement && kind
            != EntityKind::Contest && kind != EntityKind::User) ==> spec_sort_col(kind, key) is None,
{
}

} // verus!
