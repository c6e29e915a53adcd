//! Categories: named, rule-carrying collections of entries that belong to one user and
//! are either public or private.
use vstd::prelude::*;

verus! {

/// A category as the service hands it out.
#[derive(Clone, Debug, PartialEq, Eq)]
pub struct Category {
    pub id: u32,
    pub user_id: u32,
    pub rules: String,
    pub name: String,
    pub is_public: bool,
}

/// The mathematical value of a [`Category`].
pub struct CategoryView {
    pub id: u32,
    pub user_id: u32,
    pub rules: Seq<char>,
    pub name: Seq<char>,
    pub is_public: bool,
}

impl View for Category {
    type V = CategoryView;

    open spec fn view(&self) -> CategoryView {
        CategoryView {
            id: self.id,
            user_id: self.user_id,
            rules: self.rules@,
            name: self.name@,
            is_public: self.is_public,
        }
    }
}

/// A row of the category table as stored: `is_public` is 1 for a public category.
#[derive(Clone, Debug, PartialEq, Eq)]
pub struct CategoryRow {
    pub id: u32,
    pub user_id: u32,
    pub rules: String,
    pub name: String,
    pub is_public: u32,
}

/// The category that a stored row describes.
pub open spec fn row_category(row: CategoryRow) -> CategoryView {
    CategoryView {
        id: row.id,
        user_id: row.user_id,
        rules: row.rules@,
        name: row.name@,
        is_public: row.is_public == 1,
    }
}

/// A row is listed for a viewer when it is public or when the viewer owns it.
pub open spec fn listed(row: CategoryRow, viewer: Option<u32>) -> Option<CategoryView> {
    if row.is_public == 1 || viewer == Some(row.user_id) {
        Some(row_category(row))
    } else {
        None
    }
}

/// The categories that a viewer (`None`: not signed in) may see among `rows`, in order.
pub open spec fn visible(rows: Seq<CategoryRow>, viewer: Option<u32>) -> Seq<CategoryView> {
    rows.filter_map(|row: CategoryRow| listed(row, viewer))
}

/// The category of a stored row.
pub fn category_from_row(row: &CategoryRow) -> (c: Category)
    ensures
        c@ == row_category(*row),
        c.id == row.id && c.user_id == row.user_id && c.rules@ == row.rules@ && c.name@
            == row.name@ && c.is_public == (row.is_public == 1),
{
    Category {
        id: row.id,
        user_id: row.user_id,
        rules: row.rules.clone(),
        name: row.name.clone(),
        is_public: row.is_public == 1,
    }
}

/// The categories of `rows` that the viewer may see: every public one, and every one the
/// viewer owns; in the order of `rows`.
pub fn visible_categories(rows: &Vec<CategoryRow>, viewer: Option<u32>) -> (res: Vec<Category>)
    ensures
        res@.map_values(|c: Category| c@) == visible(rows@, viewer),
        forall|i: int|
            0 <= i < res@.len() ==> #[trigger] res@[i].is_public || viewer == Some(res@[i].user_id),
{
    let mut out: Vec<Category> = Vec::new();
    let n = rows.len();
    let mut i: usize = 0;
    while i < n
        invariant
            n == rows@.len(),
            i <= n,
            out@.map_values(|c: Category| c@) == visible(rows@.take(i as int), viewer),
        decreases n - i,
    {
        let row = &rows[i];
        let owner = match viewer {
            Some(v) => v == row.user_id,
            None => false,
        };
        assert(rows@.take(i + 1).drop_last() =~= rows@.take(i as int));
        assert(rows@.take(i + 1).last() == rows@[i as int]);
        if row.is_public == 1 || owner {
            let c = category_from_row(row);
            let ghost before = out@;
            out.push(c);
            assert(out@.map_values(|c: Category| c@) =~= before.map_values(|c: Category| c@) + seq![c@]);
        }
        i = i + 1;
    }
    assert(rows@.take(n as int) =~= rows@);
    proof {
        law_visible_categories(rows@, viewer);
        assert forall|i: int| 0 <= i < out@.len() implies #[trigger] out@[i].is_public || viewer
            == Some(out@[i].user_id) by {
            assert(out@.map_values(|c: Category| c@)[i] == out@[i]@);
            assert(visible(rows@, viewer).contains(out@[i]@));
        }
    }
    out
}

/// A viewer sees only public categories and its own, and sees every one of them.
pub proof fn law_visible_categories(rows: Seq<CategoryRow>, viewer: Option<u32>)
    ensures
        forall|c: CategoryView| #[trigger]
            visible(rows, viewer).contains(c) ==> c.is_public || viewer == Some(c.user_id),
        forall|c: CategoryView| #[trigger]
            visible(rows, viewer).contains(c) ==> exists|j: int|
                0 <= j < rows.len() && row_category(rows[j]) == c,
        forall|i: int|
            0 <= i < rows.len() && (rows[i].is_public == 1 || viewer == Some(rows[i].user_id))
                ==> visible(rows, viewer).contains(#[trigger] row_category(rows[i])),
    decreases rows.len(),
{
    if rows.len() > 0 {
        let rest = rows.drop_last();
        law_visible_categories(rest, viewer);
        let shown = visible(rows, viewer);
        let before = visible(rest, viewer);
        assert(shown == (match listed(rows.last(), viewer) {
            Some(c) => before + seq![c],
            None => before,
        }));
        assert forall|c: CategoryView| #[trigger]
            shown.contains(c) implies c.is_public || viewer == Some(c.user_id) by {
            let k = choose|k: int| 0 <= k < shown.len() && shown[k] == c;
            if k < before.len() {
                assert(before[k] == c);
                assert(before.contains(c));
            }
        }
        assert forall|c: CategoryView| #[trigger] shown.contains(c) implies exists|j: int|
            0 <= j < rows.len() && row_category(rows[j]) == c by {
            let k = choose|k: int| 0 <= k < shown.len() && shown[k] == c;
            if k < before.len() {
                assert(before[k] == c);
                assert(before.contains(c));
                let j = choose|j: int| 0 <= j < rest.len() && row_category(rest[j]) == c;
                assert(rest[j] == rows[j]);
            } else {
                assert(row_category(rows[rows.len() - 1]) == c);
            }
        }
        assert forall|i: int|
            0 <= i < rows.len() && (rows[i].is_public == 1 || viewer == Some(rows[i].user_id))
                implies shown.contains(#[trigger] row_category(rows[i])) by {
            if i < rows.len() - 1 {
                assert(rest[i] == rows[i]);
                assert(before.contains(row_category(rest[i])));
                let k = choose|k: int| 0 <= k < before.len() && before[k] == row_category(rest[i]);
                assert(shown[k] == before[k]);
            } else {
                assert(shown[shown.len() - 1] == row_category(rows[i]));
            }
        }
    }
}

/// The category of a row as shown to a reader: `None` when the category is private and
/// not owned in the sense below, else the row's category.
///
/// The ownership test is the one this lookup has always made: the row's own `user_id`
/// column stands in place of the reader's id, so a private category counts as owned when
/// its id equals its owner's id and the reader is signed in. The `user_id` argument (the
/// reader) takes no part in the decision. The request handlers do not use this lookup;
/// they check `row.user_id` against the signed-in user themselves.
pub open spec fn shown_category(row: CategoryRow, user_id: u32, authed: bool) -> Option<CategoryView> {
    if row.is_public != 1 && !(row.id == row.user_id && authed) {
        None
    } else {
        Some(row_category(row))
    }
}

/// A stored category row as shown to a reader (see [`shown_category`] for the rule).
pub fn get_category(row: &CategoryRow, user_id: u32, authed: bool) -> (res: Option<Category>)
    ensures
        match res {
            Some(c) => shown_category(*row, user_id, authed) == Some(c@),
            None => shown_category(*row, user_id, authed) is None,
        },
        res is Some <==> (row.is_public == 1 || (row.id == row.user_id && authed)),
        res matches Some(c) ==> c.id == row.id && c.user_id == row.user_id && c.rules@
            == row.rules@ && c.name@ == row.name@ && c.is_public == (row.is_public == 1),
{
    let id = row.id;
    let user_id = row.user_id;
    let is_public = row.is_public == 1;
    let is_owner = id == user_id && authed;
    if !is_public && !is_owner {
        return None;
    }
    Some(category_from_row(row))
}

} // verus!
