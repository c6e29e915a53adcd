//! What each request handler does at each step, stated directly in terms of the step's
//! inputs: the requests it reads, the rows and accounts the server reports, and the
//! replies and writes that follow.
use vstd::prelude::*;
use vstd::utf8::encode_utf8;
use crate::auth::{Header, User, UserView, credentials_of};
use crate::category::{CategoryRow, CategoryView, law_visible_categories};
use crate::codec::sha256_digest;
use crate::encoding::base64_text;
use crate::entries::{Data, DataView, TelegramParameters};
use crate::exchange::{StageView, ExpectView, PendingView, AfterUserView, AfterWriteView,
    SignedKind, next, opening};
use crate::protocol::{ActionView, Body, BodyKind, Event, ReplyBodyView, ReplyView};
use crate::routes::Route;

verus! {

/// Ending with a plain-text reply.
pub open spec fn ends_with_text(status: u16, text: Seq<char>) -> (StageView, ActionView) {
    (
        StageView::Done,
        ActionView::Respond(
            ReplyView { status, body: ReplyBodyView::Text(text), ask_credentials: false },
        ),
    )
}

/// Ending with a request for basic credentials.
pub open spec fn ends_asking_credentials() -> (StageView, ActionView) {
    (
        StageView::Done,
        ActionView::Respond(
            ReplyView { status: 401, body: ReplyBodyView::Text(""@), ask_credentials: true },
        ),
    )
}

/// Looking up the request's credentials, then going on as `then` says; or, without
/// readable credentials, asking for them.
pub open spec fn checks_credentials(headers: Seq<Header>, then: AfterUserView) -> (StageView, ActionView) {
    match credentials_of(headers) {
        None => ends_asking_credentials(),
        Some((username, password)) => (
            StageView::User(then),
            ActionView::LookupUser { username, password },
        ),
    }
}

/// The category a stored row describes, field by field.
pub open spec fn row_as_category(row: CategoryRow) -> CategoryView {
    CategoryView {
        id: row.id,
        user_id: row.user_id,
        rules: row.rules@,
        name: row.name@,
        is_public: row.is_public == 1,
    }
}

/// `rules` holds the text `telegram=yes` somewhere.
pub open spec fn asks_for_notice(rules: Seq<char>) -> bool {
    exists|i: int|
        0 <= i && i + "telegram=yes"@.len() <= rules.len() && #[trigger] rules.subrange(
            i,
            i + "telegram=yes"@.len(),
        ) == "telegram=yes"@
}

/// How each request begins: the page and unknown paths are answered at once; the two
/// listings read their request first; every other handler looks up the credentials of the
/// request first, and without readable credentials asks for them.
pub proof fn law_how_requests_begin(route: Route, headers: Seq<Header>)
    ensures
        route == Route::Index ==> opening(route, headers) == (
            StageView::Done,
            ActionView::Respond(
                ReplyView { status: 200, body: ReplyBodyView::IndexPage, ask_credentials: false },
            ),
        ),
        route == Route::NotFound || route == Route::EditCategory ==> opening(route, headers)
            == ends_with_text(404, "Not found"@),
        route == Route::ListCategories ==> opening(route, headers) == (
            StageView::Body(ExpectView::ListCategories),
            ActionView::ReadBody(BodyKind::ListCategories),
        ),
        route == Route::ListData ==> opening(route, headers) == (
            StageView::Body(ExpectView::ListData),
            ActionView::ReadBody(BodyKind::ListData),
        ),
        route == Route::Login ==> opening(route, headers) == checks_credentials(
            headers,
            AfterUserView::Login,
        ),
        route == Route::UpdatePassword ==> opening(route, headers) == checks_credentials(
            headers,
            AfterUserView::ReadBody(SignedKind::ChangePassword),
        ),
        route == Route::AddCategory ==> opening(route, headers) == checks_credentials(
            headers,
            AfterUserView::ReadBody(SignedKind::AddCategory),
        ),
        route == Route::RemoveCategory ==> opening(route, headers) == checks_credentials(
            headers,
            AfterUserView::ReadBody(SignedKind::RemoveCategory),
        ),
        route == Route::AddData ==> opening(route, headers) == checks_credentials(
            headers,
            AfterUserView::ReadBody(SignedKind::AddData),
        ),
        route == Route::EditData ==> opening(route, headers) == checks_credentials(
            headers,
            AfterUserView::ReadBody(SignedKind::EditData),
        ),
        route == Route::RemoveData ==> opening(route, headers) == checks_credentials(
            headers,
            AfterUserView::ReadBody(SignedKind::RemoveData),
        ),
{
}

/// Once the account is found, a login answers with its name, and a signed-in handler
/// reads its own kind of body for that account.
pub proof fn law_after_account_found(
    u: User,
    kind: SignedKind,
    headers: Seq<Header>,
    telegram: Option<TelegramParameters>,
)
    ensures
        next(StageView::User(AfterUserView::Login), headers, telegram, Event::UserFound(Some(u)))
            == (
            StageView::Done,
            ActionView::Respond(
                ReplyView {
                    status: 200,
                    body: ReplyBodyView::Login { user: u.name@ },
                    ask_credentials: false,
                },
            ),
        ),
        ({
            let r = next(
                StageView::User(AfterUserView::ReadBody(kind)),
                headers,
                telegram,
                Event::UserFound(Some(u)),
            );
            &&& kind == SignedKind::ChangePassword ==> r == (
                StageView::Body(ExpectView::ChangePassword(u@)),
                ActionView::ReadBody(BodyKind::ChangePassword),
            )
            &&& kind == SignedKind::AddCategory ==> r == (
                StageView::Body(ExpectView::AddCategory(u@)),
                ActionView::ReadBody(BodyKind::AddCategory),
            )
            &&& kind == SignedKind::RemoveCategory ==> r == (
                StageView::Body(ExpectView::RemoveCategory(u@)),
                ActionView::ReadBody(BodyKind::RemoveCategory),
            )
            &&& kind == SignedKind::AddData ==> r == (
                StageView::Body(ExpectView::AddData(u@)),
                ActionView::ReadBody(BodyKind::AddData),
            )
            &&& kind == SignedKind::EditData ==> r == (
                StageView::Body(ExpectView::EditData(u@)),
                ActionView::ReadBody(BodyKind::EditData),
            )
            &&& kind == SignedKind::RemoveData ==> r == (
                StageView::Body(ExpectView::RemoveData(u@)),
                ActionView::ReadBody(BodyKind::RemoveData),
            )
        }),
{
}

/// A body that could not be read or parsed is answered 400 with the error's text.
pub proof fn law_unreadable_body(
    expect: ExpectView,
    error: String,
    headers: Seq<Header>,
    telegram: Option<TelegramParameters>,
)
    ensures
        next(StageView::Body(expect), headers, telegram, Event::BodyRead(Err(error)))
            == ends_with_text(400, error@),
{
}

/// Listing a user's categories: without `include_private` nobody is signed in and the
/// listing is asked for at once; with it, the request's credentials are checked first,
/// and the account found becomes the viewer.
pub proof fn law_category_listing_viewer(
    username: String,
    include_private: bool,
    listed_user: Seq<char>,
    u: User,
    headers: Seq<Header>,
    telegram: Option<TelegramParameters>,
)
    ensures
        next(
            StageView::Body(ExpectView::ListCategories),
            headers,
            telegram,
            Event::BodyRead(Ok(Body::ListCategories { username, include_private })),
        ) == if include_private {
            checks_credentials(headers, AfterUserView::ListCategories { username: username@ })
        } else {
            (
                StageView::CategoryRows { viewer: None },
                ActionView::ListCategoryRows { username: username@ },
            )
        },
        next(
            StageView::User(AfterUserView::ListCategories { username: listed_user }),
            headers,
            telegram,
            Event::UserFound(Some(u)),
        ) == (
            StageView::CategoryRows { viewer: Some(u.id) },
            ActionView::ListCategoryRows { username: listed_user },
        ),
{
}

/// The category listing answers 200 with exactly the listed rows that are public or owned
/// by the viewer of the exchange: each category shown is one of the rows, and is public or
/// the viewer's; each public row, and each row the viewer owns, is shown.
pub proof fn law_listing_shows_exactly_visible(
    viewer: Option<u32>,
    rows: Vec<CategoryRow>,
    headers: Seq<Header>,
    telegram: Option<TelegramParameters>,
)
    ensures
        ({
            let (s, a) = next(
                StageView::CategoryRows { viewer },
                headers,
                telegram,
                Event::CategoryRowsListed(rows),
            );
            &&& s == StageView::Done
            &&& a matches ActionView::Respond(r)
            &&& r.status == 200
            &&& !r.ask_credentials
            &&& r.body matches ReplyBodyView::Categories(c)
            &&& forall|i: int| 0 <= i < c.len() ==> #[trigger] c[i].is_public || viewer == Some(c[i].user_id)
            &&& forall|i: int|
                0 <= i < c.len() ==> exists|j: int|
                    0 <= j < rows@.len() && row_as_category(rows@[j]) == #[trigger] c[i]
            &&& forall|j: int|
                0 <= j < rows@.len() && (rows@[j].is_public == 1 || viewer == Some(rows@[j].user_id))
                    ==> exists|i: int| 0 <= i < c.len() && c[i] == row_as_category(#[trigger] rows@[j])
        }),
{
    law_visible_categories(rows@, viewer);
    let c = crate::category::visible(rows@, viewer);
    assert forall|i: int| 0 <= i < c.len() implies #[trigger] c[i].is_public || viewer == Some(
        c[i].user_id,
    ) by {
        assert(c.contains(c[i]));
    }
    assert forall|i: int| 0 <= i < c.len() implies exists|j: int|
        0 <= j < rows@.len() && row_as_category(rows@[j]) == #[trigger] c[i] by {
        assert(c.contains(c[i]));
    }
    assert forall|j: int|
        0 <= j < rows@.len() && (rows@[j].is_public == 1 || viewer == Some(rows@[j].user_id))
            implies exists|i: int| 0 <= i < c.len() && c[i] == row_as_category(#[trigger] rows@[j]) by {
        assert(c.contains(crate::category::row_category(rows@[j])));
    }
}

/// The entry listing answers 200 with every listed entry, in the order listed.
pub proof fn law_entries_all_listed(
    data: Vec<Data>,
    headers: Seq<Header>,
    telegram: Option<TelegramParameters>,
)
    ensures
        ({
            let (s, a) = next(StageView::Entries, headers, telegram, Event::EntriesListed(data));
            &&& s == StageView::Done
            &&& a matches ActionView::Respond(r)
            &&& r.status == 200
            &&& !r.ask_credentials
            &&& r.body matches ReplyBodyView::Entries(e)
            &&& e.len() == data@.len()
            &&& forall|i: int|
                0 <= i < e.len() ==> #[trigger] e[i] == (DataView {
                    id: data@[i].id,
                    time: data@[i].time,
                    value: data@[i].value@,
                })
        }),
{
}

/// Changing a password: a new password of 1 to 999 bytes is stored, for the signed-in
/// user, as the base64 text of the SHA-256 digest of all its UTF-8 bytes, and the answer is
/// 200 `{}`; any other is answered 400 with an empty text and nothing is stored.
pub proof fn law_password_change(
    user: UserView,
    new_password: String,
    rows: usize,
    headers: Seq<Header>,
    telegram: Option<TelegramParameters>,
)
    ensures
        ({
            let bytes = encode_utf8(new_password@);
            next(
                StageView::Body(ExpectView::ChangePassword(user)),
                headers,
                telegram,
                Event::BodyRead(Ok(Body::ChangePassword { new_password })),
            ) == if 0 < bytes.len() && bytes.len() < 1000 {
                (
                    StageView::Write(AfterWriteView::Braces),
                    ActionView::StorePassword {
                        user_id: user.id,
                        password_hash: base64_text(sha256_digest(bytes)),
                    },
                )
            } else {
                ends_with_text(400, ""@)
            }
        }),
        next(StageView::Write(AfterWriteView::Braces), headers, telegram, Event::Written(rows))
            == ends_with_text(200, "{}"@),
{
}

/// Adding a category stores it for the signed-in user with the requested name and rules,
/// and as public (1) exactly when it was asked to be public, else private (0); removing one
/// deletes the requested id for the signed-in user. Both answer 200 with an empty text.
pub proof fn law_category_writes(
    user: UserView,
    name: String,
    rules: String,
    is_public: bool,
    category_id: u32,
    rows: usize,
    headers: Seq<Header>,
    telegram: Option<TelegramParameters>,
)
    ensures
        ({
            let (s, a) = next(
                StageView::Body(ExpectView::AddCategory(user)),
                headers,
                telegram,
                Event::BodyRead(Ok(Body::AddCategory { name, rules, is_public })),
            );
            &&& s == StageView::Write(AfterWriteView::Empty)
            &&& a matches ActionView::InsertCategory { user_id, name: n, rules: r, is_public: flag }
            &&& user_id == user.id
            &&& n == name@
            &&& r == rules@
            &&& (is_public ==> flag == 1)
            &&& (!is_public ==> flag == 0)
        }),
        next(
            StageView::Body(ExpectView::RemoveCategory(user)),
            headers,
            telegram,
            Event::BodyRead(Ok(Body::RemoveCategory { category_id })),
        ) == (
            StageView::Write(AfterWriteView::Empty),
            ActionView::DeleteCategory { category_id, user_id: user.id },
        ),
        next(StageView::Write(AfterWriteView::Empty), headers, telegram, Event::Written(rows))
            == ends_with_text(200, ""@),
{
}

/// Reading a category's entries: the requested category is fetched; a missing one is a
/// 404; a public one is listed at once; a private one only after the request's
/// credentials are checked, and only for the account that owns it (others get 403).
pub proof fn law_entry_listing_access(
    category_id: u32,
    row: CategoryRow,
    owner: u32,
    u: User,
    headers: Seq<Header>,
    telegram: Option<TelegramParameters>,
)
    ensures
        next(
            StageView::Body(ExpectView::ListData),
            headers,
            telegram,
            Event::BodyRead(Ok(Body::ListData { category_id })),
        ) == (
            StageView::Category(PendingView::ListData { category_id }),
            ActionView::FetchCategory { category_id },
        ),
        next(
            StageView::Category(PendingView::ListData { category_id }),
            headers,
            telegram,
            Event::CategoryFetched(None),
        ) == ends_with_text(404, ""@),
        next(
            StageView::Category(PendingView::ListData { category_id }),
            headers,
            telegram,
            Event::CategoryFetched(Some(row)),
        ) == if row.is_public == 1 {
            (StageView::Entries, ActionView::ListEntries { category_id })
        } else {
            checks_credentials(headers, AfterUserView::ListData { category_id, owner: row.user_id })
        },
        next(
            StageView::User(AfterUserView::ListData { category_id, owner }),
            headers,
            telegram,
            Event::UserFound(Some(u)),
        ) == if u.id == owner {
            (StageView::Entries, ActionView::ListEntries { category_id })
        } else {
            ends_with_text(403, ""@)
        },
{
}

/// Adding, changing or removing an entry: a value of 1024 bytes or more is refused with
/// 400; otherwise the requested category is fetched for the signed-in user.
pub proof fn law_entry_requests_checked(
    user: UserView,
    category_id: u32,
    data_id: u32,
    time: u64,
    value: String,
    headers: Seq<Header>,
    telegram: Option<TelegramParameters>,
)
    ensures
        next(
            StageView::Body(ExpectView::AddData(user)),
            headers,
            telegram,
            Event::BodyRead(Ok(Body::AddData { category_id, time, value })),
        ) == if encode_utf8(value@).len() < 1024 {
            (
                StageView::Category(
                    PendingView::AddData { user, category_id, time, value: value@ },
                ),
                ActionView::FetchCategory { category_id },
            )
        } else {
            ends_with_text(400, ""@)
        },
        next(
            StageView::Body(ExpectView::EditData(user)),
            headers,
            telegram,
            Event::BodyRead(Ok(Body::EditData { category_id, data_id, new_value: value })),
        ) == if encode_utf8(value@).len() < 1024 {
            (
                StageView::Category(
                    PendingView::EditData { user, category_id, data_id, value: value@ },
                ),
                ActionView::FetchCategory { category_id },
            )
        } else {
            ends_with_text(400, ""@)
        },
        next(
            StageView::Body(ExpectView::RemoveData(user)),
            headers,
            telegram,
            Event::BodyRead(Ok(Body::RemoveData { category_id, data_id })),
        ) == (
            StageView::Category(PendingView::RemoveData { user, category_id, data_id }),
            ActionView::FetchCategory { category_id },
        ),
{
}

/// Adding an entry: a missing category is a 400, another user's a 403; in the user's own
/// category the entry is inserted as requested. A notice follows exactly when notices are
/// set up and the category is public and its rules hold `telegram=yes`; it goes to the
/// Bot API address of the token, to the configured chat, and reads
/// `<user> added '<value>' to <category name>`. The answer is 200 `{}`.
pub proof fn law_adding_entry(
    user: UserView,
    category_id: u32,
    time: u64,
    value: Seq<char>,
    row: CategoryRow,
    rows: usize,
    headers: Seq<Header>,
    telegram: Option<TelegramParameters>,
)
    ensures
        ({
            let pending = StageView::Category(
                PendingView::AddData { user, category_id, time, value },
            );
            &&& next(pending, headers, telegram, Event::CategoryFetched(None)) == ends_with_text(
                400,
                ""@,
            )
            &&& row.user_id != user.id ==> next(
                pending,
                headers,
                telegram,
                Event::CategoryFetched(Some(row)),
            ) == ends_with_text(403, ""@)
            &&& row.user_id == user.id ==> {
                let (s, a) = next(pending, headers, telegram, Event::CategoryFetched(Some(row)));
                &&& a == ActionView::InsertEntry { category_id, time, value }
                &&& s matches StageView::Write(after)
                &&& if telegram is Some && row.is_public == 1 && asks_for_notice(row.rules@) {
                    after == AfterWriteView::Announce {
                        api_url: "https://api.telegram.org/bot"@ + telegram->0.telegram_token@,
                        chat_id: telegram->0.telegram_chat,
                        text: user.name + " added '"@ + value + "' to "@ + row.name@,
                    }
                } else {
                    after == AfterWriteView::Braces
                }
            }
        }),
{
    if row.user_id == user.id {
        let rules = row.rules@;
        let needle = "telegram=yes"@;
        if crate::text::contains_text(rules, needle) {
            let i = choose|i: int| crate::text::occurs_at(rules, needle, i);
            assert(rules.subrange(i, i + needle.len()) == needle);
        }
        if asks_for_notice(rules) {
            let i = choose|i: int|
                0 <= i && i + needle.len() <= rules.len() && #[trigger] rules.subrange(
                    i,
                    i + needle.len(),
                ) == needle;
            assert(crate::text::occurs_at(rules, needle, i));
        }
    }
}

/// After the insert, a prepared notice is handed to the server and the answer is 200 `{}`.
pub proof fn law_notice_then_reply(
    api_url: Seq<char>,
    chat_id: i64,
    text: Seq<char>,
    rows: usize,
    headers: Seq<Header>,
    telegram: Option<TelegramParameters>,
)
    ensures
        next(
            StageView::Write(AfterWriteView::Announce { api_url, chat_id, text }),
            headers,
            telegram,
            Event::Written(rows),
        ) == (StageView::Notice, ActionView::Notify { api_url, chat_id, text }),
        next(StageView::Notice, headers, telegram, Event::Notified) == ends_with_text(200, "{}"@),
{
}

/// Changing or removing an entry: a missing category is a 400, another user's a 403; in
/// the user's own category the requested entry is updated or deleted. The answer is
/// 200 `{}` when exactly one row changed, else 404 with an empty text.
pub proof fn law_changing_entries(
    user: UserView,
    category_id: u32,
    data_id: u32,
    value: Seq<char>,
    row: CategoryRow,
    rows: usize,
    headers: Seq<Header>,
    telegram: Option<TelegramParameters>,
)
    ensures
        ({
            let edit = StageView::Category(
                PendingView::EditData { user, category_id, data_id, value },
            );
            let remove = StageView::Category(
                PendingView::RemoveData { user, category_id, data_id },
            );
            &&& next(edit, headers, telegram, Event::CategoryFetched(None)) == ends_with_text(
                400,
                ""@,
            )
            &&& next(remove, headers, telegram, Event::CategoryFetched(None)) == ends_with_text(
                400,
                ""@,
            )
            &&& next(edit, headers, telegram, Event::CategoryFetched(Some(row))) == if row.user_id
                == user.id {
                (
                    StageView::Write(AfterWriteView::ByRows),
                    ActionView::UpdateEntry { category_id, data_id, value },
                )
            } else {
                ends_with_text(403, ""@)
            }
            &&& next(remove, headers, telegram, Event::CategoryFetched(Some(row))) == if row.user_id
                == user.id {
                (
                    StageView::Write(AfterWriteView::ByRows),
                    ActionView::DeleteEntry { category_id, data_id },
                )
            } else {
                ends_with_text(403, ""@)
            }
        }),
        next(StageView::Write(AfterWriteView::ByRows), headers, telegram, Event::Written(rows))
            == if rows == 1 {
            ends_with_text(200, "{}"@)
        } else {
            ends_with_text(404, ""@)
        },
{
}

} // verus!
