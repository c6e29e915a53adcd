//! The request handlers as one state machine. An exchange starts from the route of a
//! request, asks the server for one piece of outside work at a time (an [`Action`]), is
//! told what came of it (an [`Event`]), and ends with a reply.
use vstd::prelude::*;
use crate::auth::{Header, User, UserView, credentials_of, get_auth, password_acceptable,
    password_hash, is_acceptable_password, hash_password};
use crate::category::{CategoryRow, visible, row_category, category_from_row,
    visible_categories};
use crate::entries::{TelegramParameters, value_acceptable, is_acceptable_value, announces,
    wants_notice, notice_text, notice_message, api_url, telegram_api_url, Data};
use crate::protocol::{Action, ActionView, Body, BodyKind, Event, Reply, ReplyBody,
    ReplyBodyView, ReplyView, text_reply, reply_text};
use crate::routes::Route;
use crate::laws::{well_formed, law_exchanges_start_well_formed, law_written_values_meet_rules};

verus! {

/// The handlers that read a body after the request's credentials are checked.
#[derive(Clone, Copy, Debug, PartialEq, Eq, Structural)]
pub enum SignedKind {
    ChangePassword,
    AddCategory,
    RemoveCategory,
    AddData,
    EditData,
    RemoveData,
}

/// What to do once the account behind the credentials is known.
pub enum AfterUser {
    /// Tell the client who it is.
    Login,
    /// Read the body of this handler.
    ReadBody(SignedKind),
    /// List this user's categories, private ones included where the viewer owns them.
    ListCategories { username: String },
    /// List the entries of a private category, if the viewer is its owner.
    ListData { category_id: u32, owner: u32 },
}

/// The mathematical value of an [`AfterUser`].
pub enum AfterUserView {
    Login,
    ReadBody(SignedKind),
    ListCategories { username: Seq<char> },
    ListData { category_id: u32, owner: u32 },
}

impl View for AfterUser {
    type V = AfterUserView;

    open spec fn view(&self) -> AfterUserView {
        match self {
            AfterUser::Login => AfterUserView::Login,
            AfterUser::ReadBody(k) => AfterUserView::ReadBody(*k),
            AfterUser::ListCategories { username } => AfterUserView::ListCategories {
                username: username@,
            },
            AfterUser::ListData { category_id, owner } => AfterUserView::ListData {
                category_id: *category_id,
                owner: *owner,
            },
        }
    }
}

/// Which body is awaited, and for which signed-in user.
pub enum Expect {
    ChangePassword(User),
    ListCategories,
    AddCategory(User),
    RemoveCategory(User),
    ListData,
    AddData(User),
    EditData(User),
    RemoveData(User),
}

/// The mathematical value of an [`Expect`].
pub enum ExpectView {
    ChangePassword(UserView),
    ListCategories,
    AddCategory(UserView),
    RemoveCategory(UserView),
    ListData,
    AddData(UserView),
    EditData(UserView),
    RemoveData(UserView),
}

impl View for Expect {
    type V = ExpectView;

    open spec fn view(&self) -> ExpectView {
        match self {
            Expect::ChangePassword(u) => ExpectView::ChangePassword(u@),
            Expect::ListCategories => ExpectView::ListCategories,
            Expect::AddCategory(u) => ExpectView::AddCategory(u@),
            Expect::RemoveCategory(u) => ExpectView::RemoveCategory(u@),
            Expect::ListData => ExpectView::ListData,
            Expect::AddData(u) => ExpectView::AddData(u@),
            Expect::EditData(u) => ExpectView::EditData(u@),
            Expect::RemoveData(u) => ExpectView::RemoveData(u@),
        }
    }
}

/// The body kind that an [`ExpectView`] awaits.
pub open spec fn expected_kind(e: ExpectView) -> BodyKind {
    match e {
        ExpectView::ChangePassword(_) => BodyKind::ChangePassword,
        ExpectView::ListCategories => BodyKind::ListCategories,
        ExpectView::AddCategory(_) => BodyKind::AddCategory,
        ExpectView::RemoveCategory(_) => BodyKind::RemoveCategory,
        ExpectView::ListData => BodyKind::ListData,
        ExpectView::AddData(_) => BodyKind::AddData,
        ExpectView::EditData(_) => BodyKind::EditData,
        ExpectView::RemoveData(_) => BodyKind::RemoveData,
    }
}

/// What a handler does with the category it asked for.
pub enum Pending {
    ListData { category_id: u32 },
    AddData { user: User, category_id: u32, time: u64, value: String },
    EditData { user: User, category_id: u32, data_id: u32, value: String },
    RemoveData { user: User, category_id: u32, data_id: u32 },
}

/// The mathematical value of a [`Pending`].
pub enum PendingView {
    ListData { category_id: u32 },
    AddData { user: UserView, category_id: u32, time: u64, value: Seq<char> },
    EditData { user: UserView, category_id: u32, data_id: u32, value: Seq<char> },
    RemoveData { user: UserView, category_id: u32, data_id: u32 },
}

impl View for Pending {
    type V = PendingView;

    open spec fn view(&self) -> PendingView {
        match self {
            Pending::ListData { category_id } => PendingView::ListData { category_id: *category_id },
            Pending::AddData { user, category_id, time, value } => PendingView::AddData {
                user: user@,
                category_id: *category_id,
                time: *time,
                value: value@,
            },
            Pending::EditData { user, category_id, data_id, value } => PendingView::EditData {
                user: user@,
                category_id: *category_id,
                data_id: *data_id,
                value: value@,
            },
            Pending::RemoveData { user, category_id, data_id } => PendingView::RemoveData {
                user: user@,
                category_id: *category_id,
                data_id: *data_id,
            },
        }
    }
}

/// How to answer once a write is done.
pub enum AfterWrite {
    /// Status 200 with an empty text.
    Empty,
    /// Status 200 with the text `{}`.
    Braces,
    /// Send this notice, then status 200 with the text `{}`.
    Announce { api_url: String, chat_id: i64, text: String },
    /// Status 200 with `{}` when exactly one row changed, else 404 with an empty text.
    ByRows,
}

/// The mathematical value of an [`AfterWrite`].
pub enum AfterWriteView {
    Empty,
    Braces,
    Announce { api_url: Seq<char>, chat_id: i64, text: Seq<char> },
    ByRows,
}

impl View for AfterWrite {
    type V = AfterWriteView;

    open spec fn view(&self) -> AfterWriteView {
        match self {
            AfterWrite::Empty => AfterWriteView::Empty,
            AfterWrite::Braces => AfterWriteView::Braces,
            AfterWrite::Announce { api_url, chat_id, text } => AfterWriteView::Announce {
                api_url: api_url@,
                chat_id: *chat_id,
                text: text@,
            },
            AfterWrite::ByRows => AfterWriteView::ByRows,
        }
    }
}

/// Where an exchange stands: which event it awaits, with what it has gathered so far.
pub enum Stage {
    User(AfterUser),
    Body(Expect),
    Category(Pending),
    CategoryRows { viewer: Option<u32> },
    Entries,
    Write(AfterWrite),
    Notice,
    Done,
}

/// The mathematical value of a [`Stage`].
pub enum StageView {
    User(AfterUserView),
    Body(ExpectView),
    Category(PendingView),
    CategoryRows { viewer: Option<u32> },
    Entries,
    Write(AfterWriteView),
    Notice,
    Done,
}

impl View for Stage {
    type V = StageView;

    open spec fn view(&self) -> StageView {
        match self {
            Stage::User(a) => StageView::User(a@),
            Stage::Body(e) => StageView::Body(e@),
            Stage::Category(p) => StageView::Category(p@),
            Stage::CategoryRows { viewer } => StageView::CategoryRows { viewer: *viewer },
            Stage::Entries => StageView::Entries,
            Stage::Write(a) => StageView::Write(a@),
            Stage::Notice => StageView::Notice,
            Stage::Done => StageView::Done,
        }
    }
}

/// One request being handled: where it stands, the request's headers, and where notices
/// go (if anywhere). Its fields are private: every exchange begins with
/// [`Exchange::start`] and moves on only by [`Exchange::step`].
pub struct Exchange {
    stage: Stage,
    headers: Vec<Header>,
    telegram: Option<TelegramParameters>,
}

impl Exchange {
    /// Every exchange is well formed: a value waiting to be written meets its length rule.
    #[verifier::type_invariant]
    spec fn keeps_rules(&self) -> bool {
        well_formed(self.stage@)
    }

    /// Where the exchange stands.
    pub closed spec fn stage_view(&self) -> StageView {
        self.stage@
    }

    /// The headers of the request.
    pub closed spec fn headers_view(&self) -> Seq<Header> {
        self.headers@
    }

    /// Where notices go, if anywhere.
    pub closed spec fn telegram_view(&self) -> Option<TelegramParameters> {
        self.telegram
    }
}

// ---------------------------------------------------------------------------------------
// The transitions, stated over views.
// ---------------------------------------------------------------------------------------

/// The answer to a request without readable credentials: 401, empty text, and a request
/// for basic credentials.
pub open spec fn challenge() -> ReplyView {
    ReplyView { status: 401, body: ReplyBodyView::Text(""@), ask_credentials: true }
}

/// End the exchange with this reply.
pub open spec fn respond(r: ReplyView) -> (StageView, ActionView) {
    (StageView::Done, ActionView::Respond(r))
}

/// Check the request's credentials, then go on as `then` says.
pub open spec fn authenticate(then: AfterUserView, headers: Seq<Header>) -> (StageView, ActionView) {
    match credentials_of(headers) {
        None => respond(challenge()),
        Some((username, password)) => (
            StageView::User(then),
            ActionView::LookupUser { username, password },
        ),
    }
}

/// How an exchange begins for each route.
pub open spec fn opening(route: Route, headers: Seq<Header>) -> (StageView, ActionView) {
    match route {
        Route::Index => respond(
            ReplyView { status: 200, body: ReplyBodyView::IndexPage, ask_credentials: false },
        ),
        Route::Login => authenticate(AfterUserView::Login, headers),
        Route::UpdatePassword => authenticate(
            AfterUserView::ReadBody(SignedKind::ChangePassword),
            headers,
        ),
        Route::ListCategories => (
            StageView::Body(ExpectView::ListCategories),
            ActionView::ReadBody(BodyKind::ListCategories),
        ),
        Route::AddCategory => authenticate(AfterUserView::ReadBody(SignedKind::AddCategory), headers),
        Route::RemoveCategory => authenticate(
            AfterUserView::ReadBody(SignedKind::RemoveCategory),
            headers,
        ),
        Route::ListData => (
            StageView::Body(ExpectView::ListData),
            ActionView::ReadBody(BodyKind::ListData),
        ),
        Route::AddData => authenticate(AfterUserView::ReadBody(SignedKind::AddData), headers),
        Route::EditData => authenticate(AfterUserView::ReadBody(SignedKind::EditData), headers),
        Route::RemoveData => authenticate(AfterUserView::ReadBody(SignedKind::RemoveData), headers),
        Route::EditCategory => respond(text_reply(404, "Not found"@)),
        Route::NotFound => respond(text_reply(404, "Not found"@)),
    }
}

/// The body that a signed-in handler awaits.
pub open spec fn expect_for(kind: SignedKind, user: UserView) -> ExpectView {
    match kind {
        SignedKind::ChangePassword => ExpectView::ChangePassword(user),
        SignedKind::AddCategory => ExpectView::AddCategory(user),
        SignedKind::RemoveCategory => ExpectView::RemoveCategory(user),
        SignedKind::AddData => ExpectView::AddData(user),
        SignedKind::EditData => ExpectView::EditData(user),
        SignedKind::RemoveData => ExpectView::RemoveData(user),
    }
}

/// The body kind of a signed-in handler.
pub open spec fn signed_body_kind(kind: SignedKind) -> BodyKind {
    match kind {
        SignedKind::ChangePassword => BodyKind::ChangePassword,
        SignedKind::AddCategory => BodyKind::AddCategory,
        SignedKind::RemoveCategory => BodyKind::RemoveCategory,
        SignedKind::AddData => BodyKind::AddData,
        SignedKind::EditData => BodyKind::EditData,
        SignedKind::RemoveData => BodyKind::RemoveData,
    }
}

/// What follows the account lookup: no account is a 401 `Invalid login`; otherwise the
/// handler goes on.
pub open spec fn on_user(then: AfterUserView, found: Option<User>) -> (StageView, ActionView) {
    match found {
        None => respond(text_reply(401, "Invalid login"@)),
        Some(user) => match then {
            AfterUserView::Login => respond(
                ReplyView {
                    status: 200,
                    body: ReplyBodyView::Login { user: user.name@ },
                    ask_credentials: false,
                },
            ),
            AfterUserView::ReadBody(kind) => (
                StageView::Body(expect_for(kind, user@)),
                ActionView::ReadBody(signed_body_kind(kind)),
            ),
            AfterUserView::ListCategories { username } => (
                StageView::CategoryRows { viewer: Some(user.id) },
                ActionView::ListCategoryRows { username },
            ),
            AfterUserView::ListData { category_id, owner } => if owner != user.id {
                respond(text_reply(403, ""@))
            } else {
                (StageView::Entries, ActionView::ListEntries { category_id })
            },
        },
    }
}

/// What follows reading the body: a read or parse error is a 400 with the error's text;
/// a body that breaks a length rule is a 400 with an empty text; otherwise the handler
/// goes on.
pub open spec fn on_body(expect: ExpectView, read: Result<Body, String>, headers: Seq<Header>) -> (
    StageView,
    ActionView,
) {
    match read {
        Err(e) => respond(text_reply(400, e@)),
        Ok(body) => match (expect, body) {
            (ExpectView::ChangePassword(user), Body::ChangePassword { new_password }) => {
                if password_acceptable(new_password@) {
                    (
                        StageView::Write(AfterWriteView::Braces),
                        ActionView::StorePassword {
                            user_id: user.id,
                            password_hash: password_hash(new_password@),
                        },
                    )
                } else {
                    respond(text_reply(400, ""@))
                }
            },
            (ExpectView::ListCategories, Body::ListCategories { username, include_private }) => {
                if include_private {
                    authenticate(AfterUserView::ListCategories { username: username@ }, headers)
                } else {
                    (
                        StageView::CategoryRows { viewer: None },
                        ActionView::ListCategoryRows { username: username@ },
                    )
                }
            },
            (ExpectView::AddCategory(user), Body::AddCategory { name, rules, is_public }) => (
                StageView::Write(AfterWriteView::Empty),
                ActionView::InsertCategory {
                    user_id: user.id,
                    name: name@,
                    rules: rules@,
                    is_public: if is_public {
                        1
                    } else {
                        0
                    },
                },
            ),
            (ExpectView::RemoveCategory(user), Body::RemoveCategory { category_id }) => (
                StageView::Write(AfterWriteView::Empty),
                ActionView::DeleteCategory { category_id, user_id: user.id },
            ),
            (ExpectView::ListData, Body::ListData { category_id }) => (
                StageView::Category(PendingView::ListData { category_id }),
                ActionView::FetchCategory { category_id },
            ),
            (ExpectView::AddData(user), Body::AddData { category_id, time, value }) => {
                if value_acceptable(value@) {
                    (
                        StageView::Category(
                            PendingView::AddData { user, category_id, time, value: value@ },
                        ),
                        ActionView::FetchCategory { category_id },
                    )
                } else {
                    respond(text_reply(400, ""@))
                }
            },
            (ExpectView::EditData(user), Body::EditData { category_id, data_id, new_value }) => {
                if value_acceptable(new_value@) {
                    (
                        StageView::Category(
                            PendingView::EditData { user, category_id, data_id, value: new_value@ },
                        ),
                        ActionView::FetchCategory { category_id },
                    )
                } else {
                    respond(text_reply(400, ""@))
                }
            },
            (ExpectView::RemoveData(user), Body::RemoveData { category_id, data_id }) => (
                StageView::Category(PendingView::RemoveData { user, category_id, data_id }),
                ActionView::FetchCategory { category_id },
            ),
            // Not reached: `Exchange::step` only takes a body of the awaited kind.
            _ => respond(text_reply(500, ""@)),
        },
    }
}

/// How the answer after inserting an entry goes: with a notice when notices are set up
/// and the category announces new entries.
pub open spec fn after_insert(
    user: UserView,
    value: Seq<char>,
    category_name: Seq<char>,
    announced: bool,
    telegram: Option<TelegramParameters>,
) -> AfterWriteView {
    match telegram {
        Some(p) => if announced {
            AfterWriteView::Announce {
                api_url: api_url(p.telegram_token@),
                chat_id: p.telegram_chat,
                text: notice_text(user.name, value, category_name),
            }
        } else {
            AfterWriteView::Braces
        },
        None => AfterWriteView::Braces,
    }
}

/// What follows fetching the category. For reading: no category is a 404; a private one
/// needs its owner's credentials. For writing: no category is a 400; one that the user
/// does not own is a 403; otherwise the write goes ahead.
pub open spec fn on_category(
    pending: PendingView,
    row: Option<CategoryRow>,
    headers: Seq<Header>,
    telegram: Option<TelegramParameters>,
) -> (StageView, ActionView) {
    match pending {
        PendingView::ListData { category_id } => match row {
            None => respond(text_reply(404, ""@)),
            Some(r) => if r.is_public == 1 {
                (StageView::Entries, ActionView::ListEntries { category_id })
            } else {
                authenticate(AfterUserView::ListData { category_id, owner: r.user_id }, headers)
            },
        },
        PendingView::AddData { user, category_id, time, value } => match row {
            None => respond(text_reply(400, ""@)),
            Some(r) => if r.user_id != user.id {
                respond(text_reply(403, ""@))
            } else {
                (
                    StageView::Write(
                        after_insert(
                            user,
                            value,
                            r.name@,
                            announces(row_category(r)),
                            telegram,
                        ),
                    ),
                    ActionView::InsertEntry { category_id, time, value },
                )
            },
        },
        PendingView::EditData { user, category_id, data_id, value } => match row {
            None => respond(text_reply(400, ""@)),
            Some(r) => if r.user_id != user.id {
                respond(text_reply(403, ""@))
            } else {
                (
                    StageView::Write(AfterWriteView::ByRows),
                    ActionView::UpdateEntry { category_id, data_id, value },
                )
            },
        },
        PendingView::RemoveData { user, category_id, data_id } => match row {
            None => respond(text_reply(400, ""@)),
            Some(r) => if r.user_id != user.id {
                respond(text_reply(403, ""@))
            } else {
                (
                    StageView::Write(AfterWriteView::ByRows),
                    ActionView::DeleteEntry { category_id, data_id },
                )
            },
        },
    }
}

/// The answer to a write that changed `rows` rows.
pub open spec fn on_written(after: AfterWriteView, rows: usize) -> (StageView, ActionView) {
    match after {
        AfterWriteView::Empty => respond(text_reply(200, ""@)),
        AfterWriteView::Braces => respond(text_reply(200, "{}"@)),
        AfterWriteView::Announce { api_url, chat_id, text } => (
            StageView::Notice,
            ActionView::Notify { api_url, chat_id, text },
        ),
        AfterWriteView::ByRows => if rows == 1 {
            respond(text_reply(200, "{}"@))
        } else {
            respond(text_reply(404, ""@))
        },
    }
}

/// Whether the stage awaits this event.
pub open spec fn awaits(stage: StageView, event: Event) -> bool {
    match (stage, event) {
        (StageView::User(_), Event::UserFound(_)) => true,
        (StageView::Body(e), Event::BodyRead(read)) => match read {
            Ok(body) => body.kind() == expected_kind(e),
            Err(_) => true,
        },
        (StageView::Category(_), Event::CategoryFetched(_)) => true,
        (StageView::CategoryRows { .. }, Event::CategoryRowsListed(_)) => true,
        (StageView::Entries, Event::EntriesListed(_)) => true,
        (StageView::Write(_), Event::Written(_)) => true,
        (StageView::Notice, Event::Notified) => true,
        _ => false,
    }
}

/// The next stage and action after an awaited event.
pub open spec fn next(
    stage: StageView,
    headers: Seq<Header>,
    telegram: Option<TelegramParameters>,
    event: Event,
) -> (StageView, ActionView) {
    match (stage, event) {
        (StageView::User(then), Event::UserFound(found)) => on_user(then, found),
        (StageView::Body(e), Event::BodyRead(read)) => on_body(e, read, headers),
        (StageView::Category(p), Event::CategoryFetched(row)) => on_category(p, row, headers, telegram),
        (StageView::CategoryRows { viewer }, Event::CategoryRowsListed(rows)) => respond(
            ReplyView {
                status: 200,
                body: ReplyBodyView::Categories(visible(rows@, viewer)),
                ask_credentials: false,
            },
        ),
        (StageView::Entries, Event::EntriesListed(data)) => respond(
            ReplyView {
                status: 200,
                body: ReplyBodyView::Entries(data@.map_values(|d: Data| d@)),
                ask_credentials: false,
            },
        ),
        (StageView::Write(after), Event::Written(rows)) => on_written(after, rows),
        (StageView::Notice, Event::Notified) => respond(text_reply(200, "{}"@)),
        // Not reached: `Exchange::step` only takes an awaited event.
        _ => respond(text_reply(500, ""@)),
    }
}

// ---------------------------------------------------------------------------------------
// The transitions, computed.
// ---------------------------------------------------------------------------------------

/// The answer to a request without readable credentials.
fn challenge_reply() -> (r: Reply)
    ensures
        r@ == challenge(),
{
    Reply { status: 401, body: ReplyBody::Text("".to_owned()), ask_credentials: true }
}

/// End with a plain-text reply.
fn finish_text(status: u16, text: &str) -> (res: (Stage, Action))
    ensures
        (res.0@, res.1@) == respond(text_reply(status, text@)),
{
    (Stage::Done, Action::Respond(reply_text(status, text)))
}

/// Check the request's credentials, then go on as `then` says.
fn begin_authentication(then: AfterUser, headers: &Vec<Header>) -> (res: (Stage, Action))
    ensures
        (res.0@, res.1@) == authenticate(then@, headers@),
{
    match get_auth(headers) {
        None => (Stage::Done, Action::Respond(challenge_reply())),
        Some((username, password)) => (
            Stage::User(then),
            Action::LookupUser { username, password },
        ),
    }
}

fn expect_after_login(kind: SignedKind, user: User) -> (e: Expect)
    ensures
        e@ == expect_for(kind, user@),
{
    match kind {
        SignedKind::ChangePassword => Expect::ChangePassword(user),
        SignedKind::AddCategory => Expect::AddCategory(user),
        SignedKind::RemoveCategory => Expect::RemoveCategory(user),
        SignedKind::AddData => Expect::AddData(user),
        SignedKind::EditData => Expect::EditData(user),
        SignedKind::RemoveData => Expect::RemoveData(user),
    }
}

fn body_kind_after_login(kind: SignedKind) -> (k: BodyKind)
    ensures
        k == signed_body_kind(kind),
{
    match kind {
        SignedKind::ChangePassword => BodyKind::ChangePassword,
        SignedKind::AddCategory => BodyKind::AddCategory,
        SignedKind::RemoveCategory => BodyKind::RemoveCategory,
        SignedKind::AddData => BodyKind::AddData,
        SignedKind::EditData => BodyKind::EditData,
        SignedKind::RemoveData => BodyKind::RemoveData,
    }
}

fn user_found(then: AfterUser, found: Option<User>) -> (res: (Stage, Action))
    ensures
        (res.0@, res.1@) == on_user(then@, found),
{
    let user = match found {
        None => return finish_text(401, "Invalid login"),
        Some(user) => user,
    };
    match then {
        AfterUser::Login => (
            Stage::Done,
            Action::Respond(
                Reply { status: 200, body: ReplyBody::Login { user: user.name }, ask_credentials: false },
            ),
        ),
        AfterUser::ReadBody(kind) => {
            let k = body_kind_after_login(kind);
            (Stage::Body(expect_after_login(kind, user)), Action::ReadBody(k))
        },
        AfterUser::ListCategories { username } => (
            Stage::CategoryRows { viewer: Some(user.id) },
            Action::ListCategoryRows { username },
        ),
        AfterUser::ListData { category_id, owner } => {
            if owner != user.id {
                finish_text(403, "")
            } else {
                (Stage::Entries, Action::ListEntries { category_id })
            }
        },
    }
}

fn body_read(expect: Expect, read: Result<Body, String>, headers: &Vec<Header>) -> (res: (
    Stage,
    Action,
))
    ensures
        (res.0@, res.1@) == on_body(expect@, read, headers@),
{
    let body = match read {
        Err(e) => {
            return (Stage::Done, Action::Respond(reply_text(400, e.as_str())));
        },
        Ok(body) => body,
    };
    match (expect, body) {
        (Expect::ChangePassword(user), Body::ChangePassword { new_password }) => {
            if is_acceptable_password(new_password.as_str()) {
                let password_hash = hash_password(new_password.as_str());
                (
                    Stage::Write(AfterWrite::Braces),
                    Action::StorePassword { user_id: user.id, password_hash },
                )
            } else {
                finish_text(400, "")
            }
        },
        (Expect::ListCategories, Body::ListCategories { username, include_private }) => {
            if include_private {
                begin_authentication(AfterUser::ListCategories { username }, headers)
            } else {
                (Stage::CategoryRows { viewer: None }, Action::ListCategoryRows { username })
            }
        },
        (Expect::AddCategory(user), Body::AddCategory { name, rules, is_public }) => {
            let flag: u32 = if is_public {
                1
            } else {
                0
            };
            (
                Stage::Write(AfterWrite::Empty),
                Action::InsertCategory { user_id: user.id, name, rules, is_public: flag },
            )
        },
        (Expect::RemoveCategory(user), Body::RemoveCategory { category_id }) => (
            Stage::Write(AfterWrite::Empty),
            Action::DeleteCategory { category_id, user_id: user.id },
        ),
        (Expect::ListData, Body::ListData { category_id }) => (
            Stage::Category(Pending::ListData { category_id }),
            Action::FetchCategory { category_id },
        ),
        (Expect::AddData(user), Body::AddData { category_id, time, value }) => {
            if is_acceptable_value(value.as_str()) {
                (
                    Stage::Category(Pending::AddData { user, category_id, time, value }),
                    Action::FetchCategory { category_id },
                )
            } else {
                finish_text(400, "")
            }
        },
        (Expect::EditData(user), Body::EditData { category_id, data_id, new_value }) => {
            if is_acceptable_value(new_value.as_str()) {
                (
                    Stage::Category(
                        Pending::EditData { user, category_id, data_id, value: new_value },
                    ),
                    Action::FetchCategory { category_id },
                )
            } else {
                finish_text(400, "")
            }
        },
        (Expect::RemoveData(user), Body::RemoveData { category_id, data_id }) => (
            Stage::Category(Pending::RemoveData { user, category_id, data_id }),
            Action::FetchCategory { category_id },
        ),
        _ => finish_text(500, ""),
    }
}

fn write_after_insert(
    user: &User,
    value: &String,
    category_name: &String,
    announced: bool,
    telegram: &Option<TelegramParameters>,
) -> (a: AfterWrite)
    ensures
        a@ == after_insert(user@, value@, category_name@, announced, *telegram),
{
    match telegram {
        Some(p) => {
            if announced {
                AfterWrite::Announce {
                    api_url: telegram_api_url(p),
                    chat_id: p.telegram_chat,
                    text: notice_message(user.name.as_str(), value.as_str(), category_name.as_str()),
                }
            } else {
                AfterWrite::Braces
            }
        },
        None => AfterWrite::Braces,
    }
}

fn category_fetched(
    pending: Pending,
    row: Option<CategoryRow>,
    headers: &Vec<Header>,
    telegram: &Option<TelegramParameters>,
) -> (res: (Stage, Action))
    ensures
        (res.0@, res.1@) == on_category(pending@, row, headers@, *telegram),
{
    match pending {
        Pending::ListData { category_id } => match row {
            None => finish_text(404, ""),
            Some(r) => {
                let category = category_from_row(&r);
                if category.is_public {
                    (Stage::Entries, Action::ListEntries { category_id })
                } else {
                    begin_authentication(
                        AfterUser::ListData { category_id, owner: category.user_id },
                        headers,
                    )
                }
            },
        },
        Pending::AddData { user, category_id, time, value } => match row {
            None => finish_text(400, ""),
            Some(r) => {
                let category = category_from_row(&r);
                if category.user_id != user.id {
                    finish_text(403, "")
                } else {
                    let announced = wants_notice(&category);
                    let after = write_after_insert(&user, &value, &r.name, announced, telegram);
                    (Stage::Write(after), Action::InsertEntry { category_id, time, value })
                }
            },
        },
        Pending::EditData { user, category_id, data_id, value } => match row {
            None => finish_text(400, ""),
            Some(r) => {
                if r.user_id != user.id {
                    finish_text(403, "")
                } else {
                    (
                        Stage::Write(AfterWrite::ByRows),
                        Action::UpdateEntry { category_id, data_id, value },
                    )
                }
            },
        },
        Pending::RemoveData { user, category_id, data_id } => match row {
            None => finish_text(400, ""),
            Some(r) => {
                if r.user_id != user.id {
                    finish_text(403, "")
                } else {
                    (
                        Stage::Write(AfterWrite::ByRows),
                        Action::DeleteEntry { category_id, data_id },
                    )
                }
            },
        },
    }
}

fn written(after: AfterWrite, rows: usize) -> (res: (Stage, Action))
    ensures
        (res.0@, res.1@) == on_written(after@, rows),
{
    match after {
        AfterWrite::Empty => finish_text(200, ""),
        AfterWrite::Braces => finish_text(200, "{}"),
        AfterWrite::Announce { api_url, chat_id, text } => (
            Stage::Notice,
            Action::Notify { api_url, chat_id, text },
        ),
        AfterWrite::ByRows => {
            if rows == 1 {
                finish_text(200, "{}")
            } else {
                finish_text(404, "")
            }
        },
    }
}

impl Exchange {
    /// Begins handling a request for `route`.
    pub fn start(route: Route, headers: Vec<Header>, telegram: Option<TelegramParameters>) -> (res: (
        Exchange,
        Action,
    ))
        ensures
            res.0.headers_view() == headers@,
            res.0.telegram_view() == telegram,
            (res.0.stage_view(), res.1@) == opening(route, headers@),
    {
        let (stage, action) = match route {
            Route::Index => (
                Stage::Done,
                Action::Respond(
                    Reply { status: 200, body: ReplyBody::IndexPage, ask_credentials: false },
                ),
            ),
            Route::Login => begin_authentication(AfterUser::Login, &headers),
            Route::UpdatePassword => begin_authentication(
                AfterUser::ReadBody(SignedKind::ChangePassword),
                &headers,
            ),
            Route::ListCategories => (
                Stage::Body(Expect::ListCategories),
                Action::ReadBody(BodyKind::ListCategories),
            ),
            Route::AddCategory => begin_authentication(
                AfterUser::ReadBody(SignedKind::AddCategory),
                &headers,
            ),
            Route::RemoveCategory => begin_authentication(
                AfterUser::ReadBody(SignedKind::RemoveCategory),
                &headers,
            ),
            Route::ListData => (Stage::Body(Expect::ListData), Action::ReadBody(BodyKind::ListData)),
            Route::AddData => begin_authentication(AfterUser::ReadBody(SignedKind::AddData), &headers),
            Route::EditData => begin_authentication(
                AfterUser::ReadBody(SignedKind::EditData),
                &headers,
            ),
            Route::RemoveData => begin_authentication(
                AfterUser::ReadBody(SignedKind::RemoveData),
                &headers,
            ),
            Route::EditCategory => finish_text(404, "Not found"),
            Route::NotFound => finish_text(404, "Not found"),
        };
        proof {
            law_exchanges_start_well_formed(route, headers@);
        }
        (Exchange { stage, headers, telegram }, action)
    }

    /// Whether the exchange awaits this event.
    pub fn accepts(&self, event: &Event) -> (yes: bool)
        ensures
            yes == awaits(self.stage_view(), *event),
    {
        match (&self.stage, event) {
            (Stage::User(_), Event::UserFound(_)) => true,
            (Stage::Body(e), Event::BodyRead(read)) => match read {
                Ok(body) => {
                    let kind = body.kind_of();
                    match e {
                        Expect::ChangePassword(_) => kind == BodyKind::ChangePassword,
                        Expect::ListCategories => kind == BodyKind::ListCategories,
                        Expect::AddCategory(_) => kind == BodyKind::AddCategory,
                        Expect::RemoveCategory(_) => kind == BodyKind::RemoveCategory,
                        Expect::ListData => kind == BodyKind::ListData,
                        Expect::AddData(_) => kind == BodyKind::AddData,
                        Expect::EditData(_) => kind == BodyKind::EditData,
                        Expect::RemoveData(_) => kind == BodyKind::RemoveData,
                    }
                },
                Err(_) => true,
            },
            (Stage::Category(_), Event::CategoryFetched(_)) => true,
            (Stage::CategoryRows { .. }, Event::CategoryRowsListed(_)) => true,
            (Stage::Entries, Event::EntriesListed(_)) => true,
            (Stage::Write(_), Event::Written(_)) => true,
            (Stage::Notice, Event::Notified) => true,
            _ => false,
        }
    }

    /// Takes the event that the last action yielded and gives the next action.
    pub fn step(self, event: Event) -> (res: (Exchange, Action))
        requires
            awaits(self.stage_view(), event),
        ensures
            res.0.headers_view() == self.headers_view(),
            res.0.telegram_view() == self.telegram_view(),
            (res.0.stage_view(), res.1@) == next(
                self.stage_view(),
                self.headers_view(),
                self.telegram_view(),
                event,
            ),
    {
        proof {
            use_type_invariant(&self);
            law_written_values_meet_rules(
                self.stage@,
                self.headers@,
                self.telegram,
                event,
            );
        }
        let Exchange { stage, headers, telegram } = self;
        let (stage, action) = match (stage, event) {
            (Stage::User(then), Event::UserFound(found)) => user_found(then, found),
            (Stage::Body(e), Event::BodyRead(read)) => body_read(e, read, &headers),
            (Stage::Category(p), Event::CategoryFetched(row)) => category_fetched(
                p,
                row,
                &headers,
                &telegram,
            ),
            (Stage::CategoryRows { viewer }, Event::CategoryRowsListed(rows)) => {
                let categories = visible_categories(&rows, viewer);
                (
                    Stage::Done,
                    Action::Respond(
                        Reply {
                            status: 200,
                            body: ReplyBody::Categories(categories),
                            ask_credentials: false,
                        },
                    ),
                )
            },
            (Stage::Entries, Event::EntriesListed(data)) => (
                Stage::Done,
                Action::Respond(
                    Reply { status: 200, body: ReplyBody::Entries(data), ask_credentials: false },
                ),
            ),
            (Stage::Write(after), Event::Written(rows)) => written(after, rows),
            (Stage::Notice, Event::Notified) => finish_text(200, "{}"),
            _ => finish_text(500, ""),
        };
        (Exchange { stage, headers, telegram }, action)
    }
}

} // verus!
