//! What a request handler and the server around it say to each other: request bodies,
//! replies, the outside work a handler asks for (actions) and what that work yields
//! (events).
use vstd::prelude::*;
use crate::auth::User;
use crate::category::{Category, CategoryRow, CategoryView};
use crate::entries::{Data, DataView};

verus! {

/// Which request body a handler reads.
#[derive(Clone, Copy, Debug, PartialEq, Eq, Structural)]
pub enum BodyKind {
    ChangePassword,
    ListCategories,
    AddCategory,
    RemoveCategory,
    ListData,
    AddData,
    EditData,
    RemoveData,
}

/// A request body, as the server parsed it.
#[derive(Debug, PartialEq, Eq)]
pub enum Body {
    ChangePassword { new_password: String },
    ListCategories { username: String, include_private: bool },
    AddCategory { name: String, rules: String, is_public: bool },
    RemoveCategory { category_id: u32 },
    ListData { category_id: u32 },
    AddData { category_id: u32, time: u64, value: String },
    EditData { category_id: u32, data_id: u32, new_value: String },
    RemoveData { category_id: u32, data_id: u32 },
}

impl Body {
    /// The kind of this body.
    pub open spec fn kind(&self) -> BodyKind {
        match self {
            Body::ChangePassword { .. } => BodyKind::ChangePassword,
            Body::ListCategories { .. } => BodyKind::ListCategories,
            Body::AddCategory { .. } => BodyKind::AddCategory,
            Body::RemoveCategory { .. } => BodyKind::RemoveCategory,
            Body::ListData { .. } => BodyKind::ListData,
            Body::AddData { .. } => BodyKind::AddData,
            Body::EditData { .. } => BodyKind::EditData,
            Body::RemoveData { .. } => BodyKind::RemoveData,
        }
    }

    /// The kind of this body.
    pub fn kind_of(&self) -> (k: BodyKind)
        ensures
            k == self.kind(),
    {
        match self {
            Body::ChangePassword { .. } => BodyKind::ChangePassword,
            Body::ListCategories { .. } => BodyKind::ListCategories,
            Body::AddCategory { .. } => BodyKind::AddCategory,
            Body::RemoveCategory { .. } => BodyKind::RemoveCategory,
            Body::ListData { .. } => BodyKind::ListData,
            Body::AddData { .. } => BodyKind::AddData,
            Body::EditData { .. } => BodyKind::EditData,
            Body::RemoveData { .. } => BodyKind::RemoveData,
        }
    }
}

/// What a reply carries.
#[derive(Clone, Debug, PartialEq, Eq)]
pub enum ReplyBody {
    /// Plain text.
    Text(String),
    /// JSON `{"user": ...}`: who signed in.
    Login { user: String },
    /// JSON `{"categories": [...]}`.
    Categories(Vec<Category>),
    /// JSON `{"data": [...]}`.
    Entries(Vec<Data>),
    /// The page `index.html`.
    IndexPage,
}

/// The mathematical value of a [`ReplyBody`].
pub enum ReplyBodyView {
    Text(Seq<char>),
    Login { user: Seq<char> },
    Categories(Seq<CategoryView>),
    Entries(Seq<DataView>),
    IndexPage,
}

impl View for ReplyBody {
    type V = ReplyBodyView;

    open spec fn view(&self) -> ReplyBodyView {
        match self {
            ReplyBody::Text(t) => ReplyBodyView::Text(t@),
            ReplyBody::Login { user } => ReplyBodyView::Login { user: user@ },
            ReplyBody::Categories(cs) => ReplyBodyView::Categories(cs@.map_values(|c: Category| c@)),
            ReplyBody::Entries(ds) => ReplyBodyView::Entries(ds@.map_values(|d: Data| d@)),
            ReplyBody::IndexPage => ReplyBodyView::IndexPage,
        }
    }
}

/// An HTTP answer: its status, what it carries, and whether it asks the client for basic
/// credentials (`WWW-Authenticate: Basic realm="my realm"`).
#[derive(Clone, Debug, PartialEq, Eq)]
pub struct Reply {
    pub status: u16,
    pub body: ReplyBody,
    pub ask_credentials: bool,
}

/// The mathematical value of a [`Reply`].
pub struct ReplyView {
    pub status: u16,
    pub body: ReplyBodyView,
    pub ask_credentials: bool,
}

impl View for Reply {
    type V = ReplyView;

    open spec fn view(&self) -> ReplyView {
        ReplyView { status: self.status, body: self.body@, ask_credentials: self.ask_credentials }
    }
}

/// A plain-text reply.
pub open spec fn text_reply(status: u16, text: Seq<char>) -> ReplyView {
    ReplyView { status, body: ReplyBodyView::Text(text), ask_credentials: false }
}

/// A plain-text reply.
pub fn reply_text(status: u16, text: &str) -> (r: Reply)
    ensures
        r@ == text_reply(status, text@),
{
    Reply { status, body: ReplyBody::Text(text.to_owned()), ask_credentials: false }
}

/// The outside work that a handler asks the server to do next.
#[derive(Clone, Debug, PartialEq, Eq)]
pub enum Action {
    /// Find the account with this name and password; answer with `Event::UserFound`.
    LookupUser { username: String, password: String },
    /// Read and parse the request body as this kind; answer with `Event::BodyRead`.
    ReadBody(BodyKind),
    /// Fetch the category with this id; answer with `Event::CategoryFetched`.
    FetchCategory { category_id: u32 },
    /// List the categories of the user with this name; answer with `Event::CategoryRowsListed`.
    ListCategoryRows { username: String },
    /// List the entries of this category; answer with `Event::EntriesListed`.
    ListEntries { category_id: u32 },
    /// Store a new category; answer with `Event::Written`.
    InsertCategory { user_id: u32, name: String, rules: String, is_public: u32 },
    /// Delete the user's category; answer with `Event::Written`.
    DeleteCategory { category_id: u32, user_id: u32 },
    /// Store a new entry; answer with `Event::Written`.
    InsertEntry { category_id: u32, time: u64, value: String },
    /// Change an entry's value; answer with `Event::Written`.
    UpdateEntry { category_id: u32, data_id: u32, value: String },
    /// Delete an entry; answer with `Event::Written`.
    DeleteEntry { category_id: u32, data_id: u32 },
    /// Store a new password hash for the user; answer with `Event::Written`.
    StorePassword { user_id: u32, password_hash: String },
    /// Send a Telegram message in the background; answer with `Event::Notified`.
    Notify { api_url: String, chat_id: i64, text: String },
    /// Send this reply; the exchange is over.
    Respond(Reply),
}

/// The mathematical value of an [`Action`].
pub enum ActionView {
    LookupUser { username: Seq<char>, password: Seq<char> },
    ReadBody(BodyKind),
    FetchCategory { category_id: u32 },
    ListCategoryRows { username: Seq<char> },
    ListEntries { category_id: u32 },
    InsertCategory { user_id: u32, name: Seq<char>, rules: Seq<char>, is_public: u32 },
    DeleteCategory { category_id: u32, user_id: u32 },
    InsertEntry { category_id: u32, time: u64, value: Seq<char> },
    UpdateEntry { category_id: u32, data_id: u32, value: Seq<char> },
    DeleteEntry { category_id: u32, data_id: u32 },
    StorePassword { user_id: u32, password_hash: Seq<char> },
    Notify { api_url: Seq<char>, chat_id: i64, text: Seq<char> },
    Respond(ReplyView),
}

impl View for Action {
    type V = ActionView;

    open spec fn view(&self) -> ActionView {
        match self {
            Action::LookupUser { username, password } => ActionView::LookupUser {
                username: username@,
                password: password@,
            },
            Action::ReadBody(k) => ActionView::ReadBody(*k),
            Action::FetchCategory { category_id } => ActionView::FetchCategory {
                category_id: *category_id,
            },
            Action::ListCategoryRows { username } => ActionView::ListCategoryRows {
                username: username@,
            },
            Action::ListEntries { category_id } => ActionView::ListEntries {
                category_id: *category_id,
            },
            Action::InsertCategory { user_id, name, rules, is_public } => ActionView::InsertCategory {
                user_id: *user_id,
                name: name@,
                rules: rules@,
                is_public: *is_public,
            },
            Action::DeleteCategory { category_id, user_id } => ActionView::DeleteCategory {
                category_id: *category_id,
                user_id: *user_id,
            },
            Action::InsertEntry { category_id, time, value } => ActionView::InsertEntry {
                category_id: *category_id,
                time: *time,
                value: value@,
            },
            Action::UpdateEntry { category_id, data_id, value } => ActionView::UpdateEntry {
                category_id: *category_id,
                data_id: *data_id,
                value: value@,
            },
            Action::DeleteEntry { category_id, data_id } => ActionView::DeleteEntry {
                category_id: *category_id,
                data_id: *data_id,
            },
            Action::StorePassword { user_id, password_hash } => ActionView::StorePassword {
                user_id: *user_id,
                password_hash: password_hash@,
            },
            Action::Notify { api_url, chat_id, text } => ActionView::Notify {
                api_url: api_url@,
                chat_id: *chat_id,
                text: text@,
            },
            Action::Respond(r) => ActionView::Respond(r@),
        }
    }
}

/// What the outside work asked for by an [`Action`] yielded.
#[derive(Debug, PartialEq, Eq)]
pub enum Event {
    /// The account that matched name and password, if any.
    UserFound(Option<User>),
    /// The parsed body, or the text of the error met while reading or parsing it.
    BodyRead(Result<Body, String>),
    /// The stored row of the requested category, if there is one.
    CategoryFetched(Option<CategoryRow>),
    /// The stored rows of the user's categories.
    CategoryRowsListed(Vec<CategoryRow>),
    /// The entries of the category.
    EntriesListed(Vec<Data>),
    /// How many rows a write changed.
    Written(usize),
    /// The notice was handed to the background sender.
    Notified,
}

/// Whether an action changes stored data.
pub open spec fn is_write(a: ActionView) -> bool {
    ||| a is InsertCategory
    ||| a is DeleteCategory
    ||| a is InsertEntry
    ||| a is UpdateEntry
    ||| a is DeleteEntry
    ||| a is StorePassword
}

} // verus!
