//! Entries: timestamped values recorded in a category, and the Telegram notice that a
//! new entry in a public category can trigger.
use vstd::prelude::*;
use vstd::utf8::encode_utf8;
use crate::auth::byte_len;
use crate::category::{Category, CategoryView};
use crate::text::{contains, contains_text, occurs_at};

verus! {

/// One recorded value.
#[derive(Clone, Debug, PartialEq, Eq)]
pub struct Data {
    pub id: u32,
    pub time: u64,
    pub value: String,
}

/// The mathematical value of a [`Data`] entry.
pub struct DataView {
    pub id: u32,
    pub time: u64,
    pub value: Seq<char>,
}

impl View for Data {
    type V = DataView;

    open spec fn view(&self) -> DataView {
        DataView { id: self.id, time: self.time, value: self.value@ }
    }
}

/// Where notices go: the bot token and the chat to post in.
#[derive(Clone, Debug, PartialEq, Eq)]
pub struct TelegramParameters {
    pub telegram_token: String,
    pub telegram_chat: i64,
}

/// A value is accepted when its UTF-8 form has fewer than 1024 bytes.
pub open spec fn value_acceptable(value: Seq<char>) -> bool {
    byte_len(value) < 1024
}

/// Whether a value meets the length rule.
pub fn is_acceptable_value(value: &str) -> (ok: bool)
    ensures
        ok == value_acceptable(value@),
        ok == (encode_utf8(value@).len() < 1024),
{
    value.as_bytes().len() < 1024
}

/// A new entry is announced when its category is public and its rules mention
/// `telegram=yes`.
pub open spec fn announces(category: CategoryView) -> bool {
    category.is_public && contains_text(category.rules, "telegram=yes"@)
}

/// Whether a new entry in `category` is announced.
pub fn wants_notice(category: &Category) -> (yes: bool)
    ensures
        yes == announces(category@),
        yes == (category.is_public && exists|i: int|
            0 <= i && i + "telegram=yes"@.len() <= category.rules@.len()
                && #[trigger] category.rules@.subrange(i, i + "telegram=yes"@.len())
                == "telegram=yes"@),
{
    let found = contains(category.rules.as_str(), "telegram=yes");
    proof {
        let rules = category.rules@;
        let needle = "telegram=yes"@;
        if found {
            let i = choose|i: int| occurs_at(rules, needle, i);
            assert(occurs_at(rules, needle, i));
            assert(rules.subrange(i, i + needle.len()) == needle);
        } else {
            assert forall|i: int|
                !(0 <= i && i + needle.len() <= rules.len() && #[trigger] rules.subrange(
                    i,
                    i + needle.len(),
                ) == needle) by {
                assert(!occurs_at(rules, needle, i));
            }
        }
    }
    category.is_public && found
}

/// The text of the notice: `<user> added '<value>' to <category name>`.
pub open spec fn notice_text(user: Seq<char>, value: Seq<char>, category_name: Seq<char>) -> Seq<char> {
    user + " added '"@ + value + "' to "@ + category_name
}

/// The notice that `user` added `value` to the category named `category_name`.
pub fn notice_message(user: &str, value: &str, category_name: &str) -> (text: String)
    ensures
        text@ == notice_text(user@, value@, category_name@),
        text@ == user@ + " added '"@ + value@ + "' to "@ + category_name@,
{
    let mut text = String::new();
    text.append(user);
    text.append(" added '");
    text.append(value);
    text.append("' to ");
    text.append(category_name);
    text
}

/// The Bot API address for a bot token.
pub open spec fn api_url(token: Seq<char>) -> Seq<char> {
    "https://api.telegram.org/bot"@ + token
}

/// The Bot API address that notices for `params` are sent to.
pub fn telegram_api_url(params: &TelegramParameters) -> (url: String)
    ensures
        url@ == api_url(params.telegram_token@),
        url@ == "https://api.telegram.org/bot"@ + params.telegram_token@,
{
    let mut url = String::new();
    url.append("https://api.telegram.org/bot");
    url.append(params.telegram_token.as_str());
    url
}

} // verus!
