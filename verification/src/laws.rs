//! Properties of the request handlers that span several transitions.
use vstd::prelude::*;
use crate::auth::{Header, User, UserView, credentials_of, password_acceptable, password_hash};
use crate::category::{CategoryRow, row_category};
use crate::entries::{TelegramParameters, value_acceptable, announces, notice_text, api_url};
use crate::exchange::{StageView, ExpectView, PendingView, AfterUserView, AfterWriteView, awaits,
    next, opening, challenge};
use crate::protocol::{ActionView, Event, is_write, text_reply};
use crate::routes::Route;

verus! {

/// An upper bound on the number of events that an exchange at this stage still awaits.
pub open spec fn remaining_steps(stage: StageView) -> nat {
    match stage {
        StageView::Done => 0,
        StageView::Notice => 1,
        StageView::Write(AfterWriteView::Announce { .. }) => 2,
        StageView::Write(_) => 1,
        StageView::Entries => 1,
        StageView::CategoryRows { .. } => 1,
        StageView::Category(_) => 3,
        StageView::User(AfterUserView::ReadBody(_)) => 5,
        StageView::User(_) => 2,
        StageView::Body(_) => 4,
    }
}

/// Every exchange ends: an exchange starts at most five events away from its end, each
/// awaited event brings it closer, and an ended exchange awaits nothing.
pub proof fn law_every_exchange_ends(
    route: Route,
    headers: Seq<Header>,
    stage: StageView,
    telegram: Option<TelegramParameters>,
    event: Event,
)
    ensures
        remaining_steps(opening(route, headers).0) <= 5,
        awaits(stage, event) ==> remaining_steps(next(stage, headers, telegram, event).0)
            < remaining_steps(stage),
        !awaits(StageView::Done, event),
{
}

/// An exchange ends exactly when it replies: every step that leads to the end sends a
/// reply, and every reply ends it.
pub proof fn law_reply_ends_exchange(
    route: Route,
    headers: Seq<Header>,
    stage: StageView,
    telegram: Option<TelegramParameters>,
    event: Event,
)
    ensures
        (opening(route, headers).0 is Done) == (opening(route, headers).1 is Respond),
        awaits(stage, event) ==> ((next(stage, headers, telegram, event).0 is Done) == (next(
            stage,
            headers,
            telegram,
            event,
        ).1 is Respond)),
{
}

/// The signed-in user that a stage holds, if any.
pub open spec fn stage_user(stage: StageView) -> Option<UserView> {
    match stage {
        StageView::Body(ExpectView::ChangePassword(u)) => Some(u),
        StageView::Body(ExpectView::AddCategory(u)) => Some(u),
        StageView::Body(ExpectView::RemoveCategory(u)) => Some(u),
        StageView::Body(ExpectView::AddData(u)) => Some(u),
        StageView::Body(ExpectView::EditData(u)) => Some(u),
        StageView::Body(ExpectView::RemoveData(u)) => Some(u),
        StageView::Category(PendingView::AddData { user, .. }) => Some(user),
        StageView::Category(PendingView::EditData { user, .. }) => Some(user),
        StageView::Category(PendingView::RemoveData { user, .. }) => Some(user),
        _ => None,
    }
}

/// A signed-in user only enters an exchange through a successful account lookup: no
/// exchange starts with one, and a step either keeps the user it had or takes the one
/// that the lookup found.
pub proof fn law_users_come_from_lookups(
    route: Route,
    headers: Seq<Header>,
    stage: StageView,
    telegram: Option<TelegramParameters>,
    event: Event,
)
    ensures
        stage_user(opening(route, headers).0) is None,
        awaits(stage, event) && stage_user(next(stage, headers, telegram, event).0) is Some ==> {
            ||| stage_user(next(stage, headers, telegram, event).0) == stage_user(stage)
            ||| (stage is User && exists|u: User|
                event == Event::UserFound(Some(u)) && stage_user(
                    next(stage, headers, telegram, event).0,
                ) == Some(u@))
        },
{
    if awaits(stage, event) && stage_user(next(stage, headers, telegram, event).0) is Some {
        if stage is User {
            if let Event::UserFound(Some(u)) = event {
                assert(event == Event::UserFound(Some(u)));
            }
        }
    }
}

/// The user id that a write acts for, where the write names one.
pub open spec fn acting_user(a: ActionView) -> Option<u32> {
    match a {
        ActionView::InsertCategory { user_id, .. } => Some(user_id),
        ActionView::DeleteCategory { user_id, .. } => Some(user_id),
        ActionView::StorePassword { user_id, .. } => Some(user_id),
        _ => None,
    }
}

/// The category that an entry write changes, where the action is one.
pub open spec fn written_category(a: ActionView) -> Option<u32> {
    match a {
        ActionView::InsertEntry { category_id, .. } => Some(category_id),
        ActionView::UpdateEntry { category_id, .. } => Some(category_id),
        ActionView::DeleteEntry { category_id, .. } => Some(category_id),
        _ => None,
    }
}

/// The category that a stage asked for.
pub open spec fn requested_category(stage: StageView) -> Option<u32> {
    match stage {
        StageView::Category(PendingView::ListData { category_id }) => Some(category_id),
        StageView::Category(PendingView::AddData { category_id, .. }) => Some(category_id),
        StageView::Category(PendingView::EditData { category_id, .. }) => Some(category_id),
        StageView::Category(PendingView::RemoveData { category_id, .. }) => Some(category_id),
        _ => None,
    }
}

/// Nothing is written but for a signed-in user: a write is only issued by a stage that
/// holds a user; a category or password write acts for that user; and an entry is only
/// written into the category that was asked for, once its stored row showed that this
/// user owns it.
pub proof fn law_writes_need_owner(
    stage: StageView,
    headers: Seq<Header>,
    telegram: Option<TelegramParameters>,
    event: Event,
)
    requires
        awaits(stage, event),
        is_write(next(stage, headers, telegram, event).1),
    ensures
        stage_user(stage) is Some,
        acting_user(next(stage, headers, telegram, event).1) is Some ==> acting_user(
            next(stage, headers, telegram, event).1,
        ) == Some(stage_user(stage)->0.id),
        written_category(next(stage, headers, telegram, event).1) is Some ==> {
            &&& written_category(next(stage, headers, telegram, event).1) == requested_category(
                stage,
            )
            &&& exists|row: CategoryRow|
                event == Event::CategoryFetched(Some(row)) && row.user_id == stage_user(
                    stage,
                )->0.id
        },
{
    if let Event::CategoryFetched(Some(row)) = event {
        assert(event == Event::CategoryFetched(Some(row)));
    }
}

/// The answer to a request whose account lookup found nothing is a 401 with the text
/// `Invalid login`, and nothing more happens.
pub proof fn law_failed_login_refused(
    then: AfterUserView,
    headers: Seq<Header>,
    telegram: Option<TelegramParameters>,
)
    ensures
        next(StageView::User(then), headers, telegram, Event::UserFound(None)) == (
            StageView::Done,
            ActionView::Respond(text_reply(401, "Invalid login"@)),
        ),
{
}

/// A request to a handler that needs an account, without readable basic credentials, is
/// answered 401 with a request for credentials, before anything else is done.
pub proof fn law_missing_credentials_challenged(route: Route, headers: Seq<Header>)
    requires
        credentials_of(headers) is None,
        route == Route::Login || route == Route::UpdatePassword || route == Route::AddCategory
            || route == Route::RemoveCategory || route == Route::AddData || route
            == Route::EditData || route == Route::RemoveData,
    ensures
        opening(route, headers) == (StageView::Done, ActionView::Respond(challenge())),
{
}

/// Stages that hold a value to be written hold one that meets the length rule.
pub open spec fn well_formed(stage: StageView) -> bool {
    match stage {
        StageView::Category(PendingView::AddData { value, .. }) => value_acceptable(value),
        StageView::Category(PendingView::EditData { value, .. }) => value_acceptable(value),
        _ => true,
    }
}

/// Every exchange starts well formed.
pub proof fn law_exchanges_start_well_formed(route: Route, headers: Seq<Header>)
    ensures
        well_formed(opening(route, headers).0),
{
}

/// Every exchange stays well formed, so every entry value written is shorter than 1024
/// bytes, and a password is only stored as the hash of a password that meets its rule.
pub proof fn law_written_values_meet_rules(
    stage: StageView,
    headers: Seq<Header>,
    telegram: Option<TelegramParameters>,
    event: Event,
)
    requires
        well_formed(stage),
        awaits(stage, event),
    ensures
        well_formed(next(stage, headers, telegram, event).0),
        match next(stage, headers, telegram, event).1 {
            ActionView::InsertEntry { value, .. } => value_acceptable(value),
            ActionView::UpdateEntry { value, .. } => value_acceptable(value),
            ActionView::StorePassword { password_hash: h, .. } => exists|p: Seq<char>|
                password_acceptable(p) && h == password_hash(p),
            _ => true,
        },
{
    if let (StageView::Body(ExpectView::ChangePassword(_)), Event::BodyRead(Ok(body))) = (
        stage,
        event,
    ) {
        if let crate::protocol::Body::ChangePassword { new_password } = body {
            let p = new_password@;
            if password_acceptable(p) {
                assert(password_acceptable(p) && password_hash(p) == password_hash(p));
            }
        }
    }
}

/// The entries of a category are only listed when the category is public, or when the
/// account that signed in owns it.
pub proof fn law_private_entries_need_owner(
    stage: StageView,
    headers: Seq<Header>,
    telegram: Option<TelegramParameters>,
    event: Event,
)
    requires
        awaits(stage, event),
        next(stage, headers, telegram, event).1 is ListEntries,
    ensures
        ({
            let category_id = next(stage, headers, telegram, event).1->ListEntries_category_id;
            ||| (stage == StageView::Category(PendingView::ListData { category_id })
                && exists|row: CategoryRow|
                event == Event::CategoryFetched(Some(row)) && row.is_public == 1)
            ||| exists|owner: u32, u: User|
                stage == StageView::User(AfterUserView::ListData { category_id, owner })
                    && event == Event::UserFound(Some(u)) && u.id == owner
        }),
{
    if let Event::CategoryFetched(Some(row)) = event {
        assert(event == Event::CategoryFetched(Some(row)));
    }
    if let Event::UserFound(Some(u)) = event {
        assert(event == Event::UserFound(Some(u)));
    }
}

/// A notice is only prepared for a new entry in a public category whose rules ask for
/// it, when notices are set up; it names the user, the value and the category.
pub proof fn law_notices_only_when_announced(
    stage: StageView,
    headers: Seq<Header>,
    telegram: Option<TelegramParameters>,
    event: Event,
)
    requires
        awaits(stage, event),
        next(stage, headers, telegram, event).0 matches StageView::Write(
            AfterWriteView::Announce { .. },
        ),
    ensures
        ({
            let after = next(stage, headers, telegram, event).0->Write_0;
            exists|user: UserView, category_id: u32, time: u64, value: Seq<char>, row: CategoryRow|
                {
                    &&& stage == StageView::Category(
                        PendingView::AddData { user, category_id, time, value },
                    )
                    &&& event == Event::CategoryFetched(Some(row))
                    &&& row.user_id == user.id
                    &&& announces(row_category(row))
                    &&& telegram is Some
                    &&& after == AfterWriteView::Announce {
                        api_url: api_url(telegram->0.telegram_token@),
                        chat_id: telegram->0.telegram_chat,
                        text: notice_text(user.name, value, row.name@),
                    }
                }
        }),
{
    if let StageView::Category(PendingView::AddData { user, category_id, time, value }) = stage {
        if let Event::CategoryFetched(Some(row)) = event {
            assert(stage == StageView::Category(
                PendingView::AddData { user, category_id, time, value },
            ));
            assert(event == Event::CategoryFetched(Some(row)));
        }
    }
}

} // verus!
