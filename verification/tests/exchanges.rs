use rut::auth::{Header, User};
use rut::category::{Category, CategoryRow};
use rut::entries::{Data, TelegramParameters};
use rut::exchange::Exchange;
use rut::protocol::{Action, Body, BodyKind, Event, Reply, ReplyBody};
use rut::routes::Route;

// "alice:pw"
const ALICE: &str = "Basic YWxpY2U6cHc=";

fn auth_headers() -> Vec<Header> {
    vec![Header { field: "Authorization".to_string(), value: ALICE.to_string() }]
}

fn alice(id: u32) -> Option<User> {
    Some(User { id, name: "alice".to_string() })
}

fn text(status: u16, t: &str) -> Action {
    Action::Respond(Reply { status, body: ReplyBody::Text(t.to_string()), ask_credentials: false })
}

fn challenge() -> Action {
    Action::Respond(Reply { status: 401, body: ReplyBody::Text(String::new()), ask_credentials: true })
}

fn lookup() -> Action {
    Action::LookupUser { username: "alice".to_string(), password: "pw".to_string() }
}

fn row(id: u32, user_id: u32, is_public: u32, rules: &str) -> CategoryRow {
    CategoryRow { id, user_id, rules: rules.to_string(), name: "walks".to_string(), is_public }
}

/// Runs an exchange, feeding it the given events; returns every action it asked for.
fn run(
    route: Route,
    headers: Vec<Header>,
    telegram: Option<TelegramParameters>,
    events: Vec<Event>,
) -> Vec<Action> {
    let (mut ex, first) = Exchange::start(route, headers, telegram);
    let mut actions = vec![first];
    for ev in events {
        assert!(ex.accepts(&ev), "event not awaited: {:?}", ev);
        let (next, action) = ex.step(ev);
        ex = next;
        actions.push(action);
    }
    actions
}

#[test]
fn index_and_unknown_routes() {
    assert_eq!(
        run(Route::Index, vec![], None, vec![]),
        vec![Action::Respond(Reply { status: 200, body: ReplyBody::IndexPage, ask_credentials: false })]
    );
    assert_eq!(run(Route::NotFound, vec![], None, vec![]), vec![text(404, "Not found")]);
    assert_eq!(run(Route::EditCategory, vec![], None, vec![]), vec![text(404, "Not found")]);
}

#[test]
fn login_flows() {
    assert_eq!(
        run(Route::Login, auth_headers(), None, vec![Event::UserFound(alice(3))]),
        vec![
            lookup(),
            Action::Respond(Reply {
                status: 200,
                body: ReplyBody::Login { user: "alice".to_string() },
                ask_credentials: false
            })
        ]
    );
    assert_eq!(
        run(Route::Login, auth_headers(), None, vec![Event::UserFound(None)]),
        vec![lookup(), text(401, "Invalid login")]
    );
    assert_eq!(run(Route::Login, vec![], None, vec![]), vec![challenge()]);
}

#[test]
fn update_password_flows() {
    let body = |p: &str| Event::BodyRead(Ok(Body::ChangePassword { new_password: p.to_string() }));
    assert_eq!(
        run(Route::UpdatePassword, auth_headers(), None,
            vec![Event::UserFound(alice(3)), body("password"), Event::Written(1)]),
        vec![
            lookup(),
            Action::ReadBody(BodyKind::ChangePassword),
            Action::StorePassword {
                user_id: 3,
                password_hash: "XohImNooBHFR0OVvjcYpJ3NgPQ1qq73WKhHvch0VQtg=".to_string()
            },
            text(200, "{}"),
        ]
    );
    assert_eq!(
        run(Route::UpdatePassword, auth_headers(), None, vec![Event::UserFound(alice(3)), body("")]),
        vec![lookup(), Action::ReadBody(BodyKind::ChangePassword), text(400, "")]
    );
    assert_eq!(
        run(Route::UpdatePassword, auth_headers(), None,
            vec![Event::UserFound(alice(3)), Event::BodyRead(Err("bad json".to_string()))]),
        vec![lookup(), Action::ReadBody(BodyKind::ChangePassword), text(400, "bad json")]
    );
}

#[test]
fn list_categories_flows() {
    let body = |private: bool| Event::BodyRead(Ok(Body::ListCategories {
        username: "bob".to_string(),
        include_private: private,
    }));
    let rows = vec![row(1, 3, 1, ""), row(2, 3, 0, "")];
    let public = Category { id: 1, user_id: 3, rules: String::new(), name: "walks".to_string(), is_public: true };
    let private = Category { id: 2, user_id: 3, rules: String::new(), name: "walks".to_string(), is_public: false };
    assert_eq!(
        run(Route::ListCategories, vec![], None, vec![body(false), Event::CategoryRowsListed(rows.clone())]),
        vec![
            Action::ReadBody(BodyKind::ListCategories),
            Action::ListCategoryRows { username: "bob".to_string() },
            Action::Respond(Reply { status: 200, body: ReplyBody::Categories(vec![public.clone()]), ask_credentials: false }),
        ]
    );
    assert_eq!(
        run(Route::ListCategories, auth_headers(), None,
            vec![body(true), Event::UserFound(alice(3)), Event::CategoryRowsListed(rows)]),
        vec![
            Action::ReadBody(BodyKind::ListCategories),
            lookup(),
            Action::ListCategoryRows { username: "bob".to_string() },
            Action::Respond(Reply { status: 200, body: ReplyBody::Categories(vec![public, private]), ask_credentials: false }),
        ]
    );
    assert_eq!(
        run(Route::ListCategories, vec![], None, vec![body(true)]),
        vec![Action::ReadBody(BodyKind::ListCategories), challenge()]
    );
}

#[test]
fn category_writes() {
    assert_eq!(
        run(Route::AddCategory, auth_headers(), None, vec![
            Event::UserFound(alice(3)),
            Event::BodyRead(Ok(Body::AddCategory { name: "n".to_string(), rules: "r".to_string(), is_public: true })),
            Event::Written(1),
        ]),
        vec![
            lookup(),
            Action::ReadBody(BodyKind::AddCategory),
            Action::InsertCategory { user_id: 3, name: "n".to_string(), rules: "r".to_string(), is_public: 1 },
            text(200, ""),
        ]
    );
    assert_eq!(
        run(Route::RemoveCategory, auth_headers(), None, vec![
            Event::UserFound(alice(3)),
            Event::BodyRead(Ok(Body::RemoveCategory { category_id: 9 })),
            Event::Written(0),
        ]),
        vec![
            lookup(),
            Action::ReadBody(BodyKind::RemoveCategory),
            Action::DeleteCategory { category_id: 9, user_id: 3 },
            text(200, ""),
        ]
    );
}

#[test]
fn list_data_flows() {
    let body = || Event::BodyRead(Ok(Body::ListData { category_id: 4 }));
    let data = vec![Data { id: 1, time: 100, value: "v".to_string() }];
    let listed = Action::Respond(Reply { status: 200, body: ReplyBody::Entries(data.clone()), ask_credentials: false });
    assert_eq!(
        run(Route::ListData, vec![], None, vec![body(), Event::CategoryFetched(None)]),
        vec![Action::ReadBody(BodyKind::ListData), Action::FetchCategory { category_id: 4 }, text(404, "")]
    );
    assert_eq!(
        run(Route::ListData, vec![], None, vec![
            body(),
            Event::CategoryFetched(Some(row(4, 3, 1, ""))),
            Event::EntriesListed(data.clone()),
        ]),
        vec![
            Action::ReadBody(BodyKind::ListData),
            Action::FetchCategory { category_id: 4 },
            Action::ListEntries { category_id: 4 },
            listed.clone(),
        ]
    );
    assert_eq!(
        run(Route::ListData, auth_headers(), None, vec![
            body(),
            Event::CategoryFetched(Some(row(4, 3, 0, ""))),
            Event::UserFound(alice(3)),
            Event::EntriesListed(data),
        ]),
        vec![
            Action::ReadBody(BodyKind::ListData),
            Action::FetchCategory { category_id: 4 },
            lookup(),
            Action::ListEntries { category_id: 4 },
            listed,
        ]
    );
    assert_eq!(
        run(Route::ListData, auth_headers(), None, vec![
            body(),
            Event::CategoryFetched(Some(row(4, 3, 0, ""))),
            Event::UserFound(alice(8)),
        ]),
        vec![Action::ReadBody(BodyKind::ListData), Action::FetchCategory { category_id: 4 }, lookup(), text(403, "")]
    );
    assert_eq!(
        run(Route::ListData, vec![], None, vec![body(), Event::CategoryFetched(Some(row(4, 3, 0, "")))]),
        vec![Action::ReadBody(BodyKind::ListData), Action::FetchCategory { category_id: 4 }, challenge()]
    );
}

fn add_body(value: &str) -> Event {
    Event::BodyRead(Ok(Body::AddData { category_id: 4, time: 77, value: value.to_string() }))
}

#[test]
fn add_data_with_notice() {
    let tg = TelegramParameters { telegram_token: "T".to_string(), telegram_chat: 5 };
    assert_eq!(
        run(Route::AddData, auth_headers(), Some(tg), vec![
            Event::UserFound(alice(3)),
            add_body("10 km"),
            Event::CategoryFetched(Some(row(4, 3, 1, "telegram=yes"))),
            Event::Written(1),
            Event::Notified,
        ]),
        vec![
            lookup(),
            Action::ReadBody(BodyKind::AddData),
            Action::FetchCategory { category_id: 4 },
            Action::InsertEntry { category_id: 4, time: 77, value: "10 km".to_string() },
            Action::Notify {
                api_url: "https://api.telegram.org/botT".to_string(),
                chat_id: 5,
                text: "alice added '10 km' to walks".to_string(),
            },
            text(200, "{}"),
        ]
    );
}

#[test]
fn add_data_without_notice_and_refusals() {
    let tg = TelegramParameters { telegram_token: "T".to_string(), telegram_chat: 5 };
    let start = vec![lookup(), Action::ReadBody(BodyKind::AddData)];
    let mut expected = start.clone();
    expected.extend(vec![
        Action::FetchCategory { category_id: 4 },
        Action::InsertEntry { category_id: 4, time: 77, value: "v".to_string() },
        text(200, "{}"),
    ]);
    // private category: no notice even when its rules ask for one
    assert_eq!(
        run(Route::AddData, auth_headers(), Some(tg.clone()), vec![
            Event::UserFound(alice(3)),
            add_body("v"),
            Event::CategoryFetched(Some(row(4, 3, 0, "telegram=yes"))),
            Event::Written(1),
        ]),
        expected
    );
    // notices not set up
    assert_eq!(
        run(Route::AddData, auth_headers(), None, vec![
            Event::UserFound(alice(3)),
            add_body("v"),
            Event::CategoryFetched(Some(row(4, 3, 1, "telegram=yes"))),
            Event::Written(1),
        ]),
        expected
    );
    let mut too_long = start.clone();
    too_long.push(text(400, ""));
    assert_eq!(
        run(Route::AddData, auth_headers(), None, vec![Event::UserFound(alice(3)), add_body(&"x".repeat(1024))]),
        too_long
    );
    let mut missing = start.clone();
    missing.extend(vec![Action::FetchCategory { category_id: 4 }, text(400, "")]);
    assert_eq!(
        run(Route::AddData, auth_headers(), None,
            vec![Event::UserFound(alice(3)), add_body("v"), Event::CategoryFetched(None)]),
        missing
    );
    let mut foreign = start;
    foreign.extend(vec![Action::FetchCategory { category_id: 4 }, text(403, "")]);
    assert_eq!(
        run(Route::AddData, auth_headers(), Some(tg), vec![
            Event::UserFound(alice(3)),
            add_body("v"),
            Event::CategoryFetched(Some(row(4, 8, 1, "telegram=yes"))),
        ]),
        foreign
    );
}

#[test]
fn edit_and_remove_data_answer_by_rows() {
    let edit = || Event::BodyRead(Ok(Body::EditData { category_id: 4, data_id: 2, new_value: "w".to_string() }));
    for (rows, answer) in [(1usize, text(200, "{}")), (0, text(404, "")), (2, text(404, ""))] {
        assert_eq!(
            run(Route::EditData, auth_headers(), None, vec![
                Event::UserFound(alice(3)),
                edit(),
                Event::CategoryFetched(Some(row(4, 3, 0, ""))),
                Event::Written(rows),
            ]),
            vec![
                lookup(),
                Action::ReadBody(BodyKind::EditData),
                Action::FetchCategory { category_id: 4 },
                Action::UpdateEntry { category_id: 4, data_id: 2, value: "w".to_string() },
                answer.clone(),
            ]
        );
        assert_eq!(
            run(Route::RemoveData, auth_headers(), None, vec![
                Event::UserFound(alice(3)),
                Event::BodyRead(Ok(Body::RemoveData { category_id: 4, data_id: 2 })),
                Event::CategoryFetched(Some(row(4, 3, 0, ""))),
                Event::Written(rows),
            ]),
            vec![
                lookup(),
                Action::ReadBody(BodyKind::RemoveData),
                Action::FetchCategory { category_id: 4 },
                Action::DeleteEntry { category_id: 4, data_id: 2 },
                answer,
            ]
        );
    }
    assert_eq!(
        run(Route::RemoveData, auth_headers(), None, vec![
            Event::UserFound(alice(3)),
            Event::BodyRead(Ok(Body::RemoveData { category_id: 4, data_id: 2 })),
            Event::CategoryFetched(Some(row(4, 9, 0, ""))),
        ]),
        vec![lookup(), Action::ReadBody(BodyKind::RemoveData), Action::FetchCategory { category_id: 4 }, text(403, "")]
    );
    assert_eq!(
        run(Route::EditData, auth_headers(), None, vec![
            Event::UserFound(alice(3)),
            Event::BodyRead(Ok(Body::EditData { category_id: 4, data_id: 2, new_value: "é".repeat(512) })),
        ]),
        vec![lookup(), Action::ReadBody(BodyKind::EditData), text(400, "")]
    );
}

#[test]
fn only_awaited_events_are_accepted() {
    let (ex, _) = Exchange::start(Route::Login, auth_headers(), None);
    assert!(ex.accepts(&Event::UserFound(None)));
    assert!(!ex.accepts(&Event::Written(1)));
    let (ex, _) = Exchange::start(Route::ListData, vec![], None);
    assert!(ex.accepts(&Event::BodyRead(Ok(Body::ListData { category_id: 1 }))));
    assert!(ex.accepts(&Event::BodyRead(Err("e".to_string()))));
    assert!(!ex.accepts(&Event::BodyRead(Ok(Body::RemoveData { category_id: 1, data_id: 1 }))));
    let (ex, _) = Exchange::start(Route::Index, vec![], None);
    assert!(!ex.accepts(&Event::Notified));
}
