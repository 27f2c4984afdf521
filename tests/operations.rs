use stock_tracker::ops::{
    buy_stock, confirmation, console_action, create_stock, create_user, delete_stock, delete_user, edit_stock,
    edit_user, init, list_portfolio, list_stocks, list_users, loads, login, logout, needs_confirmation, saves,
    ConsoleAction,
};
use stock_tracker::{run, Command, Config, Outcome, ProjectError, State, Store, Workspace};

fn empty() -> Workspace {
    Workspace { users: Store::new(), stocks: Store::new(), state: State::default() }
}

fn bind(v: &[&str]) -> Config {
    let mut args = vec!["stock_tracker".to_string()];
    args.extend(v.iter().map(|s| s.to_string()));
    Config::new(args, Some("/tmp/st".to_string()), None).unwrap()
}

fn with_user_and_stock() -> Workspace {
    let mut ws = empty();
    create_user(&mut ws, "alice").unwrap();
    create_stock(&mut ws, "FOO").unwrap();
    login(&mut ws, "alice").unwrap();
    ws
}

#[test]
fn create_then_list_users() {
    let mut ws = empty();
    create_user(&mut ws, "alice").unwrap();
    assert_eq!(list_users(&ws), vec!["alice".to_string()]);
    let u = ws.users.get("alice").unwrap();
    assert_eq!(u.username, "alice");
    assert_eq!(u.first_name, "first_name");
    assert!(u.portfolio.is_none());
}

#[test]
fn create_same_user_twice() {
    let mut ws = empty();
    create_user(&mut ws, "alice").unwrap();
    assert_eq!(create_user(&mut ws, "alice"), Err(ProjectError::HashMapInsertError("alice".to_string())));
    assert_eq!(list_users(&ws).len(), 1);
}

#[test]
fn listing_is_sorted() {
    let mut ws = empty();
    for k in ["zed", "alice", "bob", "al", "Bob"] {
        create_user(&mut ws, k).unwrap();
    }
    assert_eq!(list_users(&ws), vec!["Bob", "al", "alice", "bob", "zed"]);
    let e = empty();
    assert!(list_users(&e).is_empty());
    assert!(list_stocks(&e).is_empty());
}

#[test]
fn rename_user_follows_session() {
    let mut ws = empty();
    create_user(&mut ws, "alice").unwrap();
    edit_user(&mut ws, "alice", "fn", "Alice").unwrap();
    login(&mut ws, "alice").unwrap();
    edit_user(&mut ws, "alice", "USERNAME", "alicia").unwrap();
    assert!(!ws.users.contains_key("alice"));
    let u = ws.users.get("alicia").unwrap();
    assert_eq!(u.username, "alicia");
    assert_eq!(u.first_name, "Alice");
    assert_eq!(u.last_name, "last_name");
    assert_eq!(ws.state.current_user, Some("alicia".to_string()));
    assert!(ws.state.logged_in);
}

#[test]
fn rename_user_without_session() {
    let mut ws = empty();
    create_user(&mut ws, "alice").unwrap();
    create_user(&mut ws, "bob").unwrap();
    login(&mut ws, "bob").unwrap();
    edit_user(&mut ws, "alice", "u", "alicia").unwrap();
    assert_eq!(ws.state.current_user, Some("bob".to_string()));
    assert_eq!(list_users(&ws), vec!["alicia", "bob"]);
}

#[test]
fn edit_user_errors() {
    let mut ws = empty();
    create_user(&mut ws, "alice").unwrap();
    create_user(&mut ws, "bob").unwrap();
    assert_eq!(edit_user(&mut ws, "carol", "fn", "X"), Err(ProjectError::HashMapKeyNotFoundError("carol".to_string())));
    assert_eq!(edit_user(&mut ws, "alice", "age", "X"), Err(ProjectError::InvalidInputError));
    assert_eq!(edit_user(&mut ws, "alice", "username", "bob"), Err(ProjectError::HashMapInsertError("bob".to_string())));
    assert!(ws.users.contains_key("alice"));
    edit_user(&mut ws, "alice", "username", "alice").unwrap();
    edit_user(&mut ws, "alice", "Middle-Initial", "Q").unwrap();
    edit_user(&mut ws, "alice", "lastname", "Smith").unwrap();
    let u = ws.users.get("alice").unwrap();
    assert_eq!(u.middle_initial, "Q");
    assert_eq!(u.full_name(), "first_name Smith");
}

#[test]
fn buy_accumulates() {
    let mut ws = with_user_and_stock();
    assert_eq!(buy_stock(&mut ws, "FOO", "5"), Ok(5));
    assert_eq!(buy_stock(&mut ws, "FOO", "3"), Ok(8));
    let (name, h) = list_portfolio(&ws).unwrap();
    assert_eq!(name, "alice");
    assert_eq!(h, vec![("FOO".to_string(), 8u32)]);
}

#[test]
fn buy_non_positive_refused() {
    let mut ws = with_user_and_stock();
    buy_stock(&mut ws, "FOO", "5").unwrap();
    assert_eq!(buy_stock(&mut ws, "FOO", "0"), Err(ProjectError::InvalidInputError));
    assert_eq!(buy_stock(&mut ws, "FOO", "-3"), Err(ProjectError::InvalidInputError));
    assert_eq!(list_portfolio(&ws).unwrap().1, vec![("FOO".to_string(), 5u32)]);
    let mut fresh = with_user_and_stock();
    assert_eq!(buy_stock(&mut fresh, "FOO", "0"), Err(ProjectError::InvalidInputError));
    assert!(fresh.users.get("alice").unwrap().portfolio.is_none());
}

#[test]
fn buy_errors() {
    let mut ws = with_user_and_stock();
    assert_eq!(buy_stock(&mut ws, "BAR", "1"), Err(ProjectError::HashMapKeyNotFoundError("BAR".to_string())));
    assert_eq!(buy_stock(&mut ws, "FOO", "many"), Err(ProjectError::ParseError));
    assert_eq!(buy_stock(&mut ws, "FOO", "4294967296"), Err(ProjectError::ParseError));
    assert_eq!(buy_stock(&mut ws, "FOO", "+4294967295"), Ok(4294967295));
    assert_eq!(buy_stock(&mut ws, "FOO", "1"), Err(ProjectError::InvalidInputError));
    let mut gone = with_user_and_stock();
    gone.state.set_user("ghost");
    assert_eq!(buy_stock(&mut gone, "FOO", "1"), Err(ProjectError::HashMapKeyNotFoundError("ghost".to_string())));
}

#[test]
fn portfolio_sorted_by_ticker() {
    let mut ws = with_user_and_stock();
    create_stock(&mut ws, "BAR").unwrap();
    buy_stock(&mut ws, "FOO", "2").unwrap();
    buy_stock(&mut ws, "BAR", "7").unwrap();
    let (_, h) = list_portfolio(&ws).unwrap();
    assert_eq!(h, vec![("BAR".to_string(), 7u32), ("FOO".to_string(), 2u32)]);
}

#[test]
fn session_guard() {
    let mut ws = with_user_and_stock();
    logout(&mut ws);
    assert_eq!(buy_stock(&mut ws, "FOO", "5"), Err(ProjectError::StateNoUserError));
    assert_eq!(list_portfolio(&ws).unwrap_err(), ProjectError::StateNoUserError);
    assert!(ws.users.get("alice").unwrap().portfolio.is_none());
    let r = run(&bind(&["buy-stock", "FOO", "5"]), &mut ws, "", None);
    assert_eq!(r.unwrap_err(), ProjectError::StateNoUserError);
    let r = run(&bind(&["lp"]), &mut ws, "", None);
    assert_eq!(r.unwrap_err(), ProjectError::StateNoUserError);
}

#[test]
fn delete_confirmation() {
    let mut ws = empty();
    create_user(&mut ws, "alice").unwrap();
    assert_eq!(delete_user(&mut ws, "alice", "no"), Ok(false));
    assert!(ws.users.contains_key("alice"));
    assert_eq!(delete_user(&mut ws, "alice", "maybe"), Err(ProjectError::InvalidInputError));
    assert!(ws.users.contains_key("alice"));
    assert_eq!(delete_user(&mut ws, "alice", "yes"), Ok(true));
    assert!(!ws.users.contains_key("alice"));
    assert_eq!(delete_user(&mut ws, "alice", "yes"), Err(ProjectError::HashMapKeyNotFoundError("alice".to_string())));
}

#[test]
fn confirmation_answers() {
    assert_eq!(confirmation("  YES\n"), Ok(true));
    assert_eq!(confirmation("y"), Ok(true));
    assert_eq!(confirmation("Quit\n"), Ok(false));
    assert_eq!(confirmation("q"), Ok(false));
    assert_eq!(confirmation("N"), Ok(false));
    assert_eq!(confirmation(""), Err(ProjectError::InvalidInputError));
}

#[test]
fn stock_create_edit_delete() {
    let mut ws = empty();
    create_stock(&mut ws, "FOO").unwrap();
    assert_eq!(create_stock(&mut ws, "FOO"), Err(ProjectError::HashMapInsertError("FOO".to_string())));
    edit_stock(&mut ws, "FOO", "cn", "Foo Inc", None).unwrap();
    assert_eq!(edit_stock(&mut ws, "FOO", "value", "abc", None), Err(ProjectError::ParseError));
    edit_stock(&mut ws, "FOO", "V", "12.5", Some(0x4029000000000000)).unwrap();
    edit_stock(&mut ws, "FOO", "ticker", "FOOX", None).unwrap();
    assert!(!ws.stocks.contains_key("FOO"));
    let s = ws.stocks.get("FOOX").unwrap();
    assert_eq!(s.ticker, "FOOX");
    assert_eq!(s.company_name, "Foo Inc");
    assert_eq!(s.value_bits, 0x4029000000000000);
    assert_eq!(edit_stock(&mut ws, "FOOX", "price", "1", None), Err(ProjectError::InvalidInputError));
    assert_eq!(delete_stock(&mut ws, "FOOX", "n"), Ok(false));
    assert_eq!(delete_stock(&mut ws, "FOOX", "sure"), Err(ProjectError::InvalidInputError));
    assert_eq!(delete_stock(&mut ws, "FOOX", "Y"), Ok(true));
    assert!(list_stocks(&ws).is_empty());
}

#[test]
fn login_requires_existing_user() {
    let mut ws = empty();
    assert_eq!(login(&mut ws, "bob"), Err(ProjectError::StateInvalidUserError("bob".to_string())));
    assert!(!ws.state.logged_in);
    create_user(&mut ws, "bob").unwrap();
    login(&mut ws, "bob").unwrap();
    assert!(ws.state.valid_state(&ws.users));
    logout(&mut ws);
    assert_eq!(ws.state.current_user, None);
    assert!(!ws.state.valid_state(&ws.users));
}

#[test]
fn init_resets_everything() {
    let mut ws = with_user_and_stock();
    init(&mut ws);
    assert!(list_users(&ws).is_empty());
    assert!(list_stocks(&ws).is_empty());
    assert!(!ws.state.logged_in);
}

#[test]
fn run_dispatches() {
    let mut ws = empty();
    assert!(matches!(run(&bind(&["cu", "alice"]), &mut ws, "", None), Ok(Outcome::Created(k)) if k == "alice"));
    assert!(matches!(run(&bind(&["cs", "FOO"]), &mut ws, "", None), Ok(Outcome::Created(_))));
    assert!(matches!(run(&bind(&["li", "alice"]), &mut ws, "", None), Ok(Outcome::LoggedIn(_))));
    assert!(matches!(run(&bind(&["bs", "FOO", "5"]), &mut ws, "", None), Ok(Outcome::Bought(t, 5)) if t == "FOO"));
    assert!(matches!(run(&bind(&["lu"]), &mut ws, "", None), Ok(Outcome::Listed(v)) if v == vec!["alice".to_string()]));
    assert!(matches!(run(&bind(&["du", "alice"]), &mut ws, "no", None), Ok(Outcome::Kept(_))));
    assert!(matches!(run(&bind(&["console"]), &mut ws, "", None), Ok(Outcome::Console)));
    assert_eq!(run(&bind(&["exit"]), &mut ws, "", None).unwrap_err(), ProjectError::CommandInvalidError);
    assert!(matches!(run(&bind(&["lo"]), &mut ws, "", None), Ok(Outcome::LoggedOut)));
    assert!(matches!(run(&bind(&["init"]), &mut ws, "", None), Ok(Outcome::Initialized)));
    let short = Config { command: Command::new("cu").unwrap(), remainder: vec![], configuration_directory: String::new() };
    assert_eq!(
        run(&short, &mut ws, "", None).unwrap_err(),
        ProjectError::ConfigArgumentsError("create-user".to_string())
    );
}

#[test]
fn confirmation_needed_only_for_existing_records() {
    let mut ws = empty();
    create_user(&mut ws, "alice").unwrap();
    assert!(needs_confirmation(&bind(&["du", "alice"]), &ws));
    assert!(!needs_confirmation(&bind(&["du", "bob"]), &ws));
    assert!(!needs_confirmation(&bind(&["ds", "alice"]), &ws));
    assert!(!needs_confirmation(&bind(&["cu", "carol"]), &ws));
}

#[test]
fn files_per_command() {
    let buy = Command::new("bs").unwrap();
    assert!(loads(buy).users && loads(buy).stocks && loads(buy).state);
    assert!(saves(buy).users && !saves(buy).stocks && !saves(buy).state);
    let init_c = Command::new("init").unwrap();
    assert!(!loads(init_c).users && saves(init_c).users && saves(init_c).state);
    let ls = Command::new("ls").unwrap();
    assert!(loads(ls).stocks && !saves(ls).stocks);
}

#[test]
fn console_actions() {
    assert_eq!(console_action(Command::new("q").unwrap()), ConsoleAction::Leave);
    assert_eq!(console_action(Command::new("co").unwrap()), ConsoleAction::AlreadyActive);
    assert_eq!(console_action(Command::new("lu").unwrap()), ConsoleAction::Dispatch);
}
