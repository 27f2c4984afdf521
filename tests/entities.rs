use stock_tracker::error::ProjectError;
use stock_tracker::stock::{self, Stock, StockUnit};
use stock_tracker::user::{self, User};
use stock_tracker::State;

#[test]
fn stock_it_works() {
    assert_eq!(2 + 2, 4);
    let s = Stock::new().unwrap();
    assert_eq!(s.ticker, "ticker");
    assert_eq!(s.company_name, "company_name");
    assert_eq!(s.value_bits, 0);
}

#[test]
fn user_it_works() {
    assert_eq!(2 + 2, 4);
    let u = User::new().unwrap();
    assert_eq!(u.username, "username");
    assert_eq!(u.full_name(), "first_name last_name");
}

#[test]
fn lib_it_works() {
    assert_eq!(2 + 2, 4);
    let s = Stock::new_from_ticker("FOO").unwrap();
    assert_eq!(s.ticker, "FOO");
}

#[test]
fn stock_unit_add() {
    let mut u = StockUnit::new(Stock::new_from_ticker("FOO").unwrap(), 5).unwrap();
    assert_eq!(u.add_stock(3), Ok(()));
    assert_eq!(u.quantity, 8);
    assert_eq!(u.add_stock(0), Err(ProjectError::InvalidInputError));
    assert_eq!(u.add_stock(u32::MAX), Err(ProjectError::InvalidInputError));
    assert_eq!(u.quantity, 8);
}

#[test]
fn user_add_stock() {
    let mut u = User::new().unwrap();
    let foo = Stock::new_from_ticker("FOO").unwrap();
    assert_eq!(u.add_stock(&foo, 0), Err(ProjectError::InvalidInputError));
    assert!(u.portfolio.is_none());
    u.add_stock(&foo, 5).unwrap();
    u.add_stock(&foo, 3).unwrap();
    let p = u.portfolio.as_ref().unwrap();
    assert_eq!(p.sorted_keys(), vec!["FOO".to_string()]);
    assert_eq!(p.get("FOO").unwrap().quantity, 8);
}

#[test]
fn property_names() {
    assert_eq!(User::get_property("FN"), Ok(user::Property::FirstName));
    assert_eq!(User::get_property("first-name"), Ok(user::Property::FirstName));
    assert_eq!(User::get_property("MiddleInitial"), Ok(user::Property::MiddleInitial));
    assert_eq!(User::get_property("u"), Ok(user::Property::Username));
    assert_eq!(User::get_property("email"), Err(ProjectError::InvalidInputError));
    assert_eq!(Stock::get_property("Company-Name"), Ok(stock::Property::CompanyName));
    assert_eq!(Stock::get_property("T"), Ok(stock::Property::Ticker));
    assert_eq!(Stock::get_property("value"), Ok(stock::Property::Value));
    assert_eq!(Stock::get_property("cost"), Err(ProjectError::InvalidInputError));
}

#[test]
fn error_messages() {
    assert_eq!(
        ProjectError::HashMapKeyNotFoundError("bob".to_string()).message(),
        "Key bob not found in HashMap."
    );
    assert_eq!(
        ProjectError::StateInvalidUserError("bob".to_string()).message(),
        "Unexpected error: attempted to login as user bob, but user bob was not found."
    );
    assert_eq!(
        ProjectError::HashMapInsertError("alice".to_string()).message(),
        "Insertion to HashMap failed: key alice is already occupied."
    );
    assert_eq!(ProjectError::StateNoUserError.message(), "Command attempted without logging in.");
    assert_eq!(
        ProjectError::IOHashMapOpenError("/x/UserMap.JSON".to_string()).message(),
        "Read from HashMap file /x/UserMap.JSON unsuccessful."
    );
}

#[test]
fn recoverable_errors() {
    assert!(ProjectError::ParseError.is_recoverable());
    assert!(ProjectError::HashMapKeyNotFoundError("k".to_string()).is_recoverable());
    assert!(ProjectError::StateNoUserError.is_recoverable());
    assert!(ProjectError::StateInvalidUserError("u".to_string()).is_recoverable());
    assert!(!ProjectError::InvalidInputError.is_recoverable());
    assert!(!ProjectError::HashMapInsertError("k".to_string()).is_recoverable());
    assert!(!ProjectError::IOHashMapWriteError("p".to_string()).is_recoverable());
}

#[test]
fn state_defaults_and_set() {
    let mut s = State::default();
    assert!(!s.logged_in);
    assert_eq!(s.current_user, None);
    s.set_user("carol");
    assert!(s.logged_in);
    assert_eq!(s.current_user, Some("carol".to_string()));
    s.clear_user();
    assert!(!s.logged_in);
}
