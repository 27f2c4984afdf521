use stock_tracker::{Command, Config, PortfolioCommand, ProjectError, UserCommand};

fn words(v: &[&str]) -> Vec<String> {
    v.iter().map(|s| s.to_string()).collect()
}

fn bind(v: Vec<String>) -> Result<Config, ProjectError> {
    Config::new(v, Some("/tmp/stock_tracker_config".to_string()), None)
}

#[test]
fn config_new_no_args() {
    assert!(
        matches!(bind(Vec::<String>::new()), Err(ProjectError::ConfigNoCommandError)),
        "Didn't get a command string"
    );
}

#[test]
fn config_new_one_arg() {
    assert!(
        matches!(bind(words(&["test1"])), Err(ProjectError::ConfigNoCommandError)),
        "Didn't get a command string"
    );
}

#[test]
fn config_new_two_invalid_args() {
    assert!(
        matches!(bind(words(&["test1", "test2"])), Err(ProjectError::CommandInvalidError)),
        "Invalid command string"
    );
}

#[test]
fn config_new_many_invalid_args() {
    let mut check = true;
    for i in 3..100 {
        let mut v = Vec::<String>::new();
        for j in 0..i {
            v.push(format!("test{}", j + 1));
        }
        check = check && matches!(bind(v.clone()), Err(ProjectError::CommandInvalidError));
    }
    assert!(check, "Invalid command string");
}

#[test]
fn config_new_two_valid_args() {
    assert!(matches!(
        bind(words(&["test1", "list-portfolio"])),
        Ok(Config { command: Command::PortfolioC(PortfolioCommand::List), .. })
    ));
}

#[test]
fn config_new_two_valid_args_invalid_num_args() {
    match bind(words(&["test1", "create-user"])) {
        Err(e) => {
            assert_eq!(e, ProjectError::ConfigArgumentsError("create-user".to_string()));
            assert_eq!(e.message(), "Too few arguments provided for create-user");
        }
        Ok(_) => panic!("expected too few arguments"),
    }
}

#[test]
fn config_new_three_valid_args() {
    match bind(words(&["test1", "create-user", "test3"])) {
        Ok(Config { command: Command::UserC(UserCommand::Create), remainder, .. }) => {
            assert_eq!(remainder, vec![String::from("test3")])
        }
        _ => panic!("expected a create-user command"),
    }
}

#[test]
fn config_directory_from_override() {
    let c = Config::new(words(&["p", "init"]), Some("/data/st".to_string()), Some("/home/a".to_string())).unwrap();
    assert_eq!(c.configuration_directory, "/data/st");
    assert_eq!(c.user_map_path(), "/data/st/UserMap.JSON");
    assert_eq!(c.stock_map_path(), "/data/st/StockMap.JSON");
    assert_eq!(c.state_path(), "/data/st/State.JSON");
}

#[test]
fn config_directory_from_home_when_override_empty() {
    let c = Config::new(words(&["p", "init"]), Some(String::new()), Some("/home/a/".to_string())).unwrap();
    assert_eq!(c.configuration_directory, "/home/a/.rust_stock_tracker");
    let c = Config::new(words(&["p", "init"]), None, Some("/home/b".to_string())).unwrap();
    assert_eq!(c.configuration_directory, "/home/b/.rust_stock_tracker");
}

#[test]
fn config_home_not_found() {
    let r = Config::new(words(&["p", "init"]), None, None);
    assert_eq!(r.unwrap_err(), ProjectError::ConfigHomeDirectoryNotFoundError);
}

#[test]
fn config_command_checked_before_directory() {
    let r = Config::new(words(&["p", "nonsense"]), None, None);
    assert_eq!(r.unwrap_err(), ProjectError::CommandInvalidError);
}

#[test]
fn config_argument_counts_per_command() {
    // edit-user needs three arguments
    assert_eq!(
        bind(words(&["p", "edit-user", "a", "fn"])).unwrap_err(),
        ProjectError::ConfigArgumentsError("edit-user".to_string())
    );
    assert!(bind(words(&["p", "edit-user", "a", "fn", "Al"])).is_ok());
    // buy-stock needs two
    assert_eq!(
        bind(words(&["p", "bs", "FOO"])).unwrap_err(),
        ProjectError::ConfigArgumentsError("buy-stock".to_string())
    );
    assert!(bind(words(&["p", "bs", "FOO", "3"])).is_ok());
    // list-users needs none, extra words are kept
    let c = bind(words(&["p", "lu", "x", "y"])).unwrap();
    assert_eq!(c.remainder, words(&["x", "y"]));
}
