use stock_tracker::{Command, PortfolioCommand, ProjectError, StateCommand, StockCommand, UserCommand};

#[test]
fn parse_ignores_case() {
    assert_eq!(Command::new("CREATE-USER"), Ok(Command::UserC(UserCommand::Create)));
    assert_eq!(Command::new("Cu"), Ok(Command::UserC(UserCommand::Create)));
    assert_eq!(Command::new("create-user"), Ok(Command::UserC(UserCommand::Create)));
    assert_eq!(Command::new("LoGiN"), Ok(Command::StateC(StateCommand::Login)));
    assert_eq!(Command::new("INIT"), Ok(Command::Init));
}

#[test]
fn parse_every_alias() {
    let table: Vec<(&str, &str, Command)> = vec![
        ("i", "init", Command::Init),
        ("co", "console", Command::Console),
        ("q", "quit", Command::Exit),
        ("li", "login", Command::StateC(StateCommand::Login)),
        ("lo", "logout", Command::StateC(StateCommand::Logout)),
        ("cu", "create-user", Command::UserC(UserCommand::Create)),
        ("du", "delete-user", Command::UserC(UserCommand::Delete)),
        ("eu", "edit-user", Command::UserC(UserCommand::Edit)),
        ("lu", "list-users", Command::UserC(UserCommand::List)),
        ("cs", "create-stock", Command::StockC(StockCommand::Create)),
        ("ds", "delete-stock", Command::StockC(StockCommand::Delete)),
        ("es", "edit-stock", Command::StockC(StockCommand::Edit)),
        ("ls", "list-stocks", Command::StockC(StockCommand::List)),
        ("bs", "buy-stock", Command::PortfolioC(PortfolioCommand::Buy)),
        ("lp", "list-portfolio", Command::PortfolioC(PortfolioCommand::List)),
    ];
    for (alias, name, c) in table {
        assert_eq!(Command::new(alias), Ok(c));
        assert_eq!(Command::new(name), Ok(c));
        assert_eq!(Command::new(&name.to_uppercase()), Ok(c));
    }
    assert_eq!(Command::new("exit"), Ok(Command::Exit));
}

#[test]
fn parse_unknown_token() {
    assert_eq!(Command::new("showall"), Err(ProjectError::CommandInvalidError));
    assert_eq!(Command::new(""), Err(ProjectError::CommandInvalidError));
    assert_eq!(Command::new("create-user "), Err(ProjectError::CommandInvalidError));
    assert_eq!(Command::from_lowercase("INIT"), Err(ProjectError::CommandInvalidError));
}

#[test]
fn argument_counts() {
    assert_eq!(Command::Init.num_args(), 0);
    assert_eq!(Command::Console.num_args(), 0);
    assert_eq!(Command::Exit.num_args(), 0);
    assert_eq!(Command::StateC(StateCommand::Login).num_args(), 1);
    assert_eq!(Command::StateC(StateCommand::Logout).num_args(), 0);
    assert_eq!(Command::UserC(UserCommand::Create).num_args(), 1);
    assert_eq!(Command::UserC(UserCommand::Edit).num_args(), 3);
    assert_eq!(Command::StockC(StockCommand::Delete).num_args(), 1);
    assert_eq!(Command::StockC(StockCommand::Edit).num_args(), 3);
    assert_eq!(Command::PortfolioC(PortfolioCommand::Buy).num_args(), 2);
    assert_eq!(Command::PortfolioC(PortfolioCommand::List).num_args(), 0);
}

#[test]
fn names_round_trip() {
    let all = vec![
        Command::Init,
        Command::Console,
        Command::Exit,
        Command::StateC(StateCommand::Login),
        Command::StateC(StateCommand::Logout),
        Command::UserC(UserCommand::Create),
        Command::UserC(UserCommand::Delete),
        Command::UserC(UserCommand::Edit),
        Command::UserC(UserCommand::List),
        Command::StockC(StockCommand::Create),
        Command::StockC(StockCommand::Delete),
        Command::StockC(StockCommand::Edit),
        Command::StockC(StockCommand::List),
        Command::PortfolioC(PortfolioCommand::Buy),
        Command::PortfolioC(PortfolioCommand::List),
    ];
    for c in all {
        assert_eq!(Command::new(&c.name()), Ok(c));
    }
    assert_eq!(Command::UserC(UserCommand::List).name(), "list-users");
}
