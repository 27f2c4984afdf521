//! The verbs of the tracker: parsing a token into a `Command`, the number of
//! arguments each one takes, and its canonical name.

use vstd::prelude::*;
use crate::error::ProjectError;
use crate::text::{all_ascii, ascii_lower, lower_of, lowercase, text_eq};

verus! {

/// Commands that log in or out.
#[derive(Debug, Clone, Copy, PartialEq, Eq, Structural)]
pub enum StateCommand {
    Login,
    Logout,
}

/// Commands that manage users.
#[derive(Debug, Clone, Copy, PartialEq, Eq, Structural)]
pub enum UserCommand {
    Create,
    Delete,
    Edit,
    List,
}

/// Commands that manage stocks.
#[derive(Debug, Clone, Copy, PartialEq, Eq, Structural)]
pub enum StockCommand {
    Create,
    Delete,
    Edit,
    List,
}

/// Commands on the portfolio of the logged-in user.
#[derive(Debug, Clone, Copy, PartialEq, Eq, Structural)]
pub enum PortfolioCommand {
    Buy,
    List,
}

/// One requested operation.
#[derive(Debug, Clone, Copy, PartialEq, Eq, Structural)]
pub enum Command {
    Init,
    Console,
    /// Leaves console mode; refused anywhere else.
    Exit,
    StateC(StateCommand),
    UserC(UserCommand),
    StockC(StockCommand),
    PortfolioC(PortfolioCommand),
}

/// The command that a lowercase token names, by primary name or alias.
pub open spec fn command_named(t: Seq<char>) -> Option<Command> {
    if t == "i"@ || t == "init"@ {
        Some(Command::Init)
    } else if t == "co"@ || t == "console"@ {
        Some(Command::Console)
    } else if t == "q"@ || t == "quit"@ || t == "exit"@ {
        Some(Command::Exit)
    } else if t == "li"@ || t == "login"@ {
        Some(Command::StateC(StateCommand::Login))
    } else if t == "lo"@ || t == "logout"@ {
        Some(Command::StateC(StateCommand::Logout))
    } else if t == "cu"@ || t == "create-user"@ {
        Some(Command::UserC(UserCommand::Create))
    } else if t == "du"@ || t == "delete-user"@ {
        Some(Command::UserC(UserCommand::Delete))
    } else if t == "eu"@ || t == "edit-user"@ {
        Some(Command::UserC(UserCommand::Edit))
    } else if t == "lu"@ || t == "list-users"@ {
        Some(Command::UserC(UserCommand::List))
    } else if t == "cs"@ || t == "create-stock"@ {
        Some(Command::StockC(StockCommand::Create))
    } else if t == "ds"@ || t == "delete-stock"@ {
        Some(Command::StockC(StockCommand::Delete))
    } else if t == "es"@ || t == "edit-stock"@ {
        Some(Command::StockC(StockCommand::Edit))
    } else if t == "ls"@ || t == "list-stocks"@ {
        Some(Command::StockC(StockCommand::List))
    } else if t == "bs"@ || t == "buy-stock"@ {
        Some(Command::PortfolioC(PortfolioCommand::Buy))
    } else if t == "lp"@ || t == "list-portfolio"@ {
        Some(Command::PortfolioC(PortfolioCommand::List))
    } else {
        None
    }
}

/// Parsing of an already lowercase token.
pub open spec fn parse_lowered(t: Seq<char>) -> Result<Command, ProjectError> {
    match command_named(t) {
        Some(c) => Ok(c),
        None => Err(ProjectError::CommandInvalidError),
    }
}

/// How many arguments must follow each command.
pub open spec fn arg_count(c: Command) -> int {
    match c {
        Command::Init => 0,
        Command::Console => 0,
        Command::Exit => 0,
        Command::StateC(StateCommand::Login) => 1,
        Command::StateC(StateCommand::Logout) => 0,
        Command::UserC(UserCommand::Create) => 1,
        Command::UserC(UserCommand::Delete) => 1,
        Command::UserC(UserCommand::Edit) => 3,
        Command::UserC(UserCommand::List) => 0,
        Command::StockC(StockCommand::Create) => 1,
        Command::StockC(StockCommand::Delete) => 1,
        Command::StockC(StockCommand::Edit) => 3,
        Command::StockC(StockCommand::List) => 0,
        Command::PortfolioC(PortfolioCommand::Buy) => 2,
        Command::PortfolioC(PortfolioCommand::List) => 0,
    }
}

/// The canonical lowercase name of each command.
pub open spec fn name_of(c: Command) -> Seq<char> {
    match c {
        Command::Init => "init"@,
        Command::Console => "console"@,
        Command::Exit => "exit"@,
        Command::StateC(StateCommand::Login) => "login"@,
        Command::StateC(StateCommand::Logout) => "logout"@,
        Command::UserC(UserCommand::Create) => "create-user"@,
        Command::UserC(UserCommand::Delete) => "delete-user"@,
        Command::UserC(UserCommand::Edit) => "edit-user"@,
        Command::UserC(UserCommand::List) => "list-users"@,
        Command::StockC(StockCommand::Create) => "create-stock"@,
        Command::StockC(StockCommand::Delete) => "delete-stock"@,
        Command::StockC(StockCommand::Edit) => "edit-stock"@,
        Command::StockC(StockCommand::List) => "list-stocks"@,
        Command::PortfolioC(PortfolioCommand::Buy) => "buy-stock"@,
        Command::PortfolioC(PortfolioCommand::List) => "list-portfolio"@,
    }
}

/// The canonical name of a command is ASCII and lowercase.
pub open spec fn canonical(t: Seq<char>) -> bool {
    all_ascii(t) && ascii_lower(t) == t
}

/// Case does not matter to parsing: an ASCII token whose lowercase form is the
/// name or an alias of a command parses, as that lowercase form does, to the
/// command so named.
pub proof fn lemma_parse_ignores_case(s: Seq<char>, v: Seq<char>)
    requires
        command_named(v) is Some,
        all_ascii(s),
        ascii_lower(s) == v,
    ensures
        canonical(v),
        parse_lowered(ascii_lower(s)) == parse_lowered(ascii_lower(v)),
        parse_lowered(ascii_lower(s)) == Ok::<Command, ProjectError>(command_named(v)->0),
{
    assert(ascii_lower(v) =~= v);
}

/// Every command's canonical name is lowercase ASCII and parses back to it.
pub proof fn lemma_name_round_trip(c: Command)
    ensures
        canonical(name_of(c)),
        parse_lowered(name_of(c)) == Ok::<Command, ProjectError>(c),
{
    reveal_strlit("i");
    reveal_strlit("init");
    reveal_strlit("co");
    reveal_strlit("console");
    reveal_strlit("q");
    reveal_strlit("quit");
    reveal_strlit("exit");
    reveal_strlit("li");
    reveal_strlit("login");
    reveal_strlit("lo");
    reveal_strlit("logout");
    reveal_strlit("cu");
    reveal_strlit("create-user");
    reveal_strlit("du");
    reveal_strlit("delete-user");
    reveal_strlit("eu");
    reveal_strlit("edit-user");
    reveal_strlit("lu");
    reveal_strlit("list-users");
    reveal_strlit("cs");
    reveal_strlit("create-stock");
    reveal_strlit("ds");
    reveal_strlit("delete-stock");
    reveal_strlit("es");
    reveal_strlit("edit-stock");
    reveal_strlit("ls");
    reveal_strlit("list-stocks");
    reveal_strlit("bs");
    reveal_strlit("buy-stock");
    reveal_strlit("lp");
    reveal_strlit("list-portfolio");
    let n = name_of(c);
    assert(ascii_lower(n) =~= n);
    assert("i"@.len() == 1);
    assert("i"@[0] == 'i');
    assert("i"@[0] == 'i');
    assert("init"@.len() == 4);
    assert("init"@[0] == 'i');
    assert("init"@[3] == 't');
    assert("co"@.len() == 2);
    assert("co"@[0] == 'c');
    assert("co"@[1] == 'o');
    assert("console"@.len() == 7);
    assert("console"@[0] == 'c');
    assert("console"@[6] == 'e');
    assert("q"@.len() == 1);
    assert("q"@[0] == 'q');
    assert("q"@[0] == 'q');
    assert("quit"@.len() == 4);
    assert("quit"@[0] == 'q');
    assert("quit"@[3] == 't');
    assert("exit"@.len() == 4);
    assert("exit"@[0] == 'e');
    assert("exit"@[3] == 't');
    assert("li"@.len() == 2);
    assert("li"@[0] == 'l');
    assert("li"@[1] == 'i');
    assert("login"@.len() == 5);
    assert("login"@[0] == 'l');
    assert("login"@[4] == 'n');
    assert("lo"@.len() == 2);
    assert("lo"@[0] == 'l');
    assert("lo"@[1] == 'o');
    assert("logout"@.len() == 6);
    assert("logout"@[0] == 'l');
    assert("logout"@[5] == 't');
    assert("cu"@.len() == 2);
    assert("cu"@[0] == 'c');
    assert("cu"@[1] == 'u');
    assert("create-user"@.len() == 11);
    assert("create-user"@[0] == 'c');
    assert("create-user"@[10] == 'r');
    assert("du"@.len() == 2);
    assert("du"@[0] == 'd');
    assert("du"@[1] == 'u');
    assert("delete-user"@.len() == 11);
    assert("delete-user"@[0] == 'd');
    assert("delete-user"@[10] == 'r');
    assert("eu"@.len() == 2);
    assert("eu"@[0] == 'e');
    assert("eu"@[1] == 'u');
    assert("edit-user"@.len() == 9);
    assert("edit-user"@[0] == 'e');
    assert("edit-user"@[8] == 'r');
    assert("lu"@.len() == 2);
    assert("lu"@[0] == 'l');
    assert("lu"@[1] == 'u');
    assert("list-users"@.len() == 10);
    assert("list-users"@[0] == 'l');
    assert("list-users"@[9] == 's');
    assert("cs"@.len() == 2);
    assert("cs"@[0] == 'c');
    assert("cs"@[1] == 's');
    assert("create-stock"@.len() == 12);
    assert("create-stock"@[0] == 'c');
    assert("create-stock"@[11] == 'k');
    assert("ds"@.len() == 2);
    assert("ds"@[0] == 'd');
    assert("ds"@[1] == 's');
    assert("delete-stock"@.len() == 12);
    assert("delete-stock"@[0] == 'd');
    assert("delete-stock"@[11] == 'k');
    assert("es"@.len() == 2);
    assert("es"@[0] == 'e');
    assert("es"@[1] == 's');
    assert("edit-stock"@.len() == 10);
    assert("edit-stock"@[0] == 'e');
    assert("edit-stock"@[9] == 'k');
    assert("ls"@.len() == 2);
    assert("ls"@[0] == 'l');
    assert("ls"@[1] == 's');
    assert("list-stocks"@.len() == 11);
    assert("list-stocks"@[0] == 'l');
    assert("list-stocks"@[10] == 's');
    assert("bs"@.len() == 2);
    assert("bs"@[0] == 'b');
    assert("bs"@[1] == 's');
    assert("buy-stock"@.len() == 9);
    assert("buy-stock"@[0] == 'b');
    assert("buy-stock"@[8] == 'k');
    assert("lp"@.len() == 2);
    assert("lp"@[0] == 'l');
    assert("lp"@[1] == 'p');
    assert("list-portfolio"@.len() == 14);
    assert("list-portfolio"@[0] == 'l');
    assert("list-portfolio"@[13] == 'o');
    match c {
        Command::Init => {},
        Command::Console => {},
        Command::Exit => {},
        Command::StateC(_) => {},
        Command::UserC(_) => {},
        Command::StockC(_) => {},
        Command::PortfolioC(_) => {},
    }
}

impl Command {
    /// Parses a token, ignoring case.
    pub fn new(s: &str) -> (r: Result<Command, ProjectError>)
        ensures
            r == parse_lowered(lower_of(s@)),
            all_ascii(s@) ==> r == parse_lowered(ascii_lower(s@)),
    {
        let t = lowercase(s);
        Command::from_lowercase(t.as_str())
    }

    /// Parses a token that is already in lowercase.
    pub fn from_lowercase(t: &str) -> (r: Result<Command, ProjectError>)
        ensures
            r == parse_lowered(t@),
    {
        if text_eq(t, "i") || text_eq(t, "init") {
            Ok(Command::Init)
        } else if text_eq(t, "co") || text_eq(t, "console") {
            Ok(Command::Console)
        } else if text_eq(t, "q") || text_eq(t, "quit") || text_eq(t, "exit") {
            Ok(Command::Exit)
        } else if text_eq(t, "li") || text_eq(t, "login") {
            Ok(Command::StateC(StateCommand::Login))
        } else if text_eq(t, "lo") || text_eq(t, "logout") {
            Ok(Command::StateC(StateCommand::Logout))
        } else if text_eq(t, "cu") || text_eq(t, "create-user") {
            Ok(Command::UserC(UserCommand::Create))
        } else if text_eq(t, "du") || text_eq(t, "delete-user") {
            Ok(Command::UserC(UserCommand::Delete))
        } else if text_eq(t, "eu") || text_eq(t, "edit-user") {
            Ok(Command::UserC(UserCommand::Edit))
        } else if text_eq(t, "lu") || text_eq(t, "list-users") {
            Ok(Command::UserC(UserCommand::List))
        } else if text_eq(t, "cs") || text_eq(t, "create-stock") {
            Ok(Command::StockC(StockCommand::Create))
        } else if text_eq(t, "ds") || text_eq(t, "delete-stock") {
            Ok(Command::StockC(StockCommand::Delete))
        } else if text_eq(t, "es") || text_eq(t, "edit-stock") {
            Ok(Command::StockC(StockCommand::Edit))
        } else if text_eq(t, "ls") || text_eq(t, "list-stocks") {
            Ok(Command::StockC(StockCommand::List))
        } else if text_eq(t, "bs") || text_eq(t, "buy-stock") {
            Ok(Command::PortfolioC(PortfolioCommand::Buy))
        } else if text_eq(t, "lp") || text_eq(t, "list-portfolio") {
            Ok(Command::PortfolioC(PortfolioCommand::List))
        } else {
            Err(ProjectError::CommandInvalidError)
        }
    }

    /// The number of arguments expected after the command.
    pub fn num_args(&self) -> (r: i32)
        ensures
            r as int == arg_count(*self),
    {
        match self {
            Command::Init => 0,
            Command::Console => 0,
            Command::Exit => 0,
            Command::StateC(StateCommand::Login) => 1,
            Command::StateC(StateCommand::Logout) => 0,
            Command::UserC(UserCommand::Create) => 1,
            Command::UserC(UserCommand::Delete) => 1,
            Command::UserC(UserCommand::Edit) => 3,
            Command::UserC(UserCommand::List) => 0,
            Command::StockC(StockCommand::Create) => 1,
            Command::StockC(StockCommand::Delete) => 1,
            Command::StockC(StockCommand::Edit) => 3,
            Command::StockC(StockCommand::List) => 0,
            Command::PortfolioC(PortfolioCommand::Buy) => 2,
            Command::PortfolioC(PortfolioCommand::List) => 0,
        }
    }

    /// The canonical lowercase name, as shown in messages.
    pub fn name(&self) -> (r: String)
        ensures
            r@ == name_of(*self),
    {
        let s = match self {
            Command::Init => "init",
            Command::Console => "console",
            Command::Exit => "exit",
            Command::StateC(StateCommand::Login) => "login",
            Command::StateC(StateCommand::Logout) => "logout",
            Command::UserC(UserCommand::Create) => "create-user",
            Command::UserC(UserCommand::Delete) => "delete-user",
            Command::UserC(UserCommand::Edit) => "edit-user",
            Command::UserC(UserCommand::List) => "list-users",
            Command::StockC(StockCommand::Create) => "create-stock",
            Command::StockC(StockCommand::Delete) => "delete-stock",
            Command::StockC(StockCommand::Edit) => "edit-stock",
            Command::StockC(StockCommand::List) => "list-stocks",
            Command::PortfolioC(PortfolioCommand::Buy) => "buy-stock",
            Command::PortfolioC(PortfolioCommand::List) => "list-portfolio",
        };
        s.to_string()
    }
}

} // verus!
