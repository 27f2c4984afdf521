//! The errors of the stock tracker, with their messages and whether an
//! interactive session may carry on after one of them.

use vstd::prelude::*;
use crate::text::join;

verus! {

/// Every way an operation of the tracker can fail. Paths are held as text.
#[derive(Debug, Clone, PartialEq, Eq)]
pub enum ProjectError {
    IOHashMapOpenError(String),
    IOHashMapWriteError(String),
    IOStateOpenError(String),
    IOStateWriteError(String),
    SerializeJSONError,
    DeserializeJSONError(String),
    HashMapInsertError(String),
    HashMapRemoveError(String),
    HashMapKeyNotFoundError(String),
    UserNewError,
    StockNewError,
    ParseError,
    ConfigNoCommandError,
    ConfigArgumentsError(String),
    ConfigCreateDirectoryError(String),
    ConfigHomeDirectoryNotFoundError,
    CommandInvalidError,
    StateInvalidUserError(String),
    StateNoUserError,
    InvalidInputError,
}

/// An error with its texts as character sequences.
pub enum ProjectErrorView {
    IOHashMapOpenError(Seq<char>),
    IOHashMapWriteError(Seq<char>),
    IOStateOpenError(Seq<char>),
    IOStateWriteError(Seq<char>),
    SerializeJSONError,
    DeserializeJSONError(Seq<char>),
    HashMapInsertError(Seq<char>),
    HashMapRemoveError(Seq<char>),
    HashMapKeyNotFoundError(Seq<char>),
    UserNewError,
    StockNewError,
    ParseError,
    ConfigNoCommandError,
    ConfigArgumentsError(Seq<char>),
    ConfigCreateDirectoryError(Seq<char>),
    ConfigHomeDirectoryNotFoundError,
    CommandInvalidError,
    StateInvalidUserError(Seq<char>),
    StateNoUserError,
    InvalidInputError,
}

impl View for ProjectError {
    type V = ProjectErrorView;

    open spec fn view(&self) -> ProjectErrorView {
        match self {
            ProjectError::IOHashMapOpenError(t) => ProjectErrorView::IOHashMapOpenError(t@),
            ProjectError::IOHashMapWriteError(t) => ProjectErrorView::IOHashMapWriteError(t@),
            ProjectError::IOStateOpenError(t) => ProjectErrorView::IOStateOpenError(t@),
            ProjectError::IOStateWriteError(t) => ProjectErrorView::IOStateWriteError(t@),
            ProjectError::SerializeJSONError => ProjectErrorView::SerializeJSONError,
            ProjectError::DeserializeJSONError(t) => ProjectErrorView::DeserializeJSONError(t@),
            ProjectError::HashMapInsertError(t) => ProjectErrorView::HashMapInsertError(t@),
            ProjectError::HashMapRemoveError(t) => ProjectErrorView::HashMapRemoveError(t@),
            ProjectError::HashMapKeyNotFoundError(t) => ProjectErrorView::HashMapKeyNotFoundError(t@),
            ProjectError::UserNewError => ProjectErrorView::UserNewError,
            ProjectError::StockNewError => ProjectErrorView::StockNewError,
            ProjectError::ParseError => ProjectErrorView::ParseError,
            ProjectError::ConfigNoCommandError => ProjectErrorView::ConfigNoCommandError,
            ProjectError::ConfigArgumentsError(t) => ProjectErrorView::ConfigArgumentsError(t@),
            ProjectError::ConfigCreateDirectoryError(t) => ProjectErrorView::ConfigCreateDirectoryError(t@),
            ProjectError::ConfigHomeDirectoryNotFoundError => ProjectErrorView::ConfigHomeDirectoryNotFoundError,
            ProjectError::CommandInvalidError => ProjectErrorView::CommandInvalidError,
            ProjectError::StateInvalidUserError(t) => ProjectErrorView::StateInvalidUserError(t@),
            ProjectError::StateNoUserError => ProjectErrorView::StateNoUserError,
            ProjectError::InvalidInputError => ProjectErrorView::InvalidInputError,
        }
    }
}

/// The errors after which an interactive session goes on: a mistake of the
/// person typing rather than a failure of the environment.
pub open spec fn recoverable(e: ProjectError) -> bool {
    match e {
        ProjectError::ParseError => true,
        ProjectError::HashMapKeyNotFoundError(_) => true,
        ProjectError::StateNoUserError => true,
        ProjectError::StateInvalidUserError(_) => true,
        _ => false,
    }
}

/// The human-readable message of an error.
pub open spec fn message_of(e: ProjectError) -> Seq<char> {
    match e {
        ProjectError::IOHashMapOpenError(p) =>
            "Read from HashMap file "@ + p@ + " unsuccessful."@,
        ProjectError::IOHashMapWriteError(p) =>
            "Write to HashMap file at "@ + p@ + " unsuccessful."@,
        ProjectError::IOStateOpenError(p) =>
            "Read from State file "@ + p@ + " unsuccessful."@,
        ProjectError::IOStateWriteError(p) =>
            "Write to State file at "@ + p@ + " unsuccessful."@,
        ProjectError::SerializeJSONError => "Serialization unsuccessful."@,
        ProjectError::DeserializeJSONError(p) =>
            "Deserialization of JSON file "@ + p@ + " unsuccessful."@,
        ProjectError::HashMapInsertError(k) =>
            "Insertion to HashMap failed: key "@ + k@ + " is already occupied."@,
        ProjectError::HashMapRemoveError(k) =>
            "Remove from HashMap at key "@ + k@ + " unsuccessful."@,
        ProjectError::HashMapKeyNotFoundError(k) =>
            "Key "@ + k@ + " not found in HashMap."@,
        ProjectError::UserNewError => "Error creating new User."@,
        ProjectError::StockNewError => "Error creating new Stock."@,
        ProjectError::ParseError =>
            "Error parsing inputs, check that this call was formatted correctly."@,
        ProjectError::ConfigNoCommandError => "No command string provided."@,
        ProjectError::ConfigArgumentsError(c) => "Too few arguments provided for "@ + c@,
        ProjectError::ConfigCreateDirectoryError(p) =>
            "Creation of directories to "@ + p@ + " unsuccessful"@,
        ProjectError::ConfigHomeDirectoryNotFoundError =>
            "Unexpected error: home directory not found. Consider specifying a configuration directory by setting \"RUST_STOCK_TRACKER_CONFIGURATION_DIRECTORY\""@,
        ProjectError::CommandInvalidError => "Command string not recognized."@,
        ProjectError::StateInvalidUserError(u) =>
            "Unexpected error: attempted to login as user "@ + u@ + ", but user "@ + u@
                + " was not found."@,
        ProjectError::StateNoUserError => "Command attempted without logging in."@,
        ProjectError::InvalidInputError => "Input not recognized."@,
    }
}

/// `a`, then `b`, then `c`, as a new `String`.
fn join3(a: &str, b: &str, c: &str) -> (r: String)
    ensures
        r@ == a@ + b@ + c@,
{
    let ab = join(a, b);
    join(ab.as_str(), c)
}

impl ProjectError {
    /// Whether an interactive session carries on after this error.
    pub fn is_recoverable(&self) -> (r: bool)
        ensures
            r == recoverable(*self),
    {
        match self {
            ProjectError::ParseError => true,
            ProjectError::HashMapKeyNotFoundError(_) => true,
            ProjectError::StateNoUserError => true,
            ProjectError::StateInvalidUserError(_) => true,
            _ => false,
        }
    }

    /// The message shown for this error.
    pub fn message(&self) -> (r: String)
        ensures
            r@ == message_of(*self),
    {
        match self {
            ProjectError::IOHashMapOpenError(p) =>
                join3("Read from HashMap file ", p.as_str(), " unsuccessful."),
            ProjectError::IOHashMapWriteError(p) =>
                join3("Write to HashMap file at ", p.as_str(), " unsuccessful."),
            ProjectError::IOStateOpenError(p) =>
                join3("Read from State file ", p.as_str(), " unsuccessful."),
            ProjectError::IOStateWriteError(p) =>
                join3("Write to State file at ", p.as_str(), " unsuccessful."),
            ProjectError::SerializeJSONError => "Serialization unsuccessful.".to_string(),
            ProjectError::DeserializeJSONError(p) =>
                join3("Deserialization of JSON file ", p.as_str(), " unsuccessful."),
            ProjectError::HashMapInsertError(k) =>
                join3("Insertion to HashMap failed: key ", k.as_str(), " is already occupied."),
            ProjectError::HashMapRemoveError(k) =>
                join3("Remove from HashMap at key ", k.as_str(), " unsuccessful."),
            ProjectError::HashMapKeyNotFoundError(k) =>
                join3("Key ", k.as_str(), " not found in HashMap."),
            ProjectError::UserNewError => "Error creating new User.".to_string(),
            ProjectError::StockNewError => "Error creating new Stock.".to_string(),
            ProjectError::ParseError =>
                "Error parsing inputs, check that this call was formatted correctly.".to_string(),
            ProjectError::ConfigNoCommandError => "No command string provided.".to_string(),
            ProjectError::ConfigArgumentsError(c) =>
                join("Too few arguments provided for ", c.as_str()),
            ProjectError::ConfigCreateDirectoryError(p) =>
                join3("Creation of directories to ", p.as_str(), " unsuccessful"),
            ProjectError::ConfigHomeDirectoryNotFoundError =>
                "Unexpected error: home directory not found. Consider specifying a configuration directory by setting \"RUST_STOCK_TRACKER_CONFIGURATION_DIRECTORY\"".to_string(),
            ProjectError::CommandInvalidError => "Command string not recognized.".to_string(),
            ProjectError::StateInvalidUserError(u) => {
                let head = join3("Unexpected error: attempted to login as user ", u.as_str(), ", but user ");
                join3(head.as_str(), u.as_str(), " was not found.")
            },
            ProjectError::StateNoUserError => "Command attempted without logging in.".to_string(),
            ProjectError::InvalidInputError => "Input not recognized.".to_string(),
        }
    }
}

} // verus!
