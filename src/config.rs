//! Binding the words of an invocation into a `Config`.

use vstd::prelude::*;
use vstd::string::StrSliceExecFns;
use crate::command::{arg_count, name_of, parse_lowered, Command};
use crate::error::{ProjectError, ProjectErrorView};
use crate::text::{join, lower_of};

verus! {

/// A file `name` inside directory `dir`: a `/` goes between them unless `dir`
/// is empty or already ends with one.
pub open spec fn file_in(dir: Seq<char>, name: Seq<char>) -> Seq<char> {
    if dir.len() == 0 || dir[dir.len() - 1] == '/' {
        dir + name
    } else {
        dir + "/"@ + name
    }
}

/// The configuration directory: the override when it is set and not empty,
/// else `.rust_stock_tracker` under the home directory.
pub open spec fn directory_from(env_dir: Option<Seq<char>>, home_dir: Option<Seq<char>>)
    -> Result<Seq<char>, ProjectErrorView>
{
    match env_dir {
        Some(d) if d.len() > 0 => Ok(d),
        _ => match home_dir {
            Some(h) => Ok(file_in(h, ".rust_stock_tracker"@)),
            None => Err(ProjectErrorView::ConfigHomeDirectoryNotFoundError),
        },
    }
}

pub open spec fn text_option(o: Option<String>) -> Option<Seq<char>> {
    match o {
        Some(s) => Some(s@),
        None => None,
    }
}

/// Path of `name` inside `dir`.
pub fn file_path(dir: &str, name: &str) -> (r: String)
    ensures
        r@ == file_in(dir@, name@),
{
    let n = dir.unicode_len();
    if n == 0 || dir.get_char(n - 1) == '/' {
        join(dir, name)
    } else {
        let d = join(dir, "/");
        join(d.as_str(), name)
    }
}

/// Chooses the configuration directory from the override and the home directory.
pub fn resolve_directory(env_dir: Option<String>, home_dir: Option<String>) -> (r: Result<String, ProjectError>)
    ensures
        match directory_from(text_option(env_dir), text_option(home_dir)) {
            Ok(d) => r matches Ok(s) && s@ == d,
            Err(e) => r matches Err(x) && x@ == e,
        },
{
    match env_dir {
        Some(d) if d.unicode_len() > 0 => Ok(d),
        _ => match home_dir {
            Some(h) => Ok(file_path(h.as_str(), ".rust_stock_tracker")),
            None => Err(ProjectError::ConfigHomeDirectoryNotFoundError),
        },
    }
}

/// One invocation: the command, the words after it, and where the files live.
#[derive(Debug)]
pub struct Config {
    pub command: Command,
    pub remainder: Vec<String>,
    pub configuration_directory: String,
}

impl Config {
    /// Binds the words of an invocation; the first word (the program) is
    /// skipped, the second names the command, the rest are its arguments.
    /// The directory comes from the override and the home directory.
    pub fn new(args: Vec<String>, env_dir: Option<String>, home_dir: Option<String>) -> (r: Result<Config, ProjectError>)
        ensures
            args@.len() < 2 ==> (r matches Err(e) && e@ == ProjectErrorView::ConfigNoCommandError),
            args@.len() >= 2 ==> match parse_lowered(lower_of(args@[1]@)) {
                Err(_) => r matches Err(e) && e@ == ProjectErrorView::CommandInvalidError,
                Ok(c) => match directory_from(text_option(env_dir), text_option(home_dir)) {
                    Err(d) => r matches Err(e) && e@ == d,
                    Ok(dir) => if args@.len() - 2 < arg_count(c) {
                        r matches Err(e) && e@ == ProjectErrorView::ConfigArgumentsError(name_of(c))
                    } else {
                        r matches Ok(cfg) && cfg.command == c && cfg.remainder@ == args@.subrange(2, args@.len() as int)
                            && cfg.configuration_directory@ == dir
                    },
                },
            },
    {
        if args.len() < 2 {
            return Err(ProjectError::ConfigNoCommandError);
        }
        let command = match Command::new(args[1].as_str()) {
            Ok(c) => c,
            Err(e) => return Err(e),
        };
        let configuration_directory = match resolve_directory(env_dir, home_dir) {
            Ok(d) => d,
            Err(e) => return Err(e),
        };
        let mut remainder: Vec<String> = Vec::new();
        let mut i: usize = 2;
        while i < args.len()
            invariant
                2 <= i <= args@.len(),
                remainder@ == args@.subrange(2, i as int),
            decreases args@.len() - i,
        {
            remainder.push(args[i].clone());
            assert(args@.subrange(2, i + 1) =~= args@.subrange(2, i as int).push(args@[i as int]));
            i = i + 1;
        }
        if remainder.len() < command.num_args() as usize {
            return Err(ProjectError::ConfigArgumentsError(command.name()));
        }
        Ok(Config { command, remainder, configuration_directory })
    }

    /// Where the user store lives.
    pub fn user_map_path(&self) -> (r: String)
        ensures
            r@ == file_in(self.configuration_directory@, "UserMap.JSON"@),
    {
        file_path(self.configuration_directory.as_str(), "UserMap.JSON")
    }

    /// Where the stock store lives.
    pub fn stock_map_path(&self) -> (r: String)
        ensures
            r@ == file_in(self.configuration_directory@, "StockMap.JSON"@),
    {
        file_path(self.configuration_directory.as_str(), "StockMap.JSON")
    }

    /// Where the session lives.
    pub fn state_path(&self) -> (r: String)
        ensures
            r@ == file_in(self.configuration_directory@, "State.JSON"@),
    {
        file_path(self.configuration_directory.as_str(), "State.JSON")
    }
}

} // verus!
