//! A small command-line stock tracker: users, stocks, a login session and
//! per-user portfolios, kept as key-to-record stores.

pub mod text;
pub mod command;
pub mod error;
pub mod store;
pub mod stock;
pub mod user;
pub mod state;
pub mod config;
pub mod ops;
pub mod laws;

pub use command::{Command, PortfolioCommand, StateCommand, StockCommand, UserCommand};
pub use config::Config;
pub use error::ProjectError;
pub use ops::{run, Outcome, Workspace};
pub use state::State;
pub use stock::{Stock, StockUnit};
pub use store::Store;
pub use user::User;
