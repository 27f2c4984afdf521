//! The operations of the tracker over the stores and the session, and the
//! dispatch of a bound command to them. Loading and saving the files is left
//! to the caller: an operation that fails changes nothing, so only the
//! outcome of a successful one is written back.

use vstd::prelude::*;
use crate::command::{arg_count, name_of, Command, PortfolioCommand, StateCommand, StockCommand, UserCommand};
use crate::config::Config;
use crate::error::{ProjectError, ProjectErrorView};
use crate::state::{logged_in_as, logged_out, State, StateView};
use crate::stock::{self, default_stock, stock_with, Stock, StockView};
use crate::store::{key_views, sorted_keys, Store};
use crate::text::{is_negative_integer, lower_of, lowercase, negative_integer, parse_u32, text_eq, trim, trimmed, u32_of};
use crate::user::{self, default_user, portfolio_after, user_with, User, UserView};

verus! {

/// Everything an operation may read or change.
pub struct Workspace {
    pub users: Store<User>,
    pub stocks: Store<Stock>,
    pub state: State,
}

pub struct WorkspaceView {
    pub users: Map<Seq<char>, UserView>,
    pub stocks: Map<Seq<char>, StockView>,
    pub state: StateView,
}

impl View for Workspace {
    type V = WorkspaceView;

    open spec fn view(&self) -> WorkspaceView {
        WorkspaceView { users: self.users@, stocks: self.stocks@, state: self.state@ }
    }
}

/// What a confirmation answer, trimmed and in lowercase, means: `Ok(true)` to
/// go ahead, `Ok(false)` to decline.
pub open spec fn confirmation_of(t: Seq<char>) -> Result<bool, ProjectErrorView> {
    if t == "y"@ || t == "yes"@ {
        Ok(true)
    } else if t == "q"@ || t == "quit"@ || t == "n"@ || t == "no"@ {
        Ok(false)
    } else {
        Err(ProjectErrorView::InvalidInputError)
    }
}

/// What a confirmation answer means, as typed.
pub open spec fn answer_of(a: Seq<char>) -> Result<bool, ProjectErrorView> {
    confirmation_of(lower_of(trimmed(a)))
}

pub open spec fn reset() -> WorkspaceView {
    WorkspaceView { users: Map::empty(), stocks: Map::empty(), state: logged_out() }
}

pub open spec fn create_user_spec(w: WorkspaceView, k: Seq<char>) -> Result<WorkspaceView, ProjectErrorView> {
    if w.users.contains_key(k) {
        Err(ProjectErrorView::HashMapInsertError(k))
    } else {
        Ok(WorkspaceView { users: w.users.insert(k, default_user(k)), ..w })
    }
}

pub open spec fn create_stock_spec(w: WorkspaceView, k: Seq<char>) -> Result<WorkspaceView, ProjectErrorView> {
    if w.stocks.contains_key(k) {
        Err(ProjectErrorView::HashMapInsertError(k))
    } else {
        Ok(WorkspaceView { stocks: w.stocks.insert(k, default_stock(k)), ..w })
    }
}

/// Deleting a user: the key must exist; then the answer decides.
pub open spec fn delete_user_spec(w: WorkspaceView, k: Seq<char>, answer: Result<bool, ProjectErrorView>)
    -> Result<WorkspaceView, ProjectErrorView>
{
    if !w.users.contains_key(k) {
        Err(ProjectErrorView::HashMapKeyNotFoundError(k))
    } else {
        match answer {
            Ok(true) => Ok(WorkspaceView { users: w.users.remove(k), ..w }),
            Ok(false) => Ok(w),
            Err(e) => Err(e),
        }
    }
}

pub open spec fn delete_stock_spec(w: WorkspaceView, k: Seq<char>, answer: Result<bool, ProjectErrorView>)
    -> Result<WorkspaceView, ProjectErrorView>
{
    if !w.stocks.contains_key(k) {
        Err(ProjectErrorView::HashMapKeyNotFoundError(k))
    } else {
        match answer {
            Ok(true) => Ok(WorkspaceView { stocks: w.stocks.remove(k), ..w }),
            Ok(false) => Ok(w),
            Err(e) => Err(e),
        }
    }
}

pub open spec fn error_view<T>(r: Result<T, ProjectError>) -> Result<T, ProjectErrorView> {
    match r {
        Ok(v) => Ok(v),
        Err(e) => Err(e@),
    }
}

/// Editing a user: setting the username moves the record to the new key (which
/// must be free) and follows the session if that user is logged in.
pub open spec fn edit_user_spec(w: WorkspaceView, k: Seq<char>, p: Result<user::Property, ProjectErrorView>, t: Seq<char>)
    -> Result<WorkspaceView, ProjectErrorView>
{
    if !w.users.contains_key(k) {
        Err(ProjectErrorView::HashMapKeyNotFoundError(k))
    } else {
        match p {
            Err(e) => Err(e),
            Ok(p) => {
                let u = user_with(w.users[k], p, t);
                if p == user::Property::Username {
                    if t != k && w.users.contains_key(t) {
                        Err(ProjectErrorView::HashMapInsertError(t))
                    } else {
                        Ok(WorkspaceView {
                            users: w.users.remove(k).insert(t, u),
                            state: if w.state.current_user == Some(k) { logged_in_as(t) } else { w.state },
                            ..w
                        })
                    }
                } else {
                    Ok(WorkspaceView { users: w.users.insert(k, u), ..w })
                }
            },
        }
    }
}

/// Editing a stock: setting the ticker moves the record to the new key (which
/// must be free); a value must come with its number.
pub open spec fn edit_stock_spec(
    w: WorkspaceView,
    k: Seq<char>,
    p: Result<stock::Property, ProjectErrorView>,
    t: Seq<char>,
    number: Option<u64>,
) -> Result<WorkspaceView, ProjectErrorView> {
    if !w.stocks.contains_key(k) {
        Err(ProjectErrorView::HashMapKeyNotFoundError(k))
    } else {
        match p {
            Err(e) => Err(e),
            Ok(p) => match stock_with(w.stocks[k], p, t, number) {
                Err(e) => Err(e@),
                Ok(s) => if p == stock::Property::Ticker {
                    if t != k && w.stocks.contains_key(t) {
                        Err(ProjectErrorView::HashMapInsertError(t))
                    } else {
                        Ok(WorkspaceView { stocks: w.stocks.remove(k).insert(t, s), ..w })
                    }
                } else {
                    Ok(WorkspaceView { stocks: w.stocks.insert(k, s), ..w })
                },
            },
        }
    }
}

pub open spec fn login_spec(w: WorkspaceView, k: Seq<char>) -> Result<WorkspaceView, ProjectErrorView> {
    if w.users.contains_key(k) {
        Ok(WorkspaceView { state: logged_in_as(k), ..w })
    } else {
        Err(ProjectErrorView::StateInvalidUserError(k))
    }
}

/// Buying: a session, the stock, the session's user and a quantity are needed,
/// in that order; then the purchase goes into the user's portfolio. A negative
/// or zero quantity is an `InvalidInputError`; text that is no integer, or too
/// large a number, is a `ParseError`.
pub open spec fn buy_stock_spec(w: WorkspaceView, ticker: Seq<char>, qt: Seq<char>) -> Result<WorkspaceView, ProjectErrorView> {
    match w.state.current_user {
        None => Err(ProjectErrorView::StateNoUserError),
        Some(u) => if !w.stocks.contains_key(ticker) {
            Err(ProjectErrorView::HashMapKeyNotFoundError(ticker))
        } else if !w.users.contains_key(u) {
            Err(ProjectErrorView::HashMapKeyNotFoundError(u))
        } else {
            match u32_of(qt) {
                None => if negative_integer(qt) {
                    Err(ProjectErrorView::InvalidInputError)
                } else {
                    Err(ProjectErrorView::ParseError)
                },
                Some(q) => match portfolio_after(w.users[u].portfolio, w.stocks[ticker], q) {
                    Err(e) => Err(e@),
                    Ok(m) => Ok(WorkspaceView {
                        users: w.users.insert(u, UserView { portfolio: Some(m), ..w.users[u] }),
                        ..w
                    }),
                },
            }
        },
    }
}

/// Reading the portfolio needs a session whose user exists.
pub open spec fn portfolio_spec(w: WorkspaceView) -> Result<WorkspaceView, ProjectErrorView> {
    match w.state.current_user {
        None => Err(ProjectErrorView::StateNoUserError),
        Some(u) => if !w.users.contains_key(u) {
            Err(ProjectErrorView::HashMapKeyNotFoundError(u))
        } else {
            Ok(w)
        },
    }
}

/// The effect of running command `c` with arguments `a` on `w`; `answer` is
/// the confirmation given for a deletion and `number` the third argument read
/// as a number.
pub open spec fn run_spec(
    c: Command,
    a: Seq<Seq<char>>,
    w: WorkspaceView,
    answer: Result<bool, ProjectErrorView>,
    number: Option<u64>,
) -> Result<WorkspaceView, ProjectErrorView> {
    if a.len() < arg_count(c) {
        Err(ProjectErrorView::ConfigArgumentsError(name_of(c)))
    } else {
        match c {
            Command::Init => Ok(reset()),
            Command::Console => Ok(w),
            Command::Exit => Err(ProjectErrorView::CommandInvalidError),
            Command::StateC(StateCommand::Login) => login_spec(w, a[0]),
            Command::StateC(StateCommand::Logout) => Ok(WorkspaceView { state: logged_out(), ..w }),
            Command::UserC(UserCommand::Create) => create_user_spec(w, a[0]),
            Command::UserC(UserCommand::Delete) => delete_user_spec(w, a[0], answer),
            Command::UserC(UserCommand::Edit) =>
                edit_user_spec(w, a[0], error_view(user::property_result(lower_of(a[1]))), a[2]),
            Command::UserC(UserCommand::List) => Ok(w),
            Command::StockC(StockCommand::Create) => create_stock_spec(w, a[0]),
            Command::StockC(StockCommand::Delete) => delete_stock_spec(w, a[0], answer),
            Command::StockC(StockCommand::Edit) =>
                edit_stock_spec(w, a[0], error_view(stock::property_result(lower_of(a[1]))), a[2], number),
            Command::StockC(StockCommand::List) => Ok(w),
            Command::PortfolioC(PortfolioCommand::Buy) => buy_stock_spec(w, a[0], a[1]),
            Command::PortfolioC(PortfolioCommand::List) => portfolio_spec(w),
        }
    }
}

/// What a successful command reports.
#[derive(Debug)]
pub enum Outcome {
    /// The stores were emptied and the session cleared.
    Initialized,
    /// Console mode was asked for.
    Console,
    LoggedIn(String),
    LoggedOut,
    /// A record was created under this key.
    Created(String),
    /// The record under this key was deleted.
    Deleted(String),
    /// Deletion of the record under this key was declined.
    Kept(String),
    /// The record now under this key was edited.
    Edited(String),
    /// The keys of the store listed, in sorted order.
    Listed(Vec<String>),
    /// The user now holds this many shares of the ticker.
    Bought(String, u32),
    /// The user's holdings, by ticker in sorted order.
    Holdings(String, Vec<(String, u32)>),
}

/// The result of an operation, as checked against its specification: on
/// success the workspace is `w`, on failure it is unchanged and the error is `e`.
pub open spec fn follows<T>(r: Result<T, ProjectError>, spec: Result<WorkspaceView, ProjectErrorView>, before: WorkspaceView, after: WorkspaceView) -> bool {
    match spec {
        Ok(w) => r is Ok && after == w,
        Err(e) => (r matches Err(x) && x@ == e) && after == before,
    }
}

/// Reads a confirmation answer: trimmed, then compared ignoring case.
pub fn confirmation(answer: &str) -> (r: Result<bool, ProjectError>)
    ensures
        error_view(r) == answer_of(answer@),
{
    let t = lowercase(trim(answer));
    confirmation_from_lowercase(t.as_str())
}

/// Reads a confirmation answer that is already trimmed and in lowercase.
pub fn confirmation_from_lowercase(t: &str) -> (r: Result<bool, ProjectError>)
    ensures
        error_view(r) == confirmation_of(t@),
{
    if text_eq(t, "y") || text_eq(t, "yes") {
        Ok(true)
    } else if text_eq(t, "q") || text_eq(t, "quit") || text_eq(t, "n") || text_eq(t, "no") {
        Ok(false)
    } else {
        Err(ProjectError::InvalidInputError)
    }
}

/// Empties both stores and logs out.
pub fn init(ws: &mut Workspace)
    ensures
        final(ws)@ == reset(),
{
    ws.users = Store::new();
    ws.stocks = Store::new();
    ws.state.clear_user();
}

/// Creates a user with placeholder names under `username`; a taken username
/// is a `HashMapInsertError`.
pub fn create_user(ws: &mut Workspace, username: &str) -> (r: Result<(), ProjectError>)
    ensures
        follows(r, create_user_spec(old(ws)@, username@), old(ws)@, final(ws)@),
{
    if ws.users.contains_key(username) {
        return Err(ProjectError::HashMapInsertError(username.to_string()));
    }
    let mut u = match User::new() {
        Ok(u) => u,
        Err(_) => return Err(ProjectError::UserNewError),
    };
    u.username = username.to_string();
    ws.users.try_insert(username.to_string(), u);
    Ok(())
}

/// Creates a stock with placeholder name and value under `ticker`; a taken
/// ticker is a `HashMapInsertError`.
pub fn create_stock(ws: &mut Workspace, ticker: &str) -> (r: Result<(), ProjectError>)
    ensures
        follows(r, create_stock_spec(old(ws)@, ticker@), old(ws)@, final(ws)@),
{
    if ws.stocks.contains_key(ticker) {
        return Err(ProjectError::HashMapInsertError(ticker.to_string()));
    }
    let s = match Stock::new_from_ticker(ticker) {
        Ok(s) => s,
        Err(_) => return Err(ProjectError::StockNewError),
    };
    ws.stocks.try_insert(ticker.to_string(), s);
    Ok(())
}

/// Deletes the user `username` if `answer` confirms it.
pub fn delete_user(ws: &mut Workspace, username: &str, answer: &str) -> (r: Result<bool, ProjectError>)
    ensures
        follows(r, delete_user_spec(old(ws)@, username@, answer_of(answer@)), old(ws)@, final(ws)@),
        r is Ok ==> error_view(r) == answer_of(answer@),
{
    if !ws.users.contains_key(username) {
        return Err(ProjectError::HashMapKeyNotFoundError(username.to_string()));
    }
    match confirmation(answer) {
        Ok(true) => match ws.users.remove(username) {
            Some(_) => Ok(true),
            None => Err(ProjectError::HashMapRemoveError(username.to_string())),
        },
        Ok(false) => Ok(false),
        Err(e) => Err(e),
    }
}

/// Deletes the stock `ticker` if `answer` confirms it.
pub fn delete_stock(ws: &mut Workspace, ticker: &str, answer: &str) -> (r: Result<bool, ProjectError>)
    ensures
        follows(r, delete_stock_spec(old(ws)@, ticker@, answer_of(answer@)), old(ws)@, final(ws)@),
        r is Ok ==> error_view(r) == answer_of(answer@),
{
    if !ws.stocks.contains_key(ticker) {
        return Err(ProjectError::HashMapKeyNotFoundError(ticker.to_string()));
    }
    match confirmation(answer) {
        Ok(true) => match ws.stocks.remove(ticker) {
            Some(_) => Ok(true),
            None => Err(ProjectError::HashMapRemoveError(ticker.to_string())),
        },
        Ok(false) => Ok(false),
        Err(e) => Err(e),
    }
}

/// Sets property `property` of user `username` to `text`. A new username
/// moves the record to that key, refused with a `HashMapInsertError` when
/// another user holds it, and the session follows the rename.
pub fn edit_user(ws: &mut Workspace, username: &str, property: &str, text: &str) -> (r: Result<(), ProjectError>)
    ensures
        follows(r, edit_user_spec(old(ws)@, username@, error_view(user::property_result(lower_of(property@))), text@),
            old(ws)@, final(ws)@),
{
    if !ws.users.contains_key(username) {
        return Err(ProjectError::HashMapKeyNotFoundError(username.to_string()));
    }
    let p = match User::get_property(property) {
        Ok(p) => p,
        Err(e) => return Err(e),
    };
    let renames = p == user::Property::Username;
    if renames && !text_eq(text, username) && ws.users.contains_key(text) {
        return Err(ProjectError::HashMapInsertError(text.to_string()));
    }
    let ghost w0 = ws@;
    let mut u = match ws.users.remove(username) {
        Some(u) => u,
        None => return Err(ProjectError::HashMapRemoveError(username.to_string())),
    };
    u.set_property(p, text);
    if renames {
        ws.users.try_insert(text.to_string(), u);
        let follows_rename = match &ws.state.current_user {
            Some(c) => text_eq(c.as_str(), username),
            None => false,
        };
        if follows_rename {
            ws.state.set_user(text);
        }
    } else {
        ws.users.try_insert(username.to_string(), u);
        proof {
            assert(ws.users@ =~= w0.users.insert(username@, u@));
        }
    }
    Ok(())
}

/// Sets property `property` of stock `ticker` to `text`; `number` is `text`
/// read as a number, needed when the value is set. A new ticker moves the
/// record to that key, refused with a `HashMapInsertError` when taken.
pub fn edit_stock(ws: &mut Workspace, ticker: &str, property: &str, text: &str, number: Option<u64>)
    -> (r: Result<(), ProjectError>)
    ensures
        follows(r, edit_stock_spec(old(ws)@, ticker@, error_view(stock::property_result(lower_of(property@))), text@, number),
            old(ws)@, final(ws)@),
{
    if !ws.stocks.contains_key(ticker) {
        return Err(ProjectError::HashMapKeyNotFoundError(ticker.to_string()));
    }
    let p = match Stock::get_property(property) {
        Ok(p) => p,
        Err(e) => return Err(e),
    };
    if p == stock::Property::Value && number.is_none() {
        return Err(ProjectError::ParseError);
    }
    let renames = p == stock::Property::Ticker;
    if renames && !text_eq(text, ticker) && ws.stocks.contains_key(text) {
        return Err(ProjectError::HashMapInsertError(text.to_string()));
    }
    let ghost w0 = ws@;
    let mut s = match ws.stocks.remove(ticker) {
        Some(s) => s,
        None => return Err(ProjectError::HashMapRemoveError(ticker.to_string())),
    };
    let _ = s.set_property(p, text, number);
    if renames {
        ws.stocks.try_insert(text.to_string(), s);
    } else {
        ws.stocks.try_insert(ticker.to_string(), s);
        proof {
            assert(ws.stocks@ =~= w0.stocks.insert(ticker@, s@));
        }
    }
    Ok(())
}

/// Logs `username` in; a user the store does not hold is a `StateInvalidUserError`.
pub fn login(ws: &mut Workspace, username: &str) -> (r: Result<(), ProjectError>)
    ensures
        follows(r, login_spec(old(ws)@, username@), old(ws)@, final(ws)@),
{
    ws.state.try_set_user(username, &ws.users)
}

/// Logs out.
pub fn logout(ws: &mut Workspace)
    ensures
        final(ws)@ == (WorkspaceView { state: logged_out(), ..old(ws)@ }),
{
    ws.state.clear_user();
}

/// The logged-in user's name, or a `StateNoUserError`.
fn session_user(ws: &Workspace) -> (r: Result<String, ProjectError>)
    ensures
        match ws@.state.current_user {
            Some(u) => r matches Ok(s) && s@ == u,
            None => r matches Err(e) && e@ == ProjectErrorView::StateNoUserError,
        },
{
    match &ws.state.current_user {
        Some(u) => Ok(u.clone()),
        None => Err(ProjectError::StateNoUserError),
    }
}

/// Buys `quantity` (decimal text) shares of `ticker` for the logged-in user,
/// and returns how many shares of it the user now holds.
pub fn buy_stock(ws: &mut Workspace, ticker: &str, quantity: &str) -> (r: Result<u32, ProjectError>)
    ensures
        follows(r, buy_stock_spec(old(ws)@, ticker@, quantity@), old(ws)@, final(ws)@),
        r matches Ok(n) ==> final(ws)@.users[old(ws)@.state.current_user->0].portfolio matches Some(m)
            && m[old(ws)@.stocks[ticker@].ticker].quantity == n,
{
    let username = match session_user(ws) {
        Ok(u) => u,
        Err(e) => return Err(e),
    };
    let stock = match ws.stocks.get(ticker) {
        Some(s) => s.copy(),
        None => return Err(ProjectError::HashMapKeyNotFoundError(ticker.to_string())),
    };
    if !ws.users.contains_key(username.as_str()) {
        return Err(ProjectError::HashMapKeyNotFoundError(username));
    }
    let qt = match parse_u32(quantity) {
        Some(q) => q,
        None => {
            if is_negative_integer(quantity) {
                return Err(ProjectError::InvalidInputError);
            }
            return Err(ProjectError::ParseError);
        },
    };
    let ghost w0 = ws@;
    let mut u = match ws.users.remove(username.as_str()) {
        Some(u) => u,
        None => return Err(ProjectError::HashMapKeyNotFoundError(username)),
    };
    let r = u.add_stock(&stock, qt);
    let held = match &u.portfolio {
        Some(p) => match p.get(stock.ticker.as_str()) {
            Some(unit) => unit.quantity,
            None => 0,
        },
        None => 0,
    };
    let ghost uv = u@;
    ws.users.try_insert(username, u);
    proof {
        if r is Err {
            assert(ws.users@ =~= w0.users);
        } else {
            assert(ws.users@ =~= w0.users.insert(w0.state.current_user->0, uv));
        }
    }
    match r {
        Ok(()) => Ok(held),
        Err(e) => Err(e),
    }
}

/// The keys of the user store, sorted.
pub fn list_users(ws: &Workspace) -> (r: Vec<String>)
    ensures
        sorted_keys(key_views(r@)),
        r@.len() == ws@.users.dom().len(),
        forall|k: Seq<char>| #[trigger] ws@.users.contains_key(k) <==> key_views(r@).contains(k),
{
    ws.users.sorted_keys()
}

/// The keys of the stock store, sorted.
pub fn list_stocks(ws: &Workspace) -> (r: Vec<String>)
    ensures
        sorted_keys(key_views(r@)),
        r@.len() == ws@.stocks.dom().len(),
        forall|k: Seq<char>| #[trigger] ws@.stocks.contains_key(k) <==> key_views(r@).contains(k),
{
    ws.stocks.sorted_keys()
}

/// The tickers of a list of holdings.
pub open spec fn holding_keys(h: Seq<(String, u32)>) -> Seq<Seq<char>> {
    h.map_values(|e: (String, u32)| e.0@)
}

/// A user's holdings, none before the first purchase.
pub open spec fn holdings_of(u: UserView) -> Map<Seq<char>, stock::StockUnitView> {
    match u.portfolio {
        Some(m) => m,
        None => Map::empty(),
    }
}

/// `h` lists the holdings `m`: every ticker once, in sorted order, with its
/// number of shares.
pub open spec fn lists_holdings(m: Map<Seq<char>, stock::StockUnitView>, h: Seq<(String, u32)>) -> bool {
    &&& sorted_keys(holding_keys(h))
    &&& h.len() == m.dom().len()
    &&& forall|i: int| 0 <= i < h.len() ==> #[trigger] m.contains_key(h[i].0@) && m[h[i].0@].quantity == h[i].1
    &&& forall|k: Seq<char>| #[trigger] m.contains_key(k) ==> exists|i: int| 0 <= i < h.len() && h[i].0@ == k
}

/// The logged-in user's name and holdings: each ticker, in sorted order, with
/// the number of shares held.
pub fn list_portfolio(ws: &Workspace) -> (r: Result<(String, Vec<(String, u32)>), ProjectError>)
    ensures
        follows(r, portfolio_spec(ws@), ws@, ws@),
        r matches Ok((name, h)) ==> ws@.state.current_user == Some(name@)
            && lists_holdings(holdings_of(ws@.users[name@]), h@),
{
    let username = match session_user(ws) {
        Ok(u) => u,
        Err(e) => return Err(e),
    };
    let u = match ws.users.get(username.as_str()) {
        Some(u) => u,
        None => return Err(ProjectError::HashMapKeyNotFoundError(username)),
    };
    let mut out: Vec<(String, u32)> = Vec::new();
    match &u.portfolio {
        None => {
            assert(Map::<Seq<char>, stock::StockUnitView>::empty().dom() =~= Set::empty());
            assert(holding_keys(out@) =~= Seq::<Seq<char>>::empty());
        },
        Some(p) => {
            let keys = p.sorted_keys();
            let mut i: usize = 0;
            while i < keys.len()
                invariant
                    i <= keys@.len(),
                    out@.len() == i,
                    forall|j: int| 0 <= j < i ==> (#[trigger] out@[j]).0@ == keys@[j]@
                        && p@.contains_key(keys@[j]@) && p@[keys@[j]@].quantity == out@[j].1,
                    forall|k: Seq<char>| #[trigger] p@.contains_key(k) <==> key_views(keys@).contains(k),
                decreases keys@.len() - i,
            {
                assert(key_views(keys@)[i as int] == keys@[i as int]@);
                let q = match p.get(keys[i].as_str()) {
                    Some(unit) => unit.quantity,
                    None => 0,
                };
                out.push((keys[i].clone(), q));
                i = i + 1;
            }
            proof {
                assert(holding_keys(out@) =~= key_views(keys@));
                assert forall|k: Seq<char>| #[trigger] p@.contains_key(k) implies
                    exists|i: int| 0 <= i < out@.len() && out@[i].0@ == k by {
                    assert(key_views(keys@).contains(k));
                    let i = choose|i: int| 0 <= i < keys@.len() && key_views(keys@)[i] == k;
                    assert(out@[i].0@ == k);
                }
            }
        },
    }
    assert(lists_holdings(holdings_of(ws@.users[username@]), out@));
    Ok((username, out))
}

/// Which of the three files a command reads, or writes back after success.
#[derive(Debug, Clone, Copy, PartialEq, Eq, Structural)]
pub struct Files {
    pub users: bool,
    pub stocks: bool,
    pub state: bool,
}

pub open spec fn loads_of(c: Command) -> Files {
    match c {
        Command::Init | Command::Console | Command::Exit => Files { users: false, stocks: false, state: false },
        Command::StateC(StateCommand::Login) => Files { users: true, stocks: false, state: true },
        Command::StateC(StateCommand::Logout) => Files { users: false, stocks: false, state: true },
        Command::UserC(UserCommand::Edit) => Files { users: true, stocks: false, state: true },
        Command::UserC(_) => Files { users: true, stocks: false, state: false },
        Command::StockC(_) => Files { users: false, stocks: true, state: false },
        Command::PortfolioC(PortfolioCommand::Buy) => Files { users: true, stocks: true, state: true },
        Command::PortfolioC(PortfolioCommand::List) => Files { users: true, stocks: false, state: true },
    }
}

pub open spec fn saves_of(c: Command) -> Files {
    match c {
        Command::Init => Files { users: true, stocks: true, state: true },
        Command::Console | Command::Exit => Files { users: false, stocks: false, state: false },
        Command::StateC(_) => Files { users: false, stocks: false, state: true },
        Command::UserC(UserCommand::Edit) => Files { users: true, stocks: false, state: true },
        Command::UserC(UserCommand::List) => Files { users: false, stocks: false, state: false },
        Command::UserC(_) => Files { users: true, stocks: false, state: false },
        Command::StockC(StockCommand::List) => Files { users: false, stocks: false, state: false },
        Command::StockC(_) => Files { users: false, stocks: true, state: false },
        Command::PortfolioC(PortfolioCommand::Buy) => Files { users: true, stocks: false, state: false },
        Command::PortfolioC(PortfolioCommand::List) => Files { users: false, stocks: false, state: false },
    }
}

/// The files that `c` reads.
pub fn loads(c: Command) -> (r: Files)
    ensures
        r == loads_of(c),
{
    match c {
        Command::Init | Command::Console | Command::Exit => Files { users: false, stocks: false, state: false },
        Command::StateC(StateCommand::Login) => Files { users: true, stocks: false, state: true },
        Command::StateC(StateCommand::Logout) => Files { users: false, stocks: false, state: true },
        Command::UserC(UserCommand::Edit) => Files { users: true, stocks: false, state: true },
        Command::UserC(_) => Files { users: true, stocks: false, state: false },
        Command::StockC(_) => Files { users: false, stocks: true, state: false },
        Command::PortfolioC(PortfolioCommand::Buy) => Files { users: true, stocks: true, state: true },
        Command::PortfolioC(PortfolioCommand::List) => Files { users: true, stocks: false, state: true },
    }
}

/// The files that `c` may change, to be written back after it succeeds.
pub fn saves(c: Command) -> (r: Files)
    ensures
        r == saves_of(c),
{
    match c {
        Command::Init => Files { users: true, stocks: true, state: true },
        Command::Console | Command::Exit => Files { users: false, stocks: false, state: false },
        Command::StateC(_) => Files { users: false, stocks: false, state: true },
        Command::UserC(UserCommand::Edit) => Files { users: true, stocks: false, state: true },
        Command::UserC(UserCommand::List) => Files { users: false, stocks: false, state: false },
        Command::UserC(_) => Files { users: true, stocks: false, state: false },
        Command::StockC(StockCommand::List) => Files { users: false, stocks: false, state: false },
        Command::StockC(_) => Files { users: false, stocks: true, state: false },
        Command::PortfolioC(PortfolioCommand::Buy) => Files { users: true, stocks: false, state: false },
        Command::PortfolioC(PortfolioCommand::List) => Files { users: false, stocks: false, state: false },
    }
}

/// Whether `config` asks to delete a record that exists, so that a
/// confirmation must be asked for before running it.
pub fn needs_confirmation(config: &Config, ws: &Workspace) -> (r: bool)
    ensures
        r == (config.remainder@.len() >= 1 && match config.command {
            Command::UserC(UserCommand::Delete) => ws@.users.contains_key(config.remainder@[0]@),
            Command::StockC(StockCommand::Delete) => ws@.stocks.contains_key(config.remainder@[0]@),
            _ => false,
        }),
{
    if config.remainder.len() < 1 {
        return false;
    }
    match config.command {
        Command::UserC(UserCommand::Delete) => ws.users.contains_key(config.remainder[0].as_str()),
        Command::StockC(StockCommand::Delete) => ws.stocks.contains_key(config.remainder[0].as_str()),
        _ => false,
    }
}

/// What console mode does with a command it has read.
#[derive(Debug, Clone, Copy, PartialEq, Eq, Structural)]
pub enum ConsoleAction {
    /// Leave console mode.
    Leave,
    /// Console mode is already running; say so and go on.
    AlreadyActive,
    /// Run the command.
    Dispatch,
}

pub open spec fn console_action_of(c: Command) -> ConsoleAction {
    match c {
        Command::Exit => ConsoleAction::Leave,
        Command::Console => ConsoleAction::AlreadyActive,
        _ => ConsoleAction::Dispatch,
    }
}

/// What console mode does with command `c`.
pub fn console_action(c: Command) -> (r: ConsoleAction)
    ensures
        r == console_action_of(c),
{
    match c {
        Command::Exit => ConsoleAction::Leave,
        Command::Console => ConsoleAction::AlreadyActive,
        _ => ConsoleAction::Dispatch,
    }
}

/// The outcome that command `c` with arguments `a` reports when it succeeds on
/// `before`, leaving `after`.
pub open spec fn outcome_fits(
    c: Command,
    a: Seq<Seq<char>>,
    before: WorkspaceView,
    after: WorkspaceView,
    answer: Result<bool, ProjectErrorView>,
    o: Outcome,
) -> bool {
    match c {
        Command::Init => o is Initialized,
        Command::Console => o is Console,
        Command::Exit => false,
        Command::StateC(StateCommand::Login) => o matches Outcome::LoggedIn(k) && k@ == a[0],
        Command::StateC(StateCommand::Logout) => o is LoggedOut,
        Command::UserC(UserCommand::Create) | Command::StockC(StockCommand::Create) =>
            o matches Outcome::Created(k) && k@ == a[0],
        Command::UserC(UserCommand::Delete) | Command::StockC(StockCommand::Delete) =>
            if answer == Ok::<bool, ProjectErrorView>(true) {
                o matches Outcome::Deleted(k) && k@ == a[0]
            } else {
                o matches Outcome::Kept(k) && k@ == a[0]
            },
        Command::UserC(UserCommand::Edit) | Command::StockC(StockCommand::Edit) =>
            o matches Outcome::Edited(k) && k@ == a[0],
        Command::UserC(UserCommand::List) => o matches Outcome::Listed(v) && lists_keys(before.users.dom(), v@),
        Command::StockC(StockCommand::List) => o matches Outcome::Listed(v) && lists_keys(before.stocks.dom(), v@),
        Command::PortfolioC(PortfolioCommand::Buy) => o matches Outcome::Bought(t, n) && t@ == a[0]
            && holdings_of(after.users[before.state.current_user->0])[before.stocks[a[0]].ticker].quantity == n,
        Command::PortfolioC(PortfolioCommand::List) => o matches Outcome::Holdings(name, h)
            && before.state.current_user == Some(name@) && lists_holdings(holdings_of(before.users[name@]), h@),
    }
}

/// `v` lists the keys `d`: each once, in sorted order.
pub open spec fn lists_keys(d: Set<Seq<char>>, v: Seq<String>) -> bool {
    &&& sorted_keys(key_views(v))
    &&& v.len() == d.len()
    &&& forall|k: Seq<char>| #[trigger] d.contains(k) <==> key_views(v).contains(k)
}

/// Runs a bound command on the workspace. `answer` is the confirmation given
/// for a deletion; `number` is the third argument read as a number, when it
/// is one (used when a stock's value is set). On failure the workspace is
/// unchanged; on success only what `saves` names may have changed.
pub fn run(config: &Config, ws: &mut Workspace, answer: &str, number: Option<u64>) -> (r: Result<Outcome, ProjectError>)
    ensures
        follows(r, run_spec(config.command, key_views(config.remainder@), old(ws)@, answer_of(answer@), number),
            old(ws)@, final(ws)@),
        r matches Ok(o) ==> outcome_fits(config.command, key_views(config.remainder@), old(ws)@, final(ws)@,
            answer_of(answer@), o),
        !saves_of(config.command).users ==> final(ws)@.users == old(ws)@.users,
        !saves_of(config.command).stocks ==> final(ws)@.stocks == old(ws)@.stocks,
        !saves_of(config.command).state ==> final(ws)@.state == old(ws)@.state,
{
    let c = config.command;
    let a = &config.remainder;
    if a.len() < c.num_args() as usize {
        return Err(ProjectError::ConfigArgumentsError(c.name()));
    }
    proof {
        assert(forall|i: int| 0 <= i < a@.len() ==> #[trigger] key_views(a@)[i] == a@[i]@);
    }
    match c {
        Command::Init => {
            init(ws);
            Ok(Outcome::Initialized)
        },
        Command::Console => Ok(Outcome::Console),
        Command::Exit => Err(ProjectError::CommandInvalidError),
        Command::StateC(StateCommand::Login) => match login(ws, a[0].as_str()) {
            Ok(()) => Ok(Outcome::LoggedIn(a[0].clone())),
            Err(e) => Err(e),
        },
        Command::StateC(StateCommand::Logout) => {
            logout(ws);
            Ok(Outcome::LoggedOut)
        },
        Command::UserC(UserCommand::Create) => match create_user(ws, a[0].as_str()) {
            Ok(()) => Ok(Outcome::Created(a[0].clone())),
            Err(e) => Err(e),
        },
        Command::UserC(UserCommand::Delete) => match delete_user(ws, a[0].as_str(), answer) {
            Ok(true) => Ok(Outcome::Deleted(a[0].clone())),
            Ok(false) => Ok(Outcome::Kept(a[0].clone())),
            Err(e) => Err(e),
        },
        Command::UserC(UserCommand::Edit) => match edit_user(ws, a[0].as_str(), a[1].as_str(), a[2].as_str()) {
            Ok(()) => Ok(Outcome::Edited(a[0].clone())),
            Err(e) => Err(e),
        },
        Command::UserC(UserCommand::List) => Ok(Outcome::Listed(list_users(ws))),
        Command::StockC(StockCommand::Create) => match create_stock(ws, a[0].as_str()) {
            Ok(()) => Ok(Outcome::Created(a[0].clone())),
            Err(e) => Err(e),
        },
        Command::StockC(StockCommand::Delete) => match delete_stock(ws, a[0].as_str(), answer) {
            Ok(true) => Ok(Outcome::Deleted(a[0].clone())),
            Ok(false) => Ok(Outcome::Kept(a[0].clone())),
            Err(e) => Err(e),
        },
        Command::StockC(StockCommand::Edit) => match edit_stock(ws, a[0].as_str(), a[1].as_str(), a[2].as_str(), number) {
            Ok(()) => Ok(Outcome::Edited(a[0].clone())),
            Err(e) => Err(e),
        },
        Command::StockC(StockCommand::List) => Ok(Outcome::Listed(list_stocks(ws))),
        Command::PortfolioC(PortfolioCommand::Buy) => match buy_stock(ws, a[0].as_str(), a[1].as_str()) {
            Ok(n) => Ok(Outcome::Bought(a[0].clone(), n)),
            Err(e) => Err(e),
        },
        Command::PortfolioC(PortfolioCommand::List) => match list_portfolio(ws) {
            Ok((name, h)) => Ok(Outcome::Holdings(name, h)),
            Err(e) => Err(e),
        },
    }
}

} // verus!
