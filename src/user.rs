//! Users and their portfolios.

use vstd::prelude::*;
use crate::error::ProjectError;
use crate::stock::{Stock, StockUnit, StockUnitView, StockView, added_quantity};
use crate::store::Store;
use crate::text::{join, lower_of, lowercase, text_eq};

verus! {

/// The editable properties of a `User`.
#[derive(Debug, Clone, Copy, PartialEq, Eq, Structural)]
pub enum Property {
    Username,
    FirstName,
    LastName,
    MiddleInitial,
}

/// A user and everything kept about them.
#[derive(Debug)]
pub struct User {
    /// The user's name in the tracker; also their key in the user store.
    pub username: String,
    pub first_name: String,
    pub last_name: String,
    pub middle_initial: String,
    /// Holdings by ticker; `None` until the first purchase.
    pub portfolio: Option<Store<StockUnit>>,
}

pub struct UserView {
    pub username: Seq<char>,
    pub first_name: Seq<char>,
    pub last_name: Seq<char>,
    pub middle_initial: Seq<char>,
    pub portfolio: Option<Map<Seq<char>, StockUnitView>>,
}

impl View for User {
    type V = UserView;

    open spec fn view(&self) -> UserView {
        UserView {
            username: self.username@,
            first_name: self.first_name@,
            last_name: self.last_name@,
            middle_initial: self.middle_initial@,
            portfolio: match self.portfolio {
                Some(p) => Some(p@),
                None => None,
            },
        }
    }
}

/// A user record with the given username and placeholder names.
pub open spec fn default_user(username: Seq<char>) -> UserView {
    UserView {
        username,
        first_name: "first_name"@,
        last_name: "last_name"@,
        middle_initial: "middle_initial"@,
        portfolio: None,
    }
}

/// The property that a lowercase property name selects.
pub open spec fn property_named(t: Seq<char>) -> Option<Property> {
    if t == "u"@ || t == "username"@ {
        Some(Property::Username)
    } else if t == "fn"@ || t == "first-name"@ || t == "firstname"@ {
        Some(Property::FirstName)
    } else if t == "ln"@ || t == "last-name"@ || t == "lastname"@ {
        Some(Property::LastName)
    } else if t == "mi"@ || t == "middle-initial"@ || t == "middleinitial"@ {
        Some(Property::MiddleInitial)
    } else {
        None
    }
}

pub open spec fn property_result(t: Seq<char>) -> Result<Property, ProjectError> {
    match property_named(t) {
        Some(p) => Ok(p),
        None => Err(ProjectError::InvalidInputError),
    }
}

/// The user after setting property `p` to `text`.
pub open spec fn user_with(u: UserView, p: Property, text: Seq<char>) -> UserView {
    match p {
        Property::Username => UserView { username: text, ..u },
        Property::FirstName => UserView { first_name: text, ..u },
        Property::LastName => UserView { last_name: text, ..u },
        Property::MiddleInitial => UserView { middle_initial: text, ..u },
    }
}

/// A fresh holding of `q` shares of `s`.
pub open spec fn new_unit(s: StockView, q: u32) -> StockUnitView {
    StockUnitView { stock: s, quantity: q }
}

/// The portfolio after buying `q` shares of `s`: a new holding under the
/// ticker, or the existing one with `q` more shares. Buying no shares, or more
/// than a holding can count, is an `InvalidInputError`.
pub open spec fn portfolio_after(p: Option<Map<Seq<char>, StockUnitView>>, s: StockView, q: u32)
    -> Result<Map<Seq<char>, StockUnitView>, ProjectError>
{
    let m = match p {
        Some(m) => m,
        None => Map::empty(),
    };
    if q == 0 {
        Err(ProjectError::InvalidInputError)
    } else if m.contains_key(s.ticker) {
        match added_quantity(m[s.ticker].quantity, q) {
            Ok(n) => Ok(m.insert(s.ticker, StockUnitView { quantity: n, ..m[s.ticker] })),
            Err(e) => Err(e),
        }
    } else {
        Ok(m.insert(s.ticker, new_unit(s, q)))
    }
}

/// The name shown for a user: first name, a space, last name.
pub open spec fn full_name_of(u: UserView) -> Seq<char> {
    u.first_name + " "@ + u.last_name
}

impl User {
    /// A user with placeholder fields and no portfolio.
    pub fn new() -> (r: Result<User, ProjectError>)
        ensures
            r matches Ok(u) && u@ == default_user("username"@),
    {
        Ok(User {
            username: "username".to_string(),
            first_name: "first_name".to_string(),
            last_name: "last_name".to_string(),
            middle_initial: "middle_initial".to_string(),
            portfolio: None,
        })
    }

    /// Resolves a property name, ignoring case.
    pub fn get_property(s: &str) -> (r: Result<Property, ProjectError>)
        ensures
            r == property_result(lower_of(s@)),
    {
        let t = lowercase(s);
        User::property_from_lowercase(t.as_str())
    }

    /// Resolves a property name that is already in lowercase.
    pub fn property_from_lowercase(t: &str) -> (r: Result<Property, ProjectError>)
        ensures
            r == property_result(t@),
    {
        if text_eq(t, "u") || text_eq(t, "username") {
            Ok(Property::Username)
        } else if text_eq(t, "fn") || text_eq(t, "first-name") || text_eq(t, "firstname") {
            Ok(Property::FirstName)
        } else if text_eq(t, "ln") || text_eq(t, "last-name") || text_eq(t, "lastname") {
            Ok(Property::LastName)
        } else if text_eq(t, "mi") || text_eq(t, "middle-initial") || text_eq(t, "middleinitial") {
            Ok(Property::MiddleInitial)
        } else {
            Err(ProjectError::InvalidInputError)
        }
    }

    /// Sets property `p` to `text`.
    pub fn set_property(&mut self, p: Property, text: &str)
        ensures
            final(self)@ == user_with(old(self)@, p, text@),
    {
        match p {
            Property::Username => self.username = text.to_string(),
            Property::FirstName => self.first_name = text.to_string(),
            Property::LastName => self.last_name = text.to_string(),
            Property::MiddleInitial => self.middle_initial = text.to_string(),
        }
    }

    /// The name shown for this user.
    pub fn full_name(&self) -> (r: String)
        ensures
            r@ == full_name_of(self@),
    {
        let head = join(self.first_name.as_str(), " ");
        join(head.as_str(), self.last_name.as_str())
    }

    /// Buys `qt` shares of `stock`: adds them to the holding under its ticker,
    /// or opens that holding with a copy of the stock.
    pub fn add_stock(&mut self, stock: &Stock, qt: u32) -> (r: Result<(), ProjectError>)
        ensures
            match portfolio_after(old(self)@.portfolio, stock@, qt) {
                Ok(m) => r is Ok && final(self)@ == (UserView { portfolio: Some(m), ..old(self)@ }),
                Err(e) => r == Err::<(), ProjectError>(e) && final(self)@ == old(self)@,
            },
    {
        if qt == 0 {
            return Err(ProjectError::InvalidInputError);
        }
        match &mut self.portfolio {
            Some(p) => {
                let ghost m = p@;
                match p.remove(stock.ticker.as_str()) {
                    Some(mut unit) => {
                        let r = unit.add_stock(qt);
                        p.try_insert(stock.ticker.clone(), unit);
                        proof {
                            if r is Err {
                                assert(p@ =~= m);
                            } else {
                                assert(p@ =~= m.insert(stock.ticker@, unit@));
                            }
                        }
                        r
                    },
                    None => {
                        let unit = StockUnit { stock: stock.copy(), quantity: qt };
                        p.try_insert(stock.ticker.clone(), unit);
                        proof {
                            assert(m.remove(stock.ticker@) =~= m);
                        }
                        Ok(())
                    },
                }
            },
            None => {
                let mut p: Store<StockUnit> = Store::new();
                let unit = StockUnit { stock: stock.copy(), quantity: qt };
                p.try_insert(stock.ticker.clone(), unit);
                self.portfolio = Some(p);
                Ok(())
            },
        }
    }
}

} // verus!
