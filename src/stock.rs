//! Stocks, and units of a stock held in a portfolio.

use vstd::prelude::*;
use crate::error::ProjectError;
use crate::text::{lower_of, lowercase, text_eq};

verus! {

/// The editable properties of a `Stock`.
#[derive(Debug, Clone, Copy, PartialEq, Eq, Structural)]
pub enum Property {
    Ticker,
    CompanyName,
    Value,
}

/// One company's stock. The value of a share is kept as the bit pattern of a
/// double-precision number in US dollars; the library moves it and never computes with it.
#[derive(Debug, Clone)]
pub struct Stock {
    /// The company's ticker, such as FOO; also its key in the stock store.
    pub ticker: String,
    pub company_name: String,
    /// The bits of the share value (`0` is the value zero).
    pub value_bits: u64,
}

pub struct StockView {
    pub ticker: Seq<char>,
    pub company_name: Seq<char>,
    pub value_bits: u64,
}

impl View for Stock {
    type V = StockView;

    open spec fn view(&self) -> StockView {
        StockView { ticker: self.ticker@, company_name: self.company_name@, value_bits: self.value_bits }
    }
}

/// The property that a lowercase property name selects.
pub open spec fn property_named(t: Seq<char>) -> Option<Property> {
    if t == "t"@ || t == "ticker"@ {
        Some(Property::Ticker)
    } else if t == "cn"@ || t == "company-name"@ || t == "companyname"@ {
        Some(Property::CompanyName)
    } else if t == "v"@ || t == "value"@ {
        Some(Property::Value)
    } else {
        None
    }
}

pub open spec fn property_result(t: Seq<char>) -> Result<Property, ProjectError> {
    match property_named(t) {
        Some(p) => Ok(p),
        None => Err(ProjectError::InvalidInputError),
    }
}

/// A stock record with the given ticker and default name and value.
pub open spec fn default_stock(ticker: Seq<char>) -> StockView {
    StockView { ticker, company_name: "company_name"@, value_bits: 0 }
}

/// The outcome of setting a property to `text`; `number` is `text` read as a
/// number, when it is one.
pub open spec fn stock_with(s: StockView, p: Property, text: Seq<char>, number: Option<u64>)
    -> Result<StockView, ProjectError>
{
    match p {
        Property::Ticker => Ok(StockView { ticker: text, ..s }),
        Property::CompanyName => Ok(StockView { company_name: text, ..s }),
        Property::Value => match number {
            Some(b) => Ok(StockView { value_bits: b, ..s }),
            None => Err(ProjectError::ParseError),
        },
    }
}

impl Stock {
    /// A stock with the placeholder ticker "ticker".
    pub fn new() -> (r: Result<Stock, ProjectError>)
        ensures
            r matches Ok(s) && s@ == default_stock("ticker"@),
    {
        Ok(Stock { ticker: "ticker".to_string(), company_name: "company_name".to_string(), value_bits: 0 })
    }

    /// A stock with the given ticker and default name and value.
    pub fn new_from_ticker(ticker: &str) -> (r: Result<Stock, ProjectError>)
        ensures
            r matches Ok(s) && s@ == default_stock(ticker@),
    {
        Ok(Stock { ticker: ticker.to_string(), company_name: "company_name".to_string(), value_bits: 0 })
    }

    /// A copy of this stock.
    pub fn copy(&self) -> (r: Stock)
        ensures
            r@ == self@,
    {
        Stock { ticker: self.ticker.clone(), company_name: self.company_name.clone(), value_bits: self.value_bits }
    }

    /// Resolves a property name, ignoring case.
    pub fn get_property(s: &str) -> (r: Result<Property, ProjectError>)
        ensures
            r == property_result(lower_of(s@)),
    {
        let t = lowercase(s);
        Stock::property_from_lowercase(t.as_str())
    }

    /// Resolves a property name that is already in lowercase.
    pub fn property_from_lowercase(t: &str) -> (r: Result<Property, ProjectError>)
        ensures
            r == property_result(t@),
    {
        if text_eq(t, "t") || text_eq(t, "ticker") {
            Ok(Property::Ticker)
        } else if text_eq(t, "cn") || text_eq(t, "company-name") || text_eq(t, "companyname") {
            Ok(Property::CompanyName)
        } else if text_eq(t, "v") || text_eq(t, "value") {
            Ok(Property::Value)
        } else {
            Err(ProjectError::InvalidInputError)
        }
    }

    /// Sets property `p` to `text`; for the value, `number` is `text` read as a
    /// number, and its absence is a parse error that leaves the stock unchanged.
    pub fn set_property(&mut self, p: Property, text: &str, number: Option<u64>) -> (r: Result<(), ProjectError>)
        ensures
            match stock_with(old(self)@, p, text@, number) {
                Ok(s) => r is Ok && final(self)@ == s,
                Err(e) => r == Err::<(), ProjectError>(e) && final(self)@ == old(self)@,
            },
    {
        match p {
            Property::Ticker => {
                self.ticker = text.to_string();
                Ok(())
            },
            Property::CompanyName => {
                self.company_name = text.to_string();
                Ok(())
            },
            Property::Value => match number {
                Some(b) => {
                    self.value_bits = b;
                    Ok(())
                },
                None => Err(ProjectError::ParseError),
            },
        }
    }
}

/// A number of shares of one stock.
#[derive(Debug, Clone)]
pub struct StockUnit {
    /// The stock as it was when first bought.
    pub stock: Stock,
    pub quantity: u32,
}

pub struct StockUnitView {
    pub stock: StockView,
    pub quantity: u32,
}

impl View for StockUnit {
    type V = StockUnitView;

    open spec fn view(&self) -> StockUnitView {
        StockUnitView { stock: self.stock@, quantity: self.quantity }
    }
}

/// Adding `q` shares to a holding of `held`: refused when `q` is zero or the
/// total would not fit in a `u32`.
pub open spec fn added_quantity(held: u32, q: u32) -> Result<u32, ProjectError> {
    if q == 0 || held + q > u32::MAX {
        Err(ProjectError::InvalidInputError)
    } else {
        Ok((held + q) as u32)
    }
}

impl StockUnit {
    pub fn new(stock: Stock, quantity: u32) -> (r: Result<StockUnit, ProjectError>)
        ensures
            r matches Ok(u) && u@ == (StockUnitView { stock: stock@, quantity }),
    {
        Ok(StockUnit { stock, quantity })
    }

    /// Adds `quantity` shares; a zero quantity, or a total that does not fit,
    /// is an `InvalidInputError` and changes nothing.
    pub fn add_stock(&mut self, quantity: u32) -> (r: Result<(), ProjectError>)
        ensures
            match added_quantity(old(self).quantity, quantity) {
                Ok(n) => r is Ok && final(self)@ == (StockUnitView { quantity: n, ..old(self)@ }),
                Err(e) => r == Err::<(), ProjectError>(e) && final(self)@ == old(self)@,
            },
    {
        if quantity > 0 && quantity <= u32::MAX - self.quantity {
            self.quantity = self.quantity + quantity;
            Ok(())
        } else {
            Err(ProjectError::InvalidInputError)
        }
    }
}

} // verus!
