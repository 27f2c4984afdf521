//! Properties that relate several operations, proved over their specifications.

use vstd::prelude::*;
use crate::command::{Command, PortfolioCommand};
use crate::error::ProjectErrorView;
use crate::ops::{
    WorkspaceView, buy_stock_spec, confirmation_of, create_user_spec, delete_user_spec, edit_user_spec,
    holdings_of, run_spec,
};
use crate::state::logged_in_as;
use crate::stock::StockUnitView;
use crate::text::u32_of;
use crate::user::{self, default_user, UserView};

verus! {

/// Creating a user makes the username a key of the user store, so a listing
/// of the store includes it; creating the same username again is refused with
/// a `HashMapInsertError` for it.
pub proof fn lemma_create_then_list(w: WorkspaceView, k: Seq<char>, listed: Seq<Seq<char>>)
    requires
        !w.users.contains_key(k),
    ensures
        create_user_spec(w, k) is Ok,
        create_user_spec(w, k)->Ok_0.users.contains_key(k),
        create_user_spec(w, k)->Ok_0.users[k] == default_user(k),
        (forall|x: Seq<char>| create_user_spec(w, k)->Ok_0.users.contains_key(x) <==> listed.contains(x))
            ==> listed.contains(k),
        create_user_spec(create_user_spec(w, k)->Ok_0, k) == Err::<WorkspaceView, ProjectErrorView>(
            ProjectErrorView::HashMapInsertError(k)),
{
}

/// Renaming a user to a free username moves the record: the old key is gone,
/// the new key holds the same record with the new username, and a session
/// logged in as the old name is logged in as the new one.
pub proof fn lemma_rename_user(w: WorkspaceView, k: Seq<char>, t: Seq<char>)
    requires
        w.users.contains_key(k),
        !w.users.contains_key(t),
    ensures
        edit_user_spec(w, k, Ok(user::Property::Username), t) is Ok,
        ({
            let w2 = edit_user_spec(w, k, Ok(user::Property::Username), t)->Ok_0;
            &&& !w2.users.contains_key(k)
            &&& w2.users.contains_key(t)
            &&& w2.users[t] == (UserView { username: t, ..w.users[k] })
            &&& w2.users.remove(t) == w.users.remove(k)
            &&& w.state.current_user == Some(k) ==> w2.state == logged_in_as(t)
            &&& w.state.current_user != Some(k) ==> w2.state == w.state
        }),
{
    let w2 = edit_user_spec(w, k, Ok(user::Property::Username), t)->Ok_0;
    assert(w2.users.remove(t) =~= w.users.remove(k));
}

/// The units of `ticker` held in portfolio `m`, zero when there are none.
pub open spec fn held(m: Map<Seq<char>, StockUnitView>, ticker: Seq<char>) -> int {
    if m.contains_key(ticker) {
        m[ticker].quantity as int
    } else {
        0
    }
}

/// Two purchases of the same stock by the logged-in user add up in one
/// holding: the portfolio gains at most the one ticker, and its quantity grows
/// by both amounts. A purchase of zero units is an `InvalidInputError`.
pub proof fn lemma_buy_accumulates(w: WorkspaceView, ticker: Seq<char>, qa: Seq<char>, qb: Seq<char>)
    requires
        w.state.current_user is Some,
        w.users.contains_key(w.state.current_user->0),
        w.stocks.contains_key(ticker),
        u32_of(qa) matches Some(a) && a > 0,
        u32_of(qb) matches Some(b) && b > 0,
        held(holdings_of(w.users[w.state.current_user->0]), w.stocks[ticker].ticker)
            + u32_of(qa)->0 + u32_of(qb)->0 <= u32::MAX,
    ensures
        buy_stock_spec(w, ticker, qa) is Ok,
        buy_stock_spec(buy_stock_spec(w, ticker, qa)->Ok_0, ticker, qb) is Ok,
        ({
            let u = w.state.current_user->0;
            let t = w.stocks[ticker].ticker;
            let m0 = holdings_of(w.users[u]);
            let w2 = buy_stock_spec(buy_stock_spec(w, ticker, qa)->Ok_0, ticker, qb)->Ok_0;
            let m2 = holdings_of(w2.users[u]);
            &&& m2.dom() == m0.dom().insert(t)
            &&& m2[t].quantity == held(m0, t) + u32_of(qa)->0 + u32_of(qb)->0
            &&& forall|x: Seq<char>| x != t && #[trigger] m0.contains_key(x) ==> m2[x] == m0[x]
        }),
{
    let u = w.state.current_user->0;
    let t = w.stocks[ticker].ticker;
    let m0 = holdings_of(w.users[u]);
    let w1 = buy_stock_spec(w, ticker, qa)->Ok_0;
    let m1 = holdings_of(w1.users[u]);
    assert(m1.dom() =~= m0.dom().insert(t));
    let w2 = buy_stock_spec(w1, ticker, qb)->Ok_0;
    let m2 = holdings_of(w2.users[u]);
    assert(m2.dom() =~= m1.dom().insert(t));
}

/// A purchase of zero units fails with an `InvalidInputError`.
pub proof fn lemma_buy_zero_refused(w: WorkspaceView, ticker: Seq<char>, q: Seq<char>)
    requires
        w.state.current_user is Some,
        w.users.contains_key(w.state.current_user->0),
        w.stocks.contains_key(ticker),
        u32_of(q) == Some(0u32),
    ensures
        buy_stock_spec(w, ticker, q) == Err::<WorkspaceView, ProjectErrorView>(ProjectErrorView::InvalidInputError),
{
}

/// Without a session, buying and listing the portfolio fail with a
/// `StateNoUserError` (and so change nothing).
pub proof fn lemma_session_guard(
    w: WorkspaceView,
    a: Seq<Seq<char>>,
    answer: Result<bool, ProjectErrorView>,
    number: Option<u64>,
)
    requires
        w.state.current_user is None,
        a.len() >= 2,
    ensures
        run_spec(Command::PortfolioC(PortfolioCommand::Buy), a, w, answer, number)
            == Err::<WorkspaceView, ProjectErrorView>(ProjectErrorView::StateNoUserError),
        run_spec(Command::PortfolioC(PortfolioCommand::List), a, w, answer, number)
            == Err::<WorkspaceView, ProjectErrorView>(ProjectErrorView::StateNoUserError),
{
}

/// Deleting an existing user: answering "no" keeps the store and succeeds,
/// "yes" removes the user, and an unrecognized answer such as "maybe" is an
/// `InvalidInputError`.
pub proof fn lemma_delete_confirmation(w: WorkspaceView, k: Seq<char>)
    requires
        w.users.contains_key(k),
    ensures
        delete_user_spec(w, k, confirmation_of("no"@)) == Ok::<WorkspaceView, ProjectErrorView>(w),
        delete_user_spec(w, k, confirmation_of("yes"@)) == Ok::<WorkspaceView, ProjectErrorView>(
            WorkspaceView { users: w.users.remove(k), ..w }),
        delete_user_spec(w, k, confirmation_of("maybe"@)) == Err::<WorkspaceView, ProjectErrorView>(
            ProjectErrorView::InvalidInputError),
{
    reveal_strlit("y");
    reveal_strlit("yes");
    reveal_strlit("q");
    reveal_strlit("quit");
    reveal_strlit("n");
    reveal_strlit("no");
    reveal_strlit("maybe");
    assert("no"@ != "y"@ && "no"@ != "yes"@ && "no"@ != "q"@ && "no"@ != "quit"@ && "no"@ != "n"@) by {
        assert("no"@.len() == 2 && "no"@[0] == 'n' && "no"@[1] == 'o');
        assert("yes"@.len() == 3 && "quit"@.len() == 4 && "y"@.len() == 1 && "q"@.len() == 1 && "n"@.len() == 1);
    }
    assert("maybe"@.len() == 5 && "yes"@.len() == 3 && "quit"@.len() == 4 && "no"@.len() == 2);
    assert("y"@.len() == 1 && "q"@.len() == 1 && "n"@.len() == 1);
}

} // verus!
