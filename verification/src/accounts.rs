//! Account identity and account detail records.
use vstd::prelude::*;
use crate::json::str_eq;

verus! {

/// A brokerage account number.
#[derive(Debug, Clone, PartialEq, Eq, PartialOrd, Ord)]
pub struct AccountNumber(pub String);

impl AccountNumber {
    pub fn from_str(s: &str) -> (r: AccountNumber)
        ensures
            r.0@ == s@,
    {
        AccountNumber(String::from_str(s))
    }
}

/// The standing details of one account.
#[derive(Debug, Clone)]
pub struct AccountDetails {
    pub account_number: AccountNumber,
    pub external_id: Option<String>,
    pub opened_at: String,
    pub nickname: String,
    pub account_type_name: String,
    pub day_trader_status: bool,
    pub is_firm_error: bool,
    pub is_firm_proprietary: bool,
    pub is_test_drive: bool,
    pub margin_or_cash: String,
    pub is_foreign: bool,
    pub funding_date: Option<String>,
}

/// One account together with the caller's authority over it.
#[derive(Debug, Clone)]
pub struct AccountInner {
    pub account: AccountDetails,
    pub authority_level: String,
}

/// The first account in `accounts` whose number is `number`, if any.
pub open spec fn account_index(accounts: Seq<AccountInner>, number: Seq<char>) -> Option<int>
    decreases accounts.len(),
{
    if accounts.len() == 0 {
        None
    } else if accounts[0].account.account_number.0@ == number {
        Some(0int)
    } else {
        match account_index(accounts.drop_first(), number) {
            Some(i) => Some(i + 1),
            None => None,
        }
    }
}

/// Finds the account with the given number, as the account listing endpoint
/// reports them.
pub fn select_account<'a>(accounts: &'a Vec<AccountInner>, number: &AccountNumber) -> (r: Option<
    &'a AccountInner,
>)
    ensures
        match r {
            Some(a) => {
                &&& account_index(accounts@, number.0@) matches Some(i)
                &&& 0 <= i < accounts@.len()
                &&& *a == accounts@[account_index(accounts@, number.0@)->Some_0]
            },
            None => account_index(accounts@, number.0@) is None,
        },
{
    proof {
        assert(accounts@.skip(0) =~= accounts@);
    }
    let mut i: usize = 0;
    while i < accounts.len()
        invariant
            i <= accounts@.len(),
            account_index(accounts@, number.0@) == match account_index(
                accounts@.skip(i as int),
                number.0@,
            ) {
                Some(k) => Some(k + i),
                None => None,
            },
        decreases accounts@.len() - i,
    {
        if str_eq(accounts[i].account.account_number.0.as_str(), number.0.as_str()) {
            proof {
                assert(accounts@.skip(i as int)[0] == accounts@[i as int]);
            }
            return Some(&accounts[i]);
        }
        proof {
            assert(accounts@.skip(i as int).drop_first() =~= accounts@.skip(i as int + 1));
        }
        i = i + 1;
    }
    None
}

/// Whether a balance snapshot is taken at the day's start or end.
#[derive(Debug, Clone, Copy, PartialEq, Eq, Structural)]
pub enum SnapshotTimeOfDay {
    EOD,
    BOD,
}

impl SnapshotTimeOfDay {
    pub open spec fn wire(self) -> Seq<char> {
        match self {
            SnapshotTimeOfDay::EOD => "EOD"@,
            SnapshotTimeOfDay::BOD => "BOD"@,
        }
    }

    /// The label this choice carries in a query string.
    pub fn label(&self) -> (r: &'static str)
        ensures
            r@ == self.wire(),
    {
        match self {
            SnapshotTimeOfDay::EOD => "EOD",
            SnapshotTimeOfDay::BOD => "BOD",
        }
    }
}

} // verus!
