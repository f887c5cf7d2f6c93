use vstd::prelude::*;

use crate::friend_view::FriendView;
use crate::text::{append_decimal, append_two_digits, decimal_digits, two_digits};

verus! {

/// A stored group, as the database returns it.
#[derive(Debug)]
pub struct GroupRecord {
    pub id: i32,
    pub name: String,
}

/// The data of the start page.
#[derive(Debug)]
pub struct IndexTemplate {
    pub username: String,
    pub balance_state_class: &'static str,
    pub balance_label: &'static str,
    pub balance_secondary: &'static str,
    pub formatted_balance: String,
    pub active_tab: String,
    pub friends: Vec<FriendView>,
    pub groups: Vec<GroupRecord>,
}

/// The data of one tab of the start page.
#[derive(Debug)]
pub struct TabShellTemplate {
    pub active_tab: String,
    pub friends: Vec<FriendView>,
    pub groups: Vec<GroupRecord>,
}

/// How the start page writes the overall balance: an optional minus sign,
/// the euro sign, the whole euros, a point and two digits of cents.
pub open spec fn balance_text(cents: int) -> Seq<char> {
    let absolute = if cents < 0 {
        -cents
    } else {
        cents
    };
    (if cents < 0 {
        seq!['-']
    } else {
        Seq::<char>::empty()
    }) + seq!['€'] + decimal_digits((absolute / 100) as nat) + seq!['.'] + two_digits(
        (absolute % 100) as nat,
    )
}

/// The style class, headline and subline that describe a balance.
pub open spec fn balance_wording(cents: int) -> (Seq<char>, Seq<char>, Seq<char>) {
    if cents > 0 {
        ("balance-positive"@, "Overall, you are owed"@, "Across all shared expenses"@)
    } else if cents < 0 {
        ("balance-negative"@, "Overall, you owe"@, "Across all shared expenses"@)
    } else {
        ("balance-neutral"@, "Overall, you are settled up"@, "No outstanding shared expenses"@)
    }
}

/// The size of a balance, without its sign.
fn unsigned_abs(v: i64) -> (r: u64)
    ensures
        r == (if v < 0 {
            -(v as int)
        } else {
            v as int
        }),
{
    if v < 0 {
        ((-(v + 1)) as u64) + 1
    } else {
        v as u64
    }
}

impl IndexTemplate {
    /// The start page for `username`, whose overall balance is
    /// `balance_cents`, with the groups tab open.
    pub fn new(username: String, balance_cents: i64, groups: Vec<GroupRecord>) -> (t: Self)
        ensures
            t.username == username,
            (t.balance_state_class@, t.balance_label@, t.balance_secondary@) == balance_wording(
                balance_cents as int,
            ),
            t.formatted_balance@ == balance_text(balance_cents as int),
            t.active_tab@ == "groups"@,
            t.friends.len() == 0,
            t.groups == groups,
    {
        let is_positive = balance_cents > 0;
        let is_negative = balance_cents < 0;
        let (balance_state_class, balance_label, balance_secondary) = if is_positive {
            ("balance-positive", "Overall, you are owed", "Across all shared expenses")
        } else if is_negative {
            ("balance-negative", "Overall, you owe", "Across all shared expenses")
        } else {
            ("balance-neutral", "Overall, you are settled up", "No outstanding shared expenses")
        };
        let absolute = unsigned_abs(balance_cents);
        let euros = absolute / 100;
        let cents = absolute % 100;
        let mut formatted_balance = String::new();
        if balance_cents < 0 {
            formatted_balance.append("-");
            proof {
                reveal_strlit("-");
            }
        }
        formatted_balance.append("€");
        proof {
            reveal_strlit("€");
        }
        append_decimal(&mut formatted_balance, euros);
        formatted_balance.append(".");
        proof {
            reveal_strlit(".");
        }
        append_two_digits(&mut formatted_balance, cents);
        assert(formatted_balance@ =~= balance_text(balance_cents as int));
        IndexTemplate {
            username,
            balance_state_class,
            balance_label,
            balance_secondary,
            formatted_balance,
            active_tab: "groups".to_string(),
            friends: Vec::new(),
            groups,
        }
    }
}

} // verus!
