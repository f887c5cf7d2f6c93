use vstd::prelude::*;

use crate::text::{append_decimal, append_two_digits, decimal_digits, two_digits};

verus! {

/// An amount of money held as a whole number of cents.
#[derive(Debug, Clone, Copy, PartialEq, Eq, PartialOrd, Structural)]
pub struct Money {
    cents: i64,
}

/// The sum, in cents, of a sequence of amounts.
pub open spec fn total_cents(s: Seq<Money>) -> int
    decreases s.len(),
{
    if s.len() == 0 {
        0
    } else {
        total_cents(s.drop_last()) + s.last().value()
    }
}

/// The share that position `i` receives when `total` cents are divided among
/// `count` people: everyone gets the quotient, and the first `total % count`
/// people get one cent more.
pub open spec fn equal_share(total: int, count: int, i: int) -> int {
    total / count + if i < total % count {
        1int
    } else {
        0int
    }
}

/// How an amount is written for people: an optional minus sign, the whole
/// euros, a point, two digits of cents and the euro sign.
pub open spec fn display_text(cents: int) -> Seq<char> {
    let absolute = if cents < 0 {
        -cents
    } else {
        cents
    };
    let sign = if cents < 0 {
        seq!['-']
    } else {
        Seq::<char>::empty()
    };
    sign + decimal_digits((absolute / 100) as nat) + seq!['.'] + two_digits((absolute % 100) as nat)
        + seq![' ', '€']
}

impl Money {
    /// The amount in cents.
    pub closed spec fn value(self) -> int {
        self.cents as int
    }

    /// The amount that holds `v` cents, for `v` in the range of an `i64`.
    pub closed spec fn with_value(v: int) -> Money {
        Money { cents: v as i64 }
    }

    pub broadcast proof fn lemma_with_value(v: int)
        requires
            i64::MIN <= v <= i64::MAX,
        ensures
            #[trigger] Money::with_value(v).value() == v,
    {
    }

    /// Every amount holds a number of cents that fits in an `i64`.
    pub proof fn lemma_value_range(self)
        ensures
            i64::MIN <= self.value() <= i64::MAX,
    {
    }

    /// Two amounts are the same exactly when they hold the same number of cents.
    pub proof fn lemma_value_determines(self, other: Money)
        ensures
            (self.value() == other.value()) <==> (self == other),
    {
    }

    pub fn zero() -> (m: Self)
        ensures
            m.value() == 0,
    {
        Money { cents: 0 }
    }

    pub fn from_cents(cents: i64) -> (m: Self)
        ensures
            m.value() == cents,
    {
        Money { cents }
    }

    pub fn cents(&self) -> (c: i64)
        ensures
            c == self.value(),
    {
        self.cents
    }

    pub fn is_zero(&self) -> (b: bool)
        ensures
            b == (self.value() == 0),
    {
        self.cents == 0
    }

    pub fn is_positive(&self) -> (b: bool)
        ensures
            b == (self.value() > 0),
    {
        self.cents > 0
    }

    pub fn is_negative(&self) -> (b: bool)
        ensures
            b == (self.value() < 0),
    {
        self.cents < 0
    }

    /// The amount without its sign. The smallest `i64` has no positive
    /// counterpart, so it is left out.
    pub fn abs(&self) -> (m: Self)
        requires
            self.value() > i64::MIN,
        ensures
            m.value() == (if self.value() < 0 {
                -self.value()
            } else {
                self.value()
            }),
    {
        if self.cents < 0 {
            Money { cents: -self.cents }
        } else {
            Money { cents: self.cents }
        }
    }

    /// Divides the amount among `participant_count` people so that no cent is
    /// lost: every share is the quotient, and the first `amount % count` shares
    /// get one extra cent.
    pub fn split_equal(self, participant_count: usize) -> (r: Result<Vec<Self>, String>)
        requires
            participant_count <= i64::MAX,
        ensures
            participant_count == 0 ==> (r matches Err(e) && e@
                == "Cannot split among zero participants"@),
            participant_count > 0 && self.value() < 0 ==> (r matches Err(e) && e@
                == "Cannot split a negative amount"@),
            participant_count > 0 && self.value() >= 0 ==> (r matches Ok(shares) && shares.len()
                == participant_count && (forall|i: int|
                0 <= i < participant_count ==> #[trigger] shares[i].value() == equal_share(
                    self.value(),
                    participant_count as int,
                    i,
                ))),
            r matches Ok(shares) ==> total_cents(shares@) == self.value(),
    {
        if participant_count == 0 {
            return Err("Cannot split among zero participants".to_string());
        }
        if self.is_negative() {
            return Err("Cannot split a negative amount".to_string());
        }
        let count = participant_count as i64;
        let base_amount = self.cents / count;
        let remainder = self.cents % count;
        assert(0 <= remainder < count);
        assert(0 <= base_amount <= self.cents) by (nonlinear_arith)
            requires
                self.cents >= 0,
                count >= 1,
                base_amount == self.cents / count,
        ;
        assert(remainder > 0 ==> base_amount < i64::MAX) by (nonlinear_arith)
            requires
                self.cents >= 0,
                count >= 1,
                base_amount == self.cents / count,
                remainder == self.cents % count,
                0 <= remainder < count,
        ;
        let mut shares: Vec<Money> = Vec::new();
        let mut i: usize = 0;
        while i < participant_count
            invariant
                0 <= i <= participant_count,
                count == participant_count,
                0 <= remainder < count,
                0 <= base_amount <= self.cents,
                remainder > 0 ==> base_amount < i64::MAX,
                base_amount == self.value() / (count as int),
                remainder == self.value() % (count as int),
                shares.len() == i,
                forall|j: int|
                    0 <= j < i ==> #[trigger] shares[j].value() == equal_share(
                        self.value(),
                        count as int,
                        j,
                    ),
                total_cents(shares@) == i * base_amount + (if i < remainder {
                    i as int
                } else {
                    remainder as int
                }),
            decreases participant_count - i,
        {
            let ghost before = shares@;
            let share = if (i as i64) < remainder {
                Money::from_cents(base_amount + 1)
            } else {
                Money::from_cents(base_amount)
            };
            shares.push(share);
            assert(shares@.drop_last() == before);
            assert((i + 1) * base_amount == i * base_amount + base_amount) by (nonlinear_arith);
            i = i + 1;
        }
        assert(self.value() == count * base_amount + remainder) by (nonlinear_arith)
            requires
                base_amount == self.value() / (count as int),
                remainder == self.value() % (count as int),
                count > 0,
        ;
        assert(count * base_amount == participant_count * base_amount);
        Ok(shares)
    }

    /// Adds `other` to this amount in place; the sum must fit in an `i64`.
    pub fn add_assign(&mut self, other: Money)
        requires
            i64::MIN <= old(self).value() + other.value() <= i64::MAX,
        ensures
            final(self).value() == old(self).value() + other.value(),
    {
        self.cents = self.cents + other.cents;
    }

    /// The amount as people read it, such as `123.45 €` or `-67.89 €`.
    pub fn to_display_string(&self) -> (s: String)
        requires
            self.value() > i64::MIN,
        ensures
            s@ == display_text(self.value()),
    {
        let absolute_cents: i64 = if self.cents < 0 {
            -self.cents
        } else {
            self.cents
        };
        let euros = (absolute_cents / 100) as u64;
        let cents = (absolute_cents % 100) as u64;
        let mut s = String::new();
        if self.cents < 0 {
            s.append("-");
            proof {
                reveal_strlit("-");
            }
        }
        append_decimal(&mut s, euros);
        s.append(".");
        proof {
            reveal_strlit(".");
        }
        append_two_digits(&mut s, cents);
        s.append(" €");
        proof {
            reveal_strlit(" €");
        }
        assert(s@ == display_text(self.value()));
        s
    }
}

/// Adds two amounts; the sum must fit in an `i64`.
impl core::ops::Add for Money {
    type Output = Money;

    fn add(self, other: Money) -> (m: Money) {
        Money { cents: self.cents + other.cents }
    }
}

impl vstd::std_specs::ops::AddSpecImpl for Money {
    open spec fn obeys_add_spec() -> bool {
        true
    }

    open spec fn add_req(self, rhs: Money) -> bool {
        i64::MIN <= self.value() + rhs.value() <= i64::MAX
    }

    open spec fn add_spec(self, rhs: Money) -> Money {
        Money::with_value(self.value() + rhs.value())
    }
}

/// Subtracts one amount from another; the difference must fit in an `i64`.
impl core::ops::Sub for Money {
    type Output = Money;

    fn sub(self, other: Money) -> (m: Money) {
        Money { cents: self.cents - other.cents }
    }
}

impl vstd::std_specs::ops::SubSpecImpl for Money {
    open spec fn obeys_sub_spec() -> bool {
        true
    }

    open spec fn sub_req(self, rhs: Money) -> bool {
        i64::MIN <= self.value() - rhs.value() <= i64::MAX
    }

    open spec fn sub_spec(self, rhs: Money) -> Money {
        Money::with_value(self.value() - rhs.value())
    }
}

/// Flips the sign of an amount; the smallest `i64` has no negation.
impl core::ops::Neg for Money {
    type Output = Money;

    fn neg(self) -> (m: Money) {
        Money { cents: -self.cents }
    }
}

impl vstd::std_specs::ops::NegSpecImpl for Money {
    open spec fn obeys_neg_spec() -> bool {
        true
    }

    open spec fn neg_req(self) -> bool {
        self.value() > i64::MIN
    }

    open spec fn neg_spec(self) -> Money {
        Money::with_value(-self.value())
    }
}

} // verus!
