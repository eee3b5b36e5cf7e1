//! The economy handler: computes a salary from every chat message and
//! deposits it into the sender's pending payout.
//!
//! The salary is derived from the message's words: a word containing any
//! non-alphanumeric character pays nothing, a word of more than two
//! characters pays one unit per character up to ten. The summed word values
//! feed a sigmoid-shaped curve that flattens out below 1000, to blunt
//! copypasta spam. The curve `2000 / (1 + 1.002^-value) - 1000` is evaluated
//! in fixed-point integer arithmetic (scale 2^32, rounded down), so every
//! step of it is exact and provable.

use vstd::arithmetic::div_mod::{
    lemma_div_is_ordered_by_denominator,
    lemma_fundamental_div_mod,
    lemma_fundamental_div_mod_converse,
};
use vstd::prelude::*;

use crate::handlers::economy::payout::{accumulated, Payout};
use crate::handlers::economy::wallet::Wallet;
use crate::text::{alnum_char, is_alnum_char, is_space_char, space_char};

pub mod payout;
pub mod wallet;

verus! {

/// The fixed-point scale at which the salary curve is evaluated: 2^32.
pub const SALARY_SCALE: u64 = 0x1_0000_0000;

/// Provides the salary deposit on every guild message, and the wallet,
/// claim and transfer commands.
pub struct EconomyProvider;

/// The reply of a transfer command.
#[derive(Clone, Copy, Debug, PartialEq, Eq, Structural)]
pub enum TransferOutcome {
    /// Nothing was sent: the amount was zero.
    EmptyTransfer,
    /// Nothing was sent: sender and recipient are the same user.
    SelfTransfer,
    /// Nothing was sent: the sender's balance does not cover the amount.
    InsufficientFunds { balance: u64 },
    /// The coins moved; the sender is left with `remaining`.
    Sent { amount: u64, remaining: u64 },
}

/// What one word pays: one unit per character, at most ten, and nothing for
/// words of at most two characters or with a non-alphanumeric character.
pub open spec fn token_value(tok: Seq<char>) -> nat {
    if tok.len() > 2 && (forall|k: int| 0 <= k < tok.len() ==> alnum_char(tok[k])) {
        if tok.len() <= 10 {
            tok.len()
        } else {
            10
        }
    } else {
        0
    }
}

/// The whitespace-separated words of `s`, given the word `cur` read so far.
pub open spec fn split_tokens(s: Seq<char>, cur: Seq<char>) -> Seq<Seq<char>>
    decreases s.len(),
{
    if s.len() == 0 {
        if cur.len() == 0 {
            seq![]
        } else {
            seq![cur]
        }
    } else if space_char(s[0]) {
        if cur.len() == 0 {
            split_tokens(s.drop_first(), Seq::empty())
        } else {
            seq![cur] + split_tokens(s.drop_first(), Seq::empty())
        }
    } else {
        split_tokens(s.drop_first(), cur.push(s[0]))
    }
}

/// The whitespace-separated words of a message.
pub open spec fn message_tokens(s: Seq<char>) -> Seq<Seq<char>> {
    split_tokens(s, Seq::empty())
}

/// The summed values of a list of words.
pub open spec fn values_sum(ts: Seq<Seq<char>>) -> nat
    decreases ts.len(),
{
    if ts.len() == 0 {
        0
    } else {
        token_value(ts[0]) + values_sum(ts.drop_first())
    }
}

/// The total word value of a message: the valid-character count that feeds
/// the salary curve.
pub open spec fn message_value(s: Seq<char>) -> nat {
    values_sum(message_tokens(s))
}

/// The remaining message value, accumulated word by word: what a single
/// left-to-right pass still owes when `s` is the unread tail and `cur` the
/// word read so far.
pub open spec fn split_value(s: Seq<char>, cur: Seq<char>) -> nat
    decreases s.len(),
{
    if s.len() == 0 {
        token_value(cur)
    } else if space_char(s[0]) {
        token_value(cur) + split_value(s.drop_first(), Seq::empty())
    } else {
        split_value(s.drop_first(), cur.push(s[0]))
    }
}

/// The accumulated pass computes exactly the summed word values.
proof fn lemma_split_value_is_values_sum(s: Seq<char>, cur: Seq<char>)
    ensures
        split_value(s, cur) == values_sum(split_tokens(s, cur)),
    decreases s.len(),
{
    if s.len() == 0 {
        if cur.len() != 0 {
            assert(seq![cur].drop_first() =~= Seq::<Seq<char>>::empty());
            assert(seq![cur][0] == cur);
            assert(values_sum(Seq::<Seq<char>>::empty()) == 0);
            assert(values_sum(seq![cur]) == token_value(cur));
        }
    } else if space_char(s[0]) {
        lemma_split_value_is_values_sum(s.drop_first(), Seq::empty());
        if cur.len() != 0 {
            let ts = split_tokens(s.drop_first(), Seq::empty());
            assert((seq![cur] + ts).drop_first() =~= ts);
            assert((seq![cur] + ts)[0] == cur);
        }
    } else {
        lemma_split_value_is_values_sum(s.drop_first(), cur.push(s[0]));
    }
}

/// The fixed-point value of `1.002^-value`, at scale `SALARY_SCALE`. Each
/// step multiplies by 500/501 and rounds up, so the value never reaches
/// zero.
pub open spec fn salary_decay(value: nat) -> int
    decreases value,
{
    if value == 0 {
        SALARY_SCALE as int
    } else {
        (salary_decay((value - 1) as nat) * 500 + 500) / 501
    }
}

/// The salary for a given total word value: the sigmoid curve at that
/// point, rounded down.
pub open spec fn salary_curve(value: nat) -> int {
    2000 * SALARY_SCALE / (SALARY_SCALE + salary_decay(value)) - 1000
}

/// The salary that a whole message earns.
pub open spec fn salary_of(s: Seq<char>) -> int {
    salary_curve(message_value(s))
}

/// The decay stays within `1 ..= SALARY_SCALE`.
pub proof fn lemma_salary_decay_bounds(value: nat)
    ensures
        1 <= salary_decay(value) <= SALARY_SCALE,
    decreases value,
{
    if value > 0 {
        let p = salary_decay((value - 1) as nat);
        lemma_salary_decay_bounds((value - 1) as nat);
        lemma_fundamental_div_mod(p * 500 + 500, 501);
        lemma_mod_range(p * 500 + 500);
    }
}

/// The remainder of dividing a non-negative number by 501 lies below 501.
proof fn lemma_mod_range(x: int)
    requires
        0 <= x,
    ensures
        0 <= x % 501 < 501,
{
    vstd::arithmetic::div_mod::lemma_mod_division_less_than_divisor(x, 501);
}

/// One decay step never increases the value.
proof fn lemma_salary_decay_step(value: nat)
    ensures
        salary_decay(value + 1) <= salary_decay(value),
{
    let p = salary_decay(value);
    lemma_salary_decay_bounds(value);
    let x = p * 500 + 500;
    lemma_fundamental_div_mod(x, 501);
    lemma_mod_range(x);
    assert(salary_decay(value + 1) == x / 501);
    assert(501 * (x / 501) <= x);
    assert(x < 501 * (p + 1));
}

/// The decay is non-increasing in the word value.
pub proof fn lemma_salary_decay_monotone(v1: nat, v2: nat)
    requires
        v1 <= v2,
    ensures
        salary_decay(v2) <= salary_decay(v1),
    decreases v2 - v1,
{
    if v1 < v2 {
        lemma_salary_decay_monotone(v1, (v2 - 1) as nat);
        lemma_salary_decay_step((v2 - 1) as nat);
    }
}

/// The salary is monotonically non-decreasing in the total word value.
pub proof fn lemma_salary_monotone(v1: nat, v2: nat)
    requires
        v1 <= v2,
    ensures
        salary_curve(v1) <= salary_curve(v2),
{
    let s = SALARY_SCALE as int;
    lemma_salary_decay_bounds(v1);
    lemma_salary_decay_bounds(v2);
    lemma_salary_decay_monotone(v1, v2);
    lemma_div_is_ordered_by_denominator(2000 * s, s + salary_decay(v2), s + salary_decay(v1));
}

/// The salary is bounded: it is never negative and stays strictly below
/// 1000, the asymptote of the curve.
pub proof fn lemma_salary_bounds(value: nat)
    ensures
        0 <= salary_curve(value) <= 999,
    decreases value,
{
    let s = SALARY_SCALE as int;
    let p = salary_decay(value);
    lemma_salary_decay_bounds(value);
    // with the decay at its largest, the quotient is exactly 1000
    lemma_fundamental_div_mod_converse(2000 * s, 2 * s, 1000, 0);
    lemma_div_is_ordered_by_denominator(2000 * s, s + p, 2 * s);
    // with the decay at its smallest, the quotient is exactly 1999
    lemma_fundamental_div_mod_converse(2000 * s, s + 1, 1999, s - 1999);
    lemma_div_is_ordered_by_denominator(2000 * s, s + 1, s + p);
}

/// A message whose words all pay nothing earns a salary of zero.
pub proof fn lemma_salary_zero_for_trivial_words(s: Seq<char>)
    requires
        forall|i: int|
            0 <= i < message_tokens(s).len() ==> (message_tokens(s)[i].len() <= 2 || exists|k: int|
                0 <= k < message_tokens(s)[i].len() && !alnum_char(message_tokens(s)[i][k])),
    ensures
        salary_of(s) == 0,
{
    assert forall|i: int| 0 <= i < message_tokens(s).len() implies token_value(
        message_tokens(s)[i],
    ) == 0 by {
        let tok = message_tokens(s)[i];
        if tok.len() > 2 {
            let k = choose|k: int| 0 <= k < tok.len() && !alnum_char(tok[k]);
            assert(!(forall|j: int| 0 <= j < tok.len() ==> alnum_char(tok[j])));
        }
    }
    lemma_values_sum_zero(message_tokens(s));
    lemma_salary_curve_at_zero();
}

/// A list of words that each pay nothing sums to nothing.
proof fn lemma_values_sum_zero(ts: Seq<Seq<char>>)
    requires
        forall|i: int| 0 <= i < ts.len() ==> token_value(ts[i]) == 0,
    ensures
        values_sum(ts) == 0,
    decreases ts.len(),
{
    if ts.len() > 0 {
        assert(forall|i: int|
            0 <= i < ts.drop_first().len() ==> ts.drop_first()[i] == ts[i + 1]);
        lemma_values_sum_zero(ts.drop_first());
    }
}

/// At word value zero the curve starts at a salary of zero.
pub proof fn lemma_salary_curve_at_zero()
    ensures
        salary_curve(0) == 0,
{
    let s = SALARY_SCALE as int;
    lemma_fundamental_div_mod_converse(2000 * s, 2 * s, 1000, 0);
}

impl EconomyProvider {
    /// The salary one message earns: the total word value fed through the
    /// fixed-point sigmoid curve.
    pub fn calc_salary(msg: &str) -> (salary: u64)
        ensures
            salary == salary_of(msg@),
            0 <= salary <= 999,
    {
        let value = Self::message_word_value(msg);
        let salary = Self::salary_points(value);
        proof {
            lemma_salary_bounds(message_value(msg@));
        }
        salary
    }

    /// The total word value of a message: one left-to-right pass over the
    /// characters, tracking the length and validity of the current word.
    fn message_word_value(msg: &str) -> (value: u64)
        ensures
            value == message_value(msg@),
    {
        let len = msg.unicode_len();
        let mut total: u64 = 0;
        let mut cur_len: usize = 0;
        let mut cur_ok: bool = true;
        let ghost mut cur: Seq<char> = Seq::empty();
        let mut i: usize = 0;
        assert(msg@.skip(0) =~= msg@);
        while i < len
            invariant
                len == msg@.len(),
                0 <= i <= len,
                cur_len == cur.len(),
                cur_ok == (forall|k: int| 0 <= k < cur.len() ==> alnum_char(cur[k])),
                total + cur.len() <= i,
                split_value(msg@, Seq::empty()) == total + split_value(msg@.skip(i as int), cur),
            decreases len - i,
        {
            let c = msg.get_char(i);
            assert(msg@.skip(i as int)[0] == c);
            assert(msg@.skip(i as int).drop_first() =~= msg@.skip(i + 1));
            if is_space_char(c) {
                let earned: u64 = if cur_len > 2 && cur_ok {
                    if cur_len <= 10 {
                        cur_len as u64
                    } else {
                        10
                    }
                } else {
                    0
                };
                assert(earned == token_value(cur));
                total = total + earned;
                cur_len = 0;
                cur_ok = true;
                proof {
                    cur = Seq::empty();
                }
            } else {
                let c_ok = is_alnum_char(c);
                cur_len = cur_len + 1;
                proof {
                    let prev = cur;
                    let prev_ok = cur_ok;
                    cur = cur.push(c);
                    assert(cur[prev.len() as int] == c);
                    if prev_ok && alnum_char(c) {
                        assert forall|k: int| 0 <= k < cur.len() implies alnum_char(
                            cur[k],
                        ) by {
                            if k < prev.len() {
                                assert(cur[k] == prev[k]);
                            }
                        }
                    } else if !prev_ok {
                        let j = choose|j: int| 0 <= j < prev.len() && !alnum_char(prev[j]);
                        assert(cur[j] == prev[j]);
                    }
                }
                if !c_ok {
                    cur_ok = false;
                }
            }
            i = i + 1;
        }
        let earned: u64 = if cur_len > 2 && cur_ok {
            if cur_len <= 10 {
                cur_len as u64
            } else {
                10
            }
        } else {
            0
        };
        assert(msg@.skip(len as int) =~= Seq::<char>::empty());
        assert(earned == token_value(cur));
        proof {
            lemma_split_value_is_values_sum(msg@, Seq::empty());
        }
        total + earned
    }

    /// Evaluates the salary curve at the given word value, in fixed-point
    /// arithmetic.
    fn salary_points(value: u64) -> (salary: u64)
        ensures
            salary == salary_curve(value as nat),
    {
        let mut p: u64 = SALARY_SCALE;
        let mut k: u64 = 0;
        while k < value
            invariant
                0 <= k <= value,
                p == salary_decay(k as nat),
            decreases value - k,
        {
            proof {
                lemma_salary_decay_bounds(k as nat);
            }
            p = (p * 500 + 500) / 501;
            k = k + 1;
        }
        proof {
            lemma_salary_decay_bounds(value as nat);
            lemma_salary_bounds(value as nat);
        }
        let quotient = (2000 * SALARY_SCALE) / (SALARY_SCALE + p);
        quotient - 1000
    }

    /// Moves coins between two users' wallets, after the command-level
    /// checks: a zero amount and a transfer to oneself are turned away,
    /// insufficient funds are reported with the sender's balance, and
    /// otherwise the amount leaves the sender and reaches the recipient.
    /// The two balance updates are persisted one by one by the shell; they
    /// are not one storage transaction.
    pub fn transfer(from: &mut Wallet, to: &mut Wallet, amount: u64) -> (r: TransferOutcome)
        requires
            old(to).data.balance + amount <= u64::MAX,
        ensures
            amount == 0 ==> r == TransferOutcome::EmptyTransfer && *final (from) == *old(from)
                && *final (to) == *old(to),
            amount > 0 && old(from).data.user_id == old(to).data.user_id ==> r
                == TransferOutcome::SelfTransfer && *final (from) == *old(from) && *final (to)
                == *old(to),
            amount > 0 && old(from).data.user_id != old(to).data.user_id && amount > old(
                from,
            ).data.balance ==> r == (TransferOutcome::InsufficientFunds {
                balance: old(from).data.balance,
            }) && *final (from) == *old(from) && *final (to) == *old(to),
            amount > 0 && old(from).data.user_id != old(to).data.user_id && amount <= old(
                from,
            ).data.balance ==> r == (TransferOutcome::Sent {
                amount,
                remaining: (old(from).data.balance - amount) as u64,
            }) && *final (from) == crate::handlers::economy::wallet::spent(*old(from), amount)
                && *final (to) == crate::handlers::economy::wallet::deposited(*old(to), amount),
    {
        if amount == 0 {
            return TransferOutcome::EmptyTransfer;
        }
        if from.data.user_id == to.data.user_id {
            return TransferOutcome::SelfTransfer;
        }
        match from.spend(amount) {
            Err(_) => TransferOutcome::InsufficientFunds { balance: from.balance() },
            Ok(()) => {
                to.deposit(amount);
                TransferOutcome::Sent { amount, remaining: from.balance() }
            },
        }
    }

    /// Deposits the salary of one guild message into the sender's pending
    /// payout. This never fails and produces no visible reply.
    pub fn pay_message_salary(payout: &mut Payout, msg: &str)
        requires
            old(payout).data.balance + 1000 <= u64::MAX,
        ensures
            *final (payout) == accumulated(*old(payout), salary_of(msg@) as u64),
            final (payout).data.balance == old(payout).data.balance + salary_of(msg@),
    {
        let salary = Self::calc_salary(msg);
        payout.deposit(salary);
    }
}

} // verus!
