//! The data the engine works on.
//!
//! Decimal quantities (amounts, thresholds, risk contributions) are held in
//! fixed point: an unsigned integer counts millionths, so `SCALE` stands for
//! one whole unit. Quotients are never rounded. A risk score is kept as a
//! fraction, and a profile keeps the sum of all amounts beside their number,
//! so that its average is the exact mean.

use vstd::prelude::*;
use crate::wide::product_exceeds;

verus! {

/// The fixed-point representation of one whole unit.
pub const SCALE: u64 = 1_000_000;

/// How many devices, and how many locations, a profile remembers.
pub const MAX_KNOWN: usize = 5;

/// A point in time: whole seconds since the Unix epoch and the nanoseconds
/// into that second.
#[derive(Debug, Clone, Copy, PartialEq, Eq, Structural)]
pub struct Timestamp {
    pub seconds: i64,
    pub nanos: u32,
}

/// The current time, as `chrono::Utc::now()` gives it: its `timestamp()` in
/// seconds and its `timestamp_subsec_nanos()`. Nothing is claimed of the
/// value.
#[verifier::external_body]
pub(crate) fn utc_now() -> (now: Timestamp) {
    let now = chrono::Utc::now();
    Timestamp { seconds: now.timestamp(), nanos: now.timestamp_subsec_nanos() }
}

impl Timestamp {
    /// The time of a transaction: the one it was given, or the current time
    /// if it was given none.
    pub fn or_now(given: Option<Timestamp>) -> (time: Timestamp)
        ensures
            given matches Some(stated) ==> time == stated,
    {
        match given {
            Some(stated) => stated,
            None => utc_now(),
        }
    }
}

/// One payment to be scored. `amount` is in fixed point.
#[derive(Debug, Clone)]
pub struct Transaction {
    pub user_id: String,
    pub amount: u64,
    pub merchant: String,
    pub location: String,
    pub device_id: String,
    pub timestamp: Timestamp,
}

/// Outcome handed to the caller for one scored transaction.
#[derive(Debug, Clone, Copy, PartialEq, Eq, Structural)]
pub enum TransactionStatus {
    Approved,
    Blocked,
    Review,
}

/// A risk score in `[0, 1]`, held as the fraction `numerator / denominator`.
#[derive(Debug, Clone, Copy, PartialEq, Eq, Structural)]
pub struct RiskScore {
    pub numerator: u128,
    pub denominator: u128,
}

impl RiskScore {
    /// The fraction is defined and lies in `[0, 1]`.
    pub open spec fn wf(self) -> bool {
        0 < self.denominator && self.numerator <= self.denominator
    }

    /// The score equals `num / den`, for a positive `den`.
    pub open spec fn is_ratio(self, num: int, den: int) -> bool {
        self.numerator * den == num * self.denominator
    }

    /// The score is strictly greater than `num / den`, for a positive `den`.
    pub open spec fn above(self, num: int, den: int) -> bool {
        self.numerator * den > num * self.denominator
    }

    /// The score of a rule set of `rule_count` rules whose fired rules
    /// contribute `total` (in fixed point): `min(1, total / rule_count)`, and
    /// zero for the empty rule set.
    pub open spec fn normalized(total: nat, rule_count: nat) -> RiskScore {
        if rule_count == 0 {
            RiskScore { numerator: 0, denominator: 1 }
        } else {
            let whole = SCALE * rule_count;
            RiskScore {
                numerator: (if total < whole { total as int } else { whole }) as u128,
                denominator: whole as u128,
            }
        }
    }

    /// Computes `normalized`.
    pub fn normalize(total: u128, rule_count: usize) -> (score: RiskScore)
        ensures
            score == Self::normalized(total as nat, rule_count as nat),
            score.wf(),
    {
        if rule_count == 0 {
            RiskScore { numerator: 0, denominator: 1 }
        } else {
            let whole: u128 = (SCALE as u128) * (rule_count as u128);
            let numerator: u128 = if total < whole { total } else { whole };
            RiskScore { numerator, denominator: whole }
        }
    }

    /// Whether the score is strictly greater than `num / den`.
    pub fn exceeds(&self, num: u64, den: u64) -> (greater: bool)
        ensures
            greater == self.above(num as int, den as int),
    {
        proof {
            assert(num * self.denominator == self.denominator * num) by (nonlinear_arith);
        }
        product_exceeds(self.numerator, den, self.denominator, num)
    }
}

/// What is known of one user's past transactions.
///
/// `total_amount` is the sum of the amounts of all transactions counted in
/// `transaction_count`; the running average is their quotient. The two lists
/// hold the most recently first-seen devices and locations, oldest first.
#[derive(Debug, Clone)]
pub struct UserProfile {
    pub user_id: String,
    pub total_amount: u128,
    pub transaction_count: u64,
    pub last_transaction_time: Option<Timestamp>,
    pub known_devices: Vec<String>,
    pub known_locations: Vec<String>,
}

/// The mathematical content of a `UserProfile`.
pub struct ProfileView {
    pub user_id: Seq<char>,
    pub total_amount: nat,
    pub transaction_count: nat,
    pub last_transaction_time: Option<Timestamp>,
    pub known_devices: Seq<Seq<char>>,
    pub known_locations: Seq<Seq<char>>,
}

/// A bounded list after `name` was seen: unchanged if it holds `name`, else
/// with `name` appended and, if that made it longer than `MAX_KNOWN`, without
/// its oldest entry.
pub open spec fn remember(known: Seq<Seq<char>>, name: Seq<char>) -> Seq<Seq<char>> {
    if known.contains(name) {
        known
    } else if known.len() + 1 > MAX_KNOWN {
        known.push(name).remove(0)
    } else {
        known.push(name)
    }
}

impl ProfileView {
    /// The profile of a user of whom nothing is known yet.
    pub open spec fn fresh(user_id: Seq<char>) -> ProfileView {
        ProfileView {
            user_id,
            total_amount: 0,
            transaction_count: 0,
            last_transaction_time: None,
            known_devices: Seq::empty(),
            known_locations: Seq::empty(),
        }
    }

    /// Neither list is longer than `MAX_KNOWN`.
    pub open spec fn lists_bounded(self) -> bool {
        &&& self.known_devices.len() <= MAX_KNOWN
        &&& self.known_locations.len() <= MAX_KNOWN
    }

    /// Both lists are within their bound, and the total is one that
    /// `transaction_count` amounts can add up to.
    pub open spec fn wf(self) -> bool {
        &&& self.lists_bounded()
        &&& self.transaction_count <= u64::MAX
        &&& self.total_amount <= self.transaction_count * u64::MAX
    }

    /// The counter can take one more transaction.
    pub open spec fn has_room(self) -> bool {
        self.transaction_count < u64::MAX
    }

    /// The counter and the total can take `transaction`.
    pub open spec fn can_take(self, transaction: Transaction) -> bool {
        &&& self.transaction_count < u64::MAX
        &&& self.total_amount + transaction.amount <= u128::MAX
    }

    /// The average amount is positive.
    pub open spec fn has_positive_average(self) -> bool {
        self.transaction_count > 0 && self.total_amount > 0
    }

    /// `amount` is strictly greater than the average amount times
    /// `factor`, both in fixed point. With the average being
    /// `total_amount / transaction_count`, this is
    /// `amount > total_amount * factor / (transaction_count * SCALE)`.
    pub open spec fn average_times_below(self, factor: int, amount: nat) -> bool {
        amount * self.transaction_count * SCALE > self.total_amount * factor
    }

    /// The profile after one more transaction.
    pub open spec fn after(self, transaction: Transaction) -> ProfileView {
        ProfileView {
            user_id: self.user_id,
            total_amount: self.total_amount + transaction.amount as nat,
            transaction_count: self.transaction_count + 1nat,
            last_transaction_time: Some(transaction.timestamp),
            known_devices: remember(self.known_devices, transaction.device_id@),
            known_locations: remember(self.known_locations, transaction.location@),
        }
    }

    /// The profile after a sequence of transactions, first to last.
    pub open spec fn after_all(self, transactions: Seq<Transaction>) -> ProfileView
        decreases transactions.len(),
    {
        if transactions.len() == 0 {
            self
        } else {
            self.after_all(transactions.drop_last()).after(transactions.last())
        }
    }
}

/// The sum of the amounts of `transactions`.
pub open spec fn amount_sum(transactions: Seq<Transaction>) -> nat
    decreases transactions.len(),
{
    if transactions.len() == 0 {
        0
    } else {
        amount_sum(transactions.drop_last()) + transactions.last().amount as nat
    }
}

/// A list that is full forgets its oldest entry, and no other, when a name
/// that it does not hold is seen: the others keep their order, and the new
/// name comes last.
pub proof fn law_eviction_is_oldest_first(known: Seq<Seq<char>>, name: Seq<char>)
    requires
        known.len() == MAX_KNOWN,
        !known.contains(name),
    ensures
        remember(known, name) == known.subrange(1, MAX_KNOWN as int).push(name),
{
    assert(known.push(name).remove(0) =~= known.subrange(1, MAX_KNOWN as int).push(name));
}

/// A list within its bound stays within it, whatever name is seen.
pub proof fn law_remember_keeps_bound(known: Seq<Seq<char>>, name: Seq<char>)
    requires
        known.len() <= MAX_KNOWN,
    ensures
        remember(known, name).len() <= MAX_KNOWN,
        remember(known, name).contains(name),
{
    let seen = remember(known, name);
    if !known.contains(name) {
        assert(seen[seen.len() - 1] == name);
    }
}

/// The lists of a profile never grow beyond `MAX_KNOWN`, whatever sequence of
/// transactions is counted into it.
pub proof fn law_lists_stay_bounded(profile: ProfileView, transactions: Seq<Transaction>)
    requires
        profile.lists_bounded(),
    ensures
        profile.after_all(transactions).lists_bounded(),
    decreases transactions.len(),
{
    if transactions.len() > 0 {
        law_lists_stay_bounded(profile, transactions.drop_last());
        let before = profile.after_all(transactions.drop_last());
        law_remember_keeps_bound(before.known_devices, transactions.last().device_id@);
        law_remember_keeps_bound(before.known_locations, transactions.last().location@);
    }
}

/// Counting transactions into a profile adds exactly their amounts to the
/// total and their number to the count.
pub proof fn law_totals_add_up(profile: ProfileView, transactions: Seq<Transaction>)
    ensures
        profile.after_all(transactions).total_amount == profile.total_amount + amount_sum(
            transactions,
        ),
        profile.after_all(transactions).transaction_count == profile.transaction_count
            + transactions.len(),
    decreases transactions.len(),
{
    if transactions.len() > 0 {
        law_totals_add_up(profile, transactions.drop_last());
    }
}

/// After any transactions, a profile that started fresh holds the sum of
/// their amounts and their number, so its average, total by count, is their
/// exact mean.
pub proof fn law_average_is_exact_mean(user_id: Seq<char>, transactions: Seq<Transaction>)
    ensures
        ProfileView::fresh(user_id).after_all(transactions).total_amount == amount_sum(
            transactions,
        ),
        ProfileView::fresh(user_id).after_all(transactions).transaction_count
            == transactions.len(),
{
    law_totals_add_up(ProfileView::fresh(user_id), transactions);
}

/// A well-formed profile with room for `transactions` more is well formed
/// after them.
pub proof fn law_profile_stays_well_formed(profile: ProfileView, transactions: Seq<Transaction>)
    requires
        profile.wf(),
        profile.transaction_count + transactions.len() <= u64::MAX,
    ensures
        profile.after_all(transactions).wf(),
    decreases transactions.len(),
{
    law_lists_stay_bounded(profile, transactions);
    law_totals_add_up(profile, transactions);
    if transactions.len() > 0 {
        law_profile_stays_well_formed(profile, transactions.drop_last());
        law_totals_add_up(profile, transactions.drop_last());
    }
}

impl View for UserProfile {
    type V = ProfileView;

    open spec fn view(&self) -> ProfileView {
        ProfileView {
            user_id: self.user_id@,
            total_amount: self.total_amount as nat,
            transaction_count: self.transaction_count as nat,
            last_transaction_time: self.last_transaction_time,
            known_devices: self.known_devices.deep_view(),
            known_locations: self.known_locations.deep_view(),
        }
    }
}

impl Default for UserProfile {
    fn default() -> (profile: Self)
        ensures
            profile@ == ProfileView::fresh(Seq::empty()),
    {
        let profile = UserProfile {
            user_id: String::new(),
            total_amount: 0,
            transaction_count: 0,
            last_transaction_time: None,
            known_devices: Vec::new(),
            known_locations: Vec::new(),
        };
        assert(profile.known_devices.deep_view() =~= Seq::empty());
        assert(profile.known_locations.deep_view() =~= Seq::empty());
        profile
    }
}

impl UserProfile {
    /// Whether the profile is well formed.
    pub fn is_well_formed(&self) -> (valid: bool)
        ensures
            valid == self@.wf(),
    {
        let bound: u128 = (self.transaction_count as u128) * (u64::MAX as u128);
        self.known_devices.len() <= MAX_KNOWN && self.known_locations.len() <= MAX_KNOWN
            && self.total_amount <= bound
    }
}

/// Whether `known` holds `name`.
pub fn contains_name(known: &Vec<String>, name: &String) -> (found: bool)
    ensures
        found == known.deep_view().contains(name@),
{
    let mut i: usize = 0;
    while i < known.len()
        invariant
            i <= known.len(),
            forall|j: int| 0 <= j < i ==> known.deep_view()[j] != name@,
        decreases known.len() - i,
    {
        if known[i] == *name {
            assert(known.deep_view()[i as int] == name@);
            return true;
        }
        i += 1;
    }
    false
}

/// Records `name` in a bounded list, as `remember` says.
pub fn remember_name(known: &mut Vec<String>, name: &String)
    ensures
        final(known).deep_view() == remember(old(known).deep_view(), name@),
{
    if !contains_name(known, name) {
        known.push(name.clone());
        assert(known.deep_view() =~= old(known).deep_view().push(name@));
        if known.len() > MAX_KNOWN {
            let ghost before = known.deep_view();
            known.remove(0);
            assert(known.deep_view() =~= before.remove(0));
        }
    }
}

/// The verdict on one transaction: whether it is taken for fraud, its risk
/// score, and the names of the rules that fired, in rule-set order.
#[derive(Debug, Clone)]
pub struct FraudCheckResult {
    pub is_fraud: bool,
    pub risk_score: RiskScore,
    pub rules_triggered: Vec<String>,
}

/// What the caller is told of one checked transaction: a name for the check,
/// the status and the score that were reached, the names of the rules that
/// fired, and the time the check took in milliseconds.
#[derive(Debug, Clone)]
pub struct TransactionResponse {
    pub transaction_id: String,
    pub status: TransactionStatus,
    pub risk_score: RiskScore,
    pub rules_triggered: Vec<String>,
    pub processing_time_ms: u64,
}

/// The mathematical content of a `FraudCheckResult`.
pub struct FraudCheckView {
    pub is_fraud: bool,
    pub risk_score: RiskScore,
    pub rules_triggered: Seq<Seq<char>>,
}

impl View for FraudCheckResult {
    type V = FraudCheckView;

    open spec fn view(&self) -> FraudCheckView {
        FraudCheckView {
            is_fraud: self.is_fraud,
            risk_score: self.risk_score,
            rules_triggered: self.rules_triggered.deep_view(),
        }
    }
}

} // verus!
