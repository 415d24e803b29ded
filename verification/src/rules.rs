//! The rule set and its evaluation.
//!
//! A rule fires on a transaction, a profile and a recent-transaction count
//! according to its kind. The fired rules, in rule-set order, give the list of
//! triggered names and, by their contributions, the risk score.

use vstd::prelude::*;
use crate::models::{contains_name, ProfileView, RiskScore, Transaction, UserProfile, SCALE};
use crate::wide::{mul_limbs, product_exceeds};

verus! {

/// What a rule looks at.
#[derive(Debug, Clone, Copy, PartialEq, Eq, Structural)]
pub enum RuleType {
    VelocityCheck,
    AmountAnomaly,
    UnknownDevice,
    UnknownLocation,
    HighAmount,
}

/// What a fired rule asks for.
#[derive(Debug, Clone, Copy, PartialEq, Eq, Structural)]
pub enum RuleAction {
    Block,
    Review,
    Alert,
}

/// One configured rule. `threshold` and `risk_score` are in fixed point; what
/// the threshold is compared with depends on `rule_type`. A threshold may be
/// negative, and is then below every count and every amount.
#[derive(Debug, Clone)]
pub struct Rule {
    pub id: String,
    pub name: String,
    pub description: String,
    pub rule_type: RuleType,
    pub threshold: i64,
    pub risk_score: u64,
    pub action: RuleAction,
}

/// A rule set as it is configured.
#[derive(Debug, Clone)]
pub struct RuleConfig {
    pub rules: Vec<Rule>,
}

/// Evaluates a fixed, ordered rule set.
pub struct RuleEngine {
    rules: Vec<Rule>,
}

/// Whether `rule` fires.
///
/// - velocity check: the recent count is above the threshold;
/// - amount anomaly: the profile's average is positive and the amount is
///   above the average times the threshold;
/// - unknown device, unknown location: the profile knows at least one, and
///   not the transaction's;
/// - high amount: the amount is above the threshold.
pub open spec fn rule_fires(
    rule: Rule,
    transaction: Transaction,
    profile: ProfileView,
    recent_tx_count: u64,
) -> bool {
    match rule.rule_type {
        RuleType::VelocityCheck => recent_tx_count * SCALE > rule.threshold,
        RuleType::AmountAnomaly => profile.has_positive_average() && profile.average_times_below(
            rule.threshold as int,
            transaction.amount as nat,
        ),
        RuleType::UnknownDevice => profile.known_devices.len() > 0
            && !profile.known_devices.contains(transaction.device_id@),
        RuleType::UnknownLocation => profile.known_locations.len() > 0
            && !profile.known_locations.contains(transaction.location@),
        RuleType::HighAmount => transaction.amount > rule.threshold,
    }
}

/// `rule_fires` as a predicate on rules.
pub open spec fn firing(
    transaction: Transaction,
    profile: ProfileView,
    recent_tx_count: u64,
) -> spec_fn(Rule) -> bool {
    |rule: Rule| rule_fires(rule, transaction, profile, recent_tx_count)
}

/// The rules of `rules` that fire, in order.
pub open spec fn fired(
    rules: Seq<Rule>,
    transaction: Transaction,
    profile: ProfileView,
    recent_tx_count: u64,
) -> Seq<Rule> {
    rules.filter(firing(transaction, profile, recent_tx_count))
}

/// The sum of the risk contributions of `rules`.
pub open spec fn contribution(rules: Seq<Rule>) -> nat
    decreases rules.len(),
{
    if rules.len() == 0 {
        0
    } else {
        contribution(rules.drop_last()) + rules.last().risk_score as nat
    }
}

/// The names of `rules`, in order.
pub open spec fn names(rules: Seq<Rule>) -> Seq<Seq<char>> {
    rules.map_values(|rule: Rule| rule.name@)
}

/// `index` is the place of the first rule of `rules` that is called `name`.
pub open spec fn first_named(rules: Seq<Rule>, name: Seq<char>, index: int) -> bool {
    &&& 0 <= index < rules.len()
    &&& rules[index].name@ == name
    &&& forall|earlier: int| 0 <= earlier < index ==> (#[trigger] rules[earlier]).name@ != name
}

/// The first rule called `name` exists and asks to block.
pub open spec fn blocks(rules: Seq<Rule>, name: Seq<char>) -> bool {
    exists|index: int| #[trigger]
        first_named(rules, name, index) && rules[index].action == RuleAction::Block
}

/// At least one of `triggered` names a blocking rule.
pub open spec fn any_blocks(rules: Seq<Rule>, triggered: Seq<Seq<char>>) -> bool {
    exists|i: int| 0 <= i < triggered.len() && blocks(rules, #[trigger] triggered[i])
}

proof fn lemma_negative_factor(amount: int, count: int, total: int, factor: int)
    by (nonlinear_arith)
    requires
        0 <= amount,
        0 <= count,
        0 < total,
        factor < 0,
    ensures
        amount * count * 1_000_000 > total * factor,
{
}

proof fn lemma_contribution_push(rules: Seq<Rule>, rule: Rule)
    ensures
        contribution(rules.push(rule)) == contribution(rules) + rule.risk_score,
{
    assert(rules.push(rule).drop_last() =~= rules);
}

/// The score of a rule set that is not empty is the total contribution of the
/// rules that fired, divided by the number of all rules, and one where that
/// quotient is above one.
pub proof fn law_score_is_capped_quotient(
    engine: RuleEngine,
    transaction: Transaction,
    profile: ProfileView,
    recent_tx_count: u64,
)
    requires
        engine@.len() >= 1,
    ensures
        ({
            let total = contribution(fired(engine@, transaction, profile, recent_tx_count));
            let score = RiskScore::normalized(total, engine@.len());
            let whole = SCALE * engine@.len();
            &&& score.wf()
            &&& total <= whole ==> score.is_ratio(total as int, whole)
            &&& total > whole ==> score.is_ratio(1, 1)
        }),
{
    assert(engine.rules.len() <= usize::MAX);
}

/// With no rules nothing fires and the score is zero.
pub proof fn law_empty_rule_set_scores_zero(
    transaction: Transaction,
    profile: ProfileView,
    recent_tx_count: u64,
)
    ensures
        ({
            let hit = fired(Seq::<Rule>::empty(), transaction, profile, recent_tx_count);
            &&& names(hit) == Seq::<Seq<char>>::empty()
            &&& RiskScore::normalized(contribution(hit), 0).is_ratio(0, 1)
            &&& RiskScore::normalized(contribution(hit), 0).numerator == 0
        }),
{
    reveal(Seq::filter);
    let hit = fired(Seq::<Rule>::empty(), transaction, profile, recent_tx_count);
    assert(hit =~= Seq::<Rule>::empty());
    assert(names(hit) =~= Seq::<Seq<char>>::empty());
}

/// A name that no rule has does not call for blocking, and neither does a
/// list of such names.
pub proof fn law_unknown_names_never_block(rules: Seq<Rule>, triggered: Seq<Seq<char>>)
    requires
        forall|i: int, j: int|
            0 <= i < triggered.len() && 0 <= j < rules.len() ==> (#[trigger] rules[j]).name@
                != #[trigger] triggered[i],
    ensures
        !any_blocks(rules, triggered),
{
}

impl View for RuleEngine {
    type V = Seq<Rule>;

    closed spec fn view(&self) -> Seq<Rule> {
        self.rules@
    }
}

impl RuleEngine {
    /// The engine for a configured rule set.
    pub fn from_config(config: RuleConfig) -> (engine: Self)
        ensures
            engine@ == config.rules@,
    {
        RuleEngine { rules: config.rules }
    }

    /// The risk score of a transaction and the names of the rules that fired.
    ///
    /// The score is the sum of the fired rules' contributions divided by the
    /// number of all rules, capped at one; it is zero for the empty rule set.
    pub fn evaluate(
        &self,
        transaction: &Transaction,
        profile: &UserProfile,
        recent_tx_count: u64,
    ) -> (outcome: (RiskScore, Vec<String>))
        ensures
            outcome.0 == RiskScore::normalized(
                contribution(fired(self@, *transaction, profile@, recent_tx_count)),
                self@.len(),
            ),
            outcome.1.deep_view() == names(fired(self@, *transaction, profile@, recent_tx_count)),
            outcome.0.wf(),
    {
        let ghost firing = firing(*transaction, profile@, recent_tx_count);
        let mut total_risk: u128 = 0;
        let mut triggered_rules: Vec<String> = Vec::new();
        let mut i: usize = 0;
        proof {
            reveal(Seq::filter);
            assert(self.rules@.take(0).filter(firing) =~= Seq::<Rule>::empty());
        }
        while i < self.rules.len()
            invariant
                i <= self.rules.len(),
                firing == crate::rules::firing(*transaction, profile@, recent_tx_count),
                total_risk == contribution(self.rules@.take(i as int).filter(firing)),
                total_risk <= i * u64::MAX,
                triggered_rules.deep_view() == names(self.rules@.take(i as int).filter(firing)),
            decreases self.rules.len() - i,
        {
            let rule = &self.rules[i];
            let ghost seen = self.rules@.take(i as int);
            proof {
                self.rules@.lemma_take_succ_push(i as int);
                seen.lemma_filter_push(*rule, firing);
            }
            if self.check_rule(rule, transaction, profile, recent_tx_count) {
                proof {
                    lemma_contribution_push(seen.filter(firing), *rule);
                    seen.filter(firing).lemma_push_map_commute(|rule: Rule| rule.name@, *rule);
                }
                let ghost before = triggered_rules.deep_view();
                total_risk = total_risk + rule.risk_score as u128;
                triggered_rules.push(rule.name.clone());
                assert(triggered_rules.deep_view() =~= before.push(rule.name@));
            }
            i += 1;
        }
        proof {
            self.rules@.lemma_take_len();
        }
        (RiskScore::normalize(total_risk, self.rules.len()), triggered_rules)
    }

    /// Whether `rule` fires.
    pub fn check_rule(
        &self,
        rule: &Rule,
        transaction: &Transaction,
        profile: &UserProfile,
        recent_tx_count: u64,
    ) -> (fires: bool)
        ensures
            fires == rule_fires(*rule, *transaction, profile@, recent_tx_count),
    {
        match rule.rule_type {
            RuleType::VelocityCheck => {
                if rule.threshold < 0 {
                    true
                } else {
                    mul_limbs(recent_tx_count, SCALE) > rule.threshold as u128
                }
            },
            RuleType::AmountAnomaly => {
                if profile.transaction_count > 0 && profile.total_amount > 0 {
                    if rule.threshold < 0 {
                        proof {
                            lemma_negative_factor(
                                transaction.amount as int,
                                profile.transaction_count as int,
                                profile.total_amount as int,
                                rule.threshold as int,
                            );
                        }
                        true
                    } else {
                        let weighted = mul_limbs(transaction.amount, profile.transaction_count);
                        product_exceeds(
                            weighted,
                            SCALE,
                            profile.total_amount,
                            rule.threshold as u64,
                        )
                    }
                } else {
                    false
                }
            },
            RuleType::UnknownDevice => {
                profile.known_devices.len() > 0 && !contains_name(
                    &profile.known_devices,
                    &transaction.device_id,
                )
            },
            RuleType::UnknownLocation => {
                profile.known_locations.len() > 0 && !contains_name(
                    &profile.known_locations,
                    &transaction.location,
                )
            },
            RuleType::HighAmount => {
                if rule.threshold < 0 {
                    true
                } else {
                    transaction.amount > rule.threshold as u64
                }
            },
        }
    }

    /// The place of the first rule called `name`, if there is one.
    fn find_rule(&self, name: &String) -> (found: Option<usize>)
        ensures
            match found {
                Some(index) => first_named(self@, name@, index as int),
                None => forall|index: int| !first_named(self@, name@, index),
            },
    {
        let mut i: usize = 0;
        while i < self.rules.len()
            invariant
                i <= self.rules.len(),
                forall|earlier: int| 0 <= earlier < i ==> (#[trigger] self.rules@[earlier]).name@ != name@,
            decreases self.rules.len() - i,
        {
            if self.rules[i].name == *name {
                return Some(i);
            }
            i += 1;
        }
        None
    }

    /// Whether a triggered list calls for blocking: true if and only if one of
    /// its names is that of a rule, and the first rule of that name has the
    /// action `Block`. A name that no rule has counts for nothing.
    pub fn should_block(&self, triggered_rules: &[String]) -> (block: bool)
        ensures
            block == any_blocks(self@, triggered_rules.deep_view()),
    {
        let ghost triggered = triggered_rules.deep_view();
        let mut i: usize = 0;
        while i < triggered_rules.len()
            invariant
                i <= triggered_rules.len(),
                triggered == triggered_rules.deep_view(),
                forall|j: int| 0 <= j < i ==> !blocks(self@, #[trigger] triggered[j]),
            decreases triggered_rules.len() - i,
        {
            let name = &triggered_rules[i];
            match self.find_rule(name) {
                Some(index) => {
                    if self.rules[index].action == RuleAction::Block {
                        assert(blocks(self@, triggered[i as int]));
                        return true;
                    }
                    assert forall|other: int| #[trigger]
                        first_named(self@, name@, other) implies self@[other].action
                        != RuleAction::Block by {
                        assert(other == index);
                    }
                },
                None => {},
            }
            i += 1;
        }
        false
    }
}

} // verus!
