//! The evaluation of one transaction.
//!
//! `FraudEngine::check_transaction` decides on a transaction from the user's
//! profile and recent-transaction count, and brings the profile up to date.
//! Around it, `begin` and `step` lead an evaluation through the store: each
//! says which commands to send next, and takes the store's reply to them. No
//! verdict is handed out unless every command before it succeeded, except the
//! last, which only counts the verdict.

use vstd::prelude::*;
use crate::models::{
    law_remember_keeps_bound, remember_name, FraudCheckResult, FraudCheckView, ProfileView, RiskScore, Transaction,
    TransactionResponse, TransactionStatus, UserProfile,
};
use crate::rules::{any_blocks, contribution, fired, names, Rule, RuleEngine};
use crate::storage::redis::{
    command_views, counter_increment, loaded_profile, profile_query, profile_update,
    unix_seconds_now, velocity_query, velocity_record, window_fits, ClockOutOfRange, CommandView,
    RedisClient, StoreCommand,
};

verus! {

/// The length of the window in which recent transactions are counted.
pub const WINDOW_SECONDS: i64 = 60;

/// The verdict on a transaction: the fired rules give the names and the
/// score, and the transaction is taken for fraud if one of the names calls
/// for blocking or the score is above 0.7.
pub open spec fn verdict(
    rules: Seq<Rule>,
    transaction: Transaction,
    profile: ProfileView,
    recent_tx_count: u64,
) -> FraudCheckView {
    let hit = fired(rules, transaction, profile, recent_tx_count);
    let score = RiskScore::normalized(contribution(hit), rules.len());
    FraudCheckView {
        is_fraud: any_blocks(rules, names(hit)) || score.above(7, 10),
        risk_score: score,
        rules_triggered: names(hit),
    }
}

/// How a result is classified. Fraud is blocked; anything else is set aside
/// as `Review` if the score is above 0.5, and approved if it is not.
pub open spec fn classify(result: FraudCheckView) -> TransactionStatus {
    if result.is_fraud {
        TransactionStatus::Blocked
    } else if result.risk_score.above(1, 2) {
        TransactionStatus::Review
    } else {
        TransactionStatus::Approved
    }
}

/// A score above 0.7 is always taken for fraud, so a result is blocked exactly
/// if it is taken for fraud, set aside exactly if it is not and its score is
/// above 0.5 (and then at most 0.7), and approved exactly if it is not and its
/// score is at most 0.5.
pub proof fn law_classification_bands(
    rules: Seq<Rule>,
    transaction: Transaction,
    profile: ProfileView,
    recent_tx_count: u64,
)
    ensures
        ({
            let result = verdict(rules, transaction, profile, recent_tx_count);
            let score = result.risk_score;
            &&& score.above(7, 10) ==> result.is_fraud
            &&& classify(result) == TransactionStatus::Blocked <==> result.is_fraud
            &&& classify(result) == TransactionStatus::Review <==> !result.is_fraud && score.above(
                1,
                2,
            ) && !score.above(7, 10)
            &&& classify(result) == TransactionStatus::Approved <==> !result.is_fraud
                && !score.above(1, 2)
        }),
{
}

/// The counter that a verdict is counted in.
pub open spec fn counter_key(is_fraud: bool) -> Seq<char> {
    if is_fraud {
        "fraud:blocked:total"@
    } else {
        "fraud:approved:total"@
    }
}

/// Why an evaluation ended without a verdict.
#[derive(Debug, Clone, Copy, PartialEq, Eq, Structural)]
pub enum EngineError {
    /// The store could not be reached.
    StoreUnavailable,
    /// What the store held could not be read as a profile, or is no
    /// well-formed profile that can take one more transaction.
    Serialization,
    /// The reply does not answer the commands that were sent.
    UnexpectedReply,
}

/// The store's reply to the commands of one step.
#[derive(Debug, Clone)]
pub enum StoreReply {
    /// The profile that was read, if the key held one.
    Profile(Option<UserProfile>),
    /// The number that was counted.
    Count(u64),
    /// The commands were carried out and have nothing to report.
    Done,
    /// A command could not be sent or was not answered.
    Unavailable,
    /// The store answered with data that could not be read.
    Malformed,
}

/// What to do next in an evaluation.
#[derive(Debug)]
pub enum EngineStep {
    /// Send these commands in order, stop at the first that fails, and come
    /// back with the reply.
    Send(Vec<StoreCommand>),
    /// The evaluation is over.
    Finish(Result<FraudCheckResult, EngineError>),
}

/// The mathematical content of an `EngineStep`.
pub enum StepView {
    Send(Seq<CommandView>),
    Finish(Result<FraudCheckView, EngineError>),
}

impl View for EngineStep {
    type V = StepView;

    open spec fn view(&self) -> StepView {
        match *self {
            EngineStep::Send(commands) => StepView::Send(command_views(commands@)),
            EngineStep::Finish(outcome) => StepView::Finish(
                match outcome {
                    Ok(result) => Ok(result@),
                    Err(error) => Err(error),
                },
            ),
        }
    }
}

#[derive(Debug)]
enum Phase {
    LoadingProfile,
    CountingRecent { profile: UserProfile },
    SavingProfile { result: FraudCheckResult },
    Recording { result: FraudCheckResult },
    Counting { result: FraudCheckResult },
    Finished,
}

/// How far an evaluation has come.
pub enum PhaseView {
    /// The profile was asked for.
    LoadingProfile,
    /// The recent transactions are being counted; `profile` is what the
    /// store holds of the user.
    CountingRecent { profile: ProfileView },
    /// The verdict is reached, and the updated profile is being stored.
    SavingProfile { result: FraudCheckView },
    /// The transaction is being added to the user's log.
    Recording { result: FraudCheckView },
    /// The verdict is being counted.
    Counting { result: FraudCheckView },
    /// Nothing is left to do.
    Finished,
}

/// An evaluation under way.
#[derive(Debug)]
pub struct Evaluation {
    phase: Phase,
}

impl View for Evaluation {
    type V = PhaseView;

    closed spec fn view(&self) -> PhaseView {
        match self.phase {
            Phase::LoadingProfile => PhaseView::LoadingProfile,
            Phase::CountingRecent { profile } => PhaseView::CountingRecent { profile: profile@ },
            Phase::SavingProfile { result } => PhaseView::SavingProfile { result: result@ },
            Phase::Recording { result } => PhaseView::Recording { result: result@ },
            Phase::Counting { result } => PhaseView::Counting { result: result@ },
            Phase::Finished => PhaseView::Finished,
        }
    }
}

impl Evaluation {
    #[verifier::type_invariant]
    spec fn profile_is_usable(self) -> bool {
        match self.phase {
            Phase::CountingRecent { profile } => profile@.wf() && profile@.has_room(),
            _ => true,
        }
    }

    /// Whether the next step places the window of recent transactions.
    fn places_window(&self) -> (places: bool)
        ensures
            places == (self@ is LoadingProfile),
    {
        match self.phase {
            Phase::LoadingProfile => true,
            _ => false,
        }
    }

    /// Whether the next step logs the transaction.
    fn logs_transaction(&self) -> (logs: bool)
        ensures
            logs == (self@ is SavingProfile),
    {
        match self.phase {
            Phase::SavingProfile { .. } => true,
            _ => false,
        }
    }
}

/// The error that ends an evaluation on a reply that is not the awaited one.
pub open spec fn refusal(reply: StoreReply) -> EngineError {
    match reply {
        StoreReply::Unavailable => EngineError::StoreUnavailable,
        StoreReply::Malformed => EngineError::Serialization,
        _ => EngineError::UnexpectedReply,
    }
}

/// The end of an evaluation without a verdict.
pub open spec fn failed(error: EngineError) -> (PhaseView, StepView) {
    (PhaseView::Finished, StepView::Finish(Err(error)))
}

/// One step of an evaluation: from where it stands and the store's reply, to
/// where it stands next and what to do. `now` is the time of the step and
/// `transaction_id` the name under which the transaction is logged.
///
/// - The profile read (or a fresh one, if the store held none) must be well
///   formed with room for one more transaction; then the recent transactions
///   are counted.
/// - The count gives the verdict and the updated profile, which is stored.
/// - Then the transaction is logged, then the verdict is counted.
/// - Whatever is replied to the counting, the verdict is handed out.
/// - Before that, any other reply ends the evaluation with an error.
pub open spec fn next_step(
    rules: Seq<Rule>,
    transaction: Transaction,
    phase: PhaseView,
    reply: StoreReply,
    now: int,
    transaction_id: Seq<char>,
) -> (PhaseView, StepView) {
    match phase {
        PhaseView::LoadingProfile => match reply {
            StoreReply::Profile(stored) => {
                let profile = loaded_profile(transaction.user_id@, stored);
                if profile.wf() && profile.has_room() {
                    (
                        PhaseView::CountingRecent { profile },
                        StepView::Send(
                            velocity_query(transaction.user_id@, WINDOW_SECONDS as int, now),
                        ),
                    )
                } else {
                    failed(EngineError::Serialization)
                }
            },
            _ => failed(refusal(reply)),
        },
        PhaseView::CountingRecent { profile } => match reply {
            StoreReply::Count(recent_tx_count) => (
                PhaseView::SavingProfile {
                    result: verdict(rules, transaction, profile, recent_tx_count),
                },
                StepView::Send(profile_update(profile.after(transaction))),
            ),
            _ => failed(refusal(reply)),
        },
        PhaseView::SavingProfile { result } => match reply {
            StoreReply::Done => (
                PhaseView::Recording { result },
                StepView::Send(velocity_record(transaction.user_id@, transaction_id, now)),
            ),
            _ => failed(refusal(reply)),
        },
        PhaseView::Recording { result } => match reply {
            StoreReply::Done => (
                PhaseView::Counting { result },
                StepView::Send(counter_increment(counter_key(result.is_fraud))),
            ),
            _ => failed(refusal(reply)),
        },
        PhaseView::Counting { result } => (PhaseView::Finished, StepView::Finish(Ok(result))),
        PhaseView::Finished => failed(EngineError::UnexpectedReply),
    }
}

/// An evaluation whose commands all succeed hands out, after the fifth reply,
/// the verdict on the transaction: the one reached on the profile that was
/// read (a fresh one if the store held none) and on the number that was
/// counted. The fifth reply, to the counting of the verdict, may be any.
pub proof fn law_evaluation_hands_out_the_verdict(
    rules: Seq<Rule>,
    transaction: Transaction,
    stored: Option<UserProfile>,
    recent_tx_count: u64,
    last_reply: StoreReply,
    read_at: int,
    logged_at: int,
    transaction_id: Seq<char>,
)
    requires
        loaded_profile(transaction.user_id@, stored).wf(),
        loaded_profile(transaction.user_id@, stored).has_room(),
    ensures
        ({
            let profile = loaded_profile(transaction.user_id@, stored);
            let result = verdict(rules, transaction, profile, recent_tx_count);
            let read = next_step(
                rules,
                transaction,
                PhaseView::LoadingProfile,
                StoreReply::Profile(stored),
                read_at,
                transaction_id,
            );
            let counted = next_step(
                rules,
                transaction,
                read.0,
                StoreReply::Count(recent_tx_count),
                read_at,
                transaction_id,
            );
            let saved = next_step(
                rules,
                transaction,
                counted.0,
                StoreReply::Done,
                logged_at,
                transaction_id,
            );
            let logged = next_step(
                rules,
                transaction,
                saved.0,
                StoreReply::Done,
                logged_at,
                transaction_id,
            );
            let ended = next_step(
                rules,
                transaction,
                logged.0,
                last_reply,
                logged_at,
                transaction_id,
            );
            &&& read.1 == StepView::Send(
                velocity_query(transaction.user_id@, WINDOW_SECONDS as int, read_at),
            )
            &&& counted.1 == StepView::Send(profile_update(profile.after(transaction)))
            &&& saved.1 == StepView::Send(
                velocity_record(transaction.user_id@, transaction_id, logged_at),
            )
            &&& logged.1 == StepView::Send(counter_increment(counter_key(result.is_fraud)))
            &&& ended == (PhaseView::Finished, StepView::Finish(Ok(result)))
        }),
{
}

/// Before the verdict is counted, a reply other than the awaited one ends
/// the evaluation without a verdict, and nothing more is sent: a verdict is
/// handed out only by the step that follows the counting.
pub proof fn law_no_verdict_without_every_reply(
    rules: Seq<Rule>,
    transaction: Transaction,
    phase: PhaseView,
    reply: StoreReply,
    now: int,
    transaction_id: Seq<char>,
)
    ensures
        ({
            let next = next_step(rules, transaction, phase, reply, now, transaction_id);
            let handed_out = next.1 is Finish && next.1->Finish_0 is Ok;
            let given_up = next.1 is Finish && next.1->Finish_0 is Err;
            &&& handed_out ==> phase is Counting && next.1->Finish_0->Ok_0
                == phase->Counting_result
            &&& (reply is Unavailable || reply is Malformed) && !(phase is Counting) ==> given_up
            &&& next.1 is Finish ==> next.0 is Finished
        }),
{
}

/// A fresh name: a random version-4 UUID from `uuid::Uuid::new_v4`, written
/// in the hyphenated form that `to_string` gives, which is always 36
/// characters long.
#[verifier::external_body]
fn fresh_transaction_id() -> (id: String)
    ensures
        id@.len() == 36,
{
    uuid::Uuid::new_v4().to_string()
}

fn give_up(error: EngineError) -> (ended: (Evaluation, EngineStep))
    ensures
        (ended.0@, ended.1@) == failed(error),
{
    (Evaluation { phase: Phase::Finished }, EngineStep::Finish(Err(error)))
}

fn refuse(reply: StoreReply) -> (ended: (Evaluation, EngineStep))
    ensures
        (ended.0@, ended.1@) == failed(refusal(reply)),
{
    match reply {
        StoreReply::Unavailable => give_up(EngineError::StoreUnavailable),
        StoreReply::Malformed => give_up(EngineError::Serialization),
        _ => give_up(EngineError::UnexpectedReply),
    }
}

/// Scores transactions against a rule set and plans the store traffic of
/// each evaluation.
pub struct FraudEngine {
    redis: RedisClient,
    rule_engine: RuleEngine,
}

impl FraudEngine {
    /// The rule set that the engine evaluates.
    pub closed spec fn rules(&self) -> Seq<Rule> {
        self.rule_engine@
    }

    pub fn new(redis: RedisClient, rule_engine: RuleEngine) -> (engine: Self)
        ensures
            engine.rules() == rule_engine@,
    {
        FraudEngine { redis, rule_engine }
    }

    /// Decides on `transaction`, given the user's profile and the number of
    /// their recent transactions, and counts the transaction into the profile.
    /// The verdict is reached on the profile as it was before.
    pub fn check_transaction(
        &self,
        transaction: &Transaction,
        profile: &mut UserProfile,
        recent_tx_count: u64,
    ) -> (result: FraudCheckResult)
        requires
            old(profile)@.can_take(*transaction),
        ensures
            result@ == verdict(self.rules(), *transaction, old(profile)@, recent_tx_count),
            result.risk_score.wf(),
            result.risk_score.above(7, 10) ==> result.is_fraud,
            final(profile)@ == old(profile)@.after(*transaction),
            final(profile).total_amount == old(profile).total_amount + transaction.amount,
            final(profile).transaction_count == old(profile).transaction_count + 1,
            old(profile)@.lists_bounded() ==> final(profile)@.lists_bounded(),
            old(profile)@.wf() ==> final(profile)@.wf(),
    {
        let (risk_score, rules_triggered) = self.rule_engine.evaluate(
            transaction,
            profile,
            recent_tx_count,
        );
        let triggered = rules_triggered.as_slice();
        assert(triggered.deep_view() =~= rules_triggered.deep_view());
        let is_fraud = self.rule_engine.should_block(triggered) || risk_score.exceeds(7, 10);
        self.update_profile(profile, transaction);
        FraudCheckResult { is_fraud, risk_score, rules_triggered }
    }

    /// Counts `transaction` into `profile`: its amount into the total, itself
    /// into the count, its time as the last, and its device and location into
    /// the lists of known ones.
    pub fn update_profile(&self, profile: &mut UserProfile, transaction: &Transaction)
        requires
            old(profile)@.can_take(*transaction),
        ensures
            final(profile)@ == old(profile)@.after(*transaction),
            final(profile).total_amount == old(profile).total_amount + transaction.amount,
            final(profile).transaction_count == old(profile).transaction_count + 1,
            old(profile)@.lists_bounded() ==> final(profile)@.lists_bounded(),
            old(profile)@.wf() ==> final(profile)@.wf(),
    {
        proof {
            if old(profile)@.lists_bounded() {
                law_remember_keeps_bound(old(profile)@.known_devices, transaction.device_id@);
                law_remember_keeps_bound(old(profile)@.known_locations, transaction.location@);
            }
        }
        profile.total_amount = profile.total_amount + transaction.amount as u128;
        profile.transaction_count = profile.transaction_count + 1;
        profile.last_transaction_time = Some(transaction.timestamp);
        remember_name(&mut profile.known_devices, &transaction.device_id);
        remember_name(&mut profile.known_locations, &transaction.location);
    }

    /// The status that a verdict stands for.
    pub fn determine_status(&self, result: &FraudCheckResult) -> (status: TransactionStatus)
        ensures
            status == classify(result@),
    {
        if result.is_fraud {
            TransactionStatus::Blocked
        } else if result.risk_score.exceeds(1, 2) {
            TransactionStatus::Review
        } else {
            TransactionStatus::Approved
        }
    }

    /// What the caller is told of a verdict that took `processing_time_ms` to
    /// reach: its status, score and rule names, under a fresh random name.
    pub fn respond(&self, result: FraudCheckResult, processing_time_ms: u64) -> (response:
        TransactionResponse)
        ensures
            response.status == classify(result@),
            response.risk_score == result.risk_score,
            response.rules_triggered.deep_view() == result@.rules_triggered,
            response.processing_time_ms == processing_time_ms,
            response.transaction_id@.len() == 36,
    {
        let status = self.determine_status(&result);
        TransactionResponse {
            transaction_id: fresh_transaction_id(),
            status,
            risk_score: result.risk_score,
            rules_triggered: result.rules_triggered,
            processing_time_ms,
        }
    }

    /// Starts the evaluation of `transaction`: the user's profile is asked
    /// for.
    pub fn begin(&self, transaction: &Transaction) -> (started: (Evaluation, EngineStep))
        ensures
            started.0@ == PhaseView::LoadingProfile,
            started.1@ == StepView::Send(profile_query(transaction.user_id@)),
    {
        let commands = self.redis.get_user_profile(transaction.user_id.as_str());
        (Evaluation { phase: Phase::LoadingProfile }, EngineStep::Send(commands))
    }

    /// Takes an evaluation one step further, as `next_step` says, at the time
    /// `now` and with `transaction_id` as the name to log the transaction
    /// under.
    pub fn step_at(
        &self,
        transaction: &Transaction,
        state: Evaluation,
        reply: StoreReply,
        now: i64,
        transaction_id: &str,
    ) -> (next: (Evaluation, EngineStep))
        requires
            state@ is LoadingProfile ==> window_fits(WINDOW_SECONDS as int, now as int),
        ensures
            (next.0@, next.1@) == next_step(
                self.rules(),
                *transaction,
                state@,
                reply,
                now as int,
                transaction_id@,
            ),
    {
        proof {
            use_type_invariant(&state);
        }
        match state.phase {
            Phase::LoadingProfile => match reply {
                StoreReply::Profile(stored) => {
                    let user_id = transaction.user_id.as_str();
                    let profile = self.redis.profile_or_default(user_id, stored);
                    if profile.is_well_formed() && profile.transaction_count < u64::MAX {
                        let commands = self.redis.count_recent_transactions_at(
                            user_id,
                            WINDOW_SECONDS,
                            now,
                        );
                        (
                            Evaluation { phase: Phase::CountingRecent { profile } },
                            EngineStep::Send(commands),
                        )
                    } else {
                        give_up(EngineError::Serialization)
                    }
                },
                other => refuse(other),
            },
            Phase::CountingRecent { profile } => match reply {
                StoreReply::Count(recent_tx_count) => {
                    let mut profile = profile;
                    let result = self.check_transaction(transaction, &mut profile, recent_tx_count);
                    let commands = self.redis.update_user_profile(profile);
                    (Evaluation { phase: Phase::SavingProfile { result } }, EngineStep::Send(commands))
                },
                other => refuse(other),
            },
            Phase::SavingProfile { result } => match reply {
                StoreReply::Done => {
                    let commands = self.redis.add_transaction_at(
                        transaction.user_id.as_str(),
                        transaction_id,
                        now,
                    );
                    (Evaluation { phase: Phase::Recording { result } }, EngineStep::Send(commands))
                },
                other => refuse(other),
            },
            Phase::Recording { result } => match reply {
                StoreReply::Done => {
                    let key = if result.is_fraud {
                        "fraud:blocked:total"
                    } else {
                        "fraud:approved:total"
                    };
                    let commands = self.redis.increment_counter(key);
                    (Evaluation { phase: Phase::Counting { result } }, EngineStep::Send(commands))
                },
                other => refuse(other),
            },
            Phase::Counting { result } => (
                Evaluation { phase: Phase::Finished },
                EngineStep::Finish(Ok(result)),
            ),
            Phase::Finished => give_up(EngineError::UnexpectedReply),
        }
    }

    /// Takes an evaluation one step further, as `step_at` does, for any
    /// reading of the clock. Where the window of recent transactions is to be
    /// placed and cannot be placed before `now`, nothing is done and the
    /// reading is handed back.
    pub fn step_on(
        &self,
        transaction: &Transaction,
        state: Evaluation,
        reply: StoreReply,
        now: i64,
        transaction_id: &str,
    ) -> (next: Result<(Evaluation, EngineStep), ClockOutOfRange>)
        ensures
            match next {
                Ok(reached) => (state@ is LoadingProfile ==> window_fits(
                    WINDOW_SECONDS as int,
                    now as int,
                )) && (reached.0@, reached.1@) == next_step(
                    self.rules(),
                    *transaction,
                    state@,
                    reply,
                    now as int,
                    transaction_id@,
                ),
                Err(reading) => state@ is LoadingProfile && !window_fits(
                    WINDOW_SECONDS as int,
                    now as int,
                ) && reading.now == now,
            },
    {
        if state.places_window() && now < i64::MIN + WINDOW_SECONDS {
            Err(ClockOutOfRange { now })
        } else {
            Ok(self.step_at(transaction, state, reply, now, transaction_id))
        }
    }

    /// Takes an evaluation one step further, as `step_on` does, at the current
    /// time and with a fresh random name for the transaction. Fails with the
    /// clock's reading if the window of recent transactions is to be placed
    /// and cannot be placed before that time.
    pub fn step(&self, transaction: &Transaction, state: Evaluation, reply: StoreReply) -> (next:
        Result<(Evaluation, EngineStep), ClockOutOfRange>)
        ensures
            match next {
                Ok(reached) => exists|now: int, transaction_id: Seq<char>|
                    (reached.0@, reached.1@) == #[trigger] next_step(
                        self.rules(),
                        *transaction,
                        state@,
                        reply,
                        now,
                        transaction_id,
                    ),
                Err(reading) => state@ is LoadingProfile && !window_fits(
                    WINDOW_SECONDS as int,
                    reading.now as int,
                ),
            },
    {
        let logs_transaction = state.logs_transaction();
        let now: i64 = if state.places_window() || logs_transaction {
            unix_seconds_now()
        } else {
            0
        };
        let transaction_id = if logs_transaction {
            fresh_transaction_id()
        } else {
            String::new()
        };
        self.step_on(transaction, state, reply, now, transaction_id.as_str())
    }
}

} // verus!
