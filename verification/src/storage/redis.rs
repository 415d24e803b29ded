//! The protocol spoken to the keyed store.
//!
//! The store offers a sorted log per key (add a scored member, remove by
//! score, count by score, expire a key) and plain values (get, set with
//! expiry, increment). `RedisClient` says which commands each operation of the
//! engine sends, in which order and under which key; sending them is left to
//! the caller.

use vstd::prelude::*;
use vstd::string::StringExecFns;
use crate::models::{utc_now, ProfileView, UserProfile};

verus! {

/// How long a stored profile is kept, in seconds: one day.
pub const PROFILE_TTL_SECONDS: u64 = 86_400;

/// How long a user's transaction log is kept after its last entry, in
/// seconds: one hour.
pub const VELOCITY_TTL_SECONDS: i64 = 3_600;

/// One command for the keyed store.
#[derive(Debug, Clone)]
pub enum StoreCommand {
    /// Remove from the sorted log at `key` every member whose score is
    /// strictly below `bound`.
    RemoveScoredBelow { key: String, bound: i64 },
    /// Count the members of the sorted log at `key` whose score lies in
    /// `[min, max]`.
    CountScoredBetween { key: String, min: i64, max: i64 },
    /// Add `member` with `score` to the sorted log at `key`.
    AddScored { key: String, member: String, score: i64 },
    /// Let `key` expire `seconds` from now.
    Expire { key: String, seconds: i64 },
    /// Read the profile stored at `key`.
    Get { key: String },
    /// Store `profile` at `key`, replacing what is there, and let it expire
    /// `lifetime` seconds from now.
    SetWithExpiry { key: String, profile: UserProfile, lifetime: u64 },
    /// Add `delta` to the counter at `key`.
    Increment { key: String, delta: i64 },
}

/// The mathematical content of a `StoreCommand`.
pub enum CommandView {
    RemoveScoredBelow { key: Seq<char>, bound: int },
    CountScoredBetween { key: Seq<char>, min: int, max: int },
    AddScored { key: Seq<char>, member: Seq<char>, score: int },
    Expire { key: Seq<char>, seconds: int },
    Get { key: Seq<char> },
    SetWithExpiry { key: Seq<char>, profile: ProfileView, lifetime: int },
    Increment { key: Seq<char>, delta: int },
}

impl View for StoreCommand {
    type V = CommandView;

    open spec fn view(&self) -> CommandView {
        match *self {
            StoreCommand::RemoveScoredBelow { key, bound } => CommandView::RemoveScoredBelow {
                key: key@,
                bound: bound as int,
            },
            StoreCommand::CountScoredBetween { key, min, max } => CommandView::CountScoredBetween {
                key: key@,
                min: min as int,
                max: max as int,
            },
            StoreCommand::AddScored { key, member, score } => CommandView::AddScored {
                key: key@,
                member: member@,
                score: score as int,
            },
            StoreCommand::Expire { key, seconds } => CommandView::Expire {
                key: key@,
                seconds: seconds as int,
            },
            StoreCommand::Get { key } => CommandView::Get { key: key@ },
            StoreCommand::SetWithExpiry { key, profile, lifetime } => CommandView::SetWithExpiry {
                key: key@,
                profile: profile@,
                lifetime: lifetime as int,
            },
            StoreCommand::Increment { key, delta } => CommandView::Increment {
                key: key@,
                delta: delta as int,
            },
        }
    }
}

/// The contents of a list of commands, in order.
pub open spec fn command_views(commands: Seq<StoreCommand>) -> Seq<CommandView> {
    commands.map_values(|command: StoreCommand| command@)
}

/// The key of a user's transaction log.
pub open spec fn velocity_key(user_id: Seq<char>) -> Seq<char> {
    "user:"@ + user_id + ":txns"@
}

/// The key of a user's stored profile.
pub open spec fn profile_key(user_id: Seq<char>) -> Seq<char> {
    "user:"@ + user_id + ":profile"@
}

/// Whether the window of `window_seconds` that ends at `now` starts at a
/// representable time.
pub open spec fn window_fits(window_seconds: int, now: int) -> bool {
    i64::MIN <= now - window_seconds <= i64::MAX
}

/// The commands that count a user's recent transactions at time `now`: drop
/// what is older than the window, then count what lies in it.
pub open spec fn velocity_query(user_id: Seq<char>, window_seconds: int, now: int) -> Seq<
    CommandView,
> {
    seq![
        CommandView::RemoveScoredBelow { key: velocity_key(user_id), bound: now - window_seconds },
        CommandView::CountScoredBetween {
            key: velocity_key(user_id),
            min: now - window_seconds,
            max: now,
        },
    ]
}

/// The commands that record a transaction at time `now`: add it to the user's
/// log, then renew the log's expiry.
pub open spec fn velocity_record(user_id: Seq<char>, transaction_id: Seq<char>, now: int) -> Seq<
    CommandView,
> {
    seq![
        CommandView::AddScored {
            key: velocity_key(user_id),
            member: transaction_id,
            score: now,
        },
        CommandView::Expire { key: velocity_key(user_id), seconds: VELOCITY_TTL_SECONDS as int },
    ]
}

/// The command that reads a user's profile.
pub open spec fn profile_query(user_id: Seq<char>) -> Seq<CommandView> {
    seq![CommandView::Get { key: profile_key(user_id) }]
}

/// The command that stores a profile, under the key of the user it names.
pub open spec fn profile_update(profile: ProfileView) -> Seq<CommandView> {
    seq![
        CommandView::SetWithExpiry {
            key: profile_key(profile.user_id),
            profile,
            lifetime: PROFILE_TTL_SECONDS as int,
        },
    ]
}

/// The command that adds one to a counter.
pub open spec fn counter_increment(key: Seq<char>) -> Seq<CommandView> {
    seq![CommandView::Increment { key, delta: 1 }]
}

/// The profile that a read of the store stands for: the stored one, or that
/// of a user of whom nothing is known.
pub open spec fn loaded_profile(user_id: Seq<char>, stored: Option<UserProfile>) -> ProfileView {
    match stored {
        Some(profile) => profile@,
        None => ProfileView::fresh(user_id),
    }
}

/// The sorted log that `logs` holds under `key`: each member with its score.
/// A key that holds nothing stands for the empty log.
pub open spec fn log_at(logs: Map<Seq<char>, Map<Seq<char>, int>>, key: Seq<char>) -> Map<
    Seq<char>,
    int,
> {
    if logs.dom().contains(key) {
        logs[key]
    } else {
        Map::empty()
    }
}

/// The sorted logs of a store after it carried out `command`. Expiry is left
/// out: it only ever empties a log that was not written to for an hour.
pub open spec fn logs_after(
    logs: Map<Seq<char>, Map<Seq<char>, int>>,
    command: CommandView,
) -> Map<Seq<char>, Map<Seq<char>, int>> {
    match command {
        CommandView::RemoveScoredBelow { key, bound } => {
            let log = log_at(logs, key);
            logs.insert(key, log.restrict(Set::new(|member: Seq<char>| log[member] >= bound)))
        },
        CommandView::AddScored { key, member, score } => logs.insert(
            key,
            log_at(logs, key).insert(member, score),
        ),
        _ => logs,
    }
}

/// The members of `log` that a count between `min` and `max` counts.
pub open spec fn counted(log: Map<Seq<char>, int>, min: int, max: int) -> Set<Seq<char>> {
    Set::new(|member: Seq<char>| log.dom().contains(member) && min <= log[member] <= max)
}

/// What the count of a velocity query counts, on a store that holds `logs`:
/// the members left in the user's log by the purge whose scores lie in the
/// window.
pub open spec fn velocity_counted(
    logs: Map<Seq<char>, Map<Seq<char>, int>>,
    user_id: Seq<char>,
    window_seconds: int,
    now: int,
) -> Set<Seq<char>> {
    let query = velocity_query(user_id, window_seconds, now);
    counted(
        log_at(logs_after(logs, query[0]), velocity_key(user_id)),
        now - window_seconds,
        now,
    )
}

/// The purge of a velocity query takes nothing away from what is counted
/// after it: the count is that of the user's logged transactions whose
/// scores lie in the window.
pub proof fn law_purge_keeps_the_window(
    logs: Map<Seq<char>, Map<Seq<char>, int>>,
    user_id: Seq<char>,
    window_seconds: int,
    now: int,
)
    ensures
        velocity_counted(logs, user_id, window_seconds, now) == counted(
            log_at(logs, velocity_key(user_id)),
            now - window_seconds,
            now,
        ),
{
    assert(velocity_counted(logs, user_id, window_seconds, now) =~= counted(
        log_at(logs, velocity_key(user_id)),
        now - window_seconds,
        now,
    ));
}

/// Of a user without a log, a velocity query counts nothing.
pub proof fn law_new_user_has_no_recent_transactions(
    logs: Map<Seq<char>, Map<Seq<char>, int>>,
    user_id: Seq<char>,
    window_seconds: int,
    now: int,
)
    requires
        log_at(logs, velocity_key(user_id)) == Map::<Seq<char>, int>::empty(),
    ensures
        velocity_counted(logs, user_id, window_seconds, now) == Set::<Seq<char>>::empty(),
        velocity_counted(logs, user_id, window_seconds, now).len() == 0,
{
    law_purge_keeps_the_window(logs, user_id, window_seconds, now);
    assert(counted(Map::<Seq<char>, int>::empty(), now - window_seconds, now) =~= Set::<
        Seq<char>,
    >::empty());
}

/// A transaction that was recorded is counted by every velocity query of the
/// same user whose window reaches back to the time of the record.
pub proof fn law_recorded_transaction_is_counted(
    logs: Map<Seq<char>, Map<Seq<char>, int>>,
    user_id: Seq<char>,
    transaction_id: Seq<char>,
    recorded_at: int,
    window_seconds: int,
    now: int,
)
    requires
        now - window_seconds <= recorded_at <= now,
    ensures
        velocity_counted(
            logs_after(logs, velocity_record(user_id, transaction_id, recorded_at)[0]),
            user_id,
            window_seconds,
            now,
        ).contains(transaction_id),
{
    let recorded = logs_after(logs, velocity_record(user_id, transaction_id, recorded_at)[0]);
    law_purge_keeps_the_window(recorded, user_id, window_seconds, now);
}

/// A reading of the clock at which a requested window cannot be placed.
#[derive(Debug, Clone, Copy, PartialEq, Eq, Structural)]
pub struct ClockOutOfRange {
    pub now: i64,
}

/// The current time in whole seconds since the Unix epoch.
pub(crate) fn unix_seconds_now() -> (now: i64) {
    utc_now().seconds
}

fn velocity_key_of(user_id: &str) -> (key: String)
    ensures
        key@ == velocity_key(user_id@),
{
    let mut key = String::from_str("user:");
    key.append(user_id);
    key.append(":txns");
    key
}

fn profile_key_of(user_id: &str) -> (key: String)
    ensures
        key@ == profile_key(user_id@),
{
    let mut key = String::from_str("user:");
    key.append(user_id);
    key.append(":profile");
    key
}

/// Plans the commands of each store operation.
#[derive(Debug, Clone, Copy)]
pub struct RedisClient {}

impl RedisClient {
    pub fn new() -> (client: Self)
        ensures
            client == (RedisClient {  }),
    {
        RedisClient {  }
    }

    /// The commands that count the transactions of `user_id` in the
    /// `window_seconds` before `now`.
    pub fn count_recent_transactions_at(
        &self,
        user_id: &str,
        window_seconds: i64,
        now: i64,
    ) -> (commands: Vec<StoreCommand>)
        requires
            window_fits(window_seconds as int, now as int),
        ensures
            command_views(commands@) == velocity_query(
                user_id@,
                window_seconds as int,
                now as int,
            ),
    {
        let min_time: i64 = now - window_seconds;
        let mut commands: Vec<StoreCommand> = Vec::new();
        commands.push(StoreCommand::RemoveScoredBelow { key: velocity_key_of(user_id), bound: min_time });
        commands.push(
            StoreCommand::CountScoredBetween { key: velocity_key_of(user_id), min: min_time, max: now },
        );
        assert(command_views(commands@) =~= velocity_query(
            user_id@,
            window_seconds as int,
            now as int,
        ));
        commands
    }

    /// As `count_recent_transactions_at`, for any reading of the clock: the
    /// commands if the window can be placed before `now`, and else the
    /// reading.
    pub fn count_recent_transactions_on(&self, user_id: &str, window_seconds: i64, now: i64) -> (planned:
        Result<Vec<StoreCommand>, ClockOutOfRange>)
        ensures
            match planned {
                Ok(commands) => window_fits(window_seconds as int, now as int) && command_views(
                    commands@,
                ) == velocity_query(user_id@, window_seconds as int, now as int),
                Err(reading) => !window_fits(window_seconds as int, now as int) && reading.now
                    == now,
            },
    {
        match now.checked_sub(window_seconds) {
            Some(_) => Ok(self.count_recent_transactions_at(user_id, window_seconds, now)),
            None => Err(ClockOutOfRange { now }),
        }
    }

    /// As `count_recent_transactions_on`, for the window that ends now. Fails
    /// with the clock's reading if the window cannot be placed before it.
    pub fn count_recent_transactions(&self, user_id: &str, window_seconds: i64) -> (planned: Result<
        Vec<StoreCommand>,
        ClockOutOfRange,
    >)
        ensures
            match planned {
                Ok(commands) => exists|now: int| #[trigger]
                    window_fits(window_seconds as int, now) && command_views(commands@)
                        == velocity_query(user_id@, window_seconds as int, now),
                Err(reading) => !window_fits(window_seconds as int, reading.now as int),
            },
    {
        let now = unix_seconds_now();
        let planned = self.count_recent_transactions_on(user_id, window_seconds, now);
        assert(planned is Ok ==> window_fits(window_seconds as int, now as int));
        planned
    }

    /// The commands that record the transaction `transaction_id` of `user_id`
    /// at time `now`.
    pub fn add_transaction_at(&self, user_id: &str, transaction_id: &str, now: i64) -> (commands:
        Vec<StoreCommand>)
        ensures
            command_views(commands@) == velocity_record(user_id@, transaction_id@, now as int),
    {
        let mut commands: Vec<StoreCommand> = Vec::new();
        commands.push(
            StoreCommand::AddScored {
                key: velocity_key_of(user_id),
                member: String::from_str(transaction_id),
                score: now,
            },
        );
        commands.push(
            StoreCommand::Expire { key: velocity_key_of(user_id), seconds: VELOCITY_TTL_SECONDS },
        );
        assert(command_views(commands@) =~= velocity_record(
            user_id@,
            transaction_id@,
            now as int,
        ));
        commands
    }

    /// As `add_transaction_at`, at the current time.
    pub fn add_transaction(&self, user_id: &str, transaction_id: &str) -> (commands: Vec<
        StoreCommand,
    >)
        ensures
            exists|now: int| command_views(commands@) == #[trigger] velocity_record(
                user_id@,
                transaction_id@,
                now,
            ),
    {
        let now = unix_seconds_now();
        self.add_transaction_at(user_id, transaction_id, now)
    }

    /// The command that reads the profile of `user_id`.
    pub fn get_user_profile(&self, user_id: &str) -> (commands: Vec<StoreCommand>)
        ensures
            command_views(commands@) == profile_query(user_id@),
    {
        let mut commands: Vec<StoreCommand> = Vec::new();
        commands.push(StoreCommand::Get { key: profile_key_of(user_id) });
        assert(command_views(commands@) =~= profile_query(user_id@));
        commands
    }

    /// The profile to work with after the store was read: what it held, or a
    /// fresh profile for `user_id` if it held none.
    pub fn profile_or_default(&self, user_id: &str, stored: Option<UserProfile>) -> (profile:
        UserProfile)
        ensures
            profile@ == loaded_profile(user_id@, stored),
    {
        match stored {
            Some(profile) => profile,
            None => {
                let mut profile = UserProfile::default();
                profile.user_id = String::from_str(user_id);
                profile
            },
        }
    }

    /// The command that stores `profile`.
    pub fn update_user_profile(&self, profile: UserProfile) -> (commands: Vec<StoreCommand>)
        ensures
            command_views(commands@) == profile_update(profile@),
    {
        let key = profile_key_of(profile.user_id.as_str());
        let mut commands: Vec<StoreCommand> = Vec::new();
        commands.push(StoreCommand::SetWithExpiry { key, profile, lifetime: PROFILE_TTL_SECONDS });
        assert(command_views(commands@) =~= profile_update(profile@));
        commands
    }

    /// The command that adds one to the counter at `key`.
    pub fn increment_counter(&self, key: &str) -> (commands: Vec<StoreCommand>)
        ensures
            command_views(commands@) == counter_increment(key@),
    {
        let mut commands: Vec<StoreCommand> = Vec::new();
        commands.push(StoreCommand::Increment { key: String::from_str(key), delta: 1 });
        assert(command_views(commands@) =~= counter_increment(key@));
        commands
    }
}

} // verus!
