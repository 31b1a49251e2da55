use vstd::prelude::*;
use vstd::string::*;

use crate::clock::{
    elapsed_since, seconds_before, span_exceeds, to_wrapped_i64, wrapped_i64, TimeSpan, Timestamp,
    MAX_DELTA_SECS, MAX_UNIX_SECS, MIN_UNIX_SECS,
};
use crate::model::{ApiError, ResultSide};
use crate::text::{decimal, decimal_string};

verus! {

/// Settings of the game timeout daemon.
#[derive(Debug, Clone, Copy, PartialEq, Eq, Structural)]
pub struct TimeoutDaemonConfig {
    /// How often to check for timeouts (in seconds).
    pub check_interval_secs: u64,
    /// Maximum number of games to process in one batch.
    pub batch_size: u64,
    /// Timeout threshold for considering a game idle (in seconds).
    pub idle_threshold_secs: u64,
}

impl Default for TimeoutDaemonConfig {
    fn default() -> (r: Self)
        ensures
            r.check_interval_secs == 30,
            r.batch_size == 100,
            r.idle_threshold_secs == 300,
    {
        TimeoutDaemonConfig { check_interval_secs: 30, batch_size: 100, idle_threshold_secs: 300 }
    }
}

/// What the lifecycle of a daemon shows: its settings and whether it runs.
pub struct DaemonView {
    pub config: TimeoutDaemonConfig,
    pub running: bool,
}

/// A daemon that is not running accepts a start; a running one refuses it.
pub open spec fn start_accepted(v: DaemonView) -> bool {
    !v.running
}

/// After a start, accepted or refused, the daemon runs.
pub open spec fn after_start(v: DaemonView) -> DaemonView {
    DaemonView { running: true, ..v }
}

/// After a stop the daemon does not run.
pub open spec fn after_stop(v: DaemonView) -> DaemonView {
    DaemonView { running: false, ..v }
}

/// The lifecycle of the periodic timeout check: created stopped, started at
/// most once until stopped again.
pub struct GameTimeoutDaemon {
    config: TimeoutDaemonConfig,
    running: bool,
}

impl View for GameTimeoutDaemon {
    type V = DaemonView;

    closed spec fn view(&self) -> DaemonView {
        DaemonView { config: self.config, running: self.running }
    }
}

impl GameTimeoutDaemon {
    /// A daemon with the given settings, not running.
    pub fn new(config: TimeoutDaemonConfig) -> (d: Self)
        ensures
            d@ == (DaemonView { config, running: false }),
    {
        GameTimeoutDaemon { config, running: false }
    }

    /// Marks the daemon running; refused while it already runs.
    pub fn start(&mut self) -> (r: Result<(), ApiError>)
        ensures
            r is Ok <==> start_accepted(old(self)@),
            final(self)@ == after_start(old(self)@),
            r matches Err(e) ==> e matches ApiError::BadRequest(m)
                && m@ == "Timeout daemon is already running"@,
    {
        if self.running {
            return Err(ApiError::BadRequest(String::from_str("Timeout daemon is already running")));
        }
        self.running = true;
        Ok(())
    }

    /// Marks the daemon stopped; the periodic check ends at its next turn.
    pub fn stop(&mut self)
        ensures
            final(self)@ == after_stop(old(self)@),
    {
        self.running = false;
    }

    /// Whether the daemon runs.
    pub fn is_running(&self) -> (r: bool)
        ensures
            r == self@.running,
    {
        self.running
    }

    /// The daemon's settings.
    pub fn config(&self) -> (c: TimeoutDaemonConfig)
        ensures
            c == self@.config,
    {
        self.config
    }
}

/// A daemon that runs refuses a second start until it is stopped.
pub proof fn law_start_is_exclusive(v: DaemonView)
    ensures
        !start_accepted(after_start(v)),
        start_accepted(after_stop(after_start(v))),
{
}

/// A new daemon can be started, and neither start nor stop changes its
/// settings.
pub proof fn law_lifecycle_keeps_config(c: TimeoutDaemonConfig, v: DaemonView)
    ensures
        start_accepted(DaemonView { config: c, running: false }),
        after_start(v).config == v.config,
        after_stop(v).config == v.config,
{
}


/// A call on a daemon that can change whether it runs.
pub enum DaemonCall {
    Start,
    Stop,
}

/// The daemon after the calls, in order, starting from `v`.
pub open spec fn after_calls(v: DaemonView, calls: Seq<DaemonCall>) -> DaemonView
    decreases calls.len(),
{
    if calls.len() == 0 {
        v
    } else {
        let before = after_calls(v, calls.drop_last());
        match calls.last() {
            DaemonCall::Start => after_start(before),
            DaemonCall::Stop => after_stop(before),
        }
    }
}

/// The call at index `i` is a start that was accepted.
pub open spec fn start_accepted_at(v: DaemonView, calls: Seq<DaemonCall>, i: int) -> bool {
    &&& 0 <= i < calls.len()
    &&& calls[i] is Start
    &&& start_accepted(after_calls(v, calls.take(i)))
}

/// No call after index `i` is a stop.
pub open spec fn no_stop_after(calls: Seq<DaemonCall>, i: int) -> bool {
    forall|j: int| i < j < calls.len() ==> !(#[trigger] calls[j] is Stop)
}

/// A new daemon runs after a sequence of starts and stops exactly when one
/// of the starts was accepted and no stop came after it; its settings never
/// change.
pub proof fn law_running_after_calls(c: TimeoutDaemonConfig, calls: Seq<DaemonCall>)
    ensures
        after_calls(DaemonView { config: c, running: false }, calls).config == c,
        after_calls(DaemonView { config: c, running: false }, calls).running <==> exists|i: int|
            #[trigger] start_accepted_at(DaemonView { config: c, running: false }, calls, i)
                && no_stop_after(calls, i),
    decreases calls.len(),
{
    let v = DaemonView { config: c, running: false };
    if calls.len() == 0 {
        return;
    }
    let prefix = calls.drop_last();
    let last = calls.len() - 1;
    law_running_after_calls(c, prefix);
    assert forall|i: int| 0 <= i <= last implies calls.take(i) == prefix.take(i) by {
        assert(calls.take(i) =~= prefix.take(i));
    }
    assert(calls.take(last) =~= prefix);
    match calls.last() {
        DaemonCall::Stop => {
            assert forall|i: int| start_accepted_at(v, calls, i) implies !no_stop_after(calls, i) by {
                assert(i != last);
                assert(calls[last] is Stop);
            }
        },
        DaemonCall::Start => {
            if after_calls(v, prefix).running {
                let i = choose|i: int| #[trigger] start_accepted_at(v, prefix, i) && no_stop_after(prefix, i);
                assert(calls[i] == prefix[i]);
                assert(start_accepted_at(v, calls, i));
                assert forall|j: int| i < j < calls.len() implies !(#[trigger] calls[j] is Stop) by {
                    if j < last {
                        assert(calls[j] == prefix[j]);
                    }
                }
            } else {
                assert(start_accepted_at(v, calls, last));
                assert(no_stop_after(calls, last));
            }
        },
    }
}

/// Games that have run longer than this many seconds are timed out.
pub const MAX_GAME_SECS: i64 = 1800;

/// What the daemon reads of an active game.
pub struct GameClock {
    pub id: uuid::Uuid,
    pub started_at: Timestamp,
}

/// The whole seconds of a span, rounded towards zero, as
/// `TimeDelta::num_seconds` counts them.
pub open spec fn whole_seconds(span: TimeSpan) -> int {
    if span.secs < 0 && span.nanos > 0 {
        span.secs + 1
    } else {
        span.secs as int
    }
}

/// The side declared winner of a timed-out game: white when the whole
/// seconds elapsed are even, black when they are odd.
pub fn timeout_winner(elapsed: TimeSpan) -> (side: ResultSide)
    requires
        elapsed.wf(),
    ensures
        side == (if whole_seconds(elapsed) % 2 == 0 {
            ResultSide::WhiteWins
        } else {
            ResultSide::BlackWins
        }),
{
    let whole: i64 = if elapsed.secs < 0 && elapsed.nanos > 0 {
        elapsed.secs + 1
    } else {
        elapsed.secs
    };
    if whole % 2 == 0 {
        ResultSide::WhiteWins
    } else {
        ResultSide::BlackWins
    }
}

/// The reason recorded for a game that timed out after `minutes` minutes.
pub open spec fn timeout_reason_text(minutes: nat) -> Seq<char> {
    "Game timed out after "@ + decimal(minutes) + " minutes"@
}

/// `format!("Game timed out after {} minutes", minutes)`.
pub fn timeout_reason(minutes: u64) -> (s: String)
    ensures
        s@ == timeout_reason_text(minutes as nat),
{
    let mut s = String::from_str("Game timed out after ");
    let digits = decimal_string(minutes);
    s.append(digits.as_str());
    s.append(" minutes");
    s
}

/// The verdict on a game that has run for `nanos` nanoseconds: after
/// thirty minutes it is timed out, with its winner and reason.
pub open spec fn timeout_verdict(nanos: int) -> Option<(ResultSide, Seq<char>)> {
    if nanos > MAX_GAME_SECS * 1_000_000_000 {
        let secs = nanos / 1_000_000_000;
        Some(
            (
                if secs % 2 == 0 {
                    ResultSide::WhiteWins
                } else {
                    ResultSide::BlackWins
                },
                timeout_reason_text((secs / 60) as nat),
            ),
        )
    } else {
        None
    }
}

proof fn lemma_seconds_of(secs: int, nanos: int)
    requires
        0 <= nanos < 1_000_000_000,
    ensures
        (secs * 1_000_000_000 + nanos) / 1_000_000_000 == secs,
{
    let t = secs * 1_000_000_000 + nanos;
    assert(t / 1_000_000_000 == secs) by (nonlinear_arith)
        requires
            t == secs * 1_000_000_000 + nanos,
            0 <= nanos < 1_000_000_000,
    ;
}

/// A game times out exactly when it has run for more than thirty minutes,
/// and once it has timed out it stays timed out later on.
pub proof fn law_timeout_after_thirty_minutes(elapsed: int, later: int)
    ensures
        timeout_verdict(elapsed) is Some <==> elapsed > 1800 * 1_000_000_000,
        timeout_verdict(elapsed) is Some && elapsed <= later ==> timeout_verdict(later) is Some,
{
}

/// A game that timed out after `secs` whole seconds and `nanos` more is won
/// by white when `secs` is even and by black when it is odd, so one second
/// more hands the win to the other side; its reason gives the whole minutes
/// elapsed.
pub proof fn law_timeout_winner_and_reason(secs: int, nanos: int)
    requires
        0 <= nanos < 1_000_000_000,
        secs * 1_000_000_000 + nanos > 1800 * 1_000_000_000,
    ensures
        timeout_verdict(secs * 1_000_000_000 + nanos) matches Some((winner, reason)) && {
            &&& (winner == ResultSide::WhiteWins <==> secs % 2 == 0)
            &&& (winner == ResultSide::BlackWins <==> secs % 2 == 1)
            &&& reason == "Game timed out after "@ + decimal((secs / 60) as nat) + " minutes"@
        },
        match (
            timeout_verdict(secs * 1_000_000_000 + nanos),
            timeout_verdict((secs + 1) * 1_000_000_000 + nanos),
        ) {
            (Some((winner, _)), Some((next, _))) => winner != next,
            _ => false,
        },
{
    lemma_seconds_of(secs, nanos);
    lemma_seconds_of(secs + 1, nanos);
    assert((secs + 1) * 1_000_000_000 + nanos == secs * 1_000_000_000 + nanos + 1_000_000_000);
}

/// The outcome of a verdict, with the reason seen as characters.
pub open spec fn verdict_view(r: Option<(ResultSide, String)>) -> Option<(ResultSide, Seq<char>)> {
    match r {
        Some((side, reason)) => Some((side, reason@)),
        None => None,
    }
}

/// The time-control records of a game; none are kept, so none reports a
/// timeout.
pub fn check_time_control_table(game_id: uuid::Uuid) -> (r: Option<(ResultSide, String)>)
    ensures
        r is None,
{
    None
}

proof fn lemma_whole_seconds_of_total(span: TimeSpan)
    requires
        span.wf(),
    ensures
        span.total_nanos() / 1_000_000_000 == span.secs,
{
    let t = span.total_nanos();
    assert(t / 1_000_000_000 == span.secs) by (nonlinear_arith)
        requires
            t == span.secs * 1_000_000_000 + span.nanos,
            0 <= span.nanos < 1_000_000_000,
    ;
}

/// Whether a game has timed out at `now`, and if so who wins and why.
pub fn game_timeout_at(now: Timestamp, game: &GameClock) -> (r: Option<(ResultSide, String)>)
    requires
        now.wf(),
        game.started_at.wf(),
    ensures
        verdict_view(r) == timeout_verdict(now.total_nanos() - game.started_at.total_nanos()),
{
    let elapsed = elapsed_since(now, game.started_at);
    if span_exceeds(elapsed, MAX_GAME_SECS) {
        proof {
            lemma_whole_seconds_of_total(elapsed);
        }
        let winner = timeout_winner(elapsed);
        let minutes: u64 = (elapsed.secs / 60) as u64;
        let reason = timeout_reason(minutes);
        return Some((winner, reason));
    }
    check_time_control_table(game.id)
}


/// The parameters of the daemon's search for timed-out games: active games
/// (no result recorded) that started before `cutoff`, at most `limit` of
/// them.
#[derive(Debug, Clone, Copy, PartialEq, Eq, Structural)]
pub struct TimeoutQuery {
    pub cutoff: Timestamp,
    pub limit: u64,
}

/// Whether the search for timed-out games takes `now - idle_threshold_secs`
/// without overflowing the `chrono` ranges.
pub open spec fn cutoff_defined(config: TimeoutDaemonConfig, now: Timestamp) -> bool {
    let back = wrapped_i64(config.idle_threshold_secs);
    &&& -MAX_DELTA_SECS <= back <= MAX_DELTA_SECS
    &&& MIN_UNIX_SECS <= now.secs - back <= MAX_UNIX_SECS
}

/// The search the daemon runs at `now`: the cutoff lies the idle threshold
/// (read as an `i64`) before `now`, the limit is the batch size.
pub fn timeout_query(config: &TimeoutDaemonConfig, now: Timestamp) -> (q: TimeoutQuery)
    requires
        now.wf(),
        cutoff_defined(*config, now),
    ensures
        q.cutoff.wf(),
        q.cutoff.total_nanos() == now.total_nanos() - wrapped_i64(config.idle_threshold_secs)
            * 1_000_000_000,
        q.limit == config.batch_size,
{
    let back = to_wrapped_i64(config.idle_threshold_secs);
    TimeoutQuery { cutoff: seconds_before(now, back), limit: config.batch_size }
}

/// Whether a game row is one the search may return: no result recorded and
/// started before the cutoff.
pub open spec fn is_timeout_candidate(
    q: TimeoutQuery,
    result: Option<ResultSide>,
    started_at: Timestamp,
) -> bool {
    result is None && started_at.total_nanos() < q.cutoff.total_nanos()
}

/// The search returns exactly the active games that have been running for
/// longer than the idle threshold.
pub proof fn law_candidates_are_idle(
    config: TimeoutDaemonConfig,
    now: Timestamp,
    q: TimeoutQuery,
    started_at: Timestamp,
)
    requires
        now.wf(),
        started_at.wf(),
        config.idle_threshold_secs <= MAX_DELTA_SECS,
        cutoff_defined(config, now),
        q.cutoff.total_nanos() == now.total_nanos() - wrapped_i64(config.idle_threshold_secs)
            * 1_000_000_000,
    ensures
        is_timeout_candidate(q, None, started_at) <==> now.total_nanos()
            - started_at.total_nanos() > config.idle_threshold_secs * 1_000_000_000,
{
}

/// What became of one game of a sweep.
#[derive(Debug, Clone, Copy, PartialEq, Eq, Structural)]
pub enum SweepOutcome {
    /// The game had not timed out.
    StillActive,
    /// The game had timed out and its result was recorded.
    Resolved,
    /// The game had timed out but its result was not recorded.
    ResolveFailed,
}

/// What the sweep does with one game: record a timed-out game's result with
/// the winner of the verdict, and leave any other game alone.
pub fn sweep_action(verdict: &Option<(ResultSide, String)>) -> (a: Option<ResultSide>)
    ensures
        a == match verdict {
            Some((winner, _)) => Some(*winner),
            None => None::<ResultSide>,
        },
{
    match verdict {
        Some((winner, _)) => Some(*winner),
        None => None,
    }
}

/// What became of one game of a sweep, from its timeout verdict and, for a
/// timed-out game, the attempt to record its result (`None` when no attempt
/// was made): a game that has not timed out stays active whatever else is
/// reported; a timed-out game counts as resolved only when its result was
/// recorded.
pub fn sweep_outcome(
    verdict: &Option<(ResultSide, String)>,
    resolved: Option<Result<(), ApiError>>,
) -> (o: SweepOutcome)
    ensures
        o == match (verdict, resolved) {
            (None, _) => SweepOutcome::StillActive,
            (Some(_), Some(Ok(()))) => SweepOutcome::Resolved,
            (Some(_), _) => SweepOutcome::ResolveFailed,
        },
{
    match verdict {
        None => SweepOutcome::StillActive,
        Some(_) => match resolved {
            Some(Ok(())) => SweepOutcome::Resolved,
            _ => SweepOutcome::ResolveFailed,
        },
    }
}

/// The number of games a sweep resolved.
pub open spec fn resolved_count(outcomes: Seq<SweepOutcome>) -> nat
    decreases outcomes.len(),
{
    if outcomes.len() == 0 {
        0
    } else {
        resolved_count(outcomes.drop_last()) + if outcomes.last() is Resolved {
            1nat
        } else {
            0nat
        }
    }
}

/// Whether an outcome is a resolved game.
pub open spec fn is_resolved(o: SweepOutcome) -> bool {
    o is Resolved
}

/// A sweep's count goes up by one with each resolved game, whatever came
/// before it, and stays with any other outcome; so it is the number of
/// resolved games among the outcomes.
pub proof fn law_resolved_count_counts(s: Seq<SweepOutcome>, o: SweepOutcome)
    ensures
        resolved_count(s.push(SweepOutcome::Resolved)) == resolved_count(s) + 1,
        !(o is Resolved) ==> resolved_count(s.push(o)) == resolved_count(s),
        resolved_count(Seq::<SweepOutcome>::empty()) == 0,
        resolved_count(s) == s.filter(|x: SweepOutcome| is_resolved(x)).len(),
        resolved_count(s) <= s.len(),
    decreases s.len(),
{
    assert(s.push(SweepOutcome::Resolved).drop_last() =~= s);
    assert(s.push(o).drop_last() =~= s);
    reveal_with_fuel(Seq::filter, 1);
    if s.len() > 0 {
        law_resolved_count_counts(s.drop_last(), o);
    }
}

/// The count a sweep reports: one for each game whose timeout was resolved.
pub fn count_resolved(outcomes: &Vec<SweepOutcome>) -> (n: u64)
    ensures
        n == resolved_count(outcomes@),
        n <= outcomes.len(),
{
    let mut n: u64 = 0;
    let mut i: usize = 0;
    while i < outcomes.len()
        invariant
            i <= outcomes.len(),
            n == resolved_count(outcomes@.take(i as int)),
            n <= i,
        decreases outcomes.len() - i,
    {
        assert(outcomes@.take(i as int + 1).drop_last() =~= outcomes@.take(i as int));
        match outcomes[i] {
            SweepOutcome::Resolved => {
                n = n + 1;
            },
            _ => {},
        }
        i = i + 1;
    }
    assert(outcomes@.take(outcomes.len() as int) =~= outcomes@);
    n
}


/// `chrono::Utc::now()`, read as a `Timestamp`. The current instant comes
/// from the system clock, so nothing ties it to a value; chrono panics when
/// the clock reads before 1970 or beyond its calendar, so an instant that
/// comes back lies at or after the epoch, in range, with its nanoseconds
/// below one second.
#[verifier::external_body]
fn utc_now() -> (t: Timestamp)
    ensures
        t.wf(),
        t.secs >= 0,
{
    let now = chrono::Utc::now();
    Timestamp { secs: now.timestamp(), nanos: now.timestamp_subsec_nanos() }
}

/// `t` is an instant that a read of the clock (`utc_now`) gave back.
pub closed spec fn clock_gave(t: Timestamp) -> bool {
    call_ensures(utc_now, (), t)
}

/// Every instant the clock gives lies in chrono's calendar, at or after the
/// epoch, with its nanoseconds below one second.
pub proof fn law_clock_readings_are_valid(t: Timestamp)
    requires
        clock_gave(t),
    ensures
        t.wf(),
        t.secs >= 0,
{
}

/// Whether a game has timed out now, and if so who wins and why: the
/// verdict of `game_timeout_at` at the very instant this call read from the
/// clock.
pub fn check_game_timeout(game: &GameClock) -> (r: Option<(ResultSide, String)>)
    requires
        game.started_at.wf(),
    ensures
        exists|now: Timestamp|
            #[trigger] clock_gave(now) && now.wf() && now.secs >= 0 && verdict_view(r)
                == timeout_verdict(now.total_nanos() - game.started_at.total_nanos()),
{
    let now = utc_now();
    let r = game_timeout_at(now, game);
    assert(clock_gave(now) && now.wf() && now.secs >= 0 && verdict_view(r) == timeout_verdict(
        now.total_nanos() - game.started_at.total_nanos(),
    ));
    r
}

/// The largest idle threshold for which a search from any instant the clock
/// can give stays in chrono's calendar.
pub const MAX_IDLE_THRESHOLD_SECS: u64 = 8_334_601_315_200;

/// `r` is what the search at `now` comes to: present exactly where the
/// cutoff stays in chrono's ranges, and then the search of `timeout_query`.
pub open spec fn search_at(config: TimeoutDaemonConfig, now: Timestamp, r: Option<TimeoutQuery>) -> bool {
    &&& (r is Some <==> cutoff_defined(config, now))
    &&& (r matches Some(q) ==> {
        &&& q.limit == config.batch_size
        &&& q.cutoff.wf()
        &&& q.cutoff.total_nanos() == now.total_nanos() - wrapped_i64(config.idle_threshold_secs)
            * 1_000_000_000
    })
}

/// A search found at an instant reaches back from it by exactly the idle
/// threshold (for a threshold that fits an `i64`) and takes at most a batch.
pub proof fn law_search_reaches_back(config: TimeoutDaemonConfig, now: Timestamp, q: TimeoutQuery)
    requires
        search_at(config, now, Some(q)),
        config.idle_threshold_secs <= i64::MAX,
    ensures
        now.total_nanos() - q.cutoff.total_nanos() == config.idle_threshold_secs * 1_000_000_000,
        q.limit == config.batch_size,
{
}

/// The search the daemon runs now: the search of `timeout_query` at the
/// instant the clock gave, or `None` exactly where that cutoff would leave
/// chrono's ranges, on which `TimeDelta::seconds` or `DateTime - TimeDelta`
/// panics. Never `None` for an idle threshold up to
/// `MAX_IDLE_THRESHOLD_SECS`.
pub fn current_timeout_query(config: &TimeoutDaemonConfig) -> (r: Option<TimeoutQuery>)
    ensures
        config.idle_threshold_secs <= MAX_IDLE_THRESHOLD_SECS ==> r is Some,
        exists|now: Timestamp|
            #[trigger] clock_gave(now) && now.wf() && now.secs >= 0 && search_at(*config, now, r),
{
    let now = utc_now();
    let r = timeout_search(config, now);
    assert(clock_gave(now) && now.wf() && now.secs >= 0 && search_at(*config, now, r));
    r
}

/// The search the daemon runs at `now`, or `None` exactly where its cutoff
/// would leave chrono's ranges.
pub fn timeout_search(config: &TimeoutDaemonConfig, now: Timestamp) -> (r: Option<TimeoutQuery>)
    requires
        now.wf(),
    ensures
        search_at(*config, now, r),
{
    let back = to_wrapped_i64(config.idle_threshold_secs);
    if back < -MAX_DELTA_SECS || back > MAX_DELTA_SECS || now.secs - back < MIN_UNIX_SECS
        || now.secs - back > MAX_UNIX_SECS {
        None
    } else {
        Some(timeout_query(config, now))
    }
}

} // verus!
