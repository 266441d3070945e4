use vstd::prelude::*;

verus! {

/// Largest admissible treasury fee, in basis points (10%).
pub const MAX_TREASURY_FEE_BPS: u64 = 1000;

/// Denominator of the treasury fee: the fee is `total * fee_bps / FEE_PRECISION`.
pub const FEE_PRECISION: u128 = 10000;

/// Static-until-changed parameters of the engine.
///
/// Addresses are carried as plain, already-verified identity strings: the host
/// is responsible for validating them before they get here.
#[derive(Clone, Debug)]
pub struct Config {
    /// Token in which stakes are posted and payouts are made.
    pub usdc_token: String,
    /// Administrator: configuration, pause and treasury operations.
    pub admin_address: String,
    /// Operator: round lifecycle (tick and genesis) operations.
    pub operator_address: String,
    /// Length of one round, in seconds. Strictly positive.
    pub interval_seconds: u64,
    /// Window before round close during which betting is closed, in seconds.
    /// Strictly shorter than the interval.
    pub buffer_seconds: u64,
    /// Smallest admissible stake. Strictly positive.
    pub min_bet_amount: u128,
    /// Treasury fee in basis points, at most [`MAX_TREASURY_FEE_BPS`].
    pub treasury_fee: u64,
    /// Address of the price oracle.
    pub oracle_address: String,
    /// Identifier of the price feed the oracle is asked for.
    pub btc_price_feed_id: String,
}

/// The parameter bounds that every stored configuration satisfies.
pub open spec fn valid_config(c: Config) -> bool {
    &&& c.interval_seconds > 0
    &&& c.buffer_seconds < c.interval_seconds
    &&& c.min_bet_amount > 0
    &&& c.treasury_fee <= MAX_TREASURY_FEE_BPS
}

/// One betting window. Rounds are numbered from 1 with no gaps and are never
/// deleted.
///
/// A price of `0` means "not yet set": the lock price is recorded when the
/// round locks, the close price when it resolves, and `oracle_called` says
/// that both have been recorded.
#[derive(Clone, Copy, Debug, PartialEq, Eq, Structural)]
pub struct Round {
    pub epoch: u64,
    pub start_timestamp: u64,
    pub lock_timestamp: u64,
    pub close_timestamp: u64,
    pub lock_price: i128,
    pub close_price: i128,
    pub total_amount: u128,
    pub bull_amount: u128,
    pub bear_amount: u128,
    /// Fee skimmed at lock time, subtracted from the pool before distribution.
    pub reward_base_amount: u128,
    /// Kept for reporting; never read by the engine.
    pub reward_amount: u128,
    /// True once the close price has been recorded.
    pub oracle_called: bool,
}

/// The side a participant predicts.
#[derive(Clone, Copy, Debug, PartialEq, Eq, Structural)]
pub enum Position {
    /// Price goes up.
    Bull,
    /// Price goes down.
    Bear,
}

/// A participant's stake in one round. Immutable except for `claimed`, which
/// is set exactly once on a successful claim.
#[derive(Clone, Copy, Debug, PartialEq, Eq, Structural)]
pub struct BetInfo {
    pub position: Position,
    pub amount: u128,
    pub claimed: bool,
}

/// One row of the betting ledger: the bet of `user` on round `epoch`.
#[derive(Clone, Debug)]
pub struct BetEntry {
    pub epoch: u64,
    pub user: String,
    pub bet: BetInfo,
}

/// The epochs one participant has bet in, in the order the bets were placed.
#[derive(Clone, Debug)]
pub struct UserEpochs {
    pub user: String,
    pub epochs: Vec<u64>,
}

/// The whole persistent state of the engine.
#[derive(Clone, Debug)]
pub struct State {
    pub config: Config,
    /// Gates participant- and operator-facing mutations.
    pub paused: bool,
    /// Epoch of the most recently opened round; 0 means genesis has not run.
    pub current_epoch: u64,
    /// Accrued treasury fees, withdrawable by the admin.
    pub treasury: u128,
    /// Round table: `rounds[i]` is the round of epoch `i + 1`.
    pub rounds: Vec<Round>,
    /// Betting ledger: at most one entry per (epoch, user).
    pub ledger: Vec<BetEntry>,
    /// Per-participant round history, for paginated queries.
    pub user_rounds: Vec<UserEpochs>,
}

/// A round exists for `epoch`.
pub open spec fn has_round(s: State, epoch: u64) -> bool {
    1 <= epoch <= s.rounds@.len()
}

/// The round of `epoch` (meaningful only when `has_round` holds).
pub open spec fn round_at(s: State, epoch: u64) -> Round {
    s.rounds@[epoch - 1]
}

/// The ledger entry at index `i` is the bet of `user` on `epoch`.
pub open spec fn bet_key_matches(e: BetEntry, epoch: u64, user: Seq<char>) -> bool {
    e.epoch == epoch && e.user@ == user
}

/// A bet of `user` on `epoch` is recorded.
pub open spec fn has_bet(s: State, epoch: u64, user: Seq<char>) -> bool {
    exists|i: int|
        0 <= i < s.ledger@.len() && #[trigger] bet_key_matches(s.ledger@[i], epoch, user)
}

/// The ledger index of the bet of `user` on `epoch` (meaningful only when
/// `has_bet` holds; unique by well-formedness).
pub open spec fn bet_idx(s: State, epoch: u64, user: Seq<char>) -> int {
    choose|i: int|
        0 <= i < s.ledger@.len() && #[trigger] bet_key_matches(s.ledger@[i], epoch, user)
}

/// The recorded bet of `user` on `epoch`.
pub open spec fn bet_at(s: State, epoch: u64, user: Seq<char>) -> BetInfo {
    s.ledger@[bet_idx(s, epoch, user)].bet
}

/// No value occurs twice.
pub open spec fn distinct_epochs(es: Seq<u64>) -> bool {
    forall|i: int, j: int| 0 <= i < j < es.len() ==> es[i] != es[j]
}

/// A history row exists for `user`.
pub open spec fn has_user(s: State, user: Seq<char>) -> bool {
    exists|i: int| 0 <= i < s.user_rounds@.len() && (#[trigger] s.user_rounds@[i]).user@ == user
}

/// The index of `user`'s history row (meaningful only when `has_user` holds;
/// unique by well-formedness).
pub open spec fn user_idx(s: State, user: Seq<char>) -> int {
    choose|i: int| 0 <= i < s.user_rounds@.len() && (#[trigger] s.user_rounds@[i]).user@ == user
}

/// The epochs `user` has bet in, or the empty sequence.
pub open spec fn user_history(s: State, user: Seq<char>) -> Seq<u64> {
    if has_user(s, user) {
        s.user_rounds@[user_idx(s, user)].epochs@
    } else {
        Seq::<u64>::empty()
    }
}

/// Well-formedness: what holds of the state at rest, after every operation.
pub open spec fn wf(s: State) -> bool {
    &&& valid_config(s.config)
    // Rounds are numbered from 1 with no gaps, and the counter names the last.
    &&& s.rounds@.len() == s.current_epoch
    &&& forall|i: int| 0 <= i < s.rounds@.len() ==> (#[trigger] s.rounds@[i]).epoch == i + 1
    // Betting on a round always closes no later than the round resolves.
    &&& forall|i: int|
        0 <= i < s.rounds@.len() ==> (#[trigger] s.rounds@[i]).lock_timestamp
            <= s.rounds@[i].close_timestamp
    // Conservation: every round's pool splits exactly into the two sides.
    &&& forall|i: int|
        0 <= i < s.rounds@.len() ==> (#[trigger] s.rounds@[i]).total_amount == s.rounds@[i].bull_amount
            + s.rounds@[i].bear_amount
    // At most one bet per (epoch, user), each on an existing round, each positive.
    &&& forall|i: int, j: int|
        0 <= i < j < s.ledger@.len() ==> !((#[trigger] s.ledger@[i]).epoch == (
        #[trigger] s.ledger@[j]).epoch && s.ledger@[i].user@ == s.ledger@[j].user@)
    &&& forall|i: int|
        0 <= i < s.ledger@.len() ==> 1 <= (#[trigger] s.ledger@[i]).epoch <= s.rounds@.len()
            && s.ledger@[i].bet.amount > 0
    // One history row per user; a given epoch appears in it at most once.
    &&& forall|i: int, j: int|
        0 <= i < j < s.user_rounds@.len() ==> (#[trigger] s.user_rounds@[i]).user@ != (
        #[trigger] s.user_rounds@[j]).user@
    &&& forall|i: int|
        0 <= i < s.user_rounds@.len() ==> distinct_epochs((#[trigger] s.user_rounds@[i]).epochs@)
    // A history row names existing rounds only.
    &&& forall|i: int, j: int|
        0 <= i < s.user_rounds@.len() && 0 <= j < s.user_rounds@[i].epochs@.len() ==> 1 <= (
        #[trigger] s.user_rounds@[i].epochs@[j]) <= s.rounds@.len()
}

/// Decides [`wf`] at run time, so that a host that persists a state can check
/// what it loaded before handing it back to the engine.
pub fn check_wf(s: &State) -> (r: bool)
    ensures
        r == wf(*s),
{
    if !(s.config.interval_seconds > 0 && s.config.buffer_seconds < s.config.interval_seconds
        && s.config.min_bet_amount > 0 && s.config.treasury_fee <= MAX_TREASURY_FEE_BPS) {
        return false;
    }
    let nr = s.rounds.len();
    if nr as u64 != s.current_epoch {
        return false;
    }
    let mut i: usize = 0;
    while i < nr
        invariant
            i <= nr,
            nr == s.rounds@.len(),
            forall|k: int| 0 <= k < i ==> (#[trigger] s.rounds@[k]).epoch == k + 1,
            forall|k: int|
                0 <= k < i ==> (#[trigger] s.rounds@[k]).lock_timestamp
                    <= s.rounds@[k].close_timestamp,
            forall|k: int|
                0 <= k < i ==> (#[trigger] s.rounds@[k]).total_amount == s.rounds@[k].bull_amount
                    + s.rounds@[k].bear_amount,
        decreases nr - i,
    {
        let round = &s.rounds[i];
        if round.epoch != (i as u64) + 1 {
            return false;
        }
        if round.lock_timestamp > round.close_timestamp {
            return false;
        }
        let balanced = match round.bull_amount.checked_add(round.bear_amount) {
            Some(t) => t == round.total_amount,
            None => false,
        };
        if !balanced {
            return false;
        }
        i = i + 1;
    }
    let nl = s.ledger.len();
    let mut i: usize = 0;
    while i < nl
        invariant
            i <= nl,
            nl == s.ledger@.len(),
            nr == s.rounds@.len(),
            forall|k: int|
                0 <= k < i ==> 1 <= (#[trigger] s.ledger@[k]).epoch <= s.rounds@.len()
                    && s.ledger@[k].bet.amount > 0,
            forall|k: int, l: int|
                0 <= k < l < i ==> !((#[trigger] s.ledger@[k]).epoch == (
                #[trigger] s.ledger@[l]).epoch && s.ledger@[k].user@ == s.ledger@[l].user@),
        decreases nl - i,
    {
        let entry = &s.ledger[i];
        if entry.epoch == 0 || entry.epoch > nr as u64 || entry.bet.amount == 0 {
            return false;
        }
        let mut j: usize = 0;
        while j < i
            invariant
                j <= i < nl,
                nl == s.ledger@.len(),
                entry == s.ledger@[i as int],
                forall|l: int|
                    0 <= l < j ==> !((#[trigger] s.ledger@[l]).epoch == s.ledger@[i as int].epoch
                        && s.ledger@[l].user@ == s.ledger@[i as int].user@),
            decreases i - j,
        {
            if s.ledger[j].epoch == entry.epoch && s.ledger[j].user == entry.user {
                proof {
                    assert(s.ledger@[j as int].epoch == s.ledger@[i as int].epoch);
                    assert(s.ledger@[j as int].user@ == s.ledger@[i as int].user@);
                    assert(!wf(*s));
                }
                return false;
            }
            j = j + 1;
        }
        i = i + 1;
    }
    let nu = s.user_rounds.len();
    let mut i: usize = 0;
    while i < nu
        invariant
            i <= nu,
            nu == s.user_rounds@.len(),
            nr == s.rounds@.len(),
            forall|k: int, l: int|
                0 <= k < l < i ==> (#[trigger] s.user_rounds@[k]).user@ != (
                #[trigger] s.user_rounds@[l]).user@,
            forall|k: int|
                0 <= k < i ==> distinct_epochs((#[trigger] s.user_rounds@[k]).epochs@),
            forall|k: int, l: int|
                0 <= k < i && 0 <= l < s.user_rounds@[k].epochs@.len() ==> 1 <= (
                #[trigger] s.user_rounds@[k].epochs@[l]) <= s.rounds@.len(),
        decreases nu - i,
    {
        let row = &s.user_rounds[i];
        let mut j: usize = 0;
        while j < i
            invariant
                j <= i < nu,
                nu == s.user_rounds@.len(),
                row == s.user_rounds@[i as int],
                forall|l: int|
                    0 <= l < j ==> (#[trigger] s.user_rounds@[l]).user@ != s.user_rounds@[i as int].user@,
            decreases i - j,
        {
            if s.user_rounds[j].user == row.user {
                proof {
                    assert(s.user_rounds@[j as int].user@ == s.user_rounds@[i as int].user@);
                    assert(!wf(*s));
                }
                return false;
            }
            j = j + 1;
        }
        let ne = row.epochs.len();
        let mut a: usize = 0;
        while a < ne
            invariant
                i < nu,
                nu == s.user_rounds@.len(),
                a <= ne,
                ne == row.epochs@.len(),
                nr == s.rounds@.len(),
                row == s.user_rounds@[i as int],
                forall|k: int| 0 <= k < a ==> 1 <= (#[trigger] row.epochs@[k]) <= s.rounds@.len(),
                forall|k: int, l: int| 0 <= k < l < a ==> row.epochs@[k] != row.epochs@[l],
            decreases ne - a,
        {
            let e = row.epochs[a];
            if e == 0 || e > nr as u64 {
                proof {
                    assert(s.user_rounds@[i as int].epochs@[a as int] == e);
                    assert(!wf(*s));
                }
                return false;
            }
            let mut b: usize = 0;
            while b < a
                invariant
                    i < nu,
                    nu == s.user_rounds@.len(),
                    b <= a < ne,
                    ne == row.epochs@.len(),
                    row == s.user_rounds@[i as int],
                    e == row.epochs@[a as int],
                    forall|l: int| 0 <= l < b ==> row.epochs@[l] != row.epochs@[a as int],
                decreases a - b,
            {
                if row.epochs[b] == e {
                    proof {
                        assert(s.user_rounds@[i as int].epochs@[b as int] == s.user_rounds@[i as int].epochs@[a as int]);
                        assert(!distinct_epochs(s.user_rounds@[i as int].epochs@));
                        assert(!wf(*s));
                    }
                    return false;
                }
                b = b + 1;
            }
            a = a + 1;
        }
        proof {
            assert(distinct_epochs(row.epochs@));
        }
        i = i + 1;
    }
    true
}

/// Linear search of the ledger for the bet of `user` on `epoch`.
pub fn find_bet(ledger: &Vec<BetEntry>, epoch: u64, user: &String) -> (r: Option<usize>)
    ensures
        match r {
            Some(i) => i < ledger@.len() && bet_key_matches(ledger@[i as int], epoch, user@),
            None => forall|i: int|
                0 <= i < ledger@.len() ==> !(#[trigger] bet_key_matches(
                    ledger@[i],
                    epoch,
                    user@,
                )),
        },
{
    let n = ledger.len();
    let mut i: usize = 0;
    while i < n
        invariant
            i <= n,
            n == ledger@.len(),
            forall|k: int| 0 <= k < i ==> !(#[trigger] bet_key_matches(ledger@[k], epoch, user@)),
        decreases n - i,
    {
        let e = &ledger[i];
        if e.epoch == epoch && e.user == *user {
            return Some(i);
        }
        i = i + 1;
    }
    None
}

/// Linear search of the history table for `user`'s row.
pub fn find_user(rows: &Vec<UserEpochs>, user: &String) -> (r: Option<usize>)
    ensures
        match r {
            Some(i) => i < rows@.len() && rows@[i as int].user@ == user@,
            None => forall|i: int| 0 <= i < rows@.len() ==> (#[trigger] rows@[i]).user@ != user@,
        },
{
    let n = rows.len();
    let mut i: usize = 0;
    while i < n
        invariant
            i <= n,
            n == rows@.len(),
            forall|k: int| 0 <= k < i ==> (#[trigger] rows@[k]).user@ != user@,
        decreases n - i,
    {
        if rows[i].user == *user {
            return Some(i);
        }
        i = i + 1;
    }
    None
}

/// Whether `es` contains `epoch`.
pub fn contains_epoch(es: &Vec<u64>, epoch: u64) -> (r: bool)
    ensures
        r == es@.contains(epoch),
{
    let n = es.len();
    let mut i: usize = 0;
    while i < n
        invariant
            i <= n,
            n == es@.len(),
            forall|k: int| 0 <= k < i ==> es@[k] != epoch,
        decreases n - i,
    {
        if es[i] == epoch {
            assert(es@.contains(epoch));
            return true;
        }
        i = i + 1;
    }
    assert(!es@.contains(epoch));
    false
}

/// The index of `epoch` in `es`, if present.
pub fn find_epoch_index(es: &Vec<u64>, epoch: u64) -> (r: Option<usize>)
    ensures
        match r {
            Some(i) => i < es@.len() && es@[i as int] == epoch,
            None => !es@.contains(epoch),
        },
{
    let n = es.len();
    let mut i: usize = 0;
    while i < n
        invariant
            i <= n,
            n == es@.len(),
            forall|k: int| 0 <= k < i ==> es@[k] != epoch,
        decreases n - i,
    {
        if es[i] == epoch {
            return Some(i);
        }
        i = i + 1;
    }
    assert(!es@.contains(epoch));
    None
}

/// Whether `es[0 .. upto]` contains `epoch`.
pub fn contains_epoch_prefix(es: &Vec<u64>, upto: usize, epoch: u64) -> (r: bool)
    requires
        upto <= es@.len(),
    ensures
        r == es@.subrange(0, upto as int).contains(epoch),
{
    let mut i: usize = 0;
    while i < upto
        invariant
            i <= upto,
            upto <= es@.len(),
            forall|k: int| 0 <= k < i ==> es@[k] != epoch,
        decreases upto - i,
    {
        if es[i] == epoch {
            assert(es@.subrange(0, upto as int)[i as int] == epoch);
            return true;
        }
        i = i + 1;
    }
    assert forall|k: int| 0 <= k < upto implies es@.subrange(0, upto as int)[k] != epoch by {
        assert(es@.subrange(0, upto as int)[k] == es@[k]);
    };
    false
}

} // verus!
