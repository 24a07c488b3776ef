//! Per-user counters: the arithmetic of one increment or decrement, and the
//! leaderboard shown to a user. The counts themselves live in a store kept
//! by the caller, which runs each step inside one transaction.
use vstd::prelude::*;

verus! {

/// Why a count could not change.
#[derive(Clone, Copy, Debug, PartialEq, Eq, Structural)]
pub enum CountError {
    /// The count is at the largest value a count can hold.
    Overflow,
    /// The count is zero.
    Underflow,
}

/// The count a store holds for a user; no record reads as zero.
pub open spec fn count_of(stored: Option<u64>) -> nat {
    match stored {
        Some(c) => c as nat,
        None => 0,
    }
}

/// The new count after an increment, or the error when none fits.
pub open spec fn increment_result(stored: Option<u64>) -> Result<u64, CountError> {
    if count_of(stored) < u64::MAX {
        Ok((count_of(stored) + 1) as u64)
    } else {
        Err(CountError::Overflow)
    }
}

/// The new count after a decrement, or the error when the count is zero.
pub open spec fn decrement_result(stored: Option<u64>) -> Result<u64, CountError> {
    if count_of(stored) > 0 {
        Ok((count_of(stored) - 1) as u64)
    } else {
        Err(CountError::Underflow)
    }
}

/// The count after an increment of the count `stored`.
pub fn incremented(stored: Option<u64>) -> (r: Result<u64, CountError>)
    ensures
        r == increment_result(stored),
{
    let count: u64 = match stored {
        Some(c) => c,
        None => 0,
    };
    if count < u64::MAX {
        Ok(count + 1)
    } else {
        Err(CountError::Overflow)
    }
}

/// The count after a decrement of the count `stored`.
pub fn decremented(stored: Option<u64>) -> (r: Result<u64, CountError>)
    ensures
        r == decrement_result(stored),
{
    let count: u64 = match stored {
        Some(c) => c,
        None => 0,
    };
    if count > 0 {
        Ok(count - 1)
    } else {
        Err(CountError::Underflow)
    }
}

/// The record after `n` increments, one after another, of the record
/// `stored`; each writes back the count it returned.
pub open spec fn after_increments(stored: Option<u64>, n: nat) -> Option<u64>
    decreases n,
{
    if n == 0 {
        stored
    } else {
        match increment_result(after_increments(stored, (n - 1) as nat)) {
            Ok(c) => Some(c),
            Err(_) => after_increments(stored, (n - 1) as nat),
        }
    }
}

/// Counting up from no record: the `n`-th of `n` increments, one after
/// another, returns `n`, and the store then holds `n`.
pub proof fn lemma_sequential_increments(n: nat)
    requires
        0 < n <= u64::MAX,
    ensures
        increment_result(after_increments(None, (n - 1) as nat)) == Ok::<u64, CountError>(n as u64),
        count_of(after_increments(None, n)) == n,
    decreases n,
{
    if n > 1 {
        lemma_sequential_increments((n - 1) as nat);
    }
}

/// A decrement right after an increment gives back the count that was
/// there before.
pub proof fn lemma_increment_then_decrement(stored: Option<u64>)
    requires
        count_of(stored) < u64::MAX,
    ensures
        increment_result(stored) matches Ok(c) && decrement_result(Some(c)) == Ok::<u64, CountError>(
            count_of(stored) as u64,
        ),
{
}

/// Whether `user` has an entry on `board`.
pub open spec fn on_board(board: Seq<(u64, u64)>, user: u64) -> bool {
    exists|i: int| 0 <= i < board.len() && (#[trigger] board[i]).0 == user
}

/// The leaderboard shown to `subject`: the top entries as the store ranked
/// them when the subject is among them; otherwise the subject, with their
/// own count, takes the place of the last entry.
pub open spec fn board_for(top: Seq<(u64, u64)>, subject: u64, subject_count: u64) -> Seq<(u64, u64)> {
    if on_board(top, subject) {
        top
    } else if top.len() == 0 {
        seq![(subject, subject_count)]
    } else {
        top.drop_last().push((subject, subject_count))
    }
}

/// How many entries the store ranks for a leaderboard.
pub const LEADERBOARD_SIZE: u64 = 10;

/// The leaderboard for `subject` from the store's top entries.
pub fn board_for_subject(top: Vec<(u64, u64)>, subject: u64, subject_count: u64) -> (r: Vec<(u64, u64)>)
    ensures
        r@ == board_for(top@, subject, subject_count),
{
    let mut i: usize = 0;
    while i < top.len()
        invariant
            i <= top@.len(),
            forall|k: int| 0 <= k < i ==> (#[trigger] top@[k]).0 != subject,
        decreases top@.len() - i,
    {
        if top[i].0 == subject {
            assert(top@[i as int].0 == subject);
            return top;
        }
        i = i + 1;
    }
    let mut board = top;
    if board.len() > 0 {
        board.pop();
    }
    board.push((subject, subject_count));
    proof {
        if top@.len() == 0 {
            assert(board@ =~= seq![(subject, subject_count)]);
        }
    }
    board
}

} // verus!
