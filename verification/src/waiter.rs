//! The completion-polling state machine.
//!
//! A `CompletionWaiter` tracks one wait for a prediction to reach a terminal
//! state.  The driver of the loop fetches a fresh snapshot, hands it to
//! [`CompletionWaiter::on_snapshot`], and between fetches sleeps one poll
//! interval and reports it through [`CompletionWaiter::advance`]; before each
//! fetch it asks [`CompletionWaiter::deadline_exceeded`] whether to give up.
//! Every decision is made here; the driver only sleeps and fetches.
//!
//! Without a deadline the wait is unbounded: that is an explicit caller
//! opt-in, and a hazard the caller must weigh.

use vstd::prelude::*;

use crate::error::Error;
use crate::prediction::Prediction;

verus! {

/// The decimal digit character for `d`.
pub open spec fn decimal_digit(d: nat) -> char {
    if d == 0 {
        '0'
    } else if d == 1 {
        '1'
    } else if d == 2 {
        '2'
    } else if d == 3 {
        '3'
    } else if d == 4 {
        '4'
    } else if d == 5 {
        '5'
    } else if d == 6 {
        '6'
    } else if d == 7 {
        '7'
    } else if d == 8 {
        '8'
    } else {
        '9'
    }
}

/// The decimal digits of `n`, most significant first.
pub open spec fn spec_decimal(n: nat) -> Seq<char>
    decreases n,
{
    if n < 10 {
        seq![decimal_digit(n)]
    } else {
        spec_decimal(n / 10).push(decimal_digit(n % 10))
    }
}

/// The one-character string for a single decimal digit.
fn decimal_digit_str(d: u64) -> (s: &'static str)
    requires
        d < 10,
    ensures
        s@ == seq![decimal_digit(d as nat)],
{
    proof {
        reveal_strlit("0");
        reveal_strlit("1");
        reveal_strlit("2");
        reveal_strlit("3");
        reveal_strlit("4");
        reveal_strlit("5");
        reveal_strlit("6");
        reveal_strlit("7");
        reveal_strlit("8");
        reveal_strlit("9");
    }
    let s: &'static str = if d == 0 {
        "0"
    } else if d == 1 {
        "1"
    } else if d == 2 {
        "2"
    } else if d == 3 {
        "3"
    } else if d == 4 {
        "4"
    } else if d == 5 {
        "5"
    } else if d == 6 {
        "6"
    } else if d == 7 {
        "7"
    } else if d == 8 {
        "8"
    } else {
        "9"
    };
    proof {
        assert(s@ =~= seq![decimal_digit(d as nat)]);
    }
    s
}

/// Format `n` in decimal.
pub fn u64_to_decimal(n: u64) -> (s: String)
    ensures
        s@ == spec_decimal(n as nat),
    decreases n,
{
    if n < 10 {
        let d = decimal_digit_str(n);
        let s = d.to_owned();
        proof {
            assert(s@ =~= spec_decimal(n as nat));
        }
        s
    } else {
        let mut s = u64_to_decimal(n / 10);
        s.append(decimal_digit_str(n % 10));
        proof {
            assert(s@ =~= spec_decimal(n as nat));
        }
        s
    }
}

/// The message of the timeout error: the prediction id and the deadline in
/// milliseconds.
pub open spec fn timeout_message(id: Seq<char>, deadline_ms: nat) -> Seq<char> {
    "Prediction "@ + id + " did not complete within "@ + spec_decimal(deadline_ms) + " ms"@
}

/// One wait for a prediction to reach a terminal state.  Two phases:
/// polling (`done == false`) and done.
#[derive(Debug, Clone)]
pub struct CompletionWaiter {
    /// The prediction this wait is about.
    pub prediction_id: String,
    /// Milliseconds between two status fetches.
    pub poll_interval_ms: u64,
    /// Give up after this many milliseconds, if set.  Unset means an
    /// unbounded wait.
    pub max_duration_ms: Option<u64>,
    /// Milliseconds of waiting accounted so far.
    pub elapsed_ms: u64,
    /// Status fetches evaluated so far.
    pub polls_made: u64,
    /// Whether a terminal snapshot has been seen.
    pub done: bool,
}

/// Whether the configured deadline has been reached or passed.
pub open spec fn spec_deadline_exceeded(w: CompletionWaiter) -> bool {
    w.max_duration_ms matches Some(d) && w.elapsed_ms >= d
}

impl CompletionWaiter {
    /// A fresh wait for `prediction_id`.  The poll interval defaults to
    /// half a second.
    pub fn new(prediction_id: String, max_duration_ms: Option<u64>, poll_interval_ms: Option<u64>) -> (w: Self)
        ensures
            w.prediction_id == prediction_id,
            w.max_duration_ms == max_duration_ms,
            w.poll_interval_ms == (match poll_interval_ms {
                Some(p) => p,
                None => 500u64,
            }),
            w.elapsed_ms == 0,
            w.polls_made == 0,
            !w.done,
    {
        let interval = match poll_interval_ms {
            Some(p) => p,
            None => 500,
        };
        CompletionWaiter {
            prediction_id,
            poll_interval_ms: interval,
            max_duration_ms,
            elapsed_ms: 0,
            polls_made: 0,
            done: false,
        }
    }

    /// Whether the wait has run out of time and the driver must stop with
    /// [`CompletionWaiter::timeout_error`] instead of fetching again.
    pub fn deadline_exceeded(&self) -> (r: bool)
        ensures
            r == spec_deadline_exceeded(*self),
    {
        match self.max_duration_ms {
            Some(d) => self.elapsed_ms >= d,
            None => false,
        }
    }

    /// Account for time the driver spent sleeping between fetches.
    pub fn advance(&mut self, slept_ms: u64)
        ensures
            final(self).elapsed_ms == (if old(self).elapsed_ms + slept_ms <= u64::MAX {
                old(self).elapsed_ms + slept_ms
            } else {
                u64::MAX as int
            }),
            final(self).prediction_id == old(self).prediction_id,
            final(self).poll_interval_ms == old(self).poll_interval_ms,
            final(self).max_duration_ms == old(self).max_duration_ms,
            final(self).polls_made == old(self).polls_made,
            final(self).done == old(self).done,
    {
        self.elapsed_ms = self.elapsed_ms.saturating_add(slept_ms);
    }

    /// Evaluate one freshly fetched snapshot.
    ///
    /// A non-terminal status keeps the wait in its polling phase and returns
    /// nothing: the driver sleeps one interval and fetches again, so a
    /// driver that obeys the protocol fetches exactly once per snapshot
    /// until the first terminal one.  A `Failed` snapshot ends the wait with
    /// a `ModelExecution` error carrying the prediction id, the error
    /// message and the logs; `Succeeded` and `Canceled` end it with the
    /// snapshot returned as-is (a canceled job is not an error: the caller
    /// tells it apart by the status field).
    pub fn on_snapshot(&mut self, p: Prediction) -> (r: Option<Result<Prediction, Error>>)
        requires
            !old(self).done,
        ensures
            final(self).prediction_id == old(self).prediction_id,
            final(self).poll_interval_ms == old(self).poll_interval_ms,
            final(self).max_duration_ms == old(self).max_duration_ms,
            final(self).elapsed_ms == old(self).elapsed_ms,
            final(self).polls_made == (if old(self).polls_made < u64::MAX {
                old(self).polls_made + 1
            } else {
                u64::MAX as int
            }),
            final(self).done == (r is Some),
            r is Some <==> p.status.spec_is_terminal(),
            p.status is Failed ==> (r matches Some(Err(e)) && ({
                &&& e matches Error::ModelExecution {
                    prediction_id: pid,
                    error_message: m,
                    logs: l,
                }
                &&& pid == old(self).prediction_id
                &&& m == p.error
                &&& l == p.logs
            })),
            p.status is Succeeded || p.status is Canceled ==> r == Some(Result::<
                Prediction,
                Error,
            >::Ok(p)),
    {
        self.polls_made = self.polls_made.saturating_add(1);
        if !p.status.is_terminal() {
            return None;
        }
        self.done = true;
        if p.is_failed() {
            let e = Error::model_execution(self.prediction_id.clone(), p.error, p.logs);
            Some(Err(e))
        } else {
            Some(Ok(p))
        }
    }

    /// The error reported when the deadline elapsed before a terminal
    /// state: it names the prediction and the configured duration.
    pub fn timeout_error(&self) -> (e: Error)
        requires
            self.max_duration_ms matches Some(d),
        ensures
            self.max_duration_ms matches Some(d) ==> (e matches Error::Timeout(m) && m@
                == timeout_message(self.prediction_id@, d as nat)),
    {
        let deadline = match self.max_duration_ms {
            Some(d) => d,
            None => 0,
        };
        let mut m = "Prediction ".to_owned();
        m.append(self.prediction_id.as_str());
        m.append(" did not complete within ");
        let digits = u64_to_decimal(deadline);
        m.append(digits.as_str());
        m.append(" ms");
        Error::timeout(m)
    }
}

/// Law: the deadline is noticed within one poll interval.  If the deadline
/// had not yet passed before one sleep and has passed after it, the
/// accounted waiting time overshoots the deadline by less than the
/// interval.
pub proof fn lemma_deadline_overshoot_bounded(before: CompletionWaiter, after: CompletionWaiter)
    requires
        before.max_duration_ms matches Some(d) && before.elapsed_ms < d,
        after.elapsed_ms == (if before.elapsed_ms + before.poll_interval_ms <= u64::MAX {
            before.elapsed_ms + before.poll_interval_ms
        } else {
            u64::MAX as int
        }),
        after.max_duration_ms == before.max_duration_ms,
        after.poll_interval_ms == before.poll_interval_ms,
    ensures
        after.max_duration_ms matches Some(d) ==> after.elapsed_ms < d + before.poll_interval_ms,
{
}

} // verus!
