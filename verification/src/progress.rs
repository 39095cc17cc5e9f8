//! What a batch reports while it runs: its opening message and the count of
//! the texts that are done.

use vstd::prelude::*;
use vstd::string::*;
use crate::color::{colorize, colorized, TermColor};

verus! {

/// How a digit is written.
pub open spec fn digit_text(d: nat) -> Seq<char> {
    if d == 0 {
        "0"@
    } else if d == 1 {
        "1"@
    } else if d == 2 {
        "2"@
    } else if d == 3 {
        "3"@
    } else if d == 4 {
        "4"@
    } else if d == 5 {
        "5"@
    } else if d == 6 {
        "6"@
    } else if d == 7 {
        "7"@
    } else if d == 8 {
        "8"@
    } else {
        "9"@
    }
}

/// How a number is written in decimal, without leading zeros.
pub open spec fn decimal_text(n: nat) -> Seq<char>
    decreases n,
{
    if n < 10 {
        digit_text(n)
    } else {
        decimal_text(n / 10) + digit_text(n % 10)
    }
}

/// The message that opens a batch: how many texts, on how many workers, the
/// latter in red.
pub open spec fn batch_message_text(n_texts: nat, workers: nat) -> Seq<char> {
    decimal_text(n_texts) + " texts using "@ + colorized(decimal_text(workers), TermColor::Red)
        + " cores"@
}

fn digit_str(d: usize) -> (text: &'static str)
    requires
        d < 10,
    ensures
        text@ == digit_text(d as nat),
{
    if d == 0 {
        "0"
    } else if d == 1 {
        "1"
    } else if d == 2 {
        "2"
    } else if d == 3 {
        "3"
    } else if d == 4 {
        "4"
    } else if d == 5 {
        "5"
    } else if d == 6 {
        "6"
    } else if d == 7 {
        "7"
    } else if d == 8 {
        "8"
    } else {
        "9"
    }
}

/// Writes a number in decimal.
pub fn decimal(n: usize) -> (text: String)
    ensures
        text@ == decimal_text(n as nat),
    decreases n,
{
    if n < 10 {
        String::from_str(digit_str(n))
    } else {
        decimal(n / 10).concat(digit_str(n % 10))
    }
}

/// Writes the message that opens a batch.
pub fn batch_message(n_texts: usize, workers: usize) -> (message: String)
    ensures
        message@ == batch_message_text(n_texts as nat, workers as nat),
{
    let workers_text = decimal(workers);
    decimal(n_texts).concat(" texts using ").concat(
        colorize(workers_text.as_str(), TermColor::Red).as_str(),
    ).concat(" cores")
}

/// The count of the texts of a batch that are done.
#[derive(Debug)]
pub struct Progress {
    done: u64,
    total: u64,
}

/// What a `Progress` stands for.
pub struct ProgressView {
    pub done: nat,
    pub total: nat,
}

/// The count after one more text is done. A finished batch stays finished.
pub open spec fn advanced(p: ProgressView) -> ProgressView {
    if p.done < p.total {
        ProgressView { done: p.done + 1, total: p.total }
    } else {
        p
    }
}

/// The count after `n` more texts are done.
pub open spec fn advanced_by(p: ProgressView, n: nat) -> ProgressView
    decreases n,
{
    if n == 0 {
        p
    } else {
        advanced(advanced_by(p, (n - 1) as nat))
    }
}

/// Counting up from zero, the count after `n` texts is `n`, for every `n` up
/// to the size of the batch: no value is passed over and none comes twice,
/// and after the last text the count is the size of the batch.
pub proof fn lemma_progress_counts(total: nat, n: nat)
    requires
        n <= total,
    ensures
        advanced_by(ProgressView { done: 0, total }, n) == (ProgressView { done: n, total }),
    decreases n,
{
    if n > 0 {
        lemma_progress_counts(total, (n - 1) as nat);
    }
}

impl View for Progress {
    type V = ProgressView;

    closed spec fn view(&self) -> ProgressView {
        ProgressView { done: self.done as nat, total: self.total as nat }
    }
}

impl Progress {
    #[verifier::type_invariant]
    spec fn within_total(self) -> bool {
        self.done <= self.total
    }

    /// The count of a batch of `total` texts before any is done.
    pub fn new(total: u64) -> (progress: Progress)
        ensures
            progress@ == (ProgressView { done: 0, total: total as nat }),
    {
        Progress { done: 0, total }
    }

    /// Counts one more text as done, and returns the new count.
    pub fn advance(&mut self) -> (done: u64)
        ensures
            final(self)@ == advanced(old(self)@),
            done == final(self)@.done,
    {
        proof {
            use_type_invariant(&*self);
        }
        if self.done < self.total {
            self.done = self.done + 1;
        }
        self.done
    }

    /// How many texts are done; never more than the batch holds.
    pub fn done(&self) -> (done: u64)
        ensures
            done == self@.done,
            done <= self@.total,
    {
        proof {
            use_type_invariant(self);
        }
        self.done
    }

    /// How many texts the batch holds.
    pub fn total(&self) -> (total: u64)
        ensures
            total == self@.total,
    {
        self.total
    }

    /// Whether every text is done.
    pub fn is_complete(&self) -> (complete: bool)
        ensures
            complete == (self@.done == self@.total),
    {
        self.done == self.total
    }
}

} // verus!
