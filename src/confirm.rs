use vstd::prelude::*;

use crate::faucet::FundError;
use crate::hash::TxnHash;

verus! {

/// What the ledger reports of one transaction.
#[derive(Clone, Copy, Debug, PartialEq, Eq, Structural)]
pub enum TxnStatus {
    Pending,
    Committed,
    Failed,
}

/// How long to wait for the transactions, and how often to ask.
#[derive(Clone, Copy, Debug)]
pub struct PollConfig {
    /// The clock reading, in milliseconds, at which waiting stops.
    pub deadline_ms: u64,
    /// The pause before a transaction is first asked after, and after each commit.
    pub initial_delay_ms: u64,
    /// The pause never grows beyond this.
    pub max_delay_ms: u64,
}

impl PollConfig {
    /// The pause that each transaction starts with.
    pub open spec fn start_delay(self) -> nat {
        if self.initial_delay_ms <= self.max_delay_ms {
            self.initial_delay_ms as nat
        } else {
            self.max_delay_ms as nat
        }
    }

    /// The pause after one more pending report: doubled, up to the bound.
    pub open spec fn backoff(self, delay: nat) -> nat {
        if 2 * delay <= self.max_delay_ms {
            2 * delay
        } else {
            self.max_delay_ms as nat
        }
    }
}

/// The state of a wait, as a value.
pub struct WaitState {
    /// The transactions, in the order the faucet listed them.
    pub hashes: Seq<TxnHash>,
    /// Those before this index are committed; this one is being polled.
    pub next: nat,
    /// The ledger rejected the transaction at `next`.
    pub rejected: bool,
    /// The pause before the next poll.
    pub delay: nat,
}

/// What a wait does next, or how it ended.
pub enum Verdict {
    /// Ask the ledger after the transaction at this index.
    Poll(nat),
    /// Every transaction is committed.
    Confirmed,
    /// The ledger rejected the transaction at this index.
    Rejected(nat),
    /// The deadline passed; the transactions from this index on are pending.
    TimedOut(nat),
}

impl WaitState {
    pub open spec fn wf(self) -> bool {
        &&& self.next <= self.hashes.len()
        &&& self.rejected ==> self.next < self.hashes.len()
    }

    /// The wait for `hashes` before any poll.
    pub open spec fn start(hashes: Seq<TxnHash>, config: PollConfig) -> WaitState {
        WaitState { hashes, next: 0, rejected: false, delay: config.start_delay() }
    }

    pub open spec fn finished(self) -> bool {
        self.rejected || self.next >= self.hashes.len()
    }

    pub open spec fn verdict(self, config: PollConfig, now: u64) -> Verdict {
        if self.rejected {
            Verdict::Rejected(self.next)
        } else if self.next >= self.hashes.len() {
            Verdict::Confirmed
        } else if now >= config.deadline_ms {
            Verdict::TimedOut(self.next)
        } else {
            Verdict::Poll(self.next)
        }
    }

    /// The wait after the ledger reported `status` for the transaction being polled.
    /// A finished wait takes no more reports.
    pub open spec fn after(self, config: PollConfig, status: TxnStatus) -> WaitState {
        if self.finished() {
            self
        } else {
            match status {
                TxnStatus::Committed => WaitState {
                    next: self.next + 1,
                    delay: config.start_delay(),
                    ..self
                },
                TxnStatus::Failed => WaitState { rejected: true, ..self },
                TxnStatus::Pending => WaitState { delay: config.backoff(self.delay), ..self },
            }
        }
    }

    /// The wait after a series of reports, in order.
    pub open spec fn run(self, config: PollConfig, reports: Seq<TxnStatus>) -> WaitState
        decreases reports.len(),
    {
        if reports.len() == 0 {
            self
        } else {
            self.run(config, reports.drop_last()).after(config, reports.last())
        }
    }
}

/// What the caller is to do next.
#[derive(Debug)]
pub enum Step {
    /// Wait `wait_ms` milliseconds, then ask the ledger for the status of `hash` and hand
    /// it to `Waiter::observe`.
    Poll { hash: TxnHash, wait_ms: u64 },
    /// The wait is over, with this result.
    Done(Result<(), FundError>),
}

/// Waits for a list of transactions, one after the other, each polled until the ledger
/// commits or rejects it, until the deadline.
pub struct Waiter {
    pub hashes: Vec<TxnHash>,
    pub next: usize,
    pub rejected: bool,
    pub delay_ms: u64,
    pub config: PollConfig,
}

impl View for Waiter {
    type V = WaitState;

    open spec fn view(&self) -> WaitState {
        WaitState {
            hashes: self.hashes@,
            next: self.next as nat,
            rejected: self.rejected,
            delay: self.delay_ms as nat,
        }
    }
}

/// `step` answers what `verdict` decides for the wait `s` at `now`.
pub open spec fn step_follows(r: Step, s: WaitState, config: PollConfig, now: u64) -> bool {
    match s.verdict(config, now) {
        Verdict::Poll(i) => r matches Step::Poll { hash, wait_ms } && hash == s.hashes[i as int]
            && wait_ms == s.delay,
        Verdict::Confirmed => r matches Step::Done(Ok(_)),
        Verdict::Rejected(i) => r matches Step::Done(Err(FundError::TransactionRejected(h)))
            && h == s.hashes[i as int],
        Verdict::TimedOut(i) => r matches Step::Done(Err(FundError::ConfirmationTimeout(p)))
            && p@ == s.hashes.subrange(i as int, s.hashes.len() as int),
    }
}

impl Waiter {
    pub open spec fn wf(&self) -> bool {
        self@.wf()
    }

    /// A wait for `hashes`, nothing polled yet.
    pub fn new(hashes: Vec<TxnHash>, config: PollConfig) -> (r: Waiter)
        ensures
            r.wf(),
            r@ == WaitState::start(hashes@, config),
            r.config == config,
    {
        let delay_ms = if config.initial_delay_ms <= config.max_delay_ms {
            config.initial_delay_ms
        } else {
            config.max_delay_ms
        };
        Waiter { hashes, next: 0, rejected: false, delay_ms, config }
    }

    /// What to do next, the clock reading `now_ms`.
    pub fn step(&self, now_ms: u64) -> (r: Step)
        requires
            self.wf(),
        ensures
            step_follows(r, self@, self.config, now_ms),
    {
        if self.rejected {
            Step::Done(Err(FundError::TransactionRejected(self.hashes[self.next])))
        } else if self.next >= self.hashes.len() {
            Step::Done(Ok(()))
        } else if now_ms >= self.config.deadline_ms {
            let mut pending: Vec<TxnHash> = Vec::new();
            let mut i: usize = self.next;
            while i < self.hashes.len()
                invariant
                    self.next <= i <= self.hashes@.len(),
                    pending@ == self.hashes@.subrange(self.next as int, i as int),
                decreases self.hashes@.len() - i,
            {
                pending.push(self.hashes[i]);
                i = i + 1;
            }
            Step::Done(Err(FundError::ConfirmationTimeout(pending)))
        } else {
            Step::Poll { hash: self.hashes[self.next], wait_ms: self.delay_ms }
        }
    }

    /// Takes the ledger's report on the transaction that `step` asked after.
    pub fn observe(&mut self, status: TxnStatus)
        requires
            old(self).wf(),
        ensures
            final(self).wf(),
            final(self)@ == old(self)@.after(old(self).config, status),
            final(self).config == old(self).config,
    {
        if self.rejected || self.next >= self.hashes.len() {
            return;
        }
        match status {
            TxnStatus::Committed => {
                self.next = self.next + 1;
                self.delay_ms = if self.config.initial_delay_ms <= self.config.max_delay_ms {
                    self.config.initial_delay_ms
                } else {
                    self.config.max_delay_ms
                };
            },
            TxnStatus::Failed => {
                self.rejected = true;
            },
            TxnStatus::Pending => {
                self.delay_ms = if self.delay_ms <= self.config.max_delay_ms / 2 {
                    2 * self.delay_ms
                } else {
                    self.config.max_delay_ms
                };
            },
        }
    }
}

} // verus!
