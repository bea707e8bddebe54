use vstd::prelude::*;

use crate::address::AccountAddress;
use crate::confirm::{PollConfig, TxnStatus, Verdict, WaitState};
use crate::faucet::FundError;
use crate::hash::TxnHash;
use crate::text::{decimal, decimal_string};

verus! {

/// Octas asked for when the command names no amount.
pub const DEFAULT_FUNDED_COINS: u64 = 100_000_000;

/// Fund an account with tokens from a faucet.
///
/// The faucet creates the account if it does not exist yet, and may grant less than the
/// amount asked for.
#[derive(Clone, Copy, Debug)]
pub struct FundWithFaucet {
    /// Address to fund.
    pub account: AccountAddress,
    /// Number of Octas to ask for.
    pub amount: u64,
}

/// The message that reports `amount` Octas added to `account`.
pub open spec fn success_text(amount: u64, account: AccountAddress) -> Seq<char> {
    "Added "@ + decimal(amount as nat) + " Octas to account "@ + account.text()
}

impl FundWithFaucet {
    pub fn new(account: AccountAddress, amount: u64) -> (r: FundWithFaucet)
        ensures
            r.account == account,
            r.amount == amount,
    {
        FundWithFaucet { account, amount }
    }

    /// The command with the amount left at its default.
    pub fn with_default_amount(account: AccountAddress) -> (r: FundWithFaucet)
        ensures
            r.account == account,
            r.amount == DEFAULT_FUNDED_COINS,
    {
        FundWithFaucet { account, amount: DEFAULT_FUNDED_COINS }
    }

    pub fn command_name(&self) -> (r: &'static str)
        ensures
            r@ == "FundWithFaucet"@,
    {
        "FundWithFaucet"
    }

    /// The message that reports the funding.
    pub fn success_message(&self) -> (r: String)
        ensures
            r@ == success_text(self.amount, self.account),
    {
        let mut s = String::from_str("Added ");
        let n = decimal_string(self.amount);
        s.append(n.as_str());
        s.append(" Octas to account ");
        let a = self.account.to_text();
        s.append(a.as_str());
        s
    }

    /// The command's result once the wait for the transactions is over: the message where
    /// every transaction is committed, else the wait's error unchanged.
    pub fn finish(&self, confirmed: Result<(), FundError>) -> (r: Result<String, FundError>)
        ensures
            confirmed is Ok ==> (r matches Ok(m) && m@ == success_text(self.amount, self.account)),
            confirmed is Err ==> r == Err::<String, FundError>(confirmed->Err_0),
    {
        match confirmed {
            Ok(()) => Ok(self.success_message()),
            Err(e) => Err(e),
        }
    }
}

/// How many of `reports` say committed.
pub open spec fn committed_count(reports: Seq<TxnStatus>) -> nat
    decreases reports.len(),
{
    if reports.len() == 0 {
        0
    } else {
        committed_count(reports.drop_last()) + if reports.last() == TxnStatus::Committed {
            1nat
        } else {
            0nat
        }
    }
}

/// Where no report is a failure, the wait is not rejected, and it has moved past as many
/// transactions as there were commits, up to their number.
proof fn lemma_run_without_failure(s: WaitState, config: PollConfig, reports: Seq<TxnStatus>)
    requires
        s.wf(),
        !s.rejected,
        forall|i: int| 0 <= i < reports.len() ==> reports[i] != TxnStatus::Failed,
    ensures
        s.run(config, reports).wf(),
        !s.run(config, reports).rejected,
        s.run(config, reports).hashes == s.hashes,
        s.run(config, reports).next == if s.next + committed_count(reports) <= s.hashes.len() {
            s.next + committed_count(reports)
        } else {
            s.hashes.len()
        },
    decreases reports.len(),
{
    if reports.len() > 0 {
        lemma_run_without_failure(s, config, reports.drop_last());
    }
}

/// A finished wait stays as it is, whatever is reported after.
proof fn lemma_finished_stays(s: WaitState, config: PollConfig, reports: Seq<TxnStatus>)
    requires
        s.finished(),
    ensures
        s.run(config, reports) == s,
    decreases reports.len(),
{
    if reports.len() > 0 {
        lemma_finished_stays(s, config, reports.drop_last());
    }
}

/// For every account and amount: when the faucet listed `hashes` and the ledger then
/// reported each of them committed, in between any number of pending reports and no
/// failure, the wait ends confirmed at any clock reading, and the message that the
/// command then returns holds the exact amount and account asked for.
pub proof fn lemma_all_committed_reports_funding(
    cmd: FundWithFaucet,
    hashes: Seq<TxnHash>,
    config: PollConfig,
    reports: Seq<TxnStatus>,
    now: u64,
)
    requires
        forall|i: int| 0 <= i < reports.len() ==> reports[i] != TxnStatus::Failed,
        committed_count(reports) == hashes.len(),
    ensures
        WaitState::start(hashes, config).run(config, reports).verdict(config, now)
            == Verdict::Confirmed,
        ({
            let m = success_text(cmd.amount, cmd.account);
            let d = decimal(cmd.amount as nat);
            &&& m.subrange(6, 6 + d.len() as int) == d
            &&& m.subrange(m.len() - cmd.account.text().len(), m.len() as int)
                == cmd.account.text()
        }),
{
    lemma_run_without_failure(WaitState::start(hashes, config), config, reports);
    let m = success_text(cmd.amount, cmd.account);
    let d = decimal(cmd.amount as nat);
    reveal_strlit("Added ");
    assert(m.subrange(6, 6 + d.len() as int) =~= d);
    assert(m.subrange(m.len() - cmd.account.text().len(), m.len() as int) =~= cmd.account.text());
}

/// Where the faucet listed no transaction, the wait is confirmed before any poll, at any
/// clock reading.
pub proof fn lemma_no_hashes_no_polling(config: PollConfig, now: u64)
    ensures
        WaitState::start(Seq::empty(), config).verdict(config, now) == Verdict::Confirmed,
{
}

/// Once the ledger reports the polled transaction failed, the wait ends rejected and names
/// that transaction, whatever the other transactions' states and whatever is reported
/// after, at any clock reading.
pub proof fn lemma_failure_names_hash(
    s: WaitState,
    config: PollConfig,
    now: u64,
    later: Seq<TxnStatus>,
    then: u64,
)
    requires
        s.wf(),
        s.verdict(config, now) is Poll,
    ensures
        s.verdict(config, now) == Verdict::Poll(s.next),
        s.after(config, TxnStatus::Failed).run(config, later).verdict(config, then)
            == Verdict::Rejected(s.next),
{
    lemma_finished_stays(s.after(config, TxnStatus::Failed), config, later);
}

/// Where the deadline has passed with transactions still pending, the wait ends timed
/// out, naming the first pending one, and not rejected.
pub proof fn lemma_deadline_times_out(s: WaitState, config: PollConfig, now: u64)
    requires
        s.wf(),
        !s.finished(),
        now >= config.deadline_ms,
    ensures
        s.verdict(config, now) == Verdict::TimedOut(s.next),
        !(s.verdict(config, now) is Rejected),
{
}

} // verus!
