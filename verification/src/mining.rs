//! The mining coordinator: one consumer that turns the requests of many
//! callers into one operation at a time on the mining worker.
//!
//! The coordinator decides; its caller owns the queue and the reply
//! channels, feeds it one event at a time and performs the action it
//! returns. Reply handles pass through as values that are never read.

use vstd::prelude::*;
use crate::error::Error;
use crate::h256::H256;
use crate::oracle::{epoch_of, seed_hash, seed_hash_of, EPOCH_LENGTH};
use crate::pow::{boundary_of, difficulty_to_boundary};
use crate::types::{Work, WorkSeal, WorkSealModel};
use crate::u256::{be_value, lemma_be_value_of_zeros, U256};
use crate::worker::{MiningMetadata, MiningWorker, SealedBlock};

verus! {

/// Whether a job is the one derived from a candidate's metadata: the
/// pre-hash as a number, the seed hash of the block's epoch as a number,
/// which is 0 in the first epoch, the boundary of the difficulty, and the
/// block number.
pub open spec fn is_work_of(work: Work, metadata: MiningMetadata) -> bool {
    &&& work.pow_hash@ == be_value(metadata.pre_hash@)
    &&& work.seed_hash@ == be_value(seed_hash_of(epoch_of(metadata.number) as usize))
    &&& epoch_of(metadata.number) == 0 ==> work.seed_hash@ == 0
    &&& work.target@ == boundary_of(metadata.difficulty@)
    &&& work.number == Some(metadata.number)
}

/// Whether a reply is the right answer to a request for work, given the
/// worker's metadata snapshot.
pub open spec fn is_work_reply(reply: Result<Work, Error>, metadata: Option<MiningMetadata>) -> bool {
    match metadata {
        None => reply == Err::<Work, Error>(Error::NoWork),
        Some(m) => if epoch_of(m.number) <= usize::MAX {
            reply is Ok && is_work_of(reply->Ok_0, m)
        } else {
            reply == Err::<Work, Error>(Error::Unsupported)
        },
    }
}

/// The seal that a submitted solution makes for a candidate at a given time.
pub open spec fn seal_for(
    metadata: MiningMetadata,
    nonce: u64,
    pow_hash: H256,
    mix_digest: H256,
    now: u64,
) -> WorkSealModel {
    WorkSealModel {
        nonce: U256 { w0: nonce, w1: 0, w2: 0, w3: 0 },
        pow_hash: pow_hash@,
        mix_digest: mix_digest@,
        header_nr: metadata.number,
        difficulty: metadata.difficulty,
        timestamp: now,
    }
}

/// The job for the candidate that is being built. Without a candidate there
/// is no work. The one other failure is a block number whose epoch this
/// machine cannot count, which no 64-bit machine meets.
pub fn get_work(metadata: Option<MiningMetadata>) -> (reply: Result<Work, Error>)
    ensures
        is_work_reply(reply, metadata),
{
    let metadata = match metadata {
        Some(metadata) => metadata,
        None => {
            return Err(Error::NoWork);
        },
    };
    let epoch: u64 = metadata.number / EPOCH_LENGTH;
    if epoch > usize::MAX as u64 {
        return Err(Error::Unsupported);
    }
    let pow_hash = metadata.pre_hash.to_u256();
    let seed_hash = seed_hash(epoch as usize).to_u256();
    proof {
        lemma_be_value_of_zeros(32);
    }
    let target = difficulty_to_boundary(metadata.difficulty);
    Ok(Work { pow_hash, seed_hash, target, number: Some(metadata.number) })
}

/// The hash rate of this node's miners. Rates are recorded as they are
/// reported, one by one; the node does not add them up, and says so.
pub fn hashrate() -> (r: Result<U256, Error>)
    ensures
        r == Err::<U256, Error>(Error::Unsupported),
{
    Err(Error::Unsupported)
}

/// Takes the reply handle for its single use: the handle and the result to
/// send through it, or nothing where the handle was used before. Afterwards
/// the handle is spent.
pub fn send_result<S, T>(sender: &mut Option<S>, result: Result<T, Error>) -> (r: Option<
    (S, Result<T, Error>),
>)
    ensures
        *final(sender) is None,
        match *old(sender) {
            Some(s) => r == Some((s, result)),
            None => r is None,
        },
{
    match sender.take() {
        Some(s) => Some((s, result)),
        None => None,
    }
}

/// A request to the coordinator, with the handle on which its one reply is
/// sent: `W` for a reply that carries work, `S` for one that carries a flag.
#[allow(inconsistent_fields)]
pub enum EtheminerCmd<W, S> {
    /// Asks for the current job.
    GetWork { sender: Option<W> },
    /// Submits a solution for the candidate that is being built.
    SubmitWork { nonce: u64, pow_hash: H256, mix_digest: H256, sender: Option<S> },
    /// Reports the hash rate of the miner with the given identifier.
    SubmitHashrate { rate: U256, id: H256, sender: Option<S> },
}

/// What the coordinator's caller tells it.
pub enum Event<W, S> {
    /// The next request from the queue.
    Command(EtheminerCmd<W, S>),
    /// Finalization of the candidate handed out last has ended, with success
    /// or without.
    Finalized(bool),
    /// The queue is closed.
    QueueClosed,
}

/// What the coordinator's caller is to do next.
#[allow(inconsistent_fields)]
pub enum Action<B, W, S> {
    /// Send the reply to a request for work.
    SendWork { sender: Option<W>, result: Result<Work, Error> },
    /// Send the reply to a submission.
    SendFlag { sender: Option<S>, result: Result<bool, Error> },
    /// Hand the sealed candidate to finalization, and report how it ended.
    Finalize { block: SealedBlock<B> },
    /// Leave the loop: no request will come.
    Stop,
    /// Nothing: the event does not belong to the coordinator's state and was
    /// dropped with its reply handle, whose owner sees the channel close.
    Dropped,
}

/// Where the coordinator stands.
#[derive(Clone, Copy, Debug, PartialEq, Eq, Structural)]
pub enum Phase {
    /// Waiting for the next request.
    Idle,
    /// A sealed candidate is with finalization.
    Processing,
    /// The queue was closed.
    Closed,
}

/// A reported hash rate.
#[derive(Clone, Copy, Debug, PartialEq, Eq)]
pub struct HashrateReport {
    pub id: H256,
    pub rate: U256,
}

/// The rate that was reported under an identifier: that of the first report
/// in the list that carries it.
pub open spec fn rate_of(reports: Seq<HashrateReport>, id: Seq<u8>) -> Option<U256>
    decreases reports.len(),
{
    if reports.len() == 0 {
        None
    } else if reports[0].id@ == id {
        Some(reports[0].rate)
    } else {
        rate_of(reports.drop_first(), id)
    }
}

/// The single consumer of the command queue.
pub struct MiningCoordinator<S> {
    phase: Phase,
    pending: Option<S>,
    reports: Vec<HashrateReport>,
}

impl<S> MiningCoordinator<S> {
    /// Where the coordinator stands.
    pub closed spec fn phase(&self) -> Phase {
        self.phase
    }

    /// The reply handle of the submission whose candidate is with
    /// finalization.
    pub closed spec fn pending(&self) -> Option<S> {
        self.pending
    }

    /// The hash rate last reported under an identifier.
    pub closed spec fn reported(&self, id: Seq<u8>) -> Option<U256> {
        rate_of(self.reports@, id)
    }

    /// Whether every identifier has the rate in `self` that it has in `other`.
    pub open spec fn same_reports(&self, other: &Self) -> bool {
        forall|id: Seq<u8>| self.reported(id) == other.reported(id)
    }

    /// Whether coordinator and worker are after an event as they were before.
    pub open spec fn untouched<B>(
        pre: &Self,
        pre_worker: &MiningWorker<B>,
        post: &Self,
        post_worker: &MiningWorker<B>,
    ) -> bool {
        &&& post.phase() == pre.phase()
        &&& post.pending() == pre.pending()
        &&& post.same_reports(pre)
        &&& post_worker.candidate() == pre_worker.candidate()
    }

    /// The coordinator's rule: what an event does to coordinator and worker,
    /// and which action answers it.
    ///
    /// A request is taken only while idle. A request for work is answered
    /// from the worker's metadata snapshot. A solution is answered with
    /// `NoMetaData` where the worker has no candidate; otherwise the
    /// candidate leaves the worker with its seal, to be finalized, and the
    /// reply waits for the outcome. A hash rate is recorded and confirmed.
    /// The outcome of a finalization is the reply to the waiting solution.
    /// Closing the queue ends everything: a reply that still waits is given
    /// up. Any other event is dropped.
    pub open spec fn steps_to<B, W>(
        pre: &Self,
        pre_worker: &MiningWorker<B>,
        event: Event<W, S>,
        now: u64,
        post: &Self,
        post_worker: &MiningWorker<B>,
        action: Action<B, W, S>,
    ) -> bool {
        match event {
            Event::Command(cmd) => if pre.phase() != Phase::Idle {
                Self::untouched(pre, pre_worker, post, post_worker) && action is Dropped
            } else {
                match cmd {
                    EtheminerCmd::GetWork { sender } => {
                        &&& Self::untouched(pre, pre_worker, post, post_worker)
                        &&& action matches Action::SendWork { sender: to, result }
                        &&& to == sender
                        &&& is_work_reply(result, pre_worker.current())
                    },
                    EtheminerCmd::SubmitWork { nonce, pow_hash, mix_digest, sender } => match pre_worker.candidate() {
                        None => {
                            &&& Self::untouched(pre, pre_worker, post, post_worker)
                            &&& action == Action::<B, W, S>::SendFlag {
                                sender,
                                result: Err(Error::NoMetaData),
                            }
                        },
                        Some(build) => {
                            &&& post.phase() == Phase::Processing
                            &&& post.pending() == sender
                            &&& post.same_reports(pre)
                            &&& post_worker.candidate() is None
                            &&& action matches Action::Finalize { block }
                            &&& block.metadata == build.metadata
                            &&& block.proposal == build.proposal
                            &&& block.seal@ == seal_for(
                                build.metadata,
                                nonce,
                                pow_hash,
                                mix_digest,
                                now,
                            ).encoding()
                        },
                    },
                    EtheminerCmd::SubmitHashrate { rate, id, sender } => {
                        &&& post.phase() == pre.phase()
                        &&& post.pending() == pre.pending()
                        &&& post_worker.candidate() == pre_worker.candidate()
                        &&& forall|k: Seq<u8>|
                            post.reported(k) == if k == id@ {
                                Some(rate)
                            } else {
                                pre.reported(k)
                            }
                        &&& action == Action::<B, W, S>::SendFlag { sender, result: Ok(true) }
                    },
                }
            },
            Event::Finalized(success) => if pre.phase() == Phase::Processing {
                &&& post.phase() == Phase::Idle
                &&& post.pending() is None
                &&& post.same_reports(pre)
                &&& post_worker.candidate() == pre_worker.candidate()
                &&& action == Action::<B, W, S>::SendFlag {
                    sender: pre.pending(),
                    result: Ok(success),
                }
            } else {
                Self::untouched(pre, pre_worker, post, post_worker) && action is Dropped
            },
            Event::QueueClosed => {
                &&& post.phase() == Phase::Closed
                &&& post.pending() is None
                &&& post.same_reports(pre)
                &&& post_worker.candidate() == pre_worker.candidate()
                &&& action is Stop
            },
        }
    }

    /// An idle coordinator with no reports.
    pub fn new() -> (r: Self)
        ensures
            r.phase() == Phase::Idle,
            r.pending() is None,
            forall|id: Seq<u8>| r.reported(id) is None,
    {
        MiningCoordinator { phase: Phase::Idle, pending: None, reports: Vec::new() }
    }

    /// Where the coordinator stands.
    pub fn current_phase(&self) -> (r: Phase)
        ensures
            r == self.phase(),
    {
        self.phase
    }

    /// The hash rate last reported under an identifier.
    pub fn reported_rate(&self, id: &H256) -> (r: Option<U256>)
        ensures
            r == self.reported(id@),
    {
        let mut i: usize = 0;
        assert(self.reports@.skip(0) =~= self.reports@);
        while i < self.reports.len()
            invariant
                i <= self.reports.len(),
                rate_of(self.reports@, id@) == rate_of(self.reports@.skip(i as int), id@),
            decreases self.reports.len() - i,
        {
            let ghost rest = self.reports@.skip(i as int);
            assert(rest[0] == self.reports@[i as int]);
            assert(rest.drop_first() =~= self.reports@.skip(i + 1));
            if self.reports[i].id.same(id) {
                return Some(self.reports[i].rate);
            }
            i += 1;
        }
        None
    }

    /// Takes one event and says what is to be done. `now` is the time in
    /// seconds that a seal made by this event carries.
    pub fn step<B, W>(
        &mut self,
        worker: &mut MiningWorker<B>,
        event: Event<W, S>,
        now: u64,
    ) -> (action: Action<B, W, S>)
        ensures
            Self::steps_to(old(self), old(worker), event, now, final(self), final(worker), action),
    {
        match event {
            Event::Command(cmd) => {
                if self.phase != Phase::Idle {
                    return Action::Dropped;
                }
                match cmd {
                    EtheminerCmd::GetWork { sender } => {
                        let result = get_work(worker.metadata());
                        Action::SendWork { sender, result }
                    },
                    EtheminerCmd::SubmitWork { nonce, pow_hash, mix_digest, sender } => {
                        let metadata = match worker.metadata() {
                            Some(metadata) => metadata,
                            None => {
                                return Action::SendFlag { sender, result: Err(Error::NoMetaData) };
                            },
                        };
                        let seal = WorkSeal {
                            nonce: U256::from_u64(nonce),
                            pow_hash,
                            mix_digest,
                            header_nr: metadata.number,
                            difficulty: metadata.difficulty,
                            timestamp: now,
                        };
                        assert(seal@ =~= seal_for(metadata, nonce, pow_hash, mix_digest, now));
                        match worker.submit(seal.encode()) {
                            Some(block) => {
                                self.phase = Phase::Processing;
                                self.pending = sender;
                                Action::Finalize { block }
                            },
                            None => Action::SendFlag { sender, result: Err(Error::NoMetaData) },
                        }
                    },
                    EtheminerCmd::SubmitHashrate { rate, id, sender } => {
                        self.record(id, rate);
                        Action::SendFlag { sender, result: Ok(true) }
                    },
                }
            },
            Event::Finalized(success) => {
                if self.phase == Phase::Processing {
                    self.phase = Phase::Idle;
                    let sender = self.pending.take();
                    Action::SendFlag { sender, result: Ok(success) }
                } else {
                    Action::Dropped
                }
            },
            Event::QueueClosed => {
                self.phase = Phase::Closed;
                self.pending = None;
                Action::Stop
            },
        }
    }

    /// Records a hash rate under an identifier, in place of an earlier one.
    fn record(&mut self, id: H256, rate: U256)
        ensures
            final(self).phase == old(self).phase,
            final(self).pending == old(self).pending,
            forall|k: Seq<u8>|
                #![trigger rate_of(final(self).reports@, k)]
                rate_of(final(self).reports@, k) == if k == id@ {
                    Some(rate)
                } else {
                    rate_of(old(self).reports@, k)
                },
    {
        let mut i: usize = 0;
        while i < self.reports.len()
            invariant
                i <= self.reports.len(),
                self.reports@ == old(self).reports@,
                self.phase == old(self).phase,
                self.pending == old(self).pending,
                forall|j: int| 0 <= j < i ==> self.reports@[j].id@ != id@,
            decreases self.reports.len() - i,
        {
            if self.reports[i].id.same(&id) {
                let ghost before = self.reports@;
                self.reports.set(i, HashrateReport { id, rate });
                proof {
                    assert forall|k: Seq<u8>|
                        #![trigger rate_of(self.reports@, k)]
                        rate_of(self.reports@, k) == if k == id@ {
                            Some(rate)
                        } else {
                            rate_of(before, k)
                        } by {
                        lemma_rate_after_set(before, i as int, HashrateReport { id, rate }, k);
                    }
                }
                return ;
            }
            i += 1;
        }
        let ghost before = self.reports@;
        self.reports.push(HashrateReport { id, rate });
        proof {
            assert forall|k: Seq<u8>|
                #![trigger rate_of(self.reports@, k)]
                rate_of(self.reports@, k) == if k == id@ {
                    Some(rate)
                } else {
                    rate_of(before, k)
                } by {
                lemma_rate_after_push(before, HashrateReport { id, rate }, k);
            }
        }
    }
}

/// The handle through which an action sends work, if it sends work.
pub open spec fn work_handle<B, W, S>(action: Action<B, W, S>) -> Option<Option<W>> {
    match action {
        Action::SendWork { sender, .. } => Some(sender),
        _ => None,
    }
}

/// The handle through which an action sends a flag, if it sends one.
pub open spec fn flag_handle<B, W, S>(action: Action<B, W, S>) -> Option<Option<S>> {
    match action {
        Action::SendFlag { sender, .. } => Some(sender),
        _ => None,
    }
}

/// A request that an idle coordinator takes keeps its reply handle in play:
/// the handle is in the reply that goes out at once, or it waits in the
/// coordinator for the outcome of the finalization that the request began.
pub proof fn lemma_reply_handle_is_kept<B, W, S>(
    pre: &MiningCoordinator<S>,
    pre_worker: &MiningWorker<B>,
    cmd: EtheminerCmd<W, S>,
    now: u64,
    post: &MiningCoordinator<S>,
    post_worker: &MiningWorker<B>,
    action: Action<B, W, S>,
)
    requires
        pre.phase() == Phase::Idle,
        MiningCoordinator::steps_to(
            pre,
            pre_worker,
            Event::Command(cmd),
            now,
            post,
            post_worker,
            action,
        ),
    ensures
        cmd is GetWork ==> work_handle(action) == Some(cmd->GetWork_sender),
        cmd is SubmitHashrate ==> flag_handle(action) == Some(cmd->SubmitHashrate_sender),
        cmd is SubmitWork ==> flag_handle(action) == Some(cmd->SubmitWork_sender) || (
        action is Finalize && post.phase() == Phase::Processing && post.pending()
            == cmd->SubmitWork_sender),
{
}

/// The outcome of a finalization goes to the handle that waited for it, and
/// the coordinator is idle again with nothing waiting.
pub proof fn lemma_waiting_reply_is_sent<B, W, S>(
    pre: &MiningCoordinator<S>,
    pre_worker: &MiningWorker<B>,
    success: bool,
    now: u64,
    post: &MiningCoordinator<S>,
    post_worker: &MiningWorker<B>,
    action: Action<B, W, S>,
)
    requires
        pre.phase() == Phase::Processing,
        MiningCoordinator::steps_to(
            pre,
            pre_worker,
            Event::<W, S>::Finalized(success),
            now,
            post,
            post_worker,
            action,
        ),
    ensures
        flag_handle(action) == Some(pre.pending()),
        action matches Action::SendFlag { result, .. } ==> result == Ok::<bool, Error>(success),
        post.phase() == Phase::Idle,
        (post.pending() is None),
{
}

/// Replacing the rate of the first report under an identifier changes the
/// rate found under it and no other.
proof fn lemma_rate_after_set(reports: Seq<HashrateReport>, at: int, entry: HashrateReport, k: Seq<u8>)
    requires
        0 <= at < reports.len(),
        reports[at].id@ == entry.id@,
        forall|j: int| 0 <= j < at ==> reports[j].id@ != entry.id@,
    ensures
        rate_of(reports.update(at, entry), k) == if k == entry.id@ {
            Some(entry.rate)
        } else {
            rate_of(reports, k)
        },
    decreases at,
{
    let after = reports.update(at, entry);
    if at == 0 {
        assert(after.drop_first() =~= reports.drop_first());
    } else {
        assert(after.drop_first() =~= reports.drop_first().update(at - 1, entry));
        assert forall|j: int| 0 <= j < at - 1 implies reports.drop_first()[j].id@
            != entry.id@ by {
            assert(reports.drop_first()[j] == reports[j + 1]);
        }
        lemma_rate_after_set(reports.drop_first(), at - 1, entry, k);
    }
}

/// Appending a report under an identifier that no report carries yet adds
/// its rate and changes no other.
proof fn lemma_rate_after_push(reports: Seq<HashrateReport>, entry: HashrateReport, k: Seq<u8>)
    requires
        forall|j: int| 0 <= j < reports.len() ==> reports[j].id@ != entry.id@,
    ensures
        rate_of(reports.push(entry), k) == if k == entry.id@ {
            Some(entry.rate)
        } else {
            rate_of(reports, k)
        },
    decreases reports.len(),
{
    let after = reports.push(entry);
    if reports.len() == 0 {
        assert(after.drop_first() =~= reports);
    } else {
        assert(after.drop_first() =~= reports.drop_first().push(entry));
        assert forall|j: int| 0 <= j < reports.drop_first().len() implies reports.drop_first()[j].id@
            != entry.id@ by {
            assert(reports.drop_first()[j] == reports[j + 1]);
        }
        lemma_rate_after_push(reports.drop_first(), entry, k);
    }
}

} // verus!
