//! What the delegator stores for a key-generation task, and the election of
//! the task's executor and initial pinners.

use vstd::prelude::*;
use crate::action::Step;
use crate::actor_delegate_proto::{
    KeyGenerationResponse, UpdateKeyGenerationResult, UpdateKeyGenerationResultView,
};
use crate::common::task_info::{spec_from_parts, TaskInfo, TaskInfoView};
use crate::delegator::executor_info::{ExecutorInfo, ExecutorInfoView};
use crate::delegator::key_gen::initial_pinner_info::{
    as_pinner, InitialPinnerInfo, InitialPinnerInfoView,
};
use crate::delegator::key_gen::TaskCandidates;
use crate::encoding::{base64_text, encodable};
use crate::error::Error;
use crate::p2p_proto::{TaskExecutionInitialPinnerDataView, TaskExecutionRequestView};
use crate::table::Table;
use crate::text::{copy_bytes, join3, option_view, views};

verus! {

/// First part of the storage key of a delegator's key-generation item.
pub const PREFIX_DELEGATOR_TASK_KEY_GEN_STORE_ITEM: &'static str =
    "delegator_task_key_gen_store_item";

/// How far a key-generation task has come, as its delegator sees it.
#[derive(Debug, Clone, Copy, PartialEq, Eq, Structural)]
pub enum StoreItemState {
    Init,
    InvitedCandidates,
    RaBegun,
    RaCompleted,
    SentToExecutor,
    ReceivedExecutionResult,
    SentToInitialPinner,
    ReceivedAllPinnerResponse,
}

/// The delegator's record of a key-generation task.
#[derive(Debug, Clone, PartialEq)]
pub struct DelegatorKeyGenStoreItem {
    pub task_info: TaskInfo,
    pub state: StoreItemState,
    pub nonce: Vec<u8>,
    /// The elected executor.
    pub executor: Option<ExecutorInfo>,
    /// The elected initial pinners.
    pub initial_pinners: Vec<InitialPinnerInfo>,
    pub p1_public_key: Vec<u8>,
    pub p2_public_key: Option<Vec<u8>>,
    pub multi_sig_account: Option<Vec<u8>>,
    /// For each initial pinner that was handed a slice, the deployment id it
    /// answered with, once it has answered.
    pub initial_pinner_responses: Table<Option<String>>,
    /// Attested candidates for the executor's role, in order of arrival.
    pub candidate_executors: Vec<ExecutorInfo>,
    /// Attested candidates for an initial pinner's role, in order of arrival.
    pub candidate_initial_pinners: Vec<InitialPinnerInfo>,
}

/// What a [`DelegatorKeyGenStoreItem`] holds, as plain values.
pub struct DelegatorKeyGenStoreItemView {
    pub task_info: TaskInfoView,
    pub state: StoreItemState,
    pub nonce: Seq<u8>,
    pub executor: Option<ExecutorInfoView>,
    pub initial_pinners: Seq<InitialPinnerInfoView>,
    pub p1_public_key: Seq<u8>,
    pub p2_public_key: Option<Seq<u8>>,
    pub multi_sig_account: Option<Seq<u8>>,
    pub initial_pinner_responses: Seq<(Seq<char>, Option<Seq<char>>)>,
    pub candidate_executors: Seq<ExecutorInfoView>,
    pub candidate_initial_pinners: Seq<InitialPinnerInfoView>,
}

impl View for DelegatorKeyGenStoreItem {
    type V = DelegatorKeyGenStoreItemView;

    open spec fn view(&self) -> DelegatorKeyGenStoreItemView {
        DelegatorKeyGenStoreItemView {
            task_info: self.task_info@,
            state: self.state,
            nonce: self.nonce@,
            executor: option_view(self.executor),
            initial_pinners: views(self.initial_pinners@),
            p1_public_key: self.p1_public_key@,
            p2_public_key: option_view(self.p2_public_key),
            multi_sig_account: option_view(self.multi_sig_account),
            initial_pinner_responses: self.initial_pinner_responses.pairs(),
            candidate_executors: views(self.candidate_executors@),
            candidate_initial_pinners: views(self.candidate_initial_pinners@),
        }
    }
}

/// The last `count` elements of `pool`, the last one first: what `count`
/// pops hand out.
pub open spec fn popped<A>(pool: Seq<A>, count: nat) -> Seq<A> {
    Seq::new(count, |i: int| pool[pool.len() - 1 - i])
}

/// The smaller of two counts.
pub open spec fn least(a: nat, b: nat) -> nat {
    if a <= b {
        a
    } else {
        b
    }
}

impl DelegatorKeyGenStoreItemView {
    /// The item of a task that has just been accepted.
    pub open spec fn fresh(task_info: TaskInfoView, p1_public_key: Seq<u8>) -> Self {
        DelegatorKeyGenStoreItemView {
            task_info,
            state: StoreItemState::Init,
            nonce: Seq::empty(),
            executor: None,
            initial_pinners: Seq::empty(),
            p1_public_key,
            p2_public_key: None,
            multi_sig_account: None,
            initial_pinner_responses: Seq::empty(),
            candidate_executors: Seq::empty(),
            candidate_initial_pinners: Seq::empty(),
        }
    }

    /// Enough candidates have been attested to elect from: at least one for
    /// the executor's role, and more than `n + 1` in all.
    pub open spec fn candidates_ready(self) -> bool {
        self.candidate_executors.len() >= 1 && self.candidate_executors.len()
            + self.candidate_initial_pinners.len() > self.task_info.exec_info.n + 1
    }

    /// The election is complete: there is an executor, and exactly `n`
    /// initial pinners.
    pub open spec fn request_ready(self) -> bool {
        self.executor is Some && self.initial_pinners.len() == self.task_info.exec_info.n
    }

    /// Every initial pinner that was handed a slice has answered.
    pub open spec fn all_initial_pinners_ready(self) -> bool {
        forall|i: int|
            0 <= i < self.initial_pinner_responses.len()
                ==> (#[trigger] self.initial_pinner_responses[i]).1 is Some
    }

    /// The item with one more candidate executor.
    pub open spec fn with_executor(self, executor: ExecutorInfoView) -> Self {
        DelegatorKeyGenStoreItemView {
            candidate_executors: self.candidate_executors.push(executor),
            ..self
        }
    }

    /// The item with one more candidate initial pinner.
    pub open spec fn with_initial_pinner(self, pinner: InitialPinnerInfoView) -> Self {
        DelegatorKeyGenStoreItemView {
            candidate_initial_pinners: self.candidate_initial_pinners.push(pinner),
            ..self
        }
    }

    /// The item after the executor is elected: the candidate that arrived
    /// last leaves the pool and takes the role. There must be a candidate.
    pub open spec fn select_executor(self) -> Self {
        DelegatorKeyGenStoreItemView {
            executor: Some(self.candidate_executors.last()),
            candidate_executors: self.candidate_executors.drop_last(),
            ..self
        }
    }

    /// How many initial pinners are still to be elected.
    pub open spec fn shortfall(self) -> nat {
        if self.task_info.exec_info.n > self.initial_pinners.len() {
            (self.task_info.exec_info.n - self.initial_pinners.len()) as nat
        } else {
            0
        }
    }

    /// How many candidate initial pinners the election takes.
    pub open spec fn pinners_taken(self) -> nat {
        least(self.shortfall(), self.candidate_initial_pinners.len())
    }

    /// How many candidate executors the election promotes to initial pinners.
    pub open spec fn executors_promoted(self) -> nat {
        least(
            (self.shortfall() - self.pinners_taken()) as nat,
            self.candidate_executors.len(),
        )
    }

    /// The item after the initial pinners are elected. Candidate initial
    /// pinners are taken first, those that arrived last first; where they do
    /// not suffice, candidate executors are promoted in the same way. The
    /// election stops at `n` initial pinners or when both pools are empty.
    pub open spec fn select_initial_pinners(self) -> Self {
        let a = self.pinners_taken();
        let b = self.executors_promoted();
        DelegatorKeyGenStoreItemView {
            initial_pinners: self.initial_pinners + popped(self.candidate_initial_pinners, a)
                + popped(self.candidate_executors, b).map_values(
                |e: ExecutorInfoView| as_pinner(e),
            ),
            candidate_initial_pinners: self.candidate_initial_pinners.take(
                self.candidate_initial_pinners.len() - a,
            ),
            candidate_executors: self.candidate_executors.take(self.candidate_executors.len() - b),
            ..self
        }
    }

    /// The outcome of the whole election.
    pub open spec fn elect(self) -> Result<Self, Error> {
        if self.candidate_executors.len() == 0 {
            Err(Error::NoCandidateExecutor)
        } else {
            Ok(self.select_executor().select_initial_pinners())
        }
    }

    /// The request that tells the executor what to do.
    pub open spec fn execution_request(self) -> TaskExecutionRequestView {
        TaskExecutionRequestView {
            task_id: self.task_info.task_id,
            initial_pinners: Seq::new(
                self.initial_pinners.len(),
                |i: int|
                    TaskExecutionInitialPinnerDataView {
                        peer_id: self.initial_pinners[i].peer_id,
                        rsa_pub_key: self.initial_pinners[i].rsa_pub_key,
                    },
            ),
            minimum_recovery_number: self.task_info.exec_info.k as u32,
            key_type: self.task_info.exec_info.task_type,
            p1_public_key: self.p1_public_key,
        }
    }

    /// The deployment ids that the initial pinners answered with, in the
    /// order in which the pinners were handed their slices.
    pub open spec fn deployment_ids(self) -> Seq<Seq<char>> {
        Seq::new(
            self.initial_pinner_responses.len(),
            |i: int| self.initial_pinner_responses[i].1->0,
        )
    }

    /// What is committed to the ledger when the task completes, if nothing
    /// is missing.
    pub open spec fn update_result(self) -> Result<UpdateKeyGenerationResultView, Error> {
        if self.p2_public_key is Some && self.multi_sig_account is Some
            && self.all_initial_pinners_ready() {
            Ok(
                UpdateKeyGenerationResultView {
                    task_id: self.task_info.task_id,
                    multi_sig_account: self.multi_sig_account->0,
                    p2_public_key: self.p2_public_key->0,
                    deployment_ids: self.deployment_ids(),
                },
            )
        } else {
            Err(Error::ResultIncomplete)
        }
    }
}

/// The peer ids of everyone who holds or may get a role: the elected
/// initial pinners, the candidate initial pinners and the candidate
/// executors, in this order.
pub open spec fn contenders(item: DelegatorKeyGenStoreItemView) -> Seq<Seq<char>> {
    Seq::new(item.initial_pinners.len(), |i: int| item.initial_pinners[i].peer_id) + Seq::new(
        item.candidate_initial_pinners.len(),
        |i: int| item.candidate_initial_pinners[i].peer_id,
    ) + Seq::new(item.candidate_executors.len(), |i: int| item.candidate_executors[i].peer_id)
}

/// An election that begins with enough candidates, and with no more than
/// `n` initial pinners elected before, ends with an executor and exactly `n`
/// initial pinners.
pub proof fn lemma_election_completes(item: DelegatorKeyGenStoreItemView)
    requires
        item.candidates_ready(),
        item.initial_pinners.len() <= item.task_info.exec_info.n,
    ensures
        item.elect() is Ok,
        item.elect()->Ok_0.request_ready(),
        item.elect()->Ok_0.initial_pinners.len() == item.task_info.exec_info.n,
{
    let chosen = item.select_executor();
    assert(chosen.candidate_executors.len() == item.candidate_executors.len() - 1);
    let elected = chosen.select_initial_pinners();
    assert(elected.initial_pinners.len() == chosen.initial_pinners.len() + chosen.pinners_taken()
        + chosen.executors_promoted());
}

/// Where no peer holds or may get a role twice, the elected executor is
/// none of the elected initial pinners.
pub proof fn lemma_executor_is_no_initial_pinner(item: DelegatorKeyGenStoreItemView)
    requires
        item.candidate_executors.len() > 0,
        contenders(item).no_duplicates(),
    ensures
        item.elect() is Ok,
        forall|i: int|
            0 <= i < item.elect()->Ok_0.initial_pinners.len() ==> (
            #[trigger] item.elect()->Ok_0.initial_pinners[i]).peer_id
                != item.elect()->Ok_0.executor->0.peer_id,
{
    let chosen = item.select_executor();
    let elected = chosen.select_initial_pinners();
    let all = contenders(item);
    let p = item.initial_pinners.len() as int;
    let c = item.candidate_initial_pinners.len() as int;
    let e = item.candidate_executors.len() as int;
    let a = chosen.pinners_taken() as int;
    let b = chosen.executors_promoted() as int;
    assert(all[p + c + e - 1] == item.candidate_executors.last().peer_id);
    assert forall|i: int| 0 <= i < elected.initial_pinners.len() implies (
    #[trigger] elected.initial_pinners[i]).peer_id != elected.executor->0.peer_id by {
        if i < p {
            assert(all[i] == elected.initial_pinners[i].peer_id);
        } else if i < p + a {
            let j = c - 1 - (i - p);
            assert(elected.initial_pinners[i] == item.candidate_initial_pinners[j]);
            assert(all[p + j] == elected.initial_pinners[i].peer_id);
        } else {
            let j = (e - 1) - 1 - (i - p - a);
            assert(elected.initial_pinners[i] == as_pinner(chosen.candidate_executors[j]));
            assert(chosen.candidate_executors[j] == item.candidate_executors[j]);
            assert(all[p + c + j] == elected.initial_pinners[i].peer_id);
        }
    }
}

/// Whether a stored item, if there is one, is well-formed.
pub open spec fn item_wf(item: Option<DelegatorKeyGenStoreItem>) -> bool {
    match item {
        Some(item) => item.wf(),
        None => true,
    }
}

/// Whether the item that a handler's outcome holds, if any, is well-formed.
pub open spec fn result_wf(r: Result<Step<DelegatorKeyGenStoreItem>, Error>) -> bool {
    match r {
        Ok(step) => item_wf(step.item),
        Err(_) => true,
    }
}

/// The storage key of a delegator's key-generation item.
pub open spec fn spec_task_store_item_key(task_id: Seq<char>) -> Seq<char> {
    PREFIX_DELEGATOR_TASK_KEY_GEN_STORE_ITEM@ + "_"@ + task_id
}

/// The key under which the delegator stores the key-generation item of a
/// task.
pub fn get_task_store_item_key(task_id: &str) -> (key: String)
    ensures
        key@ == spec_task_store_item_key(task_id@),
{
    join3(PREFIX_DELEGATOR_TASK_KEY_GEN_STORE_ITEM, "_", task_id)
}

impl TaskCandidates for DelegatorKeyGenStoreItem {
    /// Whether the election can begin: at least one candidate executor has
    /// been attested, and more than `n + 1` candidates in all.
    fn ready(&self) -> (r: bool)
        ensures
            r == self@.candidates_ready(),
    {
        self.candidates_ready()
    }

    /// Adds an attested candidate for the executor's role.
    fn insert_executor(&mut self, executor: ExecutorInfo)
        ensures
            final(self)@ == old(self)@.with_executor(executor@),
            final(self).initial_pinner_responses == old(self).initial_pinner_responses,
    {
        self.candidate_executors.push(executor);
        assert(views(self.candidate_executors@) =~= views(old(self).candidate_executors@).push(
            executor@,
        ));
    }

    /// Adds an attested candidate for an initial pinner's role.
    fn insert_initial_pinner(&mut self, pinner: InitialPinnerInfo)
        ensures
            final(self)@ == old(self)@.with_initial_pinner(pinner@),
            final(self).initial_pinner_responses == old(self).initial_pinner_responses,
    {
        self.candidate_initial_pinners.push(pinner);
        assert(views(self.candidate_initial_pinners@) =~= views(
            old(self).candidate_initial_pinners@,
        ).push(pinner@));
    }

    /// Elects the executor, then the initial pinners. Without a candidate
    /// executor nothing is elected and the item stays as it is.
    fn elect(&mut self) -> (r: Result<(), Error>)
        ensures
            match r {
                Ok(_) => old(self)@.elect() == Ok::<DelegatorKeyGenStoreItemView, Error>(
                    final(self)@,
                ),
                Err(e) => old(self)@.elect() == Err::<DelegatorKeyGenStoreItemView, Error>(e)
                    && *final(self) == *old(self),
            },
            final(self).initial_pinner_responses == old(self).initial_pinner_responses,
    {
        match self.select_executor() {
            Ok(_) => {},
            Err(e) => {
                return Err(e);
            },
        }
        self.select_initial_pinners()
    }
}

impl DelegatorKeyGenStoreItem {
    /// No initial pinner is recorded twice among the responses.
    pub open spec fn wf(&self) -> bool {
        self.initial_pinner_responses.wf()
    }

    /// The item of a task with nothing elected and nothing received.
    pub fn new(task_info: TaskInfo, p1_public_key: Vec<u8>) -> (r: Self)
        ensures
            r@ == DelegatorKeyGenStoreItemView::fresh(task_info@, p1_public_key@),
            r.wf(),
    {
        let item = DelegatorKeyGenStoreItem {
            task_info,
            state: StoreItemState::Init,
            nonce: Vec::new(),
            executor: None,
            initial_pinners: Vec::new(),
            p1_public_key,
            p2_public_key: None,
            multi_sig_account: None,
            initial_pinner_responses: Table::new(),
            candidate_executors: Vec::new(),
            candidate_initial_pinners: Vec::new(),
        };
        assert(item@.initial_pinners =~= Seq::empty());
        assert(item@.initial_pinner_responses =~= Seq::empty());
        assert(item@.candidate_executors =~= Seq::empty());
        assert(item@.candidate_initial_pinners =~= Seq::empty());
        assert(item@.nonce =~= Seq::empty());
        item
    }

    /// The item of a task that the ledger announced, in state
    /// [`StoreItemState::Init`]. The task's id is the base64 text of the
    /// announced id. An announcement with invalid parameters gives no item.
    pub fn from_key_generation_event(value: KeyGenerationResponse) -> (r: Result<Self, Error>)
        requires
            encodable(value.task_id@.len()),
        ensures
            match (
                r,
                spec_from_parts(
                    base64_text(value.task_id@),
                    value.data_adhoc.n,
                    value.data_adhoc.k,
                    value.data_adhoc.key_type@,
                ),
            ) {
                (Ok(item), Ok(task_info)) => item@ == DelegatorKeyGenStoreItemView::fresh(
                    task_info,
                    value.p1_public_key@,
                ) && item.wf() && task_info.exec_info.valid(),
                (Err(e), Err(expected)) => e == expected,
                _ => false,
            },
    {
        let p1_public_key = copy_bytes(&value.p1_public_key);
        match TaskInfo::from_key_generation_event(value) {
            Ok(task_info) => Ok(DelegatorKeyGenStoreItem::new(task_info, p1_public_key)),
            Err(e) => Err(e),
        }
    }

    /// Whether enough candidates have been attested to elect from: at least
    /// one for the executor's role, and more than `n + 1` in all.
    pub fn candidates_ready(&self) -> (r: bool)
        ensures
            r == self@.candidates_ready(),
    {
        let executors = self.candidate_executors.len();
        let pinners = self.candidate_initial_pinners.len();
        let n: usize = self.task_info.exec_info.n as usize;
        executors >= 1 && (executors > n + 1 || pinners > n + 1 - executors)
    }

    /// Whether the election is complete: there is an executor, and exactly
    /// `n` initial pinners.
    pub fn request_ready(&self) -> (r: bool)
        ensures
            r == self@.request_ready(),
    {
        self.executor.is_some() && self.initial_pinners.len()
            == self.task_info.exec_info.n as usize
    }

    /// Whether every initial pinner that was handed a slice has answered.
    pub fn is_all_initial_pinners_ready(&self) -> (r: bool)
        ensures
            r == self@.all_initial_pinners_ready(),
    {
        let mut i: usize = 0;
        while i < self.initial_pinner_responses.len()
            invariant
                i <= self.initial_pinner_responses.entries@.len(),
                forall|j: int| 0 <= j < i ==> (#[trigger] self@.initial_pinner_responses[j]).1 is Some,
            decreases self.initial_pinner_responses.entries@.len() - i,
        {
            if self.initial_pinner_responses.value_at(i).is_none() {
                assert(self@.initial_pinner_responses[i as int].1 is None);
                return false;
            }
            i = i + 1;
        }
        true
    }

    /// Elects the executor: the candidate that arrived last leaves the pool
    /// and takes the role. Arrival alone decides; the candidates are not
    /// ranked by the exclusive-or of their ids with the hashes of the ledger
    /// and the task. An empty pool is an error and changes nothing.
    pub fn select_executor(&mut self) -> (r: Result<(), Error>)
        ensures
            match r {
                Ok(_) => old(self)@.candidate_executors.len() > 0 && final(self)@
                    == old(self)@.select_executor(),
                Err(e) => old(self)@.candidate_executors.len() == 0 && e
                    == Error::NoCandidateExecutor && *final(self) == *old(self),
            },
            final(self).initial_pinner_responses == old(self).initial_pinner_responses,
    {
        if self.candidate_executors.len() == 0 {
            return Err(Error::NoCandidateExecutor);
        }
        let executor = self.candidate_executors.pop().unwrap();
        proof {
            let pool = views(old(self).candidate_executors@);
            assert(executor@ == pool.last());
            assert(views(self.candidate_executors@) =~= pool.drop_last());
        }
        self.executor = Some(executor);
        Ok(())
    }

    /// Elects the initial pinners, up to `n` in all: first from the
    /// candidate initial pinners, then, where those do not suffice, from the
    /// remaining candidate executors.
    pub fn select_initial_pinners(&mut self) -> (r: Result<(), Error>)
        ensures
            r is Ok,
            final(self)@ == old(self)@.select_initial_pinners(),
            final(self).initial_pinner_responses == old(self).initial_pinner_responses,
    {
        let n: usize = self.task_info.exec_info.n as usize;
        let ghost before = self@;
        let ghost mut taken: nat = 0;
        while self.initial_pinners.len() < n && self.candidate_initial_pinners.len() > 0
            invariant
                n == before.task_info.exec_info.n,
                before == old(self)@,
                taken <= before.pinners_taken(),
                self@.initial_pinners == before.initial_pinners + popped(
                    before.candidate_initial_pinners,
                    taken,
                ),
                self@.candidate_initial_pinners == before.candidate_initial_pinners.take(
                    before.candidate_initial_pinners.len() - taken,
                ),
                self@.candidate_executors == before.candidate_executors,
                self@.task_info == before.task_info,
                self@.state == before.state,
                self@.nonce == before.nonce,
                self@.executor == before.executor,
                self@.p1_public_key == before.p1_public_key,
                self@.p2_public_key == before.p2_public_key,
                self@.multi_sig_account == before.multi_sig_account,
                self.initial_pinner_responses == old(self).initial_pinner_responses,
            decreases self.candidate_initial_pinners@.len(),
        {
            let ghost pinners = self@.initial_pinners;
            let ghost pool = self@.candidate_initial_pinners;
            let pinner = self.candidate_initial_pinners.pop().unwrap();
            self.initial_pinners.push(pinner);
            proof {
                assert(pinner@ == pool.last());
                assert(self@.initial_pinners =~= pinners.push(pinner@));
                assert(self@.candidate_initial_pinners =~= pool.drop_last());
                assert(self@.initial_pinners =~= before.initial_pinners + popped(
                    before.candidate_initial_pinners,
                    taken + 1,
                ));
                assert(self@.candidate_initial_pinners
                    =~= before.candidate_initial_pinners.take(
                    before.candidate_initial_pinners.len() - (taken + 1),
                ));
                taken = taken + 1;
            }
        }
        assert(taken == before.pinners_taken());
        let ghost middle = self@;
        let ghost mut promoted: nat = 0;
        while self.initial_pinners.len() < n && self.candidate_executors.len() > 0
            invariant
                n == before.task_info.exec_info.n,
                before == old(self)@,
                middle.initial_pinners == before.initial_pinners + popped(
                    before.candidate_initial_pinners,
                    before.pinners_taken(),
                ),
                promoted <= before.executors_promoted(),
                self@.initial_pinners == middle.initial_pinners + popped(
                    before.candidate_executors,
                    promoted,
                ).map_values(|e: ExecutorInfoView| as_pinner(e)),
                self@.candidate_executors == before.candidate_executors.take(
                    before.candidate_executors.len() - promoted,
                ),
                self@.candidate_initial_pinners == before.candidate_initial_pinners.take(
                    before.candidate_initial_pinners.len() - before.pinners_taken(),
                ),
                self@.task_info == before.task_info,
                self@.state == before.state,
                self@.nonce == before.nonce,
                self@.executor == before.executor,
                self@.p1_public_key == before.p1_public_key,
                self@.p2_public_key == before.p2_public_key,
                self@.multi_sig_account == before.multi_sig_account,
                self.initial_pinner_responses == old(self).initial_pinner_responses,
            decreases self.candidate_executors@.len(),
        {
            let ghost pinners = self@.initial_pinners;
            let ghost pool = self@.candidate_executors;
            let executor = self.candidate_executors.pop().unwrap();
            let pinner: InitialPinnerInfo = InitialPinnerInfo::from(executor);
            self.initial_pinners.push(pinner);
            proof {
                assert(executor@ == pool.last());
                assert(self@.initial_pinners =~= pinners.push(as_pinner(executor@)));
                assert(self@.candidate_executors =~= pool.drop_last());
                assert(self@.initial_pinners =~= middle.initial_pinners + popped(
                    before.candidate_executors,
                    promoted + 1,
                ).map_values(|e: ExecutorInfoView| as_pinner(e)));
                assert(self@.candidate_executors =~= before.candidate_executors.take(
                    before.candidate_executors.len() - (promoted + 1),
                ));
                promoted = promoted + 1;
            }
        }
        assert(promoted == before.executors_promoted());
        assert(self@.initial_pinners =~= before.select_initial_pinners().initial_pinners);
        Ok(())
    }

    /// What is committed to the ledger when the task completes: the task,
    /// the account, the second public key and every initial pinner's
    /// deployment id. While any of these is missing there is nothing to
    /// commit.
    pub fn update_key_generation_result(&self) -> (r: Result<UpdateKeyGenerationResult, Error>)
        ensures
            match r {
                Ok(result) => self@.update_result() == Ok::<UpdateKeyGenerationResultView, Error>(
                    result@,
                ),
                Err(e) => self@.update_result() == Err::<UpdateKeyGenerationResultView, Error>(e),
            },
    {
        let p2_public_key = match &self.p2_public_key {
            Some(key) => copy_bytes(key),
            None => {
                return Err(Error::ResultIncomplete);
            },
        };
        let multi_sig_account = match &self.multi_sig_account {
            Some(account) => copy_bytes(account),
            None => {
                return Err(Error::ResultIncomplete);
            },
        };
        let mut deployment_ids: Vec<String> = Vec::new();
        let mut i: usize = 0;
        while i < self.initial_pinner_responses.len()
            invariant
                i <= self.initial_pinner_responses.entries@.len(),
                deployment_ids@.len() == i,
                forall|j: int| 0 <= j < i ==> (#[trigger] self@.initial_pinner_responses[j]).1 is Some,
                forall|j: int|
                    0 <= j < i ==> deployment_ids@[j]@ == self@.initial_pinner_responses[j].1->0,
            decreases self.initial_pinner_responses.entries@.len() - i,
        {
            match self.initial_pinner_responses.value_at(i) {
                Some(id) => {
                    deployment_ids.push(id.clone());
                },
                None => {
                    assert(self@.initial_pinner_responses[i as int].1 is None);
                    return Err(Error::ResultIncomplete);
                },
            }
            i = i + 1;
        }
        let result = UpdateKeyGenerationResult {
            task_id: self.task_info.task_id.clone(),
            multi_sig_account,
            p2_public_key,
            deployment_ids,
        };
        assert(result@.deployment_ids =~= self@.deployment_ids());
        Ok(result)
    }
}

} // verus!
