//! Parallel submission of one trade through several landing services: which
//! (service, fee strategy) tasks run, how a failed send is classified, and how the
//! tasks' results are collected into one answer.

use vstd::prelude::*;

use crossbeam_queue::ArrayQueue;

use crate::gas_fee_strategy::{GasFeeStrategyType, GasFeeStrategyValue};
use crate::swqos::SwqosType;

verus! {

/// One task: the client it goes through and the fee strategy it uses.
#[derive(Clone, Copy, Debug)]
pub struct ParallelTask {
    pub client_index: usize,
    pub swqos_type: SwqosType,
    pub strategy: GasFeeStrategyType,
    pub value: GasFeeStrategyValue,
}

/// Whether a client takes part: every client when tipping, only default RPC clients
/// otherwise.
pub open spec fn client_takes_part(t: SwqosType, with_tip: bool) -> bool {
    with_tip || t == SwqosType::Default
}

/// The tasks of client `ci` (of type `t`) among the first `j` strategies: those of the
/// client's service whose tip passes the minimum-tip check.
pub open spec fn client_tasks(
    ci: int,
    t: SwqosType,
    configs: Seq<(SwqosType, GasFeeStrategyType, GasFeeStrategyValue)>,
    tip_ok: Seq<bool>,
    with_tip: bool,
    j: nat,
) -> Seq<(int, int)>
    decreases j,
{
    if j == 0 || !client_takes_part(t, with_tip) {
        Seq::empty()
    } else {
        client_tasks(ci, t, configs, tip_ok, with_tip, (j - 1) as nat) + if configs[j - 1].0 == t && tip_ok[j - 1] {
            seq![(ci, j - 1)]
        } else {
            Seq::empty()
        }
    }
}

/// The tasks of the first `i` clients, as (client, strategy) positions, client by
/// client and strategy by strategy.
pub open spec fn tasks_upto(
    types: Seq<SwqosType>,
    configs: Seq<(SwqosType, GasFeeStrategyType, GasFeeStrategyValue)>,
    tip_ok: Seq<bool>,
    with_tip: bool,
    i: nat,
) -> Seq<(int, int)>
    decreases i,
{
    if i == 0 {
        Seq::empty()
    } else {
        tasks_upto(types, configs, tip_ok, with_tip, (i - 1) as nat) + client_tasks(
            i - 1,
            types[i - 1],
            configs,
            tip_ok,
            with_tip,
            configs.len(),
        )
    }
}

/// Whether `task` is the task at positions `pos` (client, strategy).
pub open spec fn task_at(
    task: ParallelTask,
    pos: (int, int),
    configs: Seq<(SwqosType, GasFeeStrategyType, GasFeeStrategyValue)>,
) -> bool {
    &&& task.client_index == pos.0
    &&& task.swqos_type == configs[pos.1].0
    &&& task.strategy == configs[pos.1].1
    &&& task.value == configs[pos.1].2
}

/// Error of a trade with no client.
pub open spec fn no_clients_error() -> Seq<char> {
    "swqos_clients is empty"@
}

/// Error of an untipped trade with no default RPC client.
pub open spec fn no_default_error() -> Seq<char> {
    "No Rpc Default Swqos configured."@
}

/// Error of a trade no strategy applies to.
pub open spec fn no_configs_error() -> Seq<char> {
    "No available gas fee strategy configs"@
}

/// Error of a buy sent several times without a durable nonce.
pub open spec fn nonce_required_error() -> Seq<char> {
    "Multiple swqos transactions require durable_nonce to be set."@
}

fn contains_default(types: &Vec<SwqosType>) -> (r: bool)
    ensures
        r == exists|i: int| 0 <= i < types@.len() && types@[i] == SwqosType::Default,
{
    let mut i: usize = 0;
    while i < types.len()
        invariant
            i <= types@.len(),
            forall|j: int| 0 <= j < i ==> types@[j] != SwqosType::Default,
        decreases types@.len() - i,
    {
        if types[i] == SwqosType::Default {
            return true;
        }
        i = i + 1;
    }
    false
}

/// The tasks of a trade over clients of the given types and the trade type's strategies
/// (`tip_ok[j]`: strategy `j` passes the minimum-tip check, or none applies). Refused,
/// in this order: with no client; untipped with no default RPC client; with no task;
/// for a buy of several tasks without a durable nonce.
pub fn plan_parallel_tasks(
    client_types: &Vec<SwqosType>,
    configs: &Vec<(SwqosType, GasFeeStrategyType, GasFeeStrategyValue)>,
    tip_ok: &Vec<bool>,
    with_tip: bool,
    is_buy: bool,
    has_durable_nonce: bool,
) -> (r: Result<Vec<ParallelTask>, String>)
    requires
        tip_ok@.len() == configs@.len(),
    ensures
        client_types@.len() == 0 ==> (r matches Err(e) && e@ == no_clients_error()),
        client_types@.len() > 0 && !with_tip && !(exists|i: int|
            0 <= i < client_types@.len() && client_types@[i] == SwqosType::Default) ==> (r matches Err(e) && e@
            == no_default_error()),
        (client_types@.len() > 0 && (with_tip || exists|i: int|
            0 <= i < client_types@.len() && client_types@[i] == SwqosType::Default)) ==> ({
            let tasks = tasks_upto(client_types@, configs@, tip_ok@, with_tip, client_types@.len());
            &&& tasks.len() == 0 ==> (r matches Err(e) && e@ == no_configs_error())
            &&& tasks.len() > 1 && is_buy && !has_durable_nonce ==> (r matches Err(e) && e@ == nonce_required_error())
            &&& tasks.len() > 0 && !(tasks.len() > 1 && is_buy && !has_durable_nonce) ==> (r matches Ok(v) && v@.len()
                == tasks.len() && forall|k: int| 0 <= k < tasks.len() ==> task_at(v@[k], tasks[k], configs@))
        }),
{
    if client_types.len() == 0 {
        return Err("swqos_clients is empty".to_owned());
    }
    if !with_tip && !contains_default(client_types) {
        return Err("No Rpc Default Swqos configured.".to_owned());
    }
    let mut tasks: Vec<ParallelTask> = Vec::new();
    let mut i: usize = 0;
    while i < client_types.len()
        invariant
            i <= client_types@.len(),
            tip_ok@.len() == configs@.len(),
            tasks@.len() == tasks_upto(client_types@, configs@, tip_ok@, with_tip, i as nat).len(),
            forall|k: int|
                0 <= k < tasks@.len() ==> task_at(
                    tasks@[k],
                    tasks_upto(client_types@, configs@, tip_ok@, with_tip, i as nat)[k],
                    configs@,
                ),
        decreases client_types@.len() - i,
    {
        let t = client_types[i];
        let ghost before = tasks@;
        let ghost prefix = tasks_upto(client_types@, configs@, tip_ok@, with_tip, i as nat);
        let mut j: usize = 0;
        while j < configs.len()
            invariant
                i < client_types@.len(),
                t == client_types@[i as int],
                j <= configs@.len(),
                tip_ok@.len() == configs@.len(),
                prefix == tasks_upto(client_types@, configs@, tip_ok@, with_tip, i as nat),
                tasks@.len() == prefix.len() + client_tasks(i as int, t, configs@, tip_ok@, with_tip, j as nat).len(),
                forall|k: int|
                    0 <= k < tasks@.len() ==> task_at(
                        tasks@[k],
                        (prefix + client_tasks(i as int, t, configs@, tip_ok@, with_tip, j as nat))[k],
                        configs@,
                    ),
            decreases configs@.len() - j,
        {
            let ghost seq_before = prefix + client_tasks(i as int, t, configs@, tip_ok@, with_tip, j as nat);
            if (with_tip || t == SwqosType::Default) && configs[j].0 == t && tip_ok[j] {
                let c = configs[j];
                tasks.push(ParallelTask { client_index: i, swqos_type: c.0, strategy: c.1, value: c.2 });
                proof {
                    assert(prefix + client_tasks(i as int, t, configs@, tip_ok@, with_tip, (j + 1) as nat) =~= seq_before.push(
                        (i as int, j as int),
                    ));
                }
            } else {
                proof {
                    assert(prefix + client_tasks(i as int, t, configs@, tip_ok@, with_tip, (j + 1) as nat) =~= seq_before);
                }
            }
            j = j + 1;
        }
        proof {
            assert(tasks_upto(client_types@, configs@, tip_ok@, with_tip, (i + 1) as nat) == prefix + client_tasks(
                i as int,
                t,
                configs@,
                tip_ok@,
                with_tip,
                configs@.len(),
            ));
        }
        i = i + 1;
    }
    if tasks.len() == 0 {
        return Err("No available gas fee strategy configs".to_owned());
    }
    if is_buy && tasks.len() > 1 && !has_durable_nonce {
        return Err("Multiple swqos transactions require durable_nonce to be set.".to_owned());
    }
    Ok(tasks)
}

/// Whether `pattern` occurs in `s` at `i`.
pub open spec fn text_at(s: Seq<char>, pattern: Seq<char>, i: int) -> bool {
    0 <= i && i + pattern.len() <= s.len() && s.subrange(i, i + pattern.len()) == pattern
}

/// Whether `pattern` occurs in `s`.
pub open spec fn contains_text(s: Seq<char>, pattern: Seq<char>) -> bool {
    exists|i: int| #[trigger] text_at(s, pattern, i)
}

fn occurs_at(s: &str, pos: usize, pattern: &str) -> (r: bool)
    requires
        pos <= s@.len(),
    ensures
        r == (pos + pattern@.len() <= s@.len() && s@.subrange(pos as int, pos + pattern@.len()) == pattern@),
{
    let n = s.unicode_len();
    let m = pattern.unicode_len();
    if m > n - pos {
        return false;
    }
    let mut j: usize = 0;
    while j < m
        invariant
            pos + m <= n,
            n == s@.len(),
            m == pattern@.len(),
            j <= m,
            forall|k: int| 0 <= k < j ==> s@[pos + k] == pattern@[k],
        decreases m - j,
    {
        if s.get_char(pos + j) != pattern.get_char(j) {
            assert(s@.subrange(pos as int, pos + m)[j as int] != pattern@[j as int]);
            return false;
        }
        j = j + 1;
    }
    assert(s@.subrange(pos as int, pos + m) =~= pattern@);
    true
}

/// Whether `pattern` occurs in `s` (as `str::contains` with a string pattern).
pub fn text_contains(s: &str, pattern: &str) -> (r: bool)
    ensures
        r == contains_text(s@, pattern@),
{
    let n = s.unicode_len();
    let mut pos: usize = 0;
    while pos < n
        invariant
            n == s@.len(),
            pos <= n,
            forall|i: int| 0 <= i < pos ==> !#[trigger] text_at(s@, pattern@, i),
        decreases n - pos,
    {
        if occurs_at(s, pos, pattern) {
            assert(text_at(s@, pattern@, pos as int));
            return true;
        }
        pos = pos + 1;
    }
    if occurs_at(s, n, pattern) {
        assert(text_at(s@, pattern@, n as int));
        return true;
    }
    proof {
        assert forall|i: int| !#[trigger] text_at(s@, pattern@, i) by {
            if 0 <= i && i + pattern@.len() <= s@.len() {
                assert(i <= n);
            }
        }
    }
    false
}

/// Whether a failed send landed on chain: only a trade error with a positive code
/// did, except code 500 reporting a time-out.
pub open spec fn spec_is_landed_error(code: Option<i64>, message: Seq<char>) -> bool {
    match code {
        Some(c) => !(c == 500 && contains_text(message, "timed out"@)) && c > 0,
        None => false,
    }
}

/// Whether a failed send landed on chain (see `spec_is_landed_error`); `code` is the
/// trade error's code when the error is one.
pub fn is_landed_error(code: Option<i64>, message: &str) -> (r: bool)
    ensures
        r == spec_is_landed_error(code, message@),
{
    match code {
        Some(c) => {
            if c == 500 && text_contains(message, "timed out") {
                return false;
            }
            c > 0
        },
        None => false,
    }
}

/// A transaction signature.
#[derive(Clone, Copy, Debug)]
pub struct TxSignature(pub [u8; 64]);

/// What one task reported.
#[derive(Clone, Debug)]
pub struct TaskResult {
    /// Position of the landing-service client the task went through.
    pub client_index: usize,
    pub success: bool,
    pub signature: TxSignature,
    pub error: Option<String>,
    pub swqos_type: SwqosType,
    pub landed_on_chain: bool,
}

/// The results waiting in a result queue, oldest first.
pub uninterp spec fn result_queue_items(q: ArrayQueue<TaskResult>) -> Seq<TaskResult>;

/// The number of results a result queue can hold.
pub uninterp spec fn result_queue_capacity(q: ArrayQueue<TaskResult>) -> nat;

/// Calls `ArrayQueue::new(cap)`: an empty queue of capacity `cap` (the crate panics on
/// a zero capacity).
#[verifier::external_body]
fn new_result_queue(cap: usize) -> (r: ArrayQueue<TaskResult>)
    requires
        0 < cap <= isize::MAX,
    ensures
        result_queue_items(r) == Seq::<TaskResult>::empty(),
        result_queue_capacity(r) == cap,
{
    ArrayQueue::new(cap)
}

/// Calls `ArrayQueue::push`: appends the result unless the queue is full, in which case
/// it comes back.
#[verifier::external_body]
fn push_result(q: &mut ArrayQueue<TaskResult>, item: TaskResult) -> (r: Result<(), TaskResult>)
    ensures
        result_queue_capacity(*final(q)) == result_queue_capacity(*old(q)),
        result_queue_items(*old(q)).len() < result_queue_capacity(*old(q)) ==> r is Ok && result_queue_items(
            *final(q),
        ) == result_queue_items(*old(q)).push(item),
        result_queue_items(*old(q)).len() >= result_queue_capacity(*old(q)) ==> (r matches Err(back) && back == item)
            && result_queue_items(*final(q)) == result_queue_items(*old(q)),
{
    q.push(item)
}

/// Calls `ArrayQueue::pop`: takes the oldest result, if any.
#[verifier::external_body]
fn pop_result(q: &mut ArrayQueue<TaskResult>) -> (r: Option<TaskResult>)
    ensures
        result_queue_capacity(*final(q)) == result_queue_capacity(*old(q)),
        result_queue_items(*old(q)).len() == 0 ==> r is None && result_queue_items(*final(q)) == result_queue_items(
            *old(q),
        ),
        result_queue_items(*old(q)).len() > 0 ==> r == Some(result_queue_items(*old(q))[0]) && result_queue_items(
            *final(q),
        ) == result_queue_items(*old(q)).skip(1),
{
    q.pop()
}

/// A collected answer: whether a send succeeded, every signature, and an error.
#[derive(Clone, Debug)]
pub struct CollectedOutcome {
    pub success: bool,
    pub signatures: Vec<TxSignature>,
    pub error: Option<String>,
}

/// `s` with `x` placed after every result whose client comes no later than its own
/// (results of one client keep the order they came in).
pub open spec fn insert_by_client(s: Seq<TaskResult>, x: TaskResult) -> Seq<TaskResult>
    decreases s.len(),
{
    if s.len() == 0 {
        seq![x]
    } else if s.last().client_index <= x.client_index {
        s.push(x)
    } else {
        insert_by_client(s.drop_last(), x).push(s.last())
    }
}

/// `results` in the order of their clients; results of one client in arrival order.
pub open spec fn order_by_client(results: Seq<TaskResult>) -> Seq<TaskResult>
    decreases results.len(),
{
    if results.len() == 0 {
        Seq::empty()
    } else {
        insert_by_client(order_by_client(results.drop_last()), results.last())
    }
}

/// Results ordered by client: no result comes before one of an earlier client.
pub open spec fn client_ordered(s: Seq<TaskResult>) -> bool {
    forall|i: int, j: int| 0 <= i < j < s.len() ==> s[i].client_index <= s[j].client_index
}

proof fn lemma_insert_by_client(s: Seq<TaskResult>, x: TaskResult)
    requires
        client_ordered(s),
    ensures
        client_ordered(insert_by_client(s, x)),
        insert_by_client(s, x).len() == s.len() + 1,
        insert_by_client(s, x).to_multiset() == s.to_multiset().insert(x),
        forall|i: int|
            0 <= i < insert_by_client(s, x).len() ==> (#[trigger] insert_by_client(s, x)[i]).client_index
                <= x.client_index || (exists|j: int| 0 <= j < s.len() && s[j] == insert_by_client(s, x)[i]),
    decreases s.len(),
{
    broadcast use vstd::seq_lib::group_to_multiset_ensures;
    if s.len() == 0 {
        assert(seq![x] =~= Seq::<TaskResult>::empty().push(x));
    } else if s.last().client_index <= x.client_index {
        assert forall|i: int| 0 <= i < s.len() + 1 implies (#[trigger] s.push(x)[i]).client_index
            <= x.client_index || (exists|j: int| 0 <= j < s.len() && s[j] == s.push(x)[i]) by {
            if i < s.len() {
                assert(s[i] == s.push(x)[i]);
            }
        }
    } else {
        let t = s.drop_last();
        assert(client_ordered(t));
        lemma_insert_by_client(t, x);
        let u = insert_by_client(t, x);
        assert(s =~= t.push(s.last()));
        assert forall|i: int, j: int| 0 <= i < j < u.push(s.last()).len() implies u.push(s.last())[i].client_index
            <= u.push(s.last())[j].client_index by {
            if j == u.len() {
                if u[i].client_index <= x.client_index {
                } else {
                    let k = choose|k: int| 0 <= k < t.len() && t[k] == u[i];
                    assert(s[k] == t[k]);
                }
            }
        }
        assert forall|i: int| 0 <= i < u.push(s.last()).len() implies (#[trigger] u.push(s.last())[i]).client_index
            <= x.client_index || (exists|j: int| 0 <= j < s.len() && s[j] == u.push(s.last())[i]) by {
            if i == u.len() {
                assert(s[s.len() - 1] == u.push(s.last())[i]);
            } else if u[i].client_index > x.client_index {
                let k = choose|k: int| 0 <= k < t.len() && t[k] == u[i];
                assert(s[k] == u.push(s.last())[i]);
            }
        }
    }
}

/// Ordering by client keeps every result, once each, and sorts them by client.
pub proof fn law_order_by_client(results: Seq<TaskResult>)
    ensures
        order_by_client(results).len() == results.len(),
        order_by_client(results).to_multiset() == results.to_multiset(),
        client_ordered(order_by_client(results)),
    decreases results.len(),
{
    broadcast use vstd::seq_lib::group_to_multiset_ensures;
    if results.len() > 0 {
        let t = results.drop_last();
        law_order_by_client(t);
        lemma_insert_by_client(order_by_client(t), results.last());
        assert(results =~= t.push(results.last()));
    }
}

/// The signatures of `results`, in order.
pub open spec fn result_signatures(results: Seq<TaskResult>) -> Seq<TxSignature> {
    results.map_values(|r: TaskResult| r.signature)
}

/// Whether some result succeeded.
pub open spec fn any_success(results: Seq<TaskResult>) -> bool {
    exists|i: int| 0 <= i < results.len() && results[i].success
}

/// The error of the last result that has one.
pub open spec fn last_error(results: Seq<TaskResult>) -> Option<String>
    decreases results.len(),
{
    if results.len() == 0 {
        None
    } else if results.last().error is Some {
        results.last().error
    } else {
        last_error(results.drop_last())
    }
}

/// The error of the last result that landed on chain with an error.
pub open spec fn last_landed_error(results: Seq<TaskResult>) -> Option<String>
    decreases results.len(),
{
    if results.len() == 0 {
        None
    } else if results.last().landed_on_chain && results.last().error is Some {
        results.last().error
    } else {
        last_landed_error(results.drop_last())
    }
}

/// What one poll of a confirmation wait decides.
pub enum PollOutcome {
    /// A send succeeded: every collected signature.
    Success(Vec<TxSignature>),
    /// A transaction landed but failed: every signature and the landed error.
    LandedFailed(Vec<TxSignature>, Option<String>),
    /// Every task reported: whether any succeeded, every signature, the last error.
    Completed(bool, Vec<TxSignature>, Option<String>),
    /// Every task reported, yet nothing was collected.
    NothingCollected,
    /// Keep waiting.
    Pending,
}

/// Collects the results of a trade's tasks.
pub struct ResultCollector {
    results: ArrayQueue<TaskResult>,
    success_flag: bool,
    landed_failed_flag: bool,
    completed_count: usize,
    total_tasks: usize,
}

impl ResultCollector {
    /// Results waiting, oldest first.
    pub closed spec fn waiting(&self) -> Seq<TaskResult> {
        result_queue_items(self.results)
    }

    /// Room for results.
    pub closed spec fn room(&self) -> nat {
        result_queue_capacity(self.results)
    }

    /// A task has succeeded.
    pub closed spec fn succeeded(&self) -> bool {
        self.success_flag
    }

    /// A task landed but failed.
    pub closed spec fn landed_failed(&self) -> bool {
        self.landed_failed_flag
    }

    /// Tasks that reported.
    pub closed spec fn completed(&self) -> usize {
        self.completed_count
    }

    /// Tasks of the trade.
    pub closed spec fn total(&self) -> usize {
        self.total_tasks
    }

    /// A collector for `capacity` tasks.
    pub fn new(capacity: usize) -> (r: Self)
        requires
            0 < capacity <= isize::MAX,
        ensures
            r.waiting() == Seq::<TaskResult>::empty(),
            r.room() == capacity,
            !r.succeeded(),
            !r.landed_failed(),
            r.completed() == 0,
            r.total() == capacity,
    {
        ResultCollector {
            results: new_result_queue(capacity),
            success_flag: false,
            landed_failed_flag: false,
            completed_count: 0,
            total_tasks: capacity,
        }
    }

    /// Records a task's result: it is queued (while there is room), a success raises the
    /// success flag, otherwise a landed failure raises the landed flag; one more task has
    /// reported.
    pub fn submit(&mut self, result: TaskResult)
        requires
            old(self).completed() < usize::MAX,
        ensures
            final(self).room() == old(self).room(),
            final(self).total() == old(self).total(),
            old(self).waiting().len() < old(self).room() ==> final(self).waiting() == old(self).waiting().push(result),
            old(self).waiting().len() >= old(self).room() ==> final(self).waiting() == old(self).waiting(),
            final(self).succeeded() == (old(self).succeeded() || result.success),
            final(self).landed_failed() == (old(self).landed_failed() || (!result.success && result.landed_on_chain)),
            final(self).completed() == old(self).completed() + 1,
    {
        let is_success = result.success;
        let is_landed_failed = result.landed_on_chain && !result.success;
        let _ = push_result(&mut self.results, result);
        if is_success {
            self.success_flag = true;
        } else if is_landed_failed {
            self.landed_failed_flag = true;
        }
        self.completed_count = self.completed_count + 1;
    }

    /// Takes every waiting result, in order.
    fn drain(&mut self) -> (r: Vec<TaskResult>)
        ensures
            r@ == old(self).waiting(),
            final(self).waiting() == Seq::<TaskResult>::empty(),
            final(self).room() == old(self).room(),
            final(self).total() == old(self).total(),
            final(self).succeeded() == old(self).succeeded(),
            final(self).landed_failed() == old(self).landed_failed(),
            final(self).completed() == old(self).completed(),
    {
        let ghost items = self.waiting();
        let mut out: Vec<TaskResult> = Vec::new();
        loop
            invariant
                out@ + self.waiting() == items,
                self.room() == old(self).room(),
                self.total() == old(self).total(),
                self.succeeded() == old(self).succeeded(),
                self.landed_failed() == old(self).landed_failed(),
                self.completed() == old(self).completed(),
            ensures
                out@ == items,
                self.waiting() == Seq::<TaskResult>::empty(),
                self.room() == old(self).room(),
                self.total() == old(self).total(),
                self.succeeded() == old(self).succeeded(),
                self.landed_failed() == old(self).landed_failed(),
                self.completed() == old(self).completed(),
            decreases self.waiting().len(),
        {
            let ghost w = self.waiting();
            match pop_result(&mut self.results) {
                Some(r) => {
                    out.push(r);
                    proof {
                        assert(out@ + self.waiting() =~= items) by {
                            assert(w =~= seq![w[0]] + w.skip(1));
                        }
                    }
                },
                None => {
                    proof {
                        assert(out@ + Seq::<TaskResult>::empty() =~= out@);
                    }
                    break;
                },
            }
        }
        out
    }

    /// Places `x` as `insert_by_client` does.
    fn insert_result(v: &mut Vec<TaskResult>, x: TaskResult)
        ensures
            final(v)@ == insert_by_client(old(v)@, x),
        decreases old(v)@.len(),
    {
        if v.len() == 0 {
            v.push(x);
            assert(v@ =~= seq![x]);
            return;
        }
        let last = v.len() - 1;
        if v[last].client_index <= x.client_index {
            v.push(x);
        } else {
            let y = v.pop().unwrap();
            Self::insert_result(v, x);
            v.push(y);
        }
    }

    /// The results in the order of their clients (see `order_by_client`).
    fn order_results(v: Vec<TaskResult>) -> (r: Vec<TaskResult>)
        ensures
            r@ == order_by_client(v@),
        decreases v@.len(),
    {
        let mut v = v;
        if v.len() == 0 {
            return v;
        }
        let ghost all = v@;
        let x = v.pop().unwrap();
        let mut ordered = Self::order_results(v);
        Self::insert_result(&mut ordered, x);
        ordered
    }

    /// Signatures, whether any succeeded, last error and last landed error of `results`.
    fn summarize(results: &Vec<TaskResult>) -> (r: (Vec<TxSignature>, bool, Option<String>, Option<String>))
        ensures
            r.0@ == result_signatures(results@),
            r.1 == any_success(results@),
            r.2 == last_error(results@),
            r.3 == last_landed_error(results@),
    {
        let mut signatures: Vec<TxSignature> = Vec::new();
        let mut success = false;
        let mut err: Option<String> = None;
        let mut landed: Option<String> = None;
        let mut i: usize = 0;
        while i < results.len()
            invariant
                i <= results@.len(),
                signatures@ == result_signatures(results@.take(i as int)),
                success == any_success(results@.take(i as int)),
                err == last_error(results@.take(i as int)),
                landed == last_landed_error(results@.take(i as int)),
            decreases results@.len() - i,
        {
            let r = &results[i];
            proof {
                let t = results@.take(i + 1);
                assert(t.drop_last() =~= results@.take(i as int));
                assert(t.last() == results@[i as int]);
            }
            signatures.push(r.signature);
            if r.success {
                success = true;
            }
            if r.error.is_some() {
                err = r.error.clone();
            }
            if r.landed_on_chain && r.error.is_some() {
                landed = r.error.clone();
            }
            proof {
                let t = results@.take(i + 1);
                assert(result_signatures(t) =~= result_signatures(results@.take(i as int)).push(results@[i as int].signature));
                if results@[i as int].success {
                    assert(t[i as int].success);
                } else if any_success(t) {
                    let k = choose|k: int| 0 <= k < t.len() && t[k].success;
                    assert(results@.take(i as int)[k].success);
                }
            }
            i = i + 1;
        }
        proof {
            assert(results@.take(results@.len() as int) =~= results@);
        }
        (signatures, success, err, landed)
    }

    /// One poll of the confirmation wait. A raised success flag takes every waiting
    /// result and answers with its signatures when one of them succeeded; otherwise a
    /// raised landed flag takes the rest and answers with their signatures and the
    /// landed error, when any was waiting; otherwise, once every task reported, the rest
    /// is taken and summarized (or nothing was collected). Else the wait goes on.
    /// Signatures always come in the order of the tasks' clients.
    pub fn poll(&mut self) -> (r: PollOutcome)
        ensures
            final(self).total() == old(self).total(),
            final(self).completed() == old(self).completed(),
            ({
                let w0 = old(self).waiting();
                let after_success = if old(self).succeeded() {
                    Seq::<TaskResult>::empty()
                } else {
                    w0
                };
                let success_answer = old(self).succeeded() && any_success(w0) && w0.len() > 0;
                &&& success_answer ==> (r matches PollOutcome::Success(s) && s@ == result_signatures(
                    order_by_client(w0),
                ))
                &&& !success_answer && old(self).landed_failed() && after_success.len() > 0 ==> (r matches PollOutcome::LandedFailed(
                    s,
                    e,
                ) && s@ == result_signatures(order_by_client(after_success)) && e == last_landed_error(after_success))
                &&& !success_answer && !(old(self).landed_failed() && after_success.len() > 0) && old(self).completed()
                    >= old(self).total() ==> {
                    let rest = if old(self).landed_failed() {
                        Seq::<TaskResult>::empty()
                    } else {
                        after_success
                    };
                    &&& rest.len() > 0 ==> (r matches PollOutcome::Completed(ok, s, e) && ok == any_success(rest) && s@
                        == result_signatures(order_by_client(rest)) && e == last_error(rest))
                    &&& rest.len() == 0 ==> r is NothingCollected
                }
                &&& !success_answer && !(old(self).landed_failed() && after_success.len() > 0) && old(self).completed()
                    < old(self).total() ==> r is Pending
            }),
    {
        if self.success_flag {
            let (signatures, success, _, _) = self.take_all();
            if success && signatures.len() > 0 {
                return PollOutcome::Success(signatures);
            }
        }
        if self.landed_failed_flag {
            let (signatures, _, _, landed) = self.take_all();
            if signatures.len() > 0 {
                return PollOutcome::LandedFailed(signatures, landed);
            }
        }
        if self.completed_count >= self.total_tasks {
            let (signatures, success, err, _) = self.take_all();
            if signatures.len() > 0 {
                return PollOutcome::Completed(success, signatures, err);
            }
            return PollOutcome::NothingCollected;
        }
        PollOutcome::Pending
    }

    /// Takes every waiting result: their signatures in the order of their clients,
    /// whether any succeeded, and the last error and last landed error in the order the
    /// results arrived.
    fn take_all(&mut self) -> (r: (Vec<TxSignature>, bool, Option<String>, Option<String>))
        ensures
            r.0@ == result_signatures(order_by_client(old(self).waiting())),
            r.0@.len() == old(self).waiting().len(),
            r.1 == any_success(old(self).waiting()),
            r.2 == last_error(old(self).waiting()),
            r.3 == last_landed_error(old(self).waiting()),
            final(self).waiting() == Seq::<TaskResult>::empty(),
            final(self).room() == old(self).room(),
            final(self).total() == old(self).total(),
            final(self).succeeded() == old(self).succeeded(),
            final(self).landed_failed() == old(self).landed_failed(),
            final(self).completed() == old(self).completed(),
    {
        proof {
            law_order_by_client(self.waiting());
        }
        let arrived = self.drain();
        let (_, success, err, landed) = Self::summarize(&arrived);
        let ordered = Self::order_results(arrived);
        let (signatures, _, _, _) = Self::summarize(&ordered);
        (signatures, success, err, landed)
    }

    /// Every waiting result, summarized: whether any succeeded, the signatures in the
    /// order of their clients and the last error; none when nothing is waiting.
    pub fn get_first(&mut self) -> (r: Option<CollectedOutcome>)
        ensures
            final(self).waiting() == Seq::<TaskResult>::empty(),
            final(self).total() == old(self).total(),
            final(self).completed() == old(self).completed(),
            old(self).waiting().len() == 0 ==> r is None,
            old(self).waiting().len() > 0 ==> (r matches Some(o) && {
                &&& o.success == any_success(old(self).waiting())
                &&& o.signatures@ == result_signatures(order_by_client(old(self).waiting()))
                &&& o.error == last_error(old(self).waiting())
            }),
    {
        let (signatures, success, err, _) = self.take_all();
        if signatures.len() > 0 {
            Some(CollectedOutcome { success, signatures, error: err })
        } else {
            None
        }
    }

    /// Whether every task has reported.
    pub fn all_reported(&self) -> (r: bool)
        ensures
            r == (self.completed() >= self.total()),
    {
        self.completed_count >= self.total_tasks
    }
}

/// Seconds a trade without confirmation waits for every task to report.
pub const SUBMIT_TIMEOUT_SECS: u64 = 30;

/// Error when no task reported in time.
pub open spec fn no_result_error() -> Seq<char> {
    "No SWQOS result within 30s"@
}

/// Error when no send succeeded.
pub open spec fn all_failed_error() -> Seq<char> {
    "All transactions failed"@
}

/// The answer of a trade sent without waiting for confirmation, from what was collected
/// once every task reported or the wait ended: no result gives a failure with
/// "No SWQOS result within 30s".
pub fn submitted_answer(collected: Option<CollectedOutcome>) -> (r: CollectedOutcome)
    ensures
        collected matches Some(c) ==> r == c,
        collected is None ==> !r.success && r.signatures@.len() == 0 && (r.error matches Some(e) && e@
            == no_result_error()),
{
    match collected {
        Some(c) => c,
        None => CollectedOutcome {
            success: false,
            signatures: Vec::new(),
            error: Some("No SWQOS result within 30s".to_owned()),
        },
    }
}

/// The answer of a trade that waits for confirmation, from the poll that ended the
/// wait (`None` when the wait timed out): "All transactions failed" when nothing
/// was collected.
pub fn confirmed_answer(outcome: Option<PollOutcome>) -> (r: Result<CollectedOutcome, String>)
    ensures
        outcome matches Some(PollOutcome::Success(s)) ==> (r matches Ok(c) && c.success && c.signatures == s
            && c.error is None),
        outcome matches Some(PollOutcome::LandedFailed(s, e)) ==> (r matches Ok(c) && !c.success && c.signatures
            == s && c.error == e),
        outcome matches Some(PollOutcome::Completed(ok, s, e)) ==> (r matches Ok(c) && c.success == ok
            && c.signatures == s && c.error == e),
        (outcome is None || outcome matches Some(PollOutcome::NothingCollected) || outcome matches Some(
            PollOutcome::Pending,
        )) ==> (r matches Err(e) && e@ == all_failed_error()),
{
    match outcome {
        Some(PollOutcome::Success(s)) => Ok(CollectedOutcome { success: true, signatures: s, error: None }),
        Some(PollOutcome::LandedFailed(s, e)) => Ok(CollectedOutcome { success: false, signatures: s, error: e }),
        Some(PollOutcome::Completed(ok, s, e)) => Ok(CollectedOutcome { success: ok, signatures: s, error: e }),
        _ => Err("All transactions failed".to_owned()),
    }
}

} // verus!
