//! Results of remote runs: collecting the replies for a set of task ids and
//! turning each reply into a value of the kind its caller asked for.
use vstd::prelude::*;
use std::collections::{HashMap, HashSet};
use crate::json::{
    int_grid_text, int_list_text, json_i32_grid, json_i32_list, read_i32_grid, read_i32_list,
};
use crate::output::{kind_of_name, output_kind, OutputKind};
use crate::text::{decimal_i32, parse_i32};

verus! {

broadcast use vstd::std_specs::hash::group_hash_axioms;

/// A reply for one task: its id, an error text (empty when the run
/// succeeded) and the result text.
pub struct TaskInfo {
    pub operator_id: u64,
    pub error: String,
    pub result: String,
}

/// What arrives on the task channel: a reply, or something that could not be
/// read as one.
pub enum TaskEvent {
    Received(TaskInfo),
    Unreadable,
}

/// A result turned into the kind that was asked for. Floating-point kinds keep
/// their text, to be read by the caller.
pub enum TaskValue {
    I32(i32),
    F32Text(String),
    Str(String),
    VecI32(Vec<i32>),
    VecF32Text(String),
    VecVecI32(Vec<Vec<i32>>),
    VecVecF32Text(String),
    Nothing,
}

/// The mathematical value of a `TaskValue`.
pub enum TaskValueView {
    I32(i32),
    F32Text(Seq<char>),
    Str(Seq<char>),
    VecI32(Seq<i32>),
    VecF32Text(Seq<char>),
    VecVecI32(Seq<Seq<i32>>),
    VecVecF32Text(Seq<char>),
    Nothing,
}

impl View for TaskValue {
    type V = TaskValueView;

    open spec fn view(&self) -> TaskValueView {
        match self {
            TaskValue::I32(v) => TaskValueView::I32(*v),
            TaskValue::F32Text(s) => TaskValueView::F32Text(s@),
            TaskValue::Str(s) => TaskValueView::Str(s@),
            TaskValue::VecI32(v) => TaskValueView::VecI32(v@),
            TaskValue::VecF32Text(s) => TaskValueView::VecF32Text(s@),
            TaskValue::VecVecI32(v) => TaskValueView::VecVecI32(v.deep_view()),
            TaskValue::VecVecF32Text(s) => TaskValueView::VecVecF32Text(s@),
            TaskValue::Nothing => TaskValueView::Nothing,
        }
    }
}

/// The kind of result a value is; `None` for `Nothing`.
pub open spec fn kind_of_value(v: TaskValueView) -> Option<OutputKind> {
    match v {
        TaskValueView::I32(_) => Some(OutputKind::I32),
        TaskValueView::F32Text(_) => Some(OutputKind::F32),
        TaskValueView::Str(_) => Some(OutputKind::Str),
        TaskValueView::VecI32(_) => Some(OutputKind::VecI32),
        TaskValueView::VecF32Text(_) => Some(OutputKind::VecF32),
        TaskValueView::VecVecI32(_) => Some(OutputKind::VecVecI32),
        TaskValueView::VecVecF32Text(_) => Some(OutputKind::VecVecF32),
        TaskValueView::Nothing => None,
    }
}

/// The text a value carries unread, for the kinds read later as floating
/// point and for strings.
pub open spec fn carried_text(v: TaskValueView) -> Option<Seq<char>> {
    match v {
        TaskValueView::F32Text(t) => Some(t),
        TaskValueView::Str(t) => Some(t),
        TaskValueView::VecF32Text(t) => Some(t),
        TaskValueView::VecVecF32Text(t) => Some(t),
        _ => None,
    }
}

/// The value for a result text `raw` of the given kind, where `list` and `grid`
/// are what the JSON reader made of `raw`. Unreadable numbers give `0`, unreadable
/// lists give an empty list, and no kind gives `Nothing`.
pub open spec fn value_from_parts(
    kind: Option<OutputKind>,
    raw: Seq<char>,
    list: Option<Seq<i32>>,
    grid: Option<Seq<Seq<i32>>>,
) -> TaskValueView {
    match kind {
        Some(OutputKind::I32) => TaskValueView::I32(
            match decimal_i32(raw) {
                Some(v) => v,
                None => 0,
            },
        ),
        Some(OutputKind::F32) => TaskValueView::F32Text(raw),
        Some(OutputKind::Str) => TaskValueView::Str(raw),
        Some(OutputKind::VecI32) => TaskValueView::VecI32(
            match list {
                Some(v) => v,
                None => Seq::empty(),
            },
        ),
        Some(OutputKind::VecF32) => TaskValueView::VecF32Text(raw),
        Some(OutputKind::VecVecI32) => TaskValueView::VecVecI32(
            match grid {
                Some(v) => v,
                None => Seq::empty(),
            },
        ),
        Some(OutputKind::VecVecF32) => TaskValueView::VecVecF32Text(raw),
        None => TaskValueView::Nothing,
    }
}

/// The value for a result text `raw` of the given kind.
pub open spec fn task_value(kind: Option<OutputKind>, raw: Seq<char>) -> TaskValueView {
    value_from_parts(kind, raw, json_i32_list(raw), json_i32_grid(raw))
}

pub open spec fn opt_list_view(list: Option<Vec<i32>>) -> Option<Seq<i32>> {
    match list {
        Some(v) => Some(v@),
        None => None,
    }
}

pub open spec fn opt_grid_view(grid: Option<Vec<Vec<i32>>>) -> Option<Seq<Seq<i32>>> {
    match grid {
        Some(v) => Some(v.deep_view()),
        None => None,
    }
}

impl TaskValue {
    /// Builds the value for `raw` from what the JSON reader made of it.
    pub fn from_parts(
        kind: Option<OutputKind>,
        raw: String,
        list: Option<Vec<i32>>,
        grid: Option<Vec<Vec<i32>>>,
    ) -> (v: TaskValue)
        ensures
            v@ == value_from_parts(kind, raw@, opt_list_view(list), opt_grid_view(grid)),
            kind_of_value(v@) == kind,
            kind == Some(OutputKind::F32) || kind == Some(OutputKind::Str) || kind == Some(
                OutputKind::VecF32,
            ) || kind == Some(OutputKind::VecVecF32) ==> carried_text(v@) == Some(raw@),
            kind == Some(OutputKind::VecI32) ==> v@ == TaskValueView::VecI32(
                match list {
                    Some(l) => l@,
                    None => Seq::empty(),
                },
            ),
            kind == Some(OutputKind::VecVecI32) ==> v@ == TaskValueView::VecVecI32(
                match grid {
                    Some(g) => g.deep_view(),
                    None => Seq::empty(),
                },
            ),
    {
        proof {
            lemma_value_has_requested_kind(kind, raw@, opt_list_view(list), opt_grid_view(grid));
        }
        match kind {
            Some(OutputKind::I32) => TaskValue::I32(
                match parse_i32(raw.as_str()) {
                    Some(v) => v,
                    None => 0,
                },
            ),
            Some(OutputKind::F32) => TaskValue::F32Text(raw),
            Some(OutputKind::Str) => TaskValue::Str(raw),
            Some(OutputKind::VecI32) => TaskValue::VecI32(
                match list {
                    Some(v) => v,
                    None => Vec::new(),
                },
            ),
            Some(OutputKind::VecF32) => TaskValue::VecF32Text(raw),
            Some(OutputKind::VecVecI32) => {
                let rows = match grid {
                    Some(v) => v,
                    None => Vec::new(),
                };
                proof {
                    if grid is None {
                        assert(rows.deep_view() =~= Seq::<Seq<i32>>::empty());
                    }
                }
                TaskValue::VecVecI32(rows)
            },
            Some(OutputKind::VecVecF32) => TaskValue::VecVecF32Text(raw),
            None => TaskValue::Nothing,
        }
    }

    /// The value of kind `kind` that the result text `raw` stands for.
    pub fn decode(kind: Option<OutputKind>, raw: String) -> (v: TaskValue)
        ensures
            v@ == task_value(kind, raw@),
            kind_of_value(v@) == kind,
            kind == Some(OutputKind::F32) || kind == Some(OutputKind::Str) || kind == Some(
                OutputKind::VecF32,
            ) || kind == Some(OutputKind::VecVecF32) ==> carried_text(v@) == Some(raw@),
            forall|l: Seq<i32>, gap: nat|
                kind == Some(OutputKind::VecI32) && raw@ == #[trigger] int_list_text(l, gap) ==> v@
                    == TaskValueView::VecI32(l),
            forall|rows: Seq<Seq<i32>>, gap: nat|
                kind == Some(OutputKind::VecVecI32) && raw@ == #[trigger] int_grid_text(rows, gap)
                    ==> v@ == TaskValueView::VecVecI32(rows),
    {
        match kind {
            Some(OutputKind::VecI32) => {
                let list = read_i32_list(raw.as_str());
                TaskValue::from_parts(kind, raw, list, None)
            },
            Some(OutputKind::VecVecI32) => {
                let grid = read_i32_grid(raw.as_str());
                TaskValue::from_parts(kind, raw, None, grid)
            },
            _ => TaskValue::from_parts(kind, raw, None, None),
        }
    }
}

/// The kind recorded for `id`, or none when no kind (or no supported one) is.
pub open spec fn kind_for(expect: Map<u64, String>, id: u64) -> Option<OutputKind> {
    if expect.contains_key(id) {
        kind_of_name(expect[id]@)
    } else {
        None
    }
}

/// The result text handed out for each id of `ids`, in order: the recorded
/// result the first time an id comes up, and an empty text for an id without a
/// result or one that came up before.
pub open spec fn raw_results(ids: Seq<u64>, results: Map<u64, String>) -> Seq<Seq<char>>
    decreases ids.len(),
{
    if ids.len() == 0 {
        Seq::empty()
    } else {
        let id = ids[0];
        let raw = if results.contains_key(id) {
            results[id]@
        } else {
            Seq::<char>::empty()
        };
        seq![raw] + raw_results(ids.drop_first(), results.remove(id))
    }
}

/// The waiting ids and the results after one event. A reply is kept only when
/// its error text is empty and its id is still waiting; it then leaves the
/// waiting ids and its result is recorded. Anything else changes nothing.
pub open spec fn after_event(waiting: Set<u64>, results: Map<u64, String>, event: TaskEvent) -> (
    Set<u64>,
    Map<u64, String>,
) {
    match event {
        TaskEvent::Received(info) => if info.error@.len() == 0 && waiting.contains(
            info.operator_id,
        ) {
            (waiting.remove(info.operator_id), results.insert(info.operator_id, info.result))
        } else {
            (waiting, results)
        },
        TaskEvent::Unreadable => (waiting, results),
    }
}

/// The waiting ids and the ids with a result split `requested` between them.
pub open spec fn accounts_for(waiting: Set<u64>, results: Map<u64, String>, requested: Set<u64>) -> bool {
    &&& waiting + results.dom() == requested
    &&& waiting.disjoint(results.dom())
}

/// Collects replies for a set of task ids until each has one.
pub struct TaskCollector {
    waiting: HashSet<u64>,
    results: HashMap<u64, String>,
}

impl TaskCollector {
    /// Ids still without a result.
    pub closed spec fn waiting(&self) -> Set<u64> {
        self.waiting@
    }

    /// Results received so far, by id.
    pub closed spec fn results(&self) -> Map<u64, String> {
        self.results@
    }

    /// Starts waiting for every id of `task_ids`.
    pub fn new(task_ids: &Vec<u64>) -> (c: TaskCollector)
        ensures
            c.waiting() == task_ids@.to_set(),
            c.results() == Map::<u64, String>::empty(),
    {
        let mut waiting: HashSet<u64> = HashSet::new();
        let mut i: usize = 0;
        while i < task_ids.len()
            invariant
                i <= task_ids.len(),
                waiting@ == task_ids@.subrange(0, i as int).to_set(),
            decreases task_ids.len() - i,
        {
            let ghost before = task_ids@.subrange(0, i as int);
            waiting.insert(task_ids[i]);
            proof {
                let after = task_ids@.subrange(0, i + 1);
                assert(after =~= before.push(task_ids@[i as int]));
                before.lemma_push_to_set_commute(task_ids@[i as int]);
            }
            i = i + 1;
        }
        assert(task_ids@.subrange(0, task_ids.len() as int) =~= task_ids@);
        TaskCollector { waiting, results: HashMap::new() }
    }

    /// True once every id has its result.
    pub fn is_done(&self) -> (r: bool)
        ensures
            r == self.waiting().is_empty(),
    {
        self.waiting.is_empty()
    }

    /// Takes one event from the task channel: see `after_event`.
    pub fn on_event(&mut self, event: TaskEvent)
        ensures
            (final(self).waiting(), final(self).results()) == after_event(
                old(self).waiting(),
                old(self).results(),
                event,
            ),
            event matches TaskEvent::Received(info) && info.error@.len() != 0 ==> (final(self).waiting()
                == old(self).waiting() && final(self).results() == old(self).results()),
            event is Unreadable ==> (final(self).waiting() == old(self).waiting() && final(self).results()
                == old(self).results()),
            final(self).waiting().subset_of(old(self).waiting()),
            forall|id: u64|
                old(self).results().contains_key(id) && !old(self).waiting().contains(id)
                    ==> final(self).results().contains_key(id)
                    && #[trigger] final(self).results()[id] == old(self).results()[id],
            old(self).waiting().disjoint(old(self).results().dom())
                ==> final(self).waiting().disjoint(final(self).results().dom()),
    {
        proof {
            lemma_error_reply_ignored(old(self).waiting(), old(self).results(), event);
        }
        match event {
            TaskEvent::Received(info) => {
                if info.error.as_str().is_empty() {
                    let id = info.operator_id;
                    if self.waiting.contains(&id) {
                        self.results.insert(id, info.result);
                        self.waiting.remove(&id);
                    }
                }
            },
            TaskEvent::Unreadable => {},
        }
    }

    /// Hands out one value per id of `task_ids`, in order, each of the kind that
    /// `expect` records for its id.
    pub fn finish(self, task_ids: &Vec<u64>, expect: &HashMap<u64, String>) -> (out: Vec<
        TaskValue,
    >)
        ensures
            out.len() == task_ids.len(),
            forall|i: int|
                0 <= i < out.len() ==> (#[trigger] out[i])@ == task_value(
                    kind_for(expect@, task_ids@[i]),
                    raw_results(task_ids@, self.results())[i],
                ),
            forall|i: int|
                0 <= i < out.len() ==> kind_of_value((#[trigger] out[i])@) == kind_for(
                    expect@,
                    task_ids@[i],
                ),
    {
        let ghost all = raw_results(task_ids@, self.results@);
        let ghost mut done: Seq<Seq<char>> = Seq::empty();
        let mut results = self.results;
        let mut out: Vec<TaskValue> = Vec::new();
        let mut i: usize = 0;
        assert(task_ids@.skip(0) =~= task_ids@);
        assert(done + all =~= all);
        while i < task_ids.len()
            invariant
                i <= task_ids.len(),
                out.len() == i,
                done.len() == i,
                all == done + raw_results(task_ids@.skip(i as int), results@),
                forall|j: int|
                    0 <= j < i ==> (#[trigger] out[j])@ == task_value(
                        kind_for(expect@, task_ids@[j]),
                        done[j],
                    ),
            decreases task_ids.len() - i,
        {
            let id = task_ids[i];
            let ghost rest = task_ids@.skip(i as int);
            assert(rest[0] == id);
            assert(rest.drop_first() =~= task_ids@.skip(i + 1));
            let ghost before = results@;
            let raw = match results.remove(&id) {
                Some(s) => s,
                None => String::new(),
            };
            assert(raw@ == (if before.contains_key(id) {
                before[id]@
            } else {
                Seq::<char>::empty()
            }));
            let kind = match expect.get(&id) {
                Some(name) => output_kind(name.as_str()),
                None => None,
            };
            let v = TaskValue::decode(kind, raw);
            proof {
                assert(results@ == before.remove(id));
                assert(done.push(raw@) + raw_results(task_ids@.skip(i + 1), results@) =~= done
                    + raw_results(rest, before));
                done = done.push(raw@);
            }
            out.push(v);
            i = i + 1;
        }
        assert(done =~= all);
        out
    }
}

/// Every id asked for is either still waiting or has its result, never both,
/// whatever events arrive: a fresh collector splits the ids so, and each event
/// keeps the split.
pub proof fn lemma_collector_accounts_for_every_id(
    task_ids: Seq<u64>,
    waiting: Set<u64>,
    results: Map<u64, String>,
    event: TaskEvent,
)
    ensures
        accounts_for(task_ids.to_set(), Map::<u64, String>::empty(), task_ids.to_set()),
        accounts_for(waiting, results, task_ids.to_set()) ==> accounts_for(
            after_event(waiting, results, event).0,
            after_event(waiting, results, event).1,
            task_ids.to_set(),
        ),
{
    assert(task_ids.to_set() + Map::<u64, String>::empty().dom() =~= task_ids.to_set());
    if accounts_for(waiting, results, task_ids.to_set()) {
        let (w, r) = after_event(waiting, results, event);
        assert(w + r.dom() =~= task_ids.to_set());
        assert(w.disjoint(r.dom()));
    }
}

/// A recorded result is never replaced: later events keep the first reply
/// accepted for an id.
pub proof fn lemma_first_reply_kept(
    waiting: Set<u64>,
    results: Map<u64, String>,
    event: TaskEvent,
    id: u64,
)
    requires
        waiting.disjoint(results.dom()),
        results.contains_key(id),
    ensures
        after_event(waiting, results, event).1.contains_key(id),
        after_event(waiting, results, event).1[id] == results[id],
{
}

/// Each kept reply takes one id off the waiting ids; nothing else does.
pub proof fn lemma_waiting_shrinks(waiting: Set<u64>, results: Map<u64, String>, event: TaskEvent)
    requires
        waiting.finite(),
    ensures
        after_event(waiting, results, event).0.subset_of(waiting),
        after_event(waiting, results, event).0.len() == waiting.len() || after_event(
            waiting,
            results,
            event,
        ).0.len() + 1 == waiting.len(),
{
}

/// Once nothing is waiting, every id asked for has its result, and the first
/// time an id comes up in the hand-out it gets that result.
pub proof fn lemma_done_means_all_answered(
    task_ids: Seq<u64>,
    waiting: Set<u64>,
    results: Map<u64, String>,
    i: int,
)
    requires
        accounts_for(waiting, results, task_ids.to_set()),
        waiting.is_empty(),
        0 <= i < task_ids.len(),
        forall|j: int| 0 <= j < i ==> task_ids[j] != task_ids[i],
    ensures
        results.contains_key(task_ids[i]),
        raw_results(task_ids, results)[i] == results[task_ids[i]]@,
{
    assert(task_ids.to_set().contains(task_ids[i]));
    assert((waiting + results.dom()).contains(task_ids[i]));
    lemma_raw_results_first(task_ids, results, i);
}

proof fn lemma_raw_results_first(ids: Seq<u64>, results: Map<u64, String>, i: int)
    requires
        0 <= i < ids.len(),
        forall|j: int| 0 <= j < i ==> ids[j] != ids[i],
    ensures
        raw_results(ids, results).len() == ids.len(),
        raw_results(ids, results)[i] == (if results.contains_key(ids[i]) {
            results[ids[i]]@
        } else {
            Seq::<char>::empty()
        }),
    decreases ids.len(),
{
    lemma_raw_results_len(ids, results);
    if i > 0 {
        let rest = ids.drop_first();
        assert forall|j: int| 0 <= j < i - 1 implies #[trigger] rest[j] != rest[i - 1] by {
            assert(rest[j] == ids[j + 1]);
        }
        lemma_raw_results_first(rest, results.remove(ids[0]), i - 1);
        assert(ids[0] != ids[i]);
    }
}

/// Each recorded result is handed out once: an id that comes up again later
/// in the list gets an empty text there.
pub proof fn lemma_result_handed_out_once(ids: Seq<u64>, results: Map<u64, String>, j: int, i: int)
    requires
        0 <= j < i < ids.len(),
        ids[j] == ids[i],
    ensures
        raw_results(ids, results)[i] == Seq::<char>::empty(),
    decreases j,
{
    let rest = ids.drop_first();
    lemma_raw_results_len(rest, results.remove(ids[0]));
    if j == 0 {
        lemma_raw_results_absent(rest, results.remove(ids[0]), i - 1);
    } else {
        lemma_result_handed_out_once(rest, results.remove(ids[0]), j - 1, i - 1);
    }
}

proof fn lemma_raw_results_absent(ids: Seq<u64>, results: Map<u64, String>, i: int)
    requires
        0 <= i < ids.len(),
        !results.contains_key(ids[i]),
    ensures
        raw_results(ids, results)[i] == Seq::<char>::empty(),
    decreases ids.len(),
{
    lemma_raw_results_len(ids, results);
    if i > 0 {
        lemma_raw_results_absent(ids.drop_first(), results.remove(ids[0]), i - 1);
    }
}

proof fn lemma_raw_results_len(ids: Seq<u64>, results: Map<u64, String>)
    ensures
        raw_results(ids, results).len() == ids.len(),
    decreases ids.len(),
{
    if ids.len() > 0 {
        lemma_raw_results_len(ids.drop_first(), results.remove(ids[0]));
    }
}

/// The waiting ids and results after a run of events, in order.
pub open spec fn after_events(waiting: Set<u64>, results: Map<u64, String>, events: Seq<TaskEvent>) -> (
    Set<u64>,
    Map<u64, String>,
)
    decreases events.len(),
{
    if events.len() == 0 {
        (waiting, results)
    } else {
        let (w, r) = after_event(waiting, results, events[0]);
        after_events(w, r, events.drop_first())
    }
}

/// Whatever replies arrive, a collector started on `task_ids` only ever
/// records results for ids it was asked for, and each asked-for id is either
/// still waiting or answered, never both.
pub proof fn lemma_collection_stays_within_request(task_ids: Seq<u64>, events: Seq<TaskEvent>)
    ensures
        accounts_for(
            after_events(task_ids.to_set(), Map::<u64, String>::empty(), events).0,
            after_events(task_ids.to_set(), Map::<u64, String>::empty(), events).1,
            task_ids.to_set(),
        ),
        after_events(task_ids.to_set(), Map::<u64, String>::empty(), events).1.dom().subset_of(
            task_ids.to_set(),
        ),
{
    lemma_collector_accounts_for_every_id(task_ids, Set::empty(), Map::empty(), TaskEvent::Unreadable);
    lemma_events_keep_accounts(task_ids.to_set(), Map::<u64, String>::empty(), task_ids.to_set(), events);
}

proof fn lemma_events_keep_accounts(
    waiting: Set<u64>,
    results: Map<u64, String>,
    requested: Set<u64>,
    events: Seq<TaskEvent>,
)
    requires
        accounts_for(waiting, results, requested),
    ensures
        accounts_for(
            after_events(waiting, results, events).0,
            after_events(waiting, results, events).1,
            requested,
        ),
    decreases events.len(),
{
    if events.len() > 0 {
        let (w, r) = after_event(waiting, results, events[0]);
        assert(w + r.dom() =~= requested);
        lemma_events_keep_accounts(w, r, requested, events.drop_first());
    }
}

/// A value always has the kind it was asked for: `Nothing` only when no
/// kind was asked for; the text kinds carry the result text unchanged; an
/// `i32` is the number the text reads as (0 if none); lists are the list read
/// (empty if none).
pub proof fn lemma_value_has_requested_kind(
    kind: Option<OutputKind>,
    raw: Seq<char>,
    list: Option<Seq<i32>>,
    grid: Option<Seq<Seq<i32>>>,
)
    ensures
        kind_of_value(value_from_parts(kind, raw, list, grid)) == kind,
        kind == Some(OutputKind::F32) || kind == Some(OutputKind::Str) || kind == Some(
            OutputKind::VecF32,
        ) || kind == Some(OutputKind::VecVecF32) ==> carried_text(
            value_from_parts(kind, raw, list, grid),
        ) == Some(raw),
        kind == Some(OutputKind::I32) ==> value_from_parts(kind, raw, list, grid)
            == TaskValueView::I32(
            match decimal_i32(raw) {
                Some(n) => n,
                None => 0i32,
            },
        ),
        kind == Some(OutputKind::VecI32) && list is Some ==> value_from_parts(kind, raw, list, grid)
            == TaskValueView::VecI32(list->Some_0),
        kind == Some(OutputKind::VecI32) && list is None ==> value_from_parts(kind, raw, list, grid)
            == TaskValueView::VecI32(Seq::empty()),
        kind == Some(OutputKind::VecVecI32) && grid is Some ==> value_from_parts(
            kind,
            raw,
            list,
            grid,
        ) == TaskValueView::VecVecI32(grid->Some_0),
        kind == Some(OutputKind::VecVecI32) && grid is None ==> value_from_parts(
            kind,
            raw,
            list,
            grid,
        ) == TaskValueView::VecVecI32(Seq::empty()),
{
}

/// A reply that reports an error changes nothing, whatever its result text:
/// the id keeps waiting and no result is recorded. A reply without error for
/// a waiting id records exactly its result text and ends the wait for it; a
/// reply for an id that is not waiting changes nothing. A recorded result is
/// never altered.
pub proof fn lemma_error_reply_ignored(waiting: Set<u64>, results: Map<u64, String>, event: TaskEvent)
    ensures
        event matches TaskEvent::Received(info) && info.error@.len() != 0 ==> after_event(
            waiting,
            results,
            event,
        ) == (waiting, results),
        event matches TaskEvent::Received(info) && !waiting.contains(info.operator_id)
            ==> after_event(waiting, results, event) == (waiting, results),
        event is Received && event->Received_0.error@.len() == 0 && waiting.contains(
            event->Received_0.operator_id,
        ) ==> {
            &&& !after_event(waiting, results, event).0.contains(event->Received_0.operator_id)
            &&& after_event(waiting, results, event).1.contains_key(event->Received_0.operator_id)
            &&& after_event(waiting, results, event).1[event->Received_0.operator_id]
                == event->Received_0.result
            &&& after_event(waiting, results, event).0.insert(event->Received_0.operator_id)
                == waiting
        },
        event is Unreadable ==> after_event(waiting, results, event) == (waiting, results),
        after_event(waiting, results, event).0.subset_of(waiting),
        forall|id: u64|
            results.contains_key(id) && !waiting.contains(id) ==> after_event(
                waiting,
                results,
                event,
            ).1.contains_key(id) && #[trigger] after_event(waiting, results, event).1[id]
                == results[id],
{
    if let TaskEvent::Received(info) = event {
        if info.error@.len() == 0 && waiting.contains(info.operator_id) {
            assert(waiting.remove(info.operator_id).insert(info.operator_id) =~= waiting);
        }
    }
}

} // verus!
