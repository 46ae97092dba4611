//! Approvals that wait for an answer, each with the sending half of the channel
//! on which the asking task listens.

use tokio::sync::oneshot;
use vstd::prelude::*;

verus! {

/// `tokio::sync::oneshot::Sender`: the half of a one-value channel that sends.
#[verifier::external_type_specification]
#[verifier::external_body]
#[verifier::reject_recursive_types(T)]
pub struct ExSender<T>(oneshot::Sender<T>);

/// `tokio::sync::oneshot::Receiver`: the half of a one-value channel that receives.
#[verifier::external_type_specification]
#[verifier::external_body]
#[verifier::reject_recursive_types(T)]
pub struct ExReceiver<T>(oneshot::Receiver<T>);

/// `tokio::sync::oneshot::error::RecvError`: what a receiver yields when its
/// sender went away without sending.
#[verifier::external_type_specification]
#[verifier::external_body]
pub struct ExRecvError(oneshot::error::RecvError);

/// What the channel behind `tx` ever carries: the value that `tx` puts into it, or
/// nothing. A sender is consumed by sending, so there is never a second value.
pub uninterp spec fn sent_through(tx: oneshot::Sender<(bool, bool)>) -> Seq<(bool, bool)>;

/// What the channel behind `rx` ever carries, seen from the receiving half.
pub uninterp spec fn arriving_at(rx: oneshot::Receiver<(bool, bool)>) -> Seq<(bool, bool)>;

/// Calls `tokio::sync::oneshot::channel`. The two halves belong to one channel:
/// what arrives at the receiver is what goes through the sender.
#[verifier::external_body]
fn answer_channel() -> (halves: (oneshot::Sender<(bool, bool)>, oneshot::Receiver<(bool, bool)>))
    ensures
        arriving_at(halves.1) == sent_through(halves.0),
{
    oneshot::channel()
}

/// The receiver of the channel behind `tx` had hung up by the time `tx` sent. A sender
/// sends at most once, so there is one such time.
pub uninterp spec fn receiver_gone(tx: oneshot::Sender<(bool, bool)>) -> bool;

/// Calls `tokio::sync::oneshot::Sender::send`. `Ok` means that the receiver had not hung
/// up and `answer` was put into the channel. `Err` means that the receiver was gone: the
/// channel stays empty and the answer is handed back. Which of the two comes depends on
/// what the receiving task has done by then, so nothing is said of it.
#[verifier::external_body]
fn send_answer(
    tx: oneshot::Sender<(bool, bool)>,
    answer: (bool, bool),
) -> (sent: Result<(), (bool, bool)>)
    ensures
        sent is Ok ==> !receiver_gone(tx) && sent_through(tx) == seq![answer],
        sent matches Err(back) ==> back == answer && receiver_gone(tx) && sent_through(tx).len()
            == 0,
{
    tx.send(answer)
}

/// Drops the `tokio::sync::oneshot::Sender` in `slot`, if there is one. A sender that is
/// dropped has sent nothing, for sending would have consumed it, and can send nothing any
/// more: its channel stays empty.
#[verifier::external_body]
fn drop_sender(slot: &mut Option<oneshot::Sender<(bool, bool)>>)
    ensures
        *final(slot) is None,
        *old(slot) matches Some(tx) ==> sent_through(tx).len() == 0,
{
    std::mem::drop(slot.take())
}

/// `answer` was handed to `tx`: the channel carries exactly that answer, or nothing if the
/// receiver had already gone.
pub open spec fn handed_over(tx: oneshot::Sender<(bool, bool)>, answer: (bool, bool)) -> bool {
    if receiver_gone(tx) {
        sent_through(tx).len() == 0
    } else {
        sent_through(tx) == seq![answer]
    }
}

/// Nothing ever goes through `tx`: whoever waits for it is never answered.
pub open spec fn left_unanswered(tx: oneshot::Sender<(bool, bool)>) -> bool {
    sent_through(tx).len() == 0
}

/// An approval that was pending under `id` in `table` is left unanswered.
pub open spec fn replaced_in(
    table: Map<Seq<char>, oneshot::Sender<(bool, bool)>>,
    id: Seq<char>,
) -> bool {
    table.contains_key(id) ==> left_unanswered(table[id])
}

/// Whoever waits for an approval hears the answer that was given to it, and hears it
/// once. Only a waiter that had gone by then hears nothing.
pub proof fn law_waiter_hears_only_the_answer(
    tx: oneshot::Sender<(bool, bool)>,
    rx: oneshot::Receiver<(bool, bool)>,
    answer: (bool, bool),
)
    requires
        arriving_at(rx) == sent_through(tx),
        handed_over(tx, answer),
    ensures
        !receiver_gone(tx) ==> arriving_at(rx) == seq![answer],
        receiver_gone(tx) ==> arriving_at(rx).len() == 0,
{
}

/// The approvals that nobody has answered yet, by approval id.
pub struct PendingApprovals {
    entries: Vec<(String, oneshot::Sender<(bool, bool)>)>,
}

spec fn holds(
    entries: Seq<(String, oneshot::Sender<(bool, bool)>)>,
    id: Seq<char>,
    i: int,
) -> bool {
    0 <= i < entries.len() && entries[i].0@ == id
}

/// The table as a map from approval id to sender.
spec fn as_map(entries: Seq<(String, oneshot::Sender<(bool, bool)>)>) -> Map<
    Seq<char>,
    oneshot::Sender<(bool, bool)>,
> {
    Map::new(
        |id: Seq<char>| exists|i: int| holds(entries, id, i),
        |id: Seq<char>| entries[choose|i: int| holds(entries, id, i)].1,
    )
}

spec fn distinct_ids(entries: Seq<(String, oneshot::Sender<(bool, bool)>)>) -> bool {
    forall|i: int, j: int|
        0 <= i < j < entries.len() ==> #[trigger] entries[i].0@ != #[trigger] entries[j].0@
}

proof fn lemma_lookup(
    entries: Seq<(String, oneshot::Sender<(bool, bool)>)>,
    id: Seq<char>,
    i: int,
)
    requires
        distinct_ids(entries),
        holds(entries, id, i),
    ensures
        as_map(entries).contains_key(id),
        as_map(entries)[id] == entries[i].1,
{
    let j = choose|j: int| holds(entries, id, j);
    assert(holds(entries, id, j));
    assert(j == i);
}

/// Taking one entry out, by moving the last one into its place, takes its id out of
/// the map and nothing else.
proof fn lemma_swap_remove(
    before: Seq<(String, oneshot::Sender<(bool, bool)>)>,
    after: Seq<(String, oneshot::Sender<(bool, bool)>)>,
    i: int,
)
    requires
        distinct_ids(before),
        0 <= i < before.len(),
        after == before.update(i, before.last()).drop_last(),
    ensures
        distinct_ids(after),
        as_map(after) == as_map(before).remove(before[i].0@),
{
    let gone = before[i].0@;
    let left = as_map(after);
    let right = as_map(before).remove(gone);
    assert forall|id: Seq<char>| #[trigger] left.dom().contains(id) implies right.dom().contains(id)
        && left[id] == right[id] by {
        let j = choose|j: int| holds(after, id, j);
        let k = if j == i {
            before.len() - 1
        } else {
            j
        };
        assert(holds(before, id, k));
        assert(k != i);
        lemma_lookup(after, id, j);
        lemma_lookup(before, id, k);
    }
    assert forall|id: Seq<char>| #[trigger] right.dom().contains(id) implies left.dom().contains(
        id,
    ) by {
        let k = choose|k: int| holds(before, id, k);
        let j = if k == before.len() - 1 {
            i
        } else {
            k
        };
        assert(holds(after, id, j));
    }
    assert(left =~= right);
}

/// Adding an entry with a new id adds that id to the map and nothing else.
proof fn lemma_push(
    before: Seq<(String, oneshot::Sender<(bool, bool)>)>,
    entry: (String, oneshot::Sender<(bool, bool)>),
)
    requires
        distinct_ids(before),
        !as_map(before).contains_key(entry.0@),
    ensures
        distinct_ids(before.push(entry)),
        as_map(before.push(entry)) == as_map(before).insert(entry.0@, entry.1),
{
    let after = before.push(entry);
    assert forall|i: int| 0 <= i < before.len() implies #[trigger] before[i].0@ != entry.0@ by {
        if before[i].0@ == entry.0@ {
            assert(holds(before, entry.0@, i));
        }
    }
    let left = as_map(after);
    let right = as_map(before).insert(entry.0@, entry.1);
    assert forall|id: Seq<char>| #[trigger] left.dom().contains(id) implies right.dom().contains(id)
        && left[id] == right[id] by {
        let j = choose|j: int| holds(after, id, j);
        lemma_lookup(after, id, j);
        if j < before.len() {
            assert(holds(before, id, j));
            lemma_lookup(before, id, j);
        }
    }
    assert forall|id: Seq<char>| #[trigger] right.dom().contains(id) implies left.dom().contains(
        id,
    ) by {
        if id == entry.0@ {
            assert(holds(after, id, before.len() as int));
        } else {
            let k = choose|k: int| holds(before, id, k);
            assert(holds(after, id, k));
        }
    }
    assert(left =~= right);
}

impl View for PendingApprovals {
    type V = Map<Seq<char>, oneshot::Sender<(bool, bool)>>;

    closed spec fn view(&self) -> Map<Seq<char>, oneshot::Sender<(bool, bool)>> {
        as_map(self.entries@)
    }
}

impl PendingApprovals {
    /// No id occurs twice.
    #[verifier::type_invariant]
    spec fn well_formed(self) -> bool {
        distinct_ids(self.entries@)
    }

    /// A table in which nothing waits.
    pub fn new() -> (table: Self)
        ensures
            table@ == Map::<Seq<char>, oneshot::Sender<(bool, bool)>>::empty(),
    {
        let table = PendingApprovals { entries: Vec::new() };
        assert(table@ =~= Map::<Seq<char>, oneshot::Sender<(bool, bool)>>::empty());
        table
    }

    /// Takes the sender of `id` out of the table, if there is one.
    pub fn take(&mut self, id: &str) -> (tx: Option<oneshot::Sender<(bool, bool)>>)
        ensures
            tx == (if old(self)@.contains_key(id@) {
                Some(old(self)@[id@])
            } else {
                None
            }),
            final(self)@ == old(self)@.remove(id@),
    {
        proof {
            use_type_invariant(&*self);
        }
        let ghost before = self.entries@;
        let key = id.to_owned();
        let mut entries: Vec<(String, oneshot::Sender<(bool, bool)>)> = Vec::new();
        std::mem::swap(&mut self.entries, &mut entries);
        let mut i: usize = 0;
        while i < entries.len()
            invariant
                i <= entries@.len(),
                entries@ == before,
                distinct_ids(before),
                key@ == id@,
                as_map(before) == old(self)@,
                forall|j: int| 0 <= j < i ==> #[trigger] before[j].0@ != id@,
            decreases entries@.len() - i,
        {
            if entries[i].0 == key {
                let (_, tx) = entries.swap_remove(i);
                proof {
                    assert(holds(before, id@, i as int));
                    lemma_lookup(before, id@, i as int);
                    lemma_swap_remove(before, entries@, i as int);
                }
                self.entries = entries;
                return Some(tx);
            }
            i += 1;
        }
        proof {
            if as_map(before).contains_key(id@) {
                let k = choose|k: int| holds(before, id@, k);
                assert(before[k].0@ != id@);
            }
            assert(as_map(before) =~= as_map(before).remove(id@));
        }
        self.entries = entries;
        None
    }

    /// Puts `tx` into the table under `id`, in place of an earlier sender of that id, which
    /// is dropped: whoever waits for it is left without an answer.
    pub fn insert(&mut self, id: String, tx: oneshot::Sender<(bool, bool)>)
        ensures
            final(self)@ == old(self)@.insert(id@, tx),
            replaced_in(old(self)@, id@),
    {
        let mut replaced = self.take(id.as_str());
        drop_sender(&mut replaced);
        proof {
            use_type_invariant(&*self);
        }
        let mut entries: Vec<(String, oneshot::Sender<(bool, bool)>)> = Vec::new();
        std::mem::swap(&mut self.entries, &mut entries);
        proof {
            lemma_push(entries@, (id, tx));
            assert(old(self)@.remove(id@).insert(id@, tx) =~= old(self)@.insert(id@, tx));
        }
        entries.push((id, tx));
        self.entries = entries;
    }

    /// Opens a channel for the answer to `id`, keeps its sender under that id and hands
    /// out the receiver.
    pub fn open(&mut self, id: String) -> (rx: oneshot::Receiver<(bool, bool)>)
        ensures
            final(self)@ == old(self)@.insert(id@, final(self)@[id@]),
            arriving_at(rx) == sent_through(final(self)@[id@]),
            replaced_in(old(self)@, id@),
    {
        let (tx, rx) = answer_channel();
        self.insert(id, tx);
        rx
    }

    /// Hands `(approved, always)` to the sender of `id` and forgets the sender. Says
    /// whether there was one. An answer that comes after the asking task has gone is
    /// dropped.
    pub fn resolve(&mut self, id: &str, approved: bool, always: bool) -> (existed: bool)
        ensures
            existed == old(self)@.contains_key(id@),
            existed ==> handed_over(old(self)@[id@], (approved, always)),
            final(self)@ == old(self)@.remove(id@),
    {
        match self.take(id) {
            Some(tx) => {
                let _ = send_answer(tx, (approved, always));
                true
            },
            None => false,
        }
    }
}

} // verus!
