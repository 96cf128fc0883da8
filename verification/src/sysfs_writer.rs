//! The queue behind the single writer of kernel attributes.
//!
//! Whoever wants a file written queues the bytes under the file's path and
//! leaves a handle on which to be told the outcome. For each path the queue
//! keeps only the bytes queued last: a write that overtakes another takes its
//! place, and the handle of the one overtaken comes back to be told so. One
//! worker takes the writes out, one at a time.

use vstd::prelude::*;
use crate::error::Error;

verus! {

/// What the requester of a write is told in the end.
#[derive(Clone, Copy, Debug, PartialEq, Eq)]
pub enum SysfsWritten {
    /// The bytes were written, or writing them failed.
    Written(Result<(), Error>),
    /// Other bytes were queued for the same path before these were written.
    Superseded,
}

/// A write that waits in the queue.
pub struct QueuedWrite<T> {
    pub path: String,
    pub contents: Vec<u8>,
    /// The handle on which the requester is told the outcome.
    pub reply: T,
}

/// The writes that wait, at most one for each path.
pub struct SysfsWriterQueue<T> {
    values: Vec<QueuedWrite<T>>,
}

/// The queue after a write was queued.
pub open spec fn queued<T>(
    pending: Map<Seq<char>, (Seq<u8>, T)>,
    path: Seq<char>,
    contents: Seq<u8>,
    reply: T,
) -> Map<Seq<char>, (Seq<u8>, T)> {
    pending.insert(path, (contents, reply))
}

/// The handle that a newly queued write for `path` overtakes, if any.
pub open spec fn overtaken<T>(pending: Map<Seq<char>, (Seq<u8>, T)>, path: Seq<char>) -> Option<T> {
    if pending.dom().contains(path) {
        Some(pending[path].1)
    } else {
        None
    }
}

spec fn slot_of<T>(values: Seq<QueuedWrite<T>>, path: Seq<char>) -> int {
    choose|i: int| 0 <= i < values.len() && values[i].path@ == path
}

spec fn holds<T>(values: Seq<QueuedWrite<T>>, path: Seq<char>) -> bool {
    exists|i: int| 0 <= i < values.len() && values[i].path@ == path
}

spec fn distinct<T>(values: Seq<QueuedWrite<T>>) -> bool {
    forall|i: int, j: int|
        0 <= i < j < values.len() ==> (#[trigger] values[i]).path@ != (#[trigger] values[j]).path@
}

spec fn values_map<T>(values: Seq<QueuedWrite<T>>) -> Map<Seq<char>, (Seq<u8>, T)> {
    Map::new(
        |p: Seq<char>| holds(values, p),
        |p: Seq<char>| (values[slot_of(values, p)].contents@, values[slot_of(values, p)].reply),
    )
}

proof fn lemma_slot<T>(values: Seq<QueuedWrite<T>>, i: int)
    requires
        distinct(values),
        0 <= i < values.len(),
    ensures
        holds(values, values[i].path@),
        slot_of(values, values[i].path@) == i,
        values_map(values).dom().contains(values[i].path@),
        values_map(values)[values[i].path@] == (values[i].contents@, values[i].reply),
{
    let path = values[i].path@;
    let j = slot_of(values, path);
    assert(0 <= j < values.len() && values[j].path@ == path);
    if j < i {
        assert(values[j].path@ != values[i].path@);
    } else if i < j {
        assert(values[i].path@ != values[j].path@);
    }
}

proof fn lemma_removed<T>(before: Seq<QueuedWrite<T>>, i: int)
    requires
        distinct(before),
        0 <= i < before.len(),
    ensures
        distinct(before.remove(i)),
        values_map(before.remove(i)) == values_map(before).remove(before[i].path@),
{
    let after = before.remove(i);
    let path = before[i].path@;
    assert forall|a: int, b: int| 0 <= a < b < after.len() implies (#[trigger] after[a]).path@ != (
    #[trigger] after[b]).path@ by {
        let a0 = if a < i { a } else { a + 1 };
        let b0 = if b < i { b } else { b + 1 };
        assert(before[a0].path@ != before[b0].path@);
    }
    assert forall|p: Seq<char>| holds(after, p) == (holds(before, p) && p != path) by {
        if holds(before, p) && p != path {
            let j = slot_of(before, p);
            let j1 = if j < i { j } else { j - 1 };
            assert(after[j1].path@ == p);
        }
        if holds(after, p) {
            let j = slot_of(after, p);
            let j0 = if j < i { j } else { j + 1 };
            assert(before[j0].path@ == p);
            if j0 < i {
                assert(before[j0].path@ != before[i].path@);
            } else {
                assert(before[i].path@ != before[j0].path@);
            }
        }
    }
    assert forall|p: Seq<char>| holds(after, p) implies values_map(after)[p] == values_map(
        before,
    )[p] by {
        let j = slot_of(after, p);
        let j0 = if j < i { j } else { j + 1 };
        lemma_slot(after, j);
        lemma_slot(before, j0);
    }
    assert(values_map(after) =~= values_map(before).remove(path));
}

proof fn lemma_pushed<T>(before: Seq<QueuedWrite<T>>, write: QueuedWrite<T>)
    requires
        distinct(before),
        !holds(before, write.path@),
    ensures
        distinct(before.push(write)),
        values_map(before.push(write)) == values_map(before).insert(
            write.path@,
            (write.contents@, write.reply),
        ),
{
    let after = before.push(write);
    let last = before.len() as int;
    assert forall|a: int, b: int| 0 <= a < b < after.len() implies (#[trigger] after[a]).path@ != (
    #[trigger] after[b]).path@ by {
        if b < last {
            assert(before[a].path@ != before[b].path@);
        } else {
            assert(before[a].path@ != write.path@);
        }
    }
    lemma_slot(after, last);
    assert forall|p: Seq<char>| holds(after, p) == (holds(before, p) || p == write.path@) by {
        if holds(before, p) {
            let j = slot_of(before, p);
            assert(after[j].path@ == p);
        }
        if holds(after, p) && p != write.path@ {
            let j = slot_of(after, p);
            assert(before[j].path@ == p);
        }
    }
    assert forall|p: Seq<char>| holds(before, p) implies values_map(after)[p] == values_map(
        before,
    )[p] by {
        let j = slot_of(before, p);
        lemma_slot(before, j);
        lemma_slot(after, j);
    }
    assert(values_map(after) =~= values_map(before).insert(
        write.path@,
        (write.contents@, write.reply),
    ));
}

impl<T> SysfsWriterQueue<T> {
    /// No path is queued twice.
    pub closed spec fn wf(&self) -> bool {
        distinct(self.values@)
    }

    /// The queue as a map from path to the bytes that wait for it and the
    /// handle of their requester.
    pub closed spec fn view(&self) -> Map<Seq<char>, (Seq<u8>, T)> {
        values_map(self.values@)
    }

    /// An empty queue.
    pub fn new() -> (r: SysfsWriterQueue<T>)
        ensures
            r.wf(),
            r@ == Map::<Seq<char>, (Seq<u8>, T)>::empty(),
    {
        let r = SysfsWriterQueue { values: Vec::new() };
        assert(r@ =~= Map::<Seq<char>, (Seq<u8>, T)>::empty());
        r
    }

    /// Whether no write waits.
    pub fn is_empty(&self) -> (r: bool)
        requires
            self.wf(),
        ensures
            r == (self@ == Map::<Seq<char>, (Seq<u8>, T)>::empty()),
    {
        proof {
            if self.values@.len() > 0 {
                lemma_slot(self.values@, 0);
                assert(self@.dom().contains(self.values@[0].path@));
            } else {
                assert(self@ =~= Map::<Seq<char>, (Seq<u8>, T)>::empty());
            }
        }
        self.values.len() == 0
    }

    fn find(&self, path: &str) -> (r: Option<usize>)
        ensures
            match r {
                Some(i) => i < self.values@.len() && self.values@[i as int].path@ == path@,
                None => !holds(self.values@, path@),
            },
    {
        let mut i: usize = 0;
        while i < self.values.len()
            invariant
                i <= self.values@.len(),
                forall|j: int| 0 <= j < i ==> self.values@[j].path@ != path@,
            decreases self.values@.len() - i,
        {
            if crate::lease::str_eq(self.values[i].path.as_str(), path) {
                return Some(i);
            }
            i += 1;
        }
        None
    }

    /// Queues `contents` for `path`. A write that waited for the same path
    /// gives way: its bytes are dropped and its handle comes back, to be told
    /// that it was superseded. Writes for other paths stay as they are.
    pub fn send(&mut self, path: String, contents: Vec<u8>, reply: T) -> (superseded: Option<T>)
        requires
            old(self).wf(),
        ensures
            final(self).wf(),
            final(self)@ == queued(old(self)@, path@, contents@, reply),
            superseded == overtaken(old(self)@, path@),
    {
        let superseded = match self.find(path.as_str()) {
            Some(i) => {
                proof {
                    lemma_slot(self.values@, i as int);
                    lemma_removed(self.values@, i as int);
                }
                let old_write = self.values.remove(i);
                Some(old_write.reply)
            },
            None => None,
        };
        let write = QueuedWrite { path, contents, reply };
        proof {
            assert(!holds(self.values@, write.path@)) by {
                if holds(self.values@, write.path@) {
                    assert(self@.dom().contains(path@));
                }
            }
            lemma_pushed(self.values@, write);
        }
        self.values.push(write);
        assert(self@ =~= queued(old(self)@, path@, contents@, reply));
        superseded
    }

    /// Takes one waiting write out of the queue, whichever; `None` when none
    /// waits. The others stay.
    pub fn recv(&mut self) -> (r: Option<QueuedWrite<T>>)
        requires
            old(self).wf(),
        ensures
            final(self).wf(),
            match r {
                None => {
                    &&& old(self)@ == Map::<Seq<char>, (Seq<u8>, T)>::empty()
                    &&& final(self)@ == old(self)@
                },
                Some(write) => {
                    &&& old(self)@.dom().contains(write.path@)
                    &&& old(self)@[write.path@] == (write.contents@, write.reply)
                    &&& final(self)@ == old(self)@.remove(write.path@)
                },
            },
    {
        if self.values.len() == 0 {
            assert(self@ =~= Map::<Seq<char>, (Seq<u8>, T)>::empty());
            return None;
        }
        let last = self.values.len() - 1;
        proof {
            lemma_slot(self.values@, last as int);
            lemma_removed(self.values@, last as int);
        }
        let write = self.values.remove(last);
        Some(write)
    }
}

/// The worker that writes what the queue holds.
pub struct SysfsWriterService<T> {
    pub queue: SysfsWriterQueue<T>,
}

impl<T> SysfsWriterService<T> {
    /// The name under which the worker is supervised.
    pub fn name() -> (r: &'static str)
        ensures
            r@ == "sysfs-writer"@,
    {
        "sysfs-writer"
    }

    /// Sets the one worker up. There is one for the whole process: where one
    /// is active already, a second is refused.
    pub fn init(active: bool) -> (r: Result<SysfsWriterService<T>, Error>)
        ensures
            active ==> r == Err::<SysfsWriterService<T>, Error>(Error::Config),
            !active ==> r is Ok && r->Ok_0.queue.wf() && r->Ok_0.queue@ == Map::<
                Seq<char>,
                (Seq<u8>, T),
            >::empty(),
    {
        if active {
            return Err(Error::Config);
        }
        Ok(SysfsWriterService { queue: SysfsWriterQueue::new() })
    }

    /// What the requester of a write is told once the write was tried.
    pub fn written(outcome: Result<(), Error>) -> (r: SysfsWritten)
        ensures
            r == SysfsWritten::Written(outcome),
    {
        SysfsWritten::Written(outcome)
    }
}

/// Coalescing. Of two writes queued for one path with no write taken out in
/// between, the first is superseded: its handle comes back when the second
/// is queued. The second waits with its own bytes, and the queue is as if the
/// first had never been queued.
pub proof fn coalescing<T>(
    pending: Map<Seq<char>, (Seq<u8>, T)>,
    path: Seq<char>,
    first: Seq<u8>,
    first_reply: T,
    second: Seq<u8>,
    second_reply: T,
)
    ensures
        overtaken(queued(pending, path, first, first_reply), path) == Some(first_reply),
        queued(queued(pending, path, first, first_reply), path, second, second_reply)[path] == (
            second,
            second_reply,
        ),
        queued(queued(pending, path, first, first_reply), path, second, second_reply) == queued(
            pending,
            path,
            second,
            second_reply,
        ),
{
    assert(queued(queued(pending, path, first, first_reply), path, second, second_reply) =~= queued(
        pending,
        path,
        second,
        second_reply,
    ));
}

/// Independent paths. Writes queued for two different paths do not touch each
/// other: neither supersedes the other, both wait with their own bytes, and
/// the queue is the same whichever was queued first.
pub proof fn independent_paths<T>(
    pending: Map<Seq<char>, (Seq<u8>, T)>,
    one: Seq<char>,
    one_contents: Seq<u8>,
    one_reply: T,
    other: Seq<char>,
    other_contents: Seq<u8>,
    other_reply: T,
)
    requires
        one != other,
    ensures
        overtaken(queued(pending, one, one_contents, one_reply), other) == overtaken(
            pending,
            other,
        ),
        overtaken(queued(pending, other, other_contents, other_reply), one) == overtaken(
            pending,
            one,
        ),
        ({
            let both = queued(
                queued(pending, one, one_contents, one_reply),
                other,
                other_contents,
                other_reply,
            );
            &&& both[one] == (one_contents, one_reply)
            &&& both[other] == (other_contents, other_reply)
            &&& both == queued(
                queued(pending, other, other_contents, other_reply),
                one,
                one_contents,
                one_reply,
            )
        }),
{
    let both = queued(
        queued(pending, one, one_contents, one_reply),
        other,
        other_contents,
        other_reply,
    );
    assert(both =~= queued(
        queued(pending, other, other_contents, other_reply),
        one,
        one_contents,
        one_reply,
    ));
}

/// No write is lost. Queuing a write leaves every handle that waited either
/// waiting as before, or handed back as superseded. Taking a write out leaves
/// every other handle waiting as before.
pub proof fn nothing_lost<T>(
    pending: Map<Seq<char>, (Seq<u8>, T)>,
    path: Seq<char>,
    contents: Seq<u8>,
    reply: T,
    waiting: Seq<char>,
)
    requires
        pending.dom().contains(waiting),
    ensures
        waiting != path ==> queued(pending, path, contents, reply).dom().contains(waiting)
            && queued(pending, path, contents, reply)[waiting] == pending[waiting],
        waiting == path ==> overtaken(pending, path) == Some(pending[waiting].1),
        waiting != path ==> pending.remove(path).dom().contains(waiting) && pending.remove(
            path,
        )[waiting] == pending[waiting],
{
}

/// The queue at work, as a model: what waits, what each requester was told,
/// and what the files hold. Every write that is tried goes well.
#[verifier::reject_recursive_types(T)]
pub struct WriterModel<T> {
    pub pending: Map<Seq<char>, (Seq<u8>, T)>,
    pub told: Map<T, SysfsWritten>,
    pub files: Map<Seq<char>, Seq<u8>>,
}

/// What can happen to the queue.
pub enum QueueOp<T> {
    /// A requester queues a write.
    Send { path: Seq<char>, contents: Seq<u8>, reply: T },
    /// The worker takes the write for a path out and makes it.
    Take { path: Seq<char> },
}

/// The model after a requester or the worker acted. A requester's write
/// takes the place of one that waits for the same path, whose requester is
/// told that it was superseded. The worker writes what waits for the path
/// to the file and tells the requester so; where nothing waits, nothing
/// happens.
pub open spec fn queue_step<T>(s: WriterModel<T>, op: QueueOp<T>) -> WriterModel<T> {
    match op {
        QueueOp::Send { path, contents, reply } => WriterModel {
            pending: queued(s.pending, path, contents, reply),
            told: match overtaken(s.pending, path) {
                Some(old_reply) => s.told.insert(old_reply, SysfsWritten::Superseded),
                None => s.told,
            },
            files: s.files,
        },
        QueueOp::Take { path } => if s.pending.dom().contains(path) {
            WriterModel {
                pending: s.pending.remove(path),
                told: s.told.insert(s.pending[path].1, SysfsWritten::Written(Ok(()))),
                files: s.files.insert(path, s.pending[path].0),
            }
        } else {
            s
        },
    }
}

/// The model after a run of actions.
pub open spec fn queue_run<T>(s: WriterModel<T>, ops: Seq<QueueOp<T>>) -> WriterModel<T>
    decreases ops.len(),
{
    if ops.len() == 0 {
        s
    } else {
        queue_step(queue_run(s, ops.drop_last()), ops.last())
    }
}

/// No handle waits in the queue that is one of these two.
pub open spec fn fresh<T>(s: WriterModel<T>, one: T, other: T) -> bool {
    forall|p: Seq<char>|
        s.pending.dom().contains(p) ==> (#[trigger] s.pending[p]).1 != one && s.pending[p].1
            != other
}

proof fn lemma_run_push<T>(s: WriterModel<T>, ops: Seq<QueueOp<T>>, op: QueueOp<T>)
    ensures
        queue_run(s, ops.push(op)) == queue_step(queue_run(s, ops), op),
{
    assert(ops.push(op).drop_last() =~= ops);
}

proof fn lemma_run_four<T>(
    s: WriterModel<T>,
    a: QueueOp<T>,
    b: QueueOp<T>,
    c: QueueOp<T>,
    d: QueueOp<T>,
)
    ensures
        queue_run(s, seq![a, b, c]) == queue_step(queue_step(queue_step(s, a), b), c),
        queue_run(s, seq![a, b, c, d]) == queue_step(
            queue_step(queue_step(queue_step(s, a), b), c),
            d,
        ),
{
    let none = Seq::<QueueOp<T>>::empty();
    lemma_run_push(s, none, a);
    lemma_run_push(s, none.push(a), b);
    lemma_run_push(s, none.push(a).push(b), c);
    lemma_run_push(s, none.push(a).push(b).push(c), d);
    assert(seq![a, b, c] =~= none.push(a).push(b).push(c));
    assert(seq![a, b, c, d] =~= none.push(a).push(b).push(c).push(d));
}

/// Coalescing, at work. Two writes are queued for one path, and then the
/// worker takes the path's write out. The first requester is told that its
/// write was superseded, the second that its write was made, and the file
/// holds the bytes of the second.
pub proof fn coalescing_at_work<T>(
    s: WriterModel<T>,
    path: Seq<char>,
    first: Seq<u8>,
    first_reply: T,
    second: Seq<u8>,
    second_reply: T,
)
    requires
        first_reply != second_reply,
    ensures
        ({
            let end = queue_run(
                s,
                seq![
                    QueueOp::Send { path, contents: first, reply: first_reply },
                    QueueOp::Send { path, contents: second, reply: second_reply },
                    QueueOp::Take { path },
                ],
            );
            &&& end.told.dom().contains(first_reply)
            &&& end.told[first_reply] == SysfsWritten::Superseded
            &&& end.told.dom().contains(second_reply)
            &&& end.told[second_reply] == SysfsWritten::Written(Ok(()))
            &&& end.files.dom().contains(path)
            &&& end.files[path] == second
            &&& !end.pending.dom().contains(path)
        }),
{
    let a = QueueOp::Send { path, contents: first, reply: first_reply };
    let b = QueueOp::Send { path, contents: second, reply: second_reply };
    let c = QueueOp::Take { path };
    lemma_run_four(s, a, b, c, c);
}

/// Independent paths, at work. Two writes are queued for two different
/// paths and both are taken out by the worker, in whatever order the four
/// steps come as long as each write is queued before it is taken out. Both
/// requesters are told that their write was made, and each file holds its
/// bytes.
pub proof fn independent_paths_at_work<T>(
    s: WriterModel<T>,
    ops: Seq<QueueOp<T>>,
    one: Seq<char>,
    one_contents: Seq<u8>,
    one_reply: T,
    other: Seq<char>,
    other_contents: Seq<u8>,
    other_reply: T,
    sent_one: int,
    taken_one: int,
    sent_other: int,
    taken_other: int,
)
    requires
        one != other,
        one_reply != other_reply,
        fresh(s, one_reply, other_reply),
        ops.len() == 4,
        0 <= sent_one < taken_one < 4,
        0 <= sent_other < taken_other < 4,
        sent_one != sent_other,
        sent_one != taken_other,
        taken_one != sent_other,
        taken_one != taken_other,
        ops[sent_one] == (QueueOp::Send { path: one, contents: one_contents, reply: one_reply }),
        ops[taken_one] == (QueueOp::<T>::Take { path: one }),
        ops[sent_other] == (QueueOp::Send {
            path: other,
            contents: other_contents,
            reply: other_reply,
        }),
        ops[taken_other] == (QueueOp::<T>::Take { path: other }),
    ensures
        ({
            let end = queue_run(s, ops);
            &&& end.told.dom().contains(one_reply)
            &&& end.told[one_reply] == SysfsWritten::Written(Ok(()))
            &&& end.told.dom().contains(other_reply)
            &&& end.told[other_reply] == SysfsWritten::Written(Ok(()))
            &&& end.files.dom().contains(one)
            &&& end.files[one] == one_contents
            &&& end.files.dom().contains(other)
            &&& end.files[other] == other_contents
        }),
{
    lemma_run_four(s, ops[0], ops[1], ops[2], ops[3]);
    assert(ops =~= seq![ops[0], ops[1], ops[2], ops[3]]);
    let s1 = queue_step(s, ops[0]);
    let s2 = queue_step(s1, ops[1]);
    let s3 = queue_step(s2, ops[2]);
    if sent_one == 0 {
        assert(s1.pending.dom().contains(one));
    } else {
        assert(s1.pending.dom().contains(other));
    }
}

/// Nothing is lost, at work. Whatever happens next, a handle that waits is
/// afterwards in exactly one of three places: it still waits with its own
/// bytes, or it was told that its write was superseded because a write for
/// its path was queued, or it was told that its write was made because the
/// worker took its path, and then the file holds its bytes.
pub proof fn nothing_lost_at_work<T>(s: WriterModel<T>, op: QueueOp<T>, path: Seq<char>)
    requires
        s.pending.dom().contains(path),
    ensures
        ({
            let next = queue_step(s, op);
            let waiting = s.pending[path];
            match op {
                QueueOp::Send { path: p, contents, reply } => if p == path {
                    &&& next.told.dom().contains(waiting.1)
                    &&& next.told[waiting.1] == SysfsWritten::Superseded
                    &&& next.pending[path] == (contents, reply)
                } else {
                    &&& next.pending.dom().contains(path)
                    &&& next.pending[path] == waiting
                },
                QueueOp::Take { path: p } => if p == path {
                    &&& next.told.dom().contains(waiting.1)
                    &&& next.told[waiting.1] == SysfsWritten::Written(Ok(()))
                    &&& next.files[path] == waiting.0
                    &&& !next.pending.dom().contains(path)
                } else {
                    &&& next.pending.dom().contains(path)
                    &&& next.pending[path] == waiting
                },
            }
        }),
{
}

} // verus!
