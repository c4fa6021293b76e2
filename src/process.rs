use vstd::prelude::*;
use std::collections::HashMap;
use vstd::std_specs::iter::IteratorSpec;
use std::time::Duration;
use crate::triggers::{duration_from_millis, PROCESS_POLL_MILLIS};

verus! {

broadcast use vstd::std_specs::hash::group_hash_axioms;

/// A process: its id and its name.
#[derive(Clone, Debug)]
pub struct ProcessInfo {
    pub pid: u32,
    pub name: String,
}

/// A process that appeared or went away between two polls.
#[derive(Debug)]
pub enum ProcessEvent {
    Started(ProcessInfo),
    Exited(ProcessInfo),
}

impl ProcessEvent {
    pub open spec fn info(&self) -> ProcessInfo {
        match self {
            ProcessEvent::Started(i) => *i,
            ProcessEvent::Exited(i) => *i,
        }
    }
}

/// Whether `events` reports exactly the processes of `current` missing
/// from `known` as started and those of `known` missing from `current` as
/// exited, each once and under its name, all starts before all exits.
pub open spec fn reports_changes(
    known: Map<u32, String>,
    current: Map<u32, String>,
    events: Seq<ProcessEvent>,
) -> bool {
    &&& forall|i: int| 0 <= i < events.len() && (#[trigger] events[i]) is Started ==> {
        &&& current.contains_key(events[i].info().pid)
        &&& !known.contains_key(events[i].info().pid)
        &&& events[i].info().name@ == current[events[i].info().pid]@
    }
    &&& forall|i: int| 0 <= i < events.len() && (#[trigger] events[i]) is Exited ==> {
        &&& known.contains_key(events[i].info().pid)
        &&& !current.contains_key(events[i].info().pid)
        &&& events[i].info().name@ == known[events[i].info().pid]@
    }
    &&& forall|k: u32| #[trigger] current.contains_key(k) && !known.contains_key(k) ==>
        exists|i: int| 0 <= i < events.len() && (#[trigger] events[i]) is Started && events[i].info().pid == k
    &&& forall|k: u32| #[trigger] known.contains_key(k) && !current.contains_key(k) ==>
        exists|i: int| 0 <= i < events.len() && (#[trigger] events[i]) is Exited && events[i].info().pid == k
    &&& forall|i: int, j: int| 0 <= i < j < events.len() && (#[trigger] events[j]) is Started ==> (#[trigger] events[i]) is Started
    &&& forall|i: int, j: int| 0 <= i < j < events.len() && (#[trigger] events[i]).info().pid == (#[trigger] events[j]).info().pid
        ==> (events[i] is Started) != (events[j] is Started)
}

/// A trigger that runs its callback whenever a process starts or exits.
pub struct ProcessTrigger<C> {
    pub callback: C,
    pub known_processes: HashMap<u32, String>,
    pub poll_interval: Duration,
}

/// Appends to `out` an event for each entry of `from` whose pid `other`
/// lacks, built by `started`.
fn push_missing(
    from: &HashMap<u32, String>,
    other: &HashMap<u32, String>,
    started: bool,
    out: &mut Vec<ProcessEvent>,
)
    ensures
        final(out)@.len() >= old(out)@.len(),
        final(out)@.subrange(0, old(out)@.len() as int) == old(out)@,
        forall|i: int| old(out)@.len() <= i < final(out)@.len() ==> {
            &&& (#[trigger] final(out)@[i]) is Started == started
            &&& from@.contains_key(final(out)@[i].info().pid)
            &&& !other@.contains_key(final(out)@[i].info().pid)
            &&& final(out)@[i].info().name@ == from@[final(out)@[i].info().pid]@
        },
        forall|k: u32| #[trigger] from@.contains_key(k) && !other@.contains_key(k) ==>
            exists|i: int| old(out)@.len() <= i < final(out)@.len() && (#[trigger] final(out)@[i]).info().pid == k,
        forall|i: int, j: int| old(out)@.len() <= i < j < final(out)@.len() ==>
            (#[trigger] final(out)@[i]).info().pid != (#[trigger] final(out)@[j]).info().pid,
{
    let ghost start = out@.len();
    let ghost out0 = out@;
    let ghost mut pos: Seq<int> = Seq::empty();
    let ghost mut done: int = 0;
    let entries_iter = from.iter();
    let ghost entries = entries_iter.remaining();
    for entry in it: entries_iter
        invariant
            it.seq() == entries,
            done == it.index(),
            0 <= done <= entries.len(),
            start == out0.len(),
            out@.len() == start + pos.len(),
            out@.subrange(0, start as int) == out0,
            entries.no_duplicates(),
            forall|j: int| 0 <= j < entries.len() ==> from@.contains_key(*(#[trigger] entries[j]).0)
                && from@[*entries[j].0] == *entries[j].1,
            forall|a: int| 0 <= a < pos.len() ==> 0 <= #[trigger] pos[a] < done,
            forall|a: int, b: int| 0 <= a < b < pos.len() ==> #[trigger] pos[a] < #[trigger] pos[b],
            forall|a: int| 0 <= a < pos.len() ==> (#[trigger] out@[start + a]).info().pid == *entries[pos[a]].0,
            forall|i: int| start <= i < out@.len() ==> {
                &&& (#[trigger] out@[i]) is Started == started
                &&& from@.contains_key(out@[i].info().pid)
                &&& !other@.contains_key(out@[i].info().pid)
                &&& out@[i].info().name@ == from@[out@[i].info().pid]@
            },
            forall|j: int| 0 <= j < done && !other@.contains_key(*(#[trigger] entries[j]).0) ==>
                exists|a: int| 0 <= a < pos.len() && pos[a] == j,
    {
        let (pid, name) = entry;
        proof {
            assert(entry == entries[done]);
        }
        let ghost old_pos = pos;
        if !other.contains_key(pid) {
            let info = ProcessInfo { pid: *pid, name: name.clone() };
            let ev = if started { ProcessEvent::Started(info) } else { ProcessEvent::Exited(info) };
            proof {
                pos = pos.push(done);
            }
            out.push(ev);
        }
        proof {
            assert forall|j: int| 0 <= j < done + 1 && !other@.contains_key(*(#[trigger] entries[j]).0) implies
                exists|a: int| 0 <= a < pos.len() && pos[a] == j by {
                if j < done {
                    let a = choose|a: int| 0 <= a < old_pos.len() && old_pos[a] == j;
                    assert(pos[a] == j);
                } else {
                    assert(pos[old_pos.len() as int] == j);
                }
            }
            done = done + 1;
        }
    }
    proof {
        assert(done == entries.len());
        assert forall|k: u32| #[trigger] from@.contains_key(k) && !other@.contains_key(k) implies
            exists|i: int| start <= i < out@.len() && (#[trigger] out@[i]).info().pid == k by {
            assert(entries.contains((&k, &from@[k])));
            let j = choose|j: int| 0 <= j < entries.len() && entries[j] == (&k, &from@[k]);
            assert(!other@.contains_key(*entries[j].0));
            let a = choose|a: int| 0 <= a < pos.len() && pos[a] == j;
            assert(out@[start + a].info().pid == k);
        }
        assert forall|i: int, j: int| start <= i < j < out@.len() implies
            (#[trigger] out@[i]).info().pid != (#[trigger] out@[j]).info().pid by {
            let a = i - start;
            let b = j - start;
            assert(out@[start + a].info().pid == *entries[pos[a]].0);
            assert(out@[start + b].info().pid == *entries[pos[b]].0);
            assert(pos[a] < pos[b]);
            if out@[i].info().pid == out@[j].info().pid {
                assert(entries[pos[a]] == entries[pos[b]]);
            }
        }
    }
}

impl<C> ProcessTrigger<C> {
    /// Polls every `PROCESS_POLL_MILLIS` milliseconds.
    pub fn new(callback: C) -> (r: Self)
        ensures
            r.callback == callback,
            r.known_processes@.len() == 0,
            r.poll_interval == duration_from_millis(PROCESS_POLL_MILLIS),
    {
        Self::with_interval(callback, Duration::from_millis(PROCESS_POLL_MILLIS))
    }

    pub fn with_interval(callback: C, poll_interval: Duration) -> (r: Self)
        ensures
            r.callback == callback,
            r.known_processes@.len() == 0,
            r.poll_interval == poll_interval,
    {
        ProcessTrigger { callback, known_processes: HashMap::new(), poll_interval }
    }

    /// The processes that started and exited between the table last
    /// remembered and `current`: starts first, then exits.
    pub fn process_changes(&self, current: &HashMap<u32, String>) -> (r: Vec<ProcessEvent>)
        ensures
            reports_changes(self.known_processes@, current@, r@),
    {
        let mut out: Vec<ProcessEvent> = Vec::new();
        push_missing(current, &self.known_processes, true, &mut out);
        let ghost n1 = out@.len();
        let ghost out1 = out@;
        push_missing(&self.known_processes, current, false, &mut out);
        proof {
            let known = self.known_processes@;
            let cur = current@;
            let ev = out@;
            assert forall|i: int| 0 <= i < n1 implies #[trigger] ev[i] == out1[i] by {
                assert(ev.subrange(0, n1 as int)[i] == ev[i]);
            }
            assert forall|i: int| 0 <= i < ev.len() implies (#[trigger] ev[i] is Started) == (i < n1) by {
                if i < n1 {
                    assert(ev[i] == out1[i]);
                }
            }
            assert forall|k: u32| #[trigger] cur.contains_key(k) && !known.contains_key(k) implies
                exists|i: int| 0 <= i < ev.len() && (#[trigger] ev[i]) is Started && ev[i].info().pid == k by {
                let i = choose|i: int| 0 <= i < n1 && (#[trigger] out1[i]).info().pid == k;
                assert(ev[i] == out1[i]);
            }
            assert forall|i: int, j: int| 0 <= i < j < ev.len() && (#[trigger] ev[i]).info().pid == (#[trigger] ev[j]).info().pid
                implies (ev[i] is Started) != (ev[j] is Started) by {
                if j < n1 {
                    assert(ev[i] == out1[i]);
                    assert(ev[j] == out1[j]);
                }
            }
        }
        out
    }

    /// Remembers `current` as the table against which the next poll is compared.
    pub fn remember(&mut self, current: HashMap<u32, String>)
        ensures
            final(self).known_processes@ == current@,
            final(self).callback == old(self).callback,
            final(self).poll_interval == old(self).poll_interval,
    {
        self.known_processes = current;
    }
}

} // verus!
