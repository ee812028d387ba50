//! GPU timestamp bookkeeping: named start/stop pairs over a fixed number of
//! timestamp queries per frame.
use vstd::prelude::*;

verus! {

/// Bytes of one resolved timestamp.
pub const QUERY_SIZE: u32 = 8;

/// Timestamp queries available per frame.
pub const MAX_QUERY: u32 = 64;

/// A tag and the query indices of its first and last timestamp.
pub struct TimerStamp {
    pub tag: String,
    pub start: Option<u32>,
    pub stop: Option<u32>,
}

/// A tag and its two resolved timestamps, in GPU ticks.
pub struct TimerSpan {
    pub tag: String,
    pub start_ticks: u64,
    pub stop_ticks: u64,
}

/// The abstract view of one stamp.
pub open spec fn stamp_view(s: TimerStamp) -> (Seq<char>, Option<u32>, Option<u32>) {
    (s.tag@, s.start, s.stop)
}

/// The stamps after a timestamp with `tag` took query `index`: the tag's
/// entry gets `index` as its stop, or a new entry starts at `index`.
pub open spec fn stamped(
    stamps: Seq<(Seq<char>, Option<u32>, Option<u32>)>,
    tag: Seq<char>,
    index: u32,
) -> Seq<(Seq<char>, Option<u32>, Option<u32>)> {
    if exists|i: int| 0 <= i < stamps.len() && (#[trigger] stamps[i]).0 == tag {
        let i = choose|i: int| 0 <= i < stamps.len() && (#[trigger] stamps[i]).0 == tag;
        stamps.update(i, (tag, stamps[i].1, Some(index)))
    } else {
        stamps.push((tag, Some(index), None))
    }
}

/// The per-frame timestamp queries and the tags they belong to.
pub struct Timer {
    index: u32,
    stamps: Vec<TimerStamp>,
}

impl Timer {
    /// The number of queries taken this frame.
    pub closed spec fn used(&self) -> u32 {
        self.index
    }

    /// The stamps, in the order in which their tags first came.
    pub closed spec fn stamps(&self) -> Seq<(Seq<char>, Option<u32>, Option<u32>)> {
        self.stamps@.map_values(|s: TimerStamp| stamp_view(s))
    }

    /// Tags are distinct, and every recorded query index was taken.
    pub closed spec fn wf(&self) -> bool {
        &&& self.index <= MAX_QUERY
        &&& forall|i: int, j: int|
            0 <= i < j < self.stamps@.len() ==> #[trigger] self.stamps@[i].tag@
                != #[trigger] self.stamps@[j].tag@
        &&& forall|i: int|
            0 <= i < self.stamps@.len() ==> {
                &&& (#[trigger] self.stamps@[i]).start is Some
                &&& self.stamps@[i].start->0 < self.index
                &&& self.stamps@[i].stop is Some ==> self.stamps@[i].stop->0 < self.index
            }
    }

    pub fn new() -> (r: Self)
        ensures
            r.wf(),
            r.used() == 0,
            r.stamps() == Seq::<(Seq<char>, Option<u32>, Option<u32>)>::empty(),
    {
        let r = Timer { index: 0, stamps: Vec::new() };
        assert(r.stamps() =~= Seq::<(Seq<char>, Option<u32>, Option<u32>)>::empty());
        r
    }

    /// The number of queries taken this frame, which the resolve copies out.
    pub fn num_queries(&self) -> (r: u32)
        ensures
            r == self.used(),
    {
        self.index
    }

    /// Takes the next query for `tag`, where one is left: returns the query
    /// index at which the caller records the timestamp.
    pub fn start(&mut self, tag: &str) -> (r: Option<u32>)
        requires
            old(self).wf(),
        ensures
            final(self).wf(),
            old(self).used() < MAX_QUERY ==> {
                &&& r == Some(old(self).used())
                &&& final(self).used() == old(self).used() + 1
                &&& final(self).stamps() == stamped(old(self).stamps(), tag@, old(self).used())
            },
            old(self).used() >= MAX_QUERY ==> r is None && *final(self) == *old(self),
    {
        if self.index < MAX_QUERY {
            Some(self.add_timestamp(tag))
        } else {
            None
        }
    }

    /// As `start`: the first timestamp of a tag starts its span and every
    /// later one ends it.
    pub fn stop(&mut self, tag: &str) -> (r: Option<u32>)
        requires
            old(self).wf(),
        ensures
            final(self).wf(),
            old(self).used() < MAX_QUERY ==> {
                &&& r == Some(old(self).used())
                &&& final(self).used() == old(self).used() + 1
                &&& final(self).stamps() == stamped(old(self).stamps(), tag@, old(self).used())
            },
            old(self).used() >= MAX_QUERY ==> r is None && *final(self) == *old(self),
    {
        if self.index < MAX_QUERY {
            Some(self.add_timestamp(tag))
        } else {
            None
        }
    }

    fn add_timestamp(&mut self, tag: &str) -> (r: u32)
        requires
            old(self).wf(),
            old(self).used() < MAX_QUERY,
        ensures
            final(self).wf(),
            r == old(self).used(),
            final(self).used() == old(self).used() + 1,
            final(self).stamps() == stamped(old(self).stamps(), tag@, old(self).used()),
    {
        let index = self.index;
        let ghost before = self.stamps();
        let tag = tag.to_owned();
        let mut found: Option<usize> = None;
        let mut i: usize = 0;
        while i < self.stamps.len()
            invariant
                i <= self.stamps@.len(),
                *self == *old(self),
                found is None ==> forall|j: int| 0 <= j < i ==> (#[trigger] self.stamps@[j]).tag@ != tag@,
                found is Some ==> found->0 < self.stamps@.len() && self.stamps@[found->0 as int].tag@ == tag@,
            decreases self.stamps@.len() - i,
        {
            if found.is_none() && self.stamps[i].tag == tag {
                found = Some(i);
            }
            i = i + 1;
        }
        self.index = self.index + 1;
        match found {
            Some(i) => {
                let start = self.stamps[i].start;
                let t = self.stamps[i].tag.clone();
                self.stamps.set(i, TimerStamp { tag: t, start, stop: Some(index) });
                proof {
                    assert(before[i as int].0 == tag@);
                    let k = choose|k: int| 0 <= k < before.len() && (#[trigger] before[k]).0 == tag@;
                    assert(before[k].0 == old(self).stamps@[k].tag@);
                    if k < i as int {
                        assert(old(self).stamps@[k].tag@ != old(self).stamps@[i as int].tag@);
                    } else if k > i as int {
                        assert(old(self).stamps@[i as int].tag@ != old(self).stamps@[k].tag@);
                    }
                    assert(self.stamps() =~= stamped(before, tag@, index));
                    assert forall|a: int, b: int|
                        0 <= a < b < self.stamps@.len() implies #[trigger] self.stamps@[a].tag@
                        != #[trigger] self.stamps@[b].tag@ by {
                        assert(self.stamps@[a].tag@ == old(self).stamps@[a].tag@);
                        assert(self.stamps@[b].tag@ == old(self).stamps@[b].tag@);
                    }
                }
            },
            None => {
                self.stamps.push(TimerStamp { tag, start: Some(index), stop: None });
                proof {
                    assert(!exists|k: int| 0 <= k < before.len() && (#[trigger] before[k]).0 == tag@);
                    assert(self.stamps() =~= stamped(before, tag@, index));
                }
            },
        }
        index
    }

    /// The spans of this frame, from the resolved timestamps `data`: one for
    /// each tag with both a start and a stop, in the order the tags first
    /// came. The frame's queries and tags are then forgotten.
    pub fn dump(&mut self, data: &Vec<u64>) -> (r: Vec<TimerSpan>)
        requires
            old(self).wf(),
            data@.len() >= old(self).used(),
        ensures
            final(self).wf(),
            final(self).used() == 0,
            final(self).stamps() == Seq::<(Seq<char>, Option<u32>, Option<u32>)>::empty(),
            r@.map_values(|s: TimerSpan| (s.tag@, s.start_ticks, s.stop_ticks)) == spans(
                old(self).stamps(),
                data@,
            ),
    {
        let mut r: Vec<TimerSpan> = Vec::new();
        let mut i: usize = 0;
        let ghost stamps = self.stamps();
        while i < self.stamps.len()
            invariant
                self.wf(),
                *self == *old(self),
                stamps == self.stamps(),
                data@.len() >= self.used(),
                i <= self.stamps@.len(),
                r@.map_values(|s: TimerSpan| (s.tag@, s.start_ticks, s.stop_ticks)) == spans(
                    stamps.take(i as int),
                    data@,
                ),
            decreases self.stamps@.len() - i,
        {
            proof {
                assert(stamps.take(i as int + 1).drop_last() =~= stamps.take(i as int));
            }
            match (self.stamps[i].start, self.stamps[i].stop) {
                (Some(start), Some(stop)) => {
                    let ghost before = r@;
                    r.push(
                        TimerSpan {
                            tag: self.stamps[i].tag.clone(),
                            start_ticks: data[start as usize],
                            stop_ticks: data[stop as usize],
                        },
                    );
                    proof {
                        assert(r@.map_values(|s: TimerSpan| (s.tag@, s.start_ticks, s.stop_ticks))
                            =~= before.map_values(
                            |s: TimerSpan| (s.tag@, s.start_ticks, s.stop_ticks),
                        ).push((stamps[i as int].0, data@[start as int], data@[stop as int])));
                    }
                },
                _ => {},
            }
            i = i + 1;
        }
        proof {
            assert(stamps.take(self.stamps@.len() as int) =~= stamps);
        }
        self.index = 0;
        self.stamps.clear();
        proof {
            assert(self.stamps() =~= Seq::<(Seq<char>, Option<u32>, Option<u32>)>::empty());
        }
        r
    }
}

/// The spans of `stamps` with both ends, their timestamps read from `data`.
pub open spec fn spans(stamps: Seq<(Seq<char>, Option<u32>, Option<u32>)>, data: Seq<u64>) -> Seq<
    (Seq<char>, u64, u64),
>
    decreases stamps.len(),
{
    if stamps.len() == 0 {
        seq![]
    } else {
        let rest = spans(stamps.drop_last(), data);
        let s = stamps.last();
        if s.1 is Some && s.2 is Some {
            rest.push((s.0, data[s.1->0 as int], data[s.2->0 as int]))
        } else {
            rest
        }
    }
}

} // verus!
