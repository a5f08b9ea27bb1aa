//! The history of sent requests: newest first, cut to a maximum count.

use vstd::prelude::*;
use crate::request::HttpRequest;

verus! {

/// A point in time: whole seconds since the Unix epoch, and nanoseconds
/// within the second.
#[derive(Clone, Copy, Debug, PartialEq, Eq, Structural)]
pub struct Timestamp {
    pub secs: i64,
    pub nanos: u32,
}

pub struct HistoryEntry {
    pub id: u64,
    pub timestamp: Timestamp,
    pub request: HttpRequest,
    pub status: u16,
    pub elapsed_ms: u128,
}

pub struct History {
    pub entries: Vec<HistoryEntry>,
}

/// `es` with `e` put first and then cut to `max` entries.
pub open spec fn pushed<T>(es: Seq<T>, e: T, max: nat) -> Seq<T> {
    let all = seq![e] + es;
    if all.len() <= max { all } else { all.take(max as int) }
}

/// `es` after pushing each of `news` in turn.
pub open spec fn pushed_all<T>(es: Seq<T>, news: Seq<T>, max: nat) -> Seq<T>
    decreases news.len(),
{
    if news.len() == 0 {
        es
    } else {
        pushed(pushed_all(es, news.drop_last(), max), news.last(), max)
    }
}

/// After more appends than the maximum, exactly the maximum is kept, and the
/// newest entry comes first.
pub proof fn lemma_history_bounded<T>(es: Seq<T>, news: Seq<T>, max: nat)
    requires
        max < news.len(),
    ensures
        pushed_all(es, news, max).len() == max,
        max > 0 ==> pushed_all(es, news, max)[0] == news.last(),
{
    lemma_pushed_all_len(es, news, max);
}

proof fn lemma_pushed_all_len<T>(es: Seq<T>, news: Seq<T>, max: nat)
    ensures
        news.len() > 0 ==> pushed_all(es, news, max).len() == if es.len() + news.len() <= max {
            (es.len() + news.len()) as int
        } else {
            max as int
        },
    decreases news.len(),
{
    if news.len() > 0 {
        let prev = pushed_all(es, news.drop_last(), max);
        lemma_pushed_all_len(es, news.drop_last(), max);
        if news.len() == 1 {
            assert(prev == es);
        }
        let all = seq![news.last()] + prev;
        assert(all.len() == prev.len() + 1);
        if all.len() > max {
            assert(all.take(max as int).len() == max);
        }
    }
}

impl History {
    pub fn new() -> (r: History)
        ensures
            r.entries@.len() == 0,
    {
        History { entries: Vec::new() }
    }

    /// Puts `entry` first and keeps at most `max` entries.
    pub fn push(&mut self, entry: HistoryEntry, max: usize)
        ensures
            final(self).entries@ == pushed(old(self).entries@, entry, max as nat),
    {
        let ghost all = seq![entry] + self.entries@;
        self.entries.insert(0, entry);
        assert(self.entries@ =~= all);
        self.entries.truncate(max);
        proof {
            if all.len() > max {
                assert(all.subrange(0, max as int) =~= all.take(max as int));
            }
        }
    }

    /// Pushes each of `news` in turn, each time keeping at most `max` entries.
    /// With more new entries than `max`, exactly `max` remain and the last of
    /// `news` comes first.
    pub fn push_all(&mut self, news: Vec<HistoryEntry>, max: usize)
        ensures
            final(self).entries@ == pushed_all(old(self).entries@, news@, max as nat),
            max < news@.len() ==> final(self).entries@.len() == max,
            max < news@.len() && max > 0 ==> final(self).entries@[0] == news@.last(),
    {
        let ghost all = news@;
        let mut news = news;
        let ghost start = self.entries@;
        let mut k: usize = 0;
        let n = news.len();
        while news.len() > 0
            invariant
                n == all.len(),
                k + news@.len() == n,
                news@ == all.subrange(k as int, n as int),
                self.entries@ == pushed_all(start, all.take(k as int), max as nat),
            decreases news@.len(),
        {
            let e = news.remove(0);
            assert(e == all[k as int]);
            assert(all.take(k + 1).drop_last() =~= all.take(k as int));
            self.push(e, max);
            k += 1;
            assert(news@ =~= all.subrange(k as int, n as int));
        }
        assert(all.take(n as int) =~= all);
        proof {
            if max < all.len() {
                lemma_history_bounded(start, all, max as nat);
            }
        }
    }

    /// The id for the next entry: one past the newest, or 1 when empty.
    pub fn next_id(&self) -> (r: u64)
        requires
            self.entries@.len() > 0 ==> self.entries@[0].id < u64::MAX,
        ensures
            r == if self.entries@.len() > 0 {
                (self.entries@[0].id + 1) as u64
            } else {
                1
            },
    {
        if self.entries.len() > 0 {
            self.entries[0].id + 1
        } else {
            1
        }
    }

    /// Records a completed request as the newest entry.
    pub fn record(
        &mut self,
        request: HttpRequest,
        status: u16,
        elapsed_ms: u128,
        timestamp: Timestamp,
        max: usize,
    )
        requires
            old(self).entries@.len() > 0 ==> old(self).entries@[0].id < u64::MAX,
        ensures
            ({
                let id = if old(self).entries@.len() > 0 {
                    (old(self).entries@[0].id + 1) as u64
                } else {
                    1
                };
                let e = HistoryEntry { id, timestamp, request, status, elapsed_ms };
                final(self).entries@ == pushed(old(self).entries@, e, max as nat)
            }),
    {
        let id = self.next_id();
        self.push(HistoryEntry { id, timestamp, request, status, elapsed_ms }, max);
    }
}

} // verus!
