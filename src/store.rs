//! The in-memory store: activated devices, pending activation challenges and chat history.
use vstd::prelude::*;
use crate::chat::Message;

verus! {

/// One stored chat message.
pub struct HistoryRecord {
    pub device_id: String,
    pub role: String,
    pub content: String,
}

/// A challenge issued to a device, valid until `expires_at_ms`.
pub struct Challenge {
    pub device_id: String,
    pub challenge: String,
    pub expires_at_ms: u64,
}

/// The operations the engine needs from a store. Times are milliseconds since the epoch.
pub trait DbTrait {
    fn is_activated(&self, device_id: &str) -> bool;
    fn activate_device(&mut self, device_id: &str);
    fn add_challenge(&mut self, device_id: &str, challenge: &str, ttl_secs: u64, now_ms: u64);
    fn get_challenge(&self, device_id: &str, now_ms: u64) -> Option<String>;
    fn add_chat_history(&mut self, device_id: &str, role: &str, content: &str);
    fn get_chat_history(&self, device_id: &str, limit: usize) -> Vec<Message>;
}

/// A store held in memory, lost when the process ends.
pub struct InMemoryDb {
    pub activated: Vec<String>,
    pub challenges: Vec<Challenge>,
    /// All messages of all devices, oldest first.
    pub history: Vec<HistoryRecord>,
}

/// The (role, content) pairs stored for device `d`, oldest first.
pub open spec fn records_of(recs: Seq<HistoryRecord>, d: Seq<char>) -> Seq<(Seq<char>, Seq<char>)>
    decreases recs.len(),
{
    if recs.len() == 0 {
        Seq::empty()
    } else {
        let rest = records_of(recs.drop_last(), d);
        if recs.last().device_id@ == d {
            rest.push((recs.last().role@, recs.last().content@))
        } else {
            rest
        }
    }
}

/// The last `n` entries of `s` (all of them when there are fewer).
pub open spec fn last_n<T>(s: Seq<T>, n: int) -> Seq<T> {
    if s.len() > n {
        s.subrange(s.len() - n, s.len() as int)
    } else {
        s
    }
}

/// The (role, content) pairs of messages.
pub open spec fn pairs(ms: Seq<Message>) -> Seq<(Seq<char>, Seq<char>)> {
    ms.map_values(|m: Message| (m.role@, m.content@))
}

impl InMemoryDb {
    /// Whether `device_id` is among the activated devices.
    pub open spec fn spec_activated(&self, device_id: Seq<char>) -> bool {
        exists|k: int| 0 <= k < self.activated@.len() && (#[trigger] self.activated@[k])@ == device_id
    }

    /// Whether a challenge is stored for `device_id`.
    pub open spec fn has_challenge(&self, device_id: Seq<char>) -> bool {
        exists|k: int| 0 <= k < self.challenges@.len() && (#[trigger] self.challenges@[k]).device_id@ == device_id
    }

    /// Each device has at most one challenge.
    pub open spec fn wf(&self) -> bool {
        forall|a: int, b: int| 0 <= a < b < self.challenges@.len()
            ==> (#[trigger] self.challenges@[a]).device_id@ != (#[trigger] self.challenges@[b]).device_id@
    }

    /// The challenge of `device_id` that is still valid at `now`.
    pub open spec fn valid_challenge(&self, device_id: Seq<char>, now: u64) -> Option<Seq<char>> {
        if exists|k: int| 0 <= k < self.challenges@.len() && (#[trigger] self.challenges@[k]).device_id@ == device_id
            && now < self.challenges@[k].expires_at_ms {
            let k = choose|k: int| 0 <= k < self.challenges@.len() && (#[trigger] self.challenges@[k]).device_id@ == device_id
                && now < self.challenges@[k].expires_at_ms;
            Some(self.challenges@[k].challenge@)
        } else {
            None
        }
    }

    pub fn new() -> (r: InMemoryDb)
        ensures
            r.wf(),
            r.activated@.len() == 0,
            r.challenges@.len() == 0,
            r.history@.len() == 0,
    {
        InMemoryDb { activated: Vec::new(), challenges: Vec::new(), history: Vec::new() }
    }

    fn find_challenge(&self, device_id: &str) -> (r: Option<usize>)
        ensures
            r matches Some(k) ==> k < self.challenges@.len() && self.challenges@[k as int].device_id@ == device_id@,
            r is None ==> !self.has_challenge(device_id@),
    {
        let mut k: usize = 0;
        while k < self.challenges.len()
            invariant
                k <= self.challenges@.len(),
                forall|j: int| 0 <= j < k ==> (#[trigger] self.challenges@[j]).device_id@ != device_id@,
            decreases self.challenges.len() - k,
        {
            if crate::json::str_eq(self.challenges[k].device_id.as_str(), device_id) {
                return Some(k);
            }
            k = k + 1;
        }
        None
    }

    pub fn is_activated(&self, device_id: &str) -> (r: bool)
        ensures
            r == self.spec_activated(device_id@),
    {
        let mut k: usize = 0;
        while k < self.activated.len()
            invariant
                k <= self.activated@.len(),
                forall|j: int| 0 <= j < k ==> (#[trigger] self.activated@[j])@ != device_id@,
            decreases self.activated.len() - k,
        {
            if crate::json::str_eq(self.activated[k].as_str(), device_id) {
                return true;
            }
            k = k + 1;
        }
        false
    }

    /// Marks a device activated and drops its pending challenges.
    pub fn activate_device(&mut self, device_id: &str)
        ensures
            old(self).wf() ==> final(self).wf(),
            final(self).spec_activated(device_id@),
            forall|d: Seq<char>| old(self).spec_activated(d) ==> final(self).spec_activated(d),
            !final(self).has_challenge(device_id@),
            forall|d: Seq<char>| d != device_id@ ==> final(self).spec_activated(d) == old(self).spec_activated(d),
            forall|c: Challenge| c.device_id@ != device_id@ ==> (final(self).challenges@.contains(c)
                <==> old(self).challenges@.contains(c)),
            forall|c: Challenge| final(self).challenges@.contains(c) ==> old(self).challenges@.contains(c),
            final(self).history == old(self).history,
    {
        if !self.is_activated(device_id) {
            let ghost before = self.activated@;
            self.activated.push(device_id.to_owned());
            assert(self.activated@[before.len() as int]@ == device_id@);
            assert forall|d: Seq<char>| old(self).spec_activated(d) implies self.spec_activated(d) by {
                let k = choose|k: int| 0 <= k < before.len() && (#[trigger] before[k])@ == d;
                assert(self.activated@[k] == before[k]);
            }
            assert forall|d: Seq<char>| d != device_id@ && self.spec_activated(d) implies old(self).spec_activated(d) by {
                let k = choose|k: int| 0 <= k < self.activated@.len() && (#[trigger] self.activated@[k])@ == d;
                assert(k < before.len());
                assert(self.activated@[k] == before[k]);
            }
        }
        let ghost activated = self.activated;
        loop
            invariant
                self.activated == activated,
                self.spec_activated(device_id@),
                forall|d: Seq<char>| old(self).spec_activated(d) ==> self.spec_activated(d),
                forall|d: Seq<char>| d != device_id@ ==> self.spec_activated(d) == old(self).spec_activated(d),
                forall|c: Challenge| c.device_id@ != device_id@ ==> (self.challenges@.contains(c)
                    <==> old(self).challenges@.contains(c)),
                forall|c: Challenge| self.challenges@.contains(c) ==> old(self).challenges@.contains(c),
                self.history == old(self).history,
                old(self).wf() ==> self.wf(),
            ensures
                !self.has_challenge(device_id@),
            decreases self.challenges@.len(),
        {
            match self.find_challenge(device_id) {
                Some(k) => {
                    let ghost before = self.challenges@;
                    self.challenges.remove(k);
                    assert forall|c: Challenge| self.challenges@.contains(c) implies before.contains(c) by {
                        let j = choose|j: int| 0 <= j < self.challenges@.len() && self.challenges@[j] == c;
                        if j < k {
                            assert(before[j] == c);
                        } else {
                            assert(before[j + 1] == c);
                        }
                    }
                    assert forall|c: Challenge| c.device_id@ != device_id@ && before.contains(c)
                        implies self.challenges@.contains(c) by {
                        let j = choose|j: int| 0 <= j < before.len() && before[j] == c;
                        assert(j != k);
                        if j < k {
                            assert(self.challenges@[j] == c);
                        } else {
                            assert(self.challenges@[j - 1] == c);
                        }
                    }
                    assert forall|a: int, b: int| 0 <= a < b < self.challenges@.len() && old(self).wf()
                        implies (#[trigger] self.challenges@[a]).device_id@ != (#[trigger] self.challenges@[b]).device_id@ by {
                        let ia = if a < k { a } else { a + 1 };
                        let ib = if b < k { b } else { b + 1 };
                        assert(self.challenges@[a] == before[ia]);
                        assert(self.challenges@[b] == before[ib]);
                    }
                },
                None => {
                    break;
                },
            }
        }
    }

    /// Stores a challenge for a device, replacing an earlier one; it stays valid for
    /// `ttl_secs` seconds from `now_ms`.
    pub fn add_challenge(&mut self, device_id: &str, challenge: &str, ttl_secs: u64, now_ms: u64)
        ensures
            old(self).wf() ==> final(self).wf(),
            exists|k: int| 0 <= k < final(self).challenges@.len() && (#[trigger] final(self).challenges@[k]).device_id@ == device_id@
                && final(self).challenges@[k].challenge@ == challenge@
                && final(self).challenges@[k].expires_at_ms as int == crate::pacing::clamp(now_ms as int + 1000 * ttl_secs as int),
            final(self).activated == old(self).activated,
            final(self).history == old(self).history,
    {
        let ttl_ms: u64 = if ttl_secs > u64::MAX / 1000 {
            u64::MAX
        } else {
            ttl_secs * 1000
        };
        let expires_at_ms = now_ms.saturating_add(ttl_ms);
        let entry = Challenge { device_id: device_id.to_owned(), challenge: challenge.to_owned(), expires_at_ms };
        match self.find_challenge(device_id) {
            Some(k) => {
                let ghost before = self.challenges@;
                self.challenges[k] = entry;
                assert(self.challenges@[k as int].device_id@ == device_id@);
                assert forall|a: int, b: int| 0 <= a < b < self.challenges@.len() && old(self).wf()
                    implies (#[trigger] self.challenges@[a]).device_id@ != (#[trigger] self.challenges@[b]).device_id@ by {
                    if a != k && b != k {
                        assert(self.challenges@[a] == before[a] && self.challenges@[b] == before[b]);
                    } else if a == k {
                        assert(self.challenges@[b] == before[b]);
                        assert(before[k as int].device_id@ == device_id@);
                    } else {
                        assert(self.challenges@[a] == before[a]);
                        assert(before[k as int].device_id@ == device_id@);
                    }
                }
            },
            None => {
                let ghost before = self.challenges@;
                self.challenges.push(entry);
                let ghost last = before.len() as int;
                assert(self.challenges@[last].device_id@ == device_id@);
                assert forall|a: int, b: int| 0 <= a < b < self.challenges@.len() && old(self).wf()
                    implies (#[trigger] self.challenges@[a]).device_id@ != (#[trigger] self.challenges@[b]).device_id@ by {
                    assert(self.challenges@[a] == before[a]);
                    if b < last {
                        assert(self.challenges@[b] == before[b]);
                    } else {
                        assert(!(before[a].device_id@ == device_id@));
                    }
                }
            },
        }
    }

    /// The challenge of a device, if one is stored and still valid at `now_ms`.
    pub fn get_challenge(&self, device_id: &str, now_ms: u64) -> (r: Option<String>)
        ensures
            r is Some <==> self.valid_challenge(device_id@, now_ms) is Some,
            r matches Some(c) ==> exists|k: int| 0 <= k < self.challenges@.len()
                && (#[trigger] self.challenges@[k]).device_id@ == device_id@
                && now_ms < self.challenges@[k].expires_at_ms && self.challenges@[k].challenge@ == c@,
            self.wf() ==> (r matches Some(c) ==> Some(c@) == self.valid_challenge(device_id@, now_ms)),
    {
        let mut k: usize = 0;
        while k < self.challenges.len()
            invariant
                k <= self.challenges@.len(),
                forall|j: int| 0 <= j < k ==> !((#[trigger] self.challenges@[j]).device_id@ == device_id@
                    && now_ms < self.challenges@[j].expires_at_ms),
            decreases self.challenges.len() - k,
        {
            let entry = &self.challenges[k];
            if now_ms < entry.expires_at_ms && crate::json::str_eq(entry.device_id.as_str(), device_id) {
                proof {
                    if self.wf() {
                        let kk = choose|j: int| 0 <= j < self.challenges@.len() && (#[trigger] self.challenges@[j]).device_id@ == device_id@
                            && now_ms < self.challenges@[j].expires_at_ms;
                        assert(kk == k as int);
                    }
                }
                return Some(entry.challenge.clone());
            }
            k = k + 1;
        }
        None
    }

    /// Appends a message to a device's history.
    pub fn add_chat_history(&mut self, device_id: &str, role: &str, content: &str)
        ensures
            final(self).history@ == old(self).history@.push(final(self).history@.last()),
            records_of(final(self).history@, device_id@) == records_of(old(self).history@, device_id@).push((role@, content@)),
            forall|d: Seq<char>| d != device_id@ ==> records_of(final(self).history@, d) == records_of(old(self).history@, d),
            final(self).activated == old(self).activated,
            final(self).challenges == old(self).challenges,
    {
        let ghost before = self.history@;
        self.history.push(HistoryRecord {
            device_id: device_id.to_owned(),
            role: role.to_owned(),
            content: content.to_owned(),
        });
        assert(self.history@.drop_last() == before);
    }

    /// The last `limit` messages of a device's history, oldest first.
    pub fn get_chat_history(&self, device_id: &str, limit: usize) -> (r: Vec<Message>)
        ensures
            pairs(r@) == last_n(records_of(self.history@, device_id@), limit as int),
            forall|k: int| 0 <= k < r@.len() ==> (#[trigger] r@[k]).tool_calls@.len() == 0 && r@[k].tool_call_id is None,
    {
        let mut all: Vec<Message> = Vec::new();
        let mut i: usize = 0;
        while i < self.history.len()
            invariant
                i <= self.history@.len(),
                pairs(all@) == records_of(self.history@.subrange(0, i as int), device_id@),
                forall|k: int| 0 <= k < all@.len() ==> (#[trigger] all@[k]).tool_calls@.len() == 0 && all@[k].tool_call_id is None,
            decreases self.history.len() - i,
        {
            let rec = &self.history[i];
            assert(self.history@.subrange(0, i + 1).drop_last() == self.history@.subrange(0, i as int));
            if crate::json::str_eq(rec.device_id.as_str(), device_id) {
                let ghost before = all@;
                all.push(Message::plain(rec.role.as_str(), rec.content.as_str()));
                assert(pairs(all@) == pairs(before).push((rec.role@, rec.content@)));
            }
            i = i + 1;
        }
        assert(self.history@.subrange(0, self.history@.len() as int) == self.history@);
        let n = all.len();
        let start: usize = if n > limit {
            n - limit
        } else {
            0
        };
        let mut all = all;
        let tail = all.split_off(start);
        assert(pairs(tail@) == pairs(all@.add(tail@)).subrange(start as int, n as int)) by {
            assert(pairs(tail@) =~= pairs(all@.add(tail@)).subrange(start as int, n as int));
        }
        tail
    }
}

impl DbTrait for InMemoryDb {
    fn is_activated(&self, device_id: &str) -> bool {
        InMemoryDb::is_activated(self, device_id)
    }

    fn activate_device(&mut self, device_id: &str) {
        InMemoryDb::activate_device(self, device_id)
    }

    fn add_challenge(&mut self, device_id: &str, challenge: &str, ttl_secs: u64, now_ms: u64) {
        InMemoryDb::add_challenge(self, device_id, challenge, ttl_secs, now_ms)
    }

    fn get_challenge(&self, device_id: &str, now_ms: u64) -> Option<String> {
        InMemoryDb::get_challenge(self, device_id, now_ms)
    }

    fn add_chat_history(&mut self, device_id: &str, role: &str, content: &str) {
        InMemoryDb::add_chat_history(self, device_id, role, content)
    }

    fn get_chat_history(&self, device_id: &str, limit: usize) -> Vec<Message> {
        InMemoryDb::get_chat_history(self, device_id, limit)
    }
}

/// History round trip: after a turn stores the user's text `u` and then the assistant's
/// text `t`, a read of at least two messages ends with `u` and then `t`.
pub proof fn history_round_trip(h: Seq<(Seq<char>, Seq<char>)>, u: Seq<char>, t: Seq<char>, n: int)
    requires
        n >= 2,
    ensures
        ({
            let read = last_n(h.push(("user"@, u)).push(("assistant"@, t)), n);
            &&& read.len() >= 2
            &&& read[read.len() - 2] == ("user"@, u)
            &&& read[read.len() - 1] == ("assistant"@, t)
        }),
{
}

} // verus!
