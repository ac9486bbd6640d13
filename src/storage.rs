use std::sync::Arc;

use vstd::prelude::*;
use vstd::rwlock::{RwLock, RwLockPredicate};

use crate::models::{
    fresh_id, next_watering_in, now_micros, refusal, rejection_text, reports_state_at, reports_welcome, watered,
    watered_message, Cactus, CactusResponse, Flower, GrowthStage, UserStats,
};

verus! {

/// Every cactus of the store, at most one per user.
pub struct CactusStore {
    entries: Vec<Cactus>,
}

impl View for CactusStore {
    type V = Seq<Cactus>;

    closed spec fn view(&self) -> Seq<Cactus> {
        self.entries@
    }
}

/// The name a user's cactus gets when it is created.
pub open spec fn default_name() -> Seq<char> {
    "My Cactus"@
}

/// Whether some cactus of `s` belongs to `user_id`.
pub open spec fn holds_user(s: Seq<Cactus>, user_id: Seq<char>) -> bool {
    exists|i: int| 0 <= i < s.len() && (#[trigger] s[i]).user_id@ == user_id
}

/// Whether `c` holds the state of the cactus of `s` that belongs to `user_id`.
pub open spec fn is_entry_of(s: Seq<Cactus>, user_id: Seq<char>, c: Cactus) -> bool {
    exists|i: int| 0 <= i < s.len() && (#[trigger] s[i]).user_id@ == user_id && c.same(&s[i])
}

/// The stats of a cactus.
pub open spec fn stats_match(c: Cactus, r: UserStats) -> bool {
    &&& r.total_waterings == c.total_waterings
    &&& r.consecutive_days == c.consecutive_days
    &&& r.total_flowers == c.flowers@.len()
    &&& r.current_flowers == c.flowers@.filter(|f: Flower| f.wilting_at.is_none()).len()
}

/// The stats of `user_id` in store `s`: those of the user's cactus, or all zeros.
pub open spec fn stats_of(s: Seq<Cactus>, user_id: Seq<char>, r: UserStats) -> bool {
    if holds_user(s, user_id) {
        exists|i: int| 0 <= i < s.len() && (#[trigger] s[i]).user_id@ == user_id && stats_match(s[i], r)
    } else {
        r == zero_stats()
    }
}

/// The report of fetch-or-create on store `s` at `now`: the stored cactus, or a
/// welcome with a new one that has identifier `new_id`.
pub open spec fn fetched(s: Seq<Cactus>, user_id: Seq<char>, now: i64, new_id: String, r: CactusResponse) -> bool {
    if holds_user(s, user_id) {
        is_entry_of(s, user_id, r.cactus) && reports_state_at(r, now)
    } else {
        reports_welcome(r, user_id) && r.cactus.id == new_id && r.cactus.created_at == now
    }
}

/// The store after fetch-or-create: unchanged for a known user, the reported cactus added otherwise.
pub open spec fn stored_after_fetch(old: Seq<Cactus>, new: Seq<Cactus>, user_id: Seq<char>, r: CactusResponse) -> bool {
    if holds_user(old, user_id) {
        new == old
    } else {
        &&& new.len() == old.len() + 1
        &&& new.subrange(0, old.len() as int) == old
        &&& new.last().same(&r.cactus)
    }
}

/// The report of a watering at `now` of cactus `p`: refused with `p` unchanged,
/// or the watered cactus with its message.
pub open spec fn water_report(p: Cactus, r: CactusResponse, now: i64, flower_id: String) -> bool {
    &&& !r.can_water
    &&& r.next_watering_in == next_watering_in(r.cactus.last_watered, now)
    &&& match refusal(p, now) {
        Some(k) => r.cactus.same(&p) && r.message@ == rejection_text(k),
        None => watered(p, r.cactus, r.message@, now, flower_id),
    }
}

/// The report on a cactus created for `user_id` at `now` and watered at once.
pub open spec fn first_watering(r: CactusResponse, user_id: Seq<char>, now: i64, new_id: String) -> bool {
    &&& r.cactus.id == new_id
    &&& r.cactus.user_id@ == user_id
    &&& r.cactus.name@ == default_name()
    &&& r.cactus.created_at == now
    &&& r.cactus.water_level == 70
    &&& r.cactus.growth_stage == GrowthStage::Mature
    &&& r.cactus.flowers@.len() == 0
    &&& r.cactus.last_watered == Some(now)
    &&& r.cactus.total_waterings == 1
    &&& r.cactus.consecutive_days == 1
    &&& r.message@ == watered_message(70, false)
    &&& !r.can_water
    &&& r.next_watering_in == next_watering_in(Some(now), now)
}

/// A watering of `user_id`'s cactus at `now` took store `old` to `new` and reported `r`:
/// a stored cactus is watered and written back, or refused and left as it was; a user
/// without one gets a new cactus, watered once and stored.
pub open spec fn watered_in_store(
    old: Seq<Cactus>,
    new: Seq<Cactus>,
    user_id: Seq<char>,
    now: i64,
    flower_id: String,
    new_id: String,
    r: CactusResponse,
) -> bool {
    if holds_user(old, user_id) {
        exists|i: int|
            0 <= i < old.len() && (#[trigger] old[i]).user_id@ == user_id && water_report(old[i], r, now, flower_id)
                && if refusal(old[i], now) is None {
                new == old.update(i, new[i]) && new[i].same(&r.cactus)
            } else {
                new == old
            }
    } else {
        &&& first_watering(r, user_id, now, new_id)
        &&& new.len() == old.len() + 1
        &&& new.subrange(0, old.len() as int) == old
        &&& new.last().same(&r.cactus)
    }
}

/// The stats of a user that has no cactus.
pub open spec fn zero_stats() -> UserStats {
    UserStats { total_waterings: 0, consecutive_days: 0, total_flowers: 0, current_flowers: 0 }
}

impl CactusStore {
    /// Users are unique and every cactus is well formed.
    pub open spec fn wf(&self) -> bool {
        &&& forall|i: int, j: int|
            0 <= i < self@.len() && 0 <= j < self@.len() && (#[trigger] self@[i]).user_id@ == (#[trigger] self@[j]).user_id@
                ==> i == j
        &&& forall|i: int| 0 <= i < self@.len() ==> (#[trigger] self@[i]).wf()
    }

    /// An empty store.
    pub fn new() -> (r: CactusStore)
        ensures
            r.wf(),
            r@.len() == 0,
    {
        CactusStore { entries: Vec::new() }
    }

    /// The position of the user's cactus.
    fn find(&self, user_id: &str) -> (r: Option<usize>)
        ensures
            r matches Some(i) ==> i < self@.len() && self@[i as int].user_id@ == user_id@,
            r is None ==> !holds_user(self@, user_id@),
    {
        let key = user_id.to_owned();
        let mut i: usize = 0;
        while i < self.entries.len()
            invariant
                i <= self@.len(),
                key@ == user_id@,
                forall|j: int| 0 <= j < i ==> (#[trigger] self@[j]).user_id@ != user_id@,
            decreases self@.len() - i,
        {
            if self.entries[i].user_id == key {
                return Some(i);
            }
            i = i + 1;
        }
        None
    }

    /// A copy of the user's cactus, if there is one.
    pub fn get(&self, user_id: &str) -> (r: Option<Cactus>)
        requires
            self.wf(),
        ensures
            r is None <==> !holds_user(self@, user_id@),
            r matches Some(c) ==> is_entry_of(self@, user_id@, c) && c.wf() && c.user_id@ == user_id@,
    {
        match self.find(user_id) {
            None => None,
            Some(i) => {
                let c = self.entries[i].snapshot();
                assert(is_entry_of(self@, user_id@, c) && self@[i as int].wf());
                Some(c)
            },
        }
    }

    /// Stores the cactus under its user, in place of the user's earlier one.
    pub fn insert(&mut self, cactus: Cactus)
        requires
            old(self).wf(),
            cactus.wf(),
        ensures
            final(self).wf(),
            final(self)@.contains(cactus),
            forall|i: int|
                0 <= i < old(self)@.len() && (#[trigger] old(self)@[i]).user_id@ != cactus.user_id@
                    ==> final(self)@.contains(old(self)@[i]),
            forall|i: int|
                0 <= i < final(self)@.len() ==> (#[trigger] final(self)@[i]) == cactus
                    || (old(self)@.contains(final(self)@[i]) && final(self)@[i].user_id@ != cactus.user_id@),
    {
        let ghost key = cactus.user_id@;
        match self.find(cactus.user_id.as_str()) {
            Some(i) => {
                self.entries.set(i, cactus);
                assert(self@[i as int] == cactus);
                assert forall|j: int|
                    0 <= j < old(self)@.len() && (#[trigger] old(self)@[j]).user_id@ != key
                        implies self@.contains(old(self)@[j]) by {
                    assert(j != i);
                    assert(self@[j] == old(self)@[j]);
                }
                assert forall|j: int| 0 <= j < self@.len() implies (#[trigger] self@[j]) == cactus
                    || (old(self)@.contains(self@[j]) && self@[j].user_id@ != key) by {
                    if j != i {
                        assert(self@[j] == old(self)@[j]);
                        assert(old(self)@[j].user_id@ != old(self)@[i as int].user_id@);
                    }
                }
            },
            None => {
                self.entries.push(cactus);
                let ghost n = old(self)@.len() as int;
                assert(self@[n] == cactus);
                assert forall|j: int|
                    0 <= j < old(self)@.len() && (#[trigger] old(self)@[j]).user_id@ != key
                        implies self@.contains(old(self)@[j]) by {
                    assert(self@[j] == old(self)@[j]);
                }
                assert forall|j: int| 0 <= j < self@.len() implies (#[trigger] self@[j]) == cactus
                    || (old(self)@.contains(self@[j]) && self@[j].user_id@ != key) by {
                    if j != n {
                        assert(self@[j] == old(self)@[j]);
                    }
                }
            },
        }
    }

    /// The user's stats; all zeros for a user without a cactus.
    pub fn stats_for(&self, user_id: &str) -> (r: UserStats)
        requires
            self.wf(),
        ensures
            stats_of(self@, user_id@, r),
    {
        match self.find(user_id) {
            None => UserStats { total_waterings: 0, consecutive_days: 0, total_flowers: 0, current_flowers: 0 },
            Some(i) => {
                assert(self@[i as int].wf());
                self.entries[i].get_user_stats()
            },
        }
    }

    /// Fetch-or-create at `now`: the report on the user's stored cactus, the store
    /// unchanged; or, for a user without one, a welcome with a new cactus with
    /// identifier `new_id`, which is stored.
    pub fn fetch_or_insert(&mut self, user_id: String, now: i64, new_id: String) -> (r: CactusResponse)
        requires
            old(self).wf(),
        ensures
            final(self).wf(),
            fetched(old(self)@, user_id@, now, new_id, r),
            stored_after_fetch(old(self)@, final(self)@, user_id@, r),
    {
        let ghost key = user_id@;
        match self.find(user_id.as_str()) {
            Some(i) => {
                let c = self.entries[i].snapshot();
                let r = CactusResponse::for_state(c, now);
                assert(is_entry_of(self@, key, r.cactus));
                r
            },
            None => {
                let c = Cactus::new_at(user_id, "My Cactus".to_owned(), new_id, now);
                let copy = c.snapshot();
                self.entries.push(c);
                proof { self.lemma_push_fresh(*old(self), key); }
                assert(self@.subrange(0, old(self)@.len() as int) =~= old(self)@);
                CactusResponse::welcome(copy)
            },
        }
    }

    /// Pushing a cactus of a user that had none keeps the store well formed.
    proof fn lemma_push_fresh(&self, before: CactusStore, key: Seq<char>)
        requires
            before.wf(),
            !holds_user(before@, key),
            self@.len() == before@.len() + 1,
            forall|j: int| 0 <= j < before@.len() ==> self@[j] == before@[j],
            self@.last().user_id@ == key,
            self@.last().wf(),
        ensures
            self.wf(),
    {
        let n = before@.len() as int;
        assert forall|i: int, j: int|
            0 <= i < self@.len() && 0 <= j < self@.len() && (#[trigger] self@[i]).user_id@ == (#[trigger] self@[j]).user_id@
                implies i == j by {
            if i < n && j < n {
                assert(before@[i].user_id@ == before@[j].user_id@);
            } else if i < n {
                assert(before@[i].user_id@ == key);
            } else if j < n {
                assert(before@[j].user_id@ == key);
            }
        }
        assert forall|i: int| 0 <= i < self@.len() implies (#[trigger] self@[i]).wf() by {
            if i < n {
                assert(before@[i].wf());
            }
        }
    }

    /// Waters the user's cactus at `now` and writes it back; a user without one
    /// gets a new cactus with identifier `new_id`, watered at once and stored.
    /// A flower that blooms gets `flower_id`.
    pub fn water_user(&mut self, user_id: String, now: i64, flower_id: String, new_id: String) -> (r: CactusResponse)
        requires
            old(self).wf(),
        ensures
            final(self).wf(),
            watered_in_store(old(self)@, final(self)@, user_id@, now, flower_id, new_id, r),
    {
        let ghost key = user_id@;
        let ghost fid = flower_id;
        match self.find(user_id.as_str()) {
            Some(i) => {
                let ghost p = self@[i as int];
                assert(p.wf());
                let mut c = self.entries[i].snapshot();
                let outcome = c.water_at(now, flower_id);
                match outcome {
                    Ok(_) => {
                        let copy = c.snapshot();
                        self.entries.set(i, c);
                        proof {
                            assert(self@ == old(self)@.update(i as int, self@[i as int]));
                            assert forall|a: int, b: int|
                                0 <= a < self@.len() && 0 <= b < self@.len()
                                    && (#[trigger] self@[a]).user_id@ == (#[trigger] self@[b]).user_id@
                                    implies a == b by {
                                if a != i && b != i {
                                    assert(old(self)@[a].user_id@ == old(self)@[b].user_id@);
                                } else if a != i {
                                    assert(old(self)@[a].user_id@ == old(self)@[i as int].user_id@);
                                } else if b != i {
                                    assert(old(self)@[b].user_id@ == old(self)@[i as int].user_id@);
                                }
                            }
                            assert forall|a: int| 0 <= a < self@.len() implies (#[trigger] self@[a]).wf() by {
                                if a != i {
                                    assert(old(self)@[a].wf());
                                }
                            }
                        }
                        let r = CactusResponse::after_watering(copy, outcome, now);
                        assert(water_report(p, r, now, fid));
                        r
                    },
                    Err(_) => {
                        let r = CactusResponse::after_watering(c, outcome, now);
                        assert(water_report(p, r, now, fid));
                        r
                    },
                }
            },
            None => {
                let mut c = Cactus::new_at(user_id, "My Cactus".to_owned(), new_id, now);
                let outcome = c.water_at(now, flower_id);
                let copy = c.snapshot();
                self.entries.push(c);
                proof { self.lemma_push_fresh(*old(self), key); }
                assert(self@.subrange(0, old(self)@.len() as int) =~= old(self)@);
                let r = CactusResponse::after_watering(copy, outcome, now);
                proof { reveal_strlit("My Cactus"); }
                assert(first_watering(r, key, now, new_id));
                r
            },
        }
    }
}

/// Reading a user twice, with no write in between, gives the same cactus: the
/// second fetch-or-create reports what the first one did, and changes nothing.
pub proof fn lemma_fetch_is_stable(
    s1: CactusStore,
    s2: CactusStore,
    s3: CactusStore,
    user_id: Seq<char>,
    now1: i64,
    now2: i64,
    id1: String,
    id2: String,
    r1: CactusResponse,
    r2: CactusResponse,
)
    requires
        s1.wf(),
        s2.wf(),
        fetched(s1@, user_id, now1, id1, r1),
        stored_after_fetch(s1@, s2@, user_id, r1),
        fetched(s2@, user_id, now2, id2, r2),
        stored_after_fetch(s2@, s3@, user_id, r2),
    ensures
        r2.cactus.same(&r1.cactus),
        s3@ == s2@,
{
    let n = s1@.len() as int;
    if holds_user(s1@, user_id) {
        let i = choose|i: int| 0 <= i < s1@.len() && (#[trigger] s1@[i]).user_id@ == user_id && r1.cactus.same(&s1@[i]);
        let j = choose|j: int| 0 <= j < s2@.len() && (#[trigger] s2@[j]).user_id@ == user_id && r2.cactus.same(&s2@[j]);
        assert(i == j);
    } else {
        assert(s2@[n] == s2@.last());
        assert(holds_user(s2@, user_id));
        let j = choose|j: int| 0 <= j < s2@.len() && (#[trigger] s2@[j]).user_id@ == user_id && r2.cactus.same(&s2@[j]);
        assert(j == n);
    }
}

/// The lock's invariant: the store it guards is well formed.
pub struct StoreInv {}

impl RwLockPredicate<CactusStore> for StoreInv {
    open spec fn inv(self, v: CactusStore) -> bool {
        v.wf()
    }
}

/// The store shared by all request handlers: readers share the lock, a writer holds it alone.
pub struct CactusStorage {
    store: Arc<RwLock<CactusStore, StoreInv>>,
}

impl CactusStorage {
    /// The lock guards a well-formed store.
    pub closed spec fn wf(&self) -> bool {
        self.store.pred() == StoreInv {}
    }

    /// An empty shared store.
    pub fn new() -> (r: CactusStorage)
        ensures
            r.wf(),
    {
        let lock = RwLock::new(CactusStore::new(), Ghost(StoreInv {}));
        CactusStorage { store: Arc::new(lock) }
    }

    /// A copy of the user's cactus, read under the shared lock.
    pub fn get_cactus(&self, user_id: &str) -> (r: Option<Cactus>)
        requires
            self.wf(),
        ensures
            r matches Some(c) ==> c.user_id@ == user_id@ && c.wf(),
            r matches Some(c) ==> exists|s: Seq<Cactus>| #[trigger] is_entry_of(s, user_id@, c),
    {
        let handle = self.store.acquire_read();
        let r = handle.borrow().get(user_id);
        handle.release_read();
        r
    }

    /// Stores the cactus under its user, under the exclusive lock.
    pub fn save_cactus(&self, cactus: Cactus)
        requires
            self.wf(),
            cactus.wf(),
    {
        let (mut store, handle) = self.store.acquire_write();
        store.insert(cactus);
        handle.release_write(store);
    }

    /// Creates a cactus for the user, stores it and returns a copy.
    pub fn create_cactus(&self, user_id: String, name: String) -> (r: Cactus)
        requires
            self.wf(),
        ensures
            r.is_fresh(user_id@, name@),
            r.wf(),
    {
        let cactus = Cactus::new(user_id, name);
        let r = cactus.snapshot();
        self.save_cactus(cactus);
        r
    }

    /// Stores an updated cactus and returns it.
    pub fn update_cactus(&self, cactus: Cactus) -> (r: Cactus)
        requires
            self.wf(),
            cactus.wf(),
        ensures
            r.same(&cactus),
    {
        let r = cactus.snapshot();
        self.save_cactus(cactus);
        r
    }

    /// The user's cactus and whether it may be watered now; a user seen for the
    /// first time gets a new cactus, stored. Whatever the store held and the clock
    /// read, the report is `fetched` from them.
    pub fn fetch_or_create(&self, user_id: String) -> (r: CactusResponse)
        requires
            self.wf(),
        ensures
            r.cactus.user_id@ == user_id@,
            r.cactus.wf(),
            exists|s: Seq<Cactus>, now: i64, new_id: String| #[trigger] fetched(s, user_id@, now, new_id, r),
    {
        let ghost key = user_id@;
        let handle = self.store.acquire_read();
        let ghost seen = handle.view()@;
        let found = handle.borrow().get(user_id.as_str());
        handle.release_read();
        match found {
            Some(cactus) => {
                let now = now_micros();
                let r = CactusResponse::for_state(cactus, now);
                assert(fetched(seen, key, now, r.cactus.id, r));
                r
            },
            None => {
                let now = now_micros();
                let new_id = fresh_id();
                let (mut store, write) = self.store.acquire_write();
                let ghost before = store@;
                let r = store.fetch_or_insert(user_id, now, new_id);
                write.release_write(store);
                proof {
                    if holds_user(before, key) {
                        let i = choose|i: int| 0 <= i < before.len() && (#[trigger] before[i]).user_id@ == key && r.cactus.same(&before[i]);
                        assert(before[i].wf());
                    }
                }
                assert(fetched(before, key, now, new_id, r));
                r
            },
        }
    }

    /// Waters the user's cactus now under the exclusive lock, and stores the
    /// result; a user seen for the first time gets a new cactus, watered at once.
    /// Whatever the store held and the clock read, the report and the store's
    /// change are `watered_in_store`.
    pub fn water_cactus(&self, user_id: String) -> (r: CactusResponse)
        requires
            self.wf(),
        ensures
            r.cactus.user_id@ == user_id@,
            exists|old: Seq<Cactus>, new: Seq<Cactus>, now: i64, flower_id: String, new_id: String|
                #[trigger] watered_in_store(old, new, user_id@, now, flower_id, new_id, r),
    {
        let ghost key = user_id@;
        let now = now_micros();
        let flower_id = fresh_id();
        let new_id = fresh_id();
        let ghost fid = flower_id;
        let ghost nid = new_id;
        let (mut store, write) = self.store.acquire_write();
        let ghost before = store@;
        let r = store.water_user(user_id, now, flower_id, new_id);
        let ghost after = store@;
        write.release_write(store);
        proof {
            if holds_user(before, key) {
                let i = choose|i: int|
                    0 <= i < before.len() && (#[trigger] before[i]).user_id@ == key && water_report(before[i], r, now, fid)
                        && if refusal(before[i], now) is None {
                        after == before.update(i, after[i]) && after[i].same(&r.cactus)
                    } else {
                        after == before
                    };
            }
        }
        assert(watered_in_store(before, after, key, now, fid, nid, r));
        r
    }

    /// The user's stats, read under the shared lock; all zeros, and nothing
    /// created, for a user without a cactus.
    pub fn user_stats(&self, user_id: &str) -> (r: UserStats)
        requires
            self.wf(),
        ensures
            exists|s: Seq<Cactus>| #[trigger] stats_of(s, user_id@, r),
    {
        let handle = self.store.acquire_read();
        let ghost seen = handle.view()@;
        let r = handle.borrow().stats_for(user_id);
        handle.release_read();
        assert(stats_of(seen, user_id@, r));
        r
    }
}

} // verus!
