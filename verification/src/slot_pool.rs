//! The pool of descriptor slots and the clock sweep over it.
//!
//! A slot holds at most one descriptor.  Its tag counts the occupants it has
//! had, so that a handle which remembers `(index, tag)` can tell whether the
//! descriptor it once stored is still the one in the slot.  The lock of a
//! slot is kept here as plain state: shared while the descriptor is in use,
//! exclusive while it is being replaced.

use vstd::arithmetic::div_mod::lemma_fundamental_div_mod_converse;
use vstd::prelude::*;

verus! {

/// A cached reference to a slot: where the descriptor was put, and the
/// slot's tag at that time.
#[derive(Clone, Copy, Debug, PartialEq, Eq, Structural)]
pub struct SlotHandle {
    /// Index of the slot in the pool.
    pub index: usize,
    /// Tag of the slot when the descriptor was stored.
    pub tag: u64,
}

/// Who holds the lock of a slot.
#[derive(Clone, Copy, Debug, PartialEq, Eq, Structural)]
pub enum LockState {
    /// Nobody.
    Free,
    /// This many users of the descriptor, at least one.
    Shared(usize),
    /// One task that is replacing the descriptor.
    Exclusive,
}

impl LockState {
    /// One more user can share the lock.
    pub open spec fn can_share(self) -> bool {
        match self {
            LockState::Free => true,
            LockState::Shared(n) => n < usize::MAX,
            LockState::Exclusive => false,
        }
    }

    /// The lock with one more user sharing it.
    pub open spec fn joined(self) -> LockState {
        match self {
            LockState::Shared(n) => LockState::Shared((n + 1) as usize),
            _ => LockState::Shared(1),
        }
    }

    /// The lock after one of the users that share it has left.
    pub open spec fn left(self) -> LockState {
        match self {
            LockState::Shared(n) if n > 1 => LockState::Shared((n - 1) as usize),
            _ => LockState::Free,
        }
    }
}

/// One slot of the pool, with room for one descriptor of type `F`.
#[derive(Debug)]
pub struct Slot<F> {
    /// Counts the occupants that the slot has had.
    pub tag: u64,
    /// The descriptor, while one is open here.
    pub file: Option<F>,
    /// Set on each use, cleared by the clock sweep.
    pub recently_used: bool,
    /// The state of the slot's lock.
    pub lock: LockState,
}

impl<F> Slot<F> {
    /// A lock that is shared has at least one user.
    pub open spec fn wf(self) -> bool {
        self.lock matches LockState::Shared(n) ==> n > 0
    }

    /// The slot as a pool starts with it: never occupied, empty, unused
    /// and unlocked.
    pub open spec fn fresh() -> Self {
        Slot { tag: 0, file: None, recently_used: false, lock: LockState::Free }
    }

    /// The slot after the sweep has passed over it, if `swept`.
    pub open spec fn passed(self, swept: bool) -> Self {
        Slot { recently_used: self.recently_used && !swept, ..self }
    }

    /// The slot right after it was taken for a new occupant.
    pub open spec fn recycled(self) -> Self {
        Slot {
            tag: (self.tag + 1) as u64,
            file: None,
            recently_used: true,
            lock: LockState::Exclusive,
        }
    }

    /// `self` is a later state of the slot `before`.
    ///
    /// The tag never goes down.  While it stays and nobody is replacing the
    /// descriptor, nobody starts to, and the descriptor either stays or is
    /// closed: another one can only come with a new tag.
    pub open spec fn follows(self, before: Self) -> bool {
        &&& before.tag <= self.tag
        &&& (before.tag == self.tag && !(before.lock is Exclusive)) ==> {
            &&& !(self.lock is Exclusive)
            &&& (self.file == before.file || self.file is None)
        }
    }
}

/// What the clock sweep found.
#[derive(Debug)]
pub enum Victim<F> {
    /// A slot was locked without waiting and made ready for a new
    /// descriptor.  `evicted` is the descriptor that it held, for the caller
    /// to close.
    Claimed { handle: SlotHandle, evicted: Option<F> },
    /// Every slot is locked.  The caller waits for the lock of slot `index`
    /// and then takes the slot with [`OpenFiles::claim`].
    Contended { index: usize },
}

/// What a lookup of a cached handle found.
#[derive(Clone, Copy, Debug, PartialEq, Eq, Structural)]
pub enum Lookup {
    /// The slot still holds the handle's descriptor.  It is now locked
    /// shared for the caller and marked as recently used.
    Hit,
    /// The slot was recycled or its descriptor closed: a cache miss.
    Stale,
    /// The lock cannot be shared right now: the caller waits and looks again.
    Busy,
}

/// What became of the descriptor of a handle that is going away.
#[derive(Debug)]
pub enum Closing<F> {
    /// The slot was unlocked.  `file` is the handle's descriptor if the slot
    /// still held it, for the caller to close.
    Closed { file: Option<F> },
    /// The slot is locked: the caller waits for the lock and asks again.
    Deferred,
}

/// The pool: a fixed number of slots and the arm of the clock.
#[derive(Debug)]
pub struct OpenFiles<F> {
    slots: Vec<Slot<F>>,
    next: usize,
}

/// A pool as contracts see it.
#[verifier::ext_equal]
pub struct PoolView<F> {
    /// The slots, in order.
    pub slots: Seq<Slot<F>>,
    /// Index of the slot that the sweep visits next.
    pub cursor: int,
}

impl<F> View for OpenFiles<F> {
    type V = PoolView<F>;

    closed spec fn view(&self) -> PoolView<F> {
        PoolView { slots: self.slots@, cursor: self.next as int }
    }
}

/// The remainder of a number between minus the modulus and four times the
/// modulus.
proof fn lemma_mod_near(x: int, n: int)
    requires
        n > 0,
        -n <= x < 4 * n,
    ensures
        x % n == if x < 0 {
            x + n
        } else if x < n {
            x
        } else if x < 2 * n {
            x - n
        } else if x < 3 * n {
            x - 2 * n
        } else {
            x - 3 * n
        },
{
    if x < 0 {
        lemma_fundamental_div_mod_converse(x, n, -1, x + n);
    } else if x < n {
        lemma_fundamental_div_mod_converse(x, n, 0, x);
    } else if x < 2 * n {
        lemma_fundamental_div_mod_converse(x, n, 1, x - n);
    } else if x < 3 * n {
        lemma_fundamental_div_mod_converse(x, n, 2, x - 2 * n);
    } else {
        lemma_fundamental_div_mod_converse(x, n, 3, x - 3 * n);
    }
}

impl<F> PoolView<F> {
    /// The pool of `num_slots` slots that nobody has used yet.
    pub open spec fn fresh(num_slots: nat) -> Self {
        PoolView { slots: Seq::new(num_slots, |i: int| Slot::fresh()), cursor: 0 }
    }

    /// Every slot is well formed and the clock arm points into the pool.
    pub open spec fn wf(self) -> bool {
        &&& forall|i: int| 0 <= i < self.slots.len() ==> (#[trigger] self.slots[i]).wf()
        &&& 0 <= self.cursor
        &&& self.slots.len() > 0 ==> self.cursor < self.slots.len()
        &&& self.slots.len() == 0 ==> self.cursor == 0
    }

    /// The handle's descriptor is still in its slot: the index is in range,
    /// the tag is the slot's and a descriptor is there.
    pub open spec fn is_valid(self, handle: SlotHandle) -> bool {
        &&& handle.index < self.slots.len()
        &&& self.slots[handle.index as int].tag == handle.tag
        &&& self.slots[handle.index as int].file is Some
    }

    /// The slot of `handle` was taken for it and waits for its descriptor.
    pub open spec fn is_claimed(self, handle: SlotHandle) -> bool {
        &&& handle.index < self.slots.len()
        &&& self.slots[handle.index as int].tag == handle.tag
        &&& self.slots[handle.index as int].file is None
        &&& self.slots[handle.index as int].lock is Exclusive
    }

    /// No tag has reached the largest number.
    pub open spec fn has_tag_headroom(self) -> bool {
        forall|i: int| 0 <= i < self.slots.len() ==> (#[trigger] self.slots[i]).tag < u64::MAX
    }

    /// No slot is unlocked.
    pub open spec fn all_locked(self) -> bool {
        forall|i: int| 0 <= i < self.slots.len() ==> !((#[trigger] self.slots[i]).lock is Free)
    }

    /// `self` is a later state of the pool `before`: the same number of
    /// slots, each a later state of itself.
    pub open spec fn follows(self, before: Self) -> bool {
        &&& self.slots.len() == before.slots.len()
        &&& forall|i: int|
            0 <= i < self.slots.len() ==> (#[trigger] self.slots[i]).follows(before.slots[i])
    }

    /// The same pool but for slot `index`, which is now `slot`.
    pub open spec fn differs_at(self, before: Self, index: int, slot: Slot<F>) -> bool {
        &&& 0 <= index < before.slots.len()
        &&& self =~= PoolView { slots: before.slots.update(index, slot), ..before }
    }

    /// The slot that the sweep visits at its step `k`, counted from zero.
    pub open spec fn visited(self, k: int) -> int {
        (self.cursor + k) % (self.slots.len() as int)
    }

    /// The step at which the sweep first visits slot `i`.
    pub open spec fn distance(self, i: int) -> int {
        (i - self.cursor) % (self.slots.len() as int)
    }

    /// The attempt at step `k` succeeds: the slot visited then is unlocked
    /// and was not used since the sweep last cleared its flag, which it did
    /// one round earlier if `k` is in the second round.
    pub open spec fn takes_at(self, k: int) -> bool {
        let slot = self.slots[self.visited(k)];
        &&& slot.lock is Free
        &&& (k >= self.slots.len() || !slot.recently_used)
    }

    /// The first step from `k` on at which the attempt succeeds, or twice the
    /// number of slots if none does before.
    pub open spec fn first_take_from(self, k: int) -> int
        decreases 2 * self.slots.len() - k,
    {
        if k < 0 || k >= 2 * self.slots.len() || self.takes_at(k) {
            k
        } else {
            self.first_take_from(k + 1)
        }
    }

    /// The number of attempts that fail before the sweep takes a slot or
    /// gives up: at most twice the number of slots.
    pub open spec fn failed_attempts(self) -> int {
        self.first_take_from(0)
    }

    /// The pool after a sweep of `steps` failed attempts: the clock arm has
    /// moved by one more than that, and the slots passed have lost their
    /// flag.  Slot `taken`, if in range, is left out of the comparison.
    pub open spec fn swept_from(self, before: Self, steps: int, taken: int) -> bool {
        &&& self.slots.len() == before.slots.len()
        &&& self.cursor == (before.cursor + steps + 1) % (before.slots.len() as int)
        &&& forall|i: int|
            0 <= i < self.slots.len() && i != taken ==> #[trigger] self.slots[i]
                == before.slots[i].passed(before.distance(i) < steps)
    }

    /// What `clean_slot` does to the pool `before` for `handle`, and returns.
    pub open spec fn slot_cleaned(self, before: Self, handle: SlotHandle, closing: Closing<F>) -> bool {
        let index = handle.index as int;
        let in_range = handle.index < before.slots.len();
        match closing {
            Closing::Deferred => {
                &&& in_range && !(before.slots[index].lock is Free)
                &&& self =~= before
            },
            Closing::Closed { file } => {
                &&& in_range ==> before.slots[index].lock is Free
                &&& if in_range && before.slots[index].tag == handle.tag {
                    &&& file == before.slots[index].file
                    &&& self.differs_at(
                        before,
                        index,
                        (Slot { file: None, recently_used: false, ..before.slots[index] }),
                    )
                } else {
                    &&& file is None
                    &&& self =~= before
                }
            },
        }
    }

    /// What `find_victim_slot` does to the pool `before` and returns.
    pub open spec fn victim_found(self, before: Self, victim: Victim<F>) -> bool {
        let steps = before.failed_attempts();
        match victim {
            Victim::Claimed { handle, evicted } => {
                &&& steps < 2 * before.slots.len()
                &&& handle.index == before.visited(steps)
                &&& handle.tag == before.slots[handle.index as int].tag + 1
                &&& evicted == before.slots[handle.index as int].file
                &&& self.slots[handle.index as int]
                    == before.slots[handle.index as int].recycled()
                &&& self.swept_from(before, steps, handle.index as int)
            },
            Victim::Contended { index } => {
                &&& steps == 2 * before.slots.len()
                &&& index == before.visited(steps)
                &&& self.swept_from(before, steps, -1)
            },
        }
    }

    /// The slot visited at a step of the sweep, without a remainder.
    proof fn lemma_visited(self, k: int)
        requires
            self.wf(),
            self.slots.len() > 0,
            0 <= k <= 2 * self.slots.len() + 1,
        ensures
            0 <= self.visited(k) < self.slots.len(),
            self.visited(k) == if self.cursor + k < self.slots.len() {
                self.cursor + k
            } else if self.cursor + k < 2 * self.slots.len() {
                self.cursor + k - self.slots.len()
            } else if self.cursor + k < 3 * self.slots.len() {
                self.cursor + k - 2 * self.slots.len()
            } else {
                0
            },
    {
        lemma_mod_near(self.cursor + k, self.slots.len() as int);
    }

    /// The distance of a slot from the clock arm, without a remainder.
    proof fn lemma_distance(self, i: int)
        requires
            self.wf(),
            0 <= i < self.slots.len(),
        ensures
            0 <= self.distance(i) < self.slots.len(),
            self.distance(i) == if i >= self.cursor {
                i - self.cursor
            } else {
                i - self.cursor + self.slots.len()
            },
    {
        lemma_mod_near(i - self.cursor, self.slots.len() as int);
    }

    /// No attempt before the first successful one succeeds.
    proof fn lemma_first_take(self, k: int, j: int)
        requires
            0 <= k <= j < self.first_take_from(k),
        ensures
            !self.takes_at(j),
            self.first_take_from(j) == self.first_take_from(k),
        decreases j - k,
    {
        if k < j {
            self.lemma_first_take(k + 1, j);
        }
    }

    /// The first successful attempt is at most twice the number of slots
    /// away, and it does succeed if it is nearer.
    proof fn lemma_first_take_bound(self, k: int)
        requires
            0 <= k <= 2 * self.slots.len(),
        ensures
            k <= self.first_take_from(k) <= 2 * self.slots.len(),
            self.first_take_from(k) < 2 * self.slots.len() ==> self.takes_at(
                self.first_take_from(k),
            ),
        decreases 2 * self.slots.len() - k,
    {
        if !(k >= 2 * self.slots.len() || self.takes_at(k)) {
            self.lemma_first_take_bound(k + 1);
        }
    }

    /// The sweep makes at most twice as many failed attempts as there are
    /// slots, whatever the locks, and it runs out of attempts exactly when
    /// every slot is locked.
    pub proof fn lemma_sweep_bounded(self)
        requires
            self.wf(),
            self.slots.len() > 0,
        ensures
            0 <= self.failed_attempts() <= 2 * self.slots.len(),
            self.failed_attempts() == 2 * self.slots.len() <==> self.all_locked(),
    {
        let n = self.slots.len() as int;
        let steps = self.failed_attempts();
        self.lemma_first_take_bound(0);
        if steps == 2 * n {
            assert forall|i: int| 0 <= i < n implies !((#[trigger] self.slots[i]).lock is Free) by {
                self.lemma_distance(i);
                let k = n + self.distance(i);
                self.lemma_visited(k);
                self.lemma_first_take(0, k);
            }
        } else {
            self.lemma_visited(steps);
            assert(self.slots[self.visited(steps)].lock is Free);
        }
    }
}

impl<F> OpenFiles<F> {
    /// A pool of `num_slots` empty, unlocked slots.
    pub fn new(num_slots: usize) -> (pool: Self)
        ensures
            pool@ == PoolView::<F>::fresh(num_slots as nat),
            pool@.slots.len() == num_slots,
            pool@.wf(),
    {
        let mut slots: Vec<Slot<F>> = Vec::with_capacity(num_slots);
        let mut i: usize = 0;
        while i < num_slots
            invariant
                i <= num_slots,
                slots@.len() == i,
                forall|j: int| 0 <= j < i ==> #[trigger] slots@[j] == Slot::<F>::fresh(),
            decreases num_slots - i,
        {
            slots.push(Slot { tag: 0, file: None, recently_used: false, lock: LockState::Free });
            i += 1;
        }
        let pool = OpenFiles { slots, next: 0 };
        assert(pool@ =~= PoolView::<F>::fresh(num_slots as nat));
        pool
    }

    /// The number of slots.
    pub fn num_slots(&self) -> (n: usize)
        ensures
            n == self@.slots.len(),
    {
        self.slots.len()
    }

    /// Takes the slot `index`, which the caller has just locked: closes the
    /// way to its old descriptor and makes it ready for a new one.
    fn recycle(&mut self, index: usize) -> (r: (SlotHandle, Option<F>))
        requires
            index < old(self)@.slots.len(),
            old(self)@.slots[index as int].tag < u64::MAX,
        ensures
            final(self)@.differs_at(
                old(self)@,
                index as int,
                old(self)@.slots[index as int].recycled(),
            ),
            r.0.index == index,
            r.0.tag == old(self)@.slots[index as int].tag + 1,
            r.1 == old(self)@.slots[index as int].file,
    {
        let slot = &mut self.slots[index];
        let evicted = slot.file.take();
        slot.tag = slot.tag + 1;
        slot.recently_used = true;
        slot.lock = LockState::Exclusive;
        let handle = SlotHandle { index, tag: slot.tag };
        (handle, evicted)
    }

    /// Whether every tag can still go up, as `find_victim_slot` and `claim`
    /// need it.
    pub fn tags_have_headroom(&self) -> (b: bool)
        ensures
            b == self@.has_tag_headroom(),
    {
        let mut i: usize = 0;
        while i < self.slots.len()
            invariant
                i <= self@.slots.len(),
                forall|j: int| 0 <= j < i ==> (#[trigger] self@.slots[j]).tag < u64::MAX,
            decreases self@.slots.len() - i,
        {
            if self.slots[i].tag == u64::MAX {
                return false;
            }
            i += 1;
        }
        true
    }

    /// Whether slot `index` is unlocked.
    pub fn is_unlocked(&self, index: usize) -> (b: bool)
        requires
            index < self@.slots.len(),
        ensures
            b == (self@.slots[index as int].lock is Free),
    {
        match self.slots[index].lock {
            LockState::Free => true,
            _ => false,
        }
    }

    /// The state of the lock of slot `index`.
    pub fn lock(&self, index: usize) -> (lock: LockState)
        requires
            index < self@.slots.len(),
        ensures
            lock == self@.slots[index as int].lock,
    {
        self.slots[index].lock
    }

    /// Whether the slot of `handle` was taken for it and waits for its
    /// descriptor.
    pub fn claimed(&self, handle: SlotHandle) -> (b: bool)
        ensures
            b == self@.is_claimed(handle),
    {
        if handle.index >= self.slots.len() {
            return false;
        }
        let slot = &self.slots[handle.index];
        let exclusive = match slot.lock {
            LockState::Exclusive => true,
            _ => false,
        };
        slot.tag == handle.tag && slot.file.is_none() && exclusive
    }

    /// Whether the descriptor of `handle` is still in its slot.
    pub fn holds(&self, handle: SlotHandle) -> (b: bool)
        ensures
            b == self@.is_valid(handle),
    {
        handle.index < self.slots.len() && self.slots[handle.index].tag == handle.tag
            && self.slots[handle.index].file.is_some()
    }

    /// The descriptor in slot `index`.
    pub fn file(&self, index: usize) -> (file: &F)
        requires
            index < self@.slots.len(),
            self@.slots[index as int].file is Some,
        ensures
            self@.slots[index as int].file == Some(*file),
    {
        self.slots[index].file.as_ref().unwrap()
    }

    /// Takes slot `index` after the wait that `find_victim_slot` asked for:
    /// locks it exclusively and makes it ready for a new descriptor, as the
    /// sweep does with a slot that it finds unlocked.
    pub fn claim(&mut self, index: usize) -> (r: (SlotHandle, Option<F>))
        requires
            old(self)@.wf(),
            index < old(self)@.slots.len(),
            old(self)@.slots[index as int].lock is Free,
            old(self)@.slots[index as int].tag < u64::MAX,
        ensures
            final(self)@.wf(),
            final(self)@.follows(old(self)@),
            final(self)@.differs_at(
                old(self)@,
                index as int,
                old(self)@.slots[index as int].recycled(),
            ),
            r.0 == (SlotHandle { index, tag: (old(self)@.slots[index as int].tag + 1) as u64 }),
            r.1 == old(self)@.slots[index as int].file,
            final(self)@.is_claimed(r.0),
    {
        self.recycle(index)
    }

    /// Looks for the descriptor of `handle` and, if it is there, locks the
    /// slot shared for the caller and marks it as recently used.
    ///
    /// A slot whose lock cannot be shared is not looked into: the caller
    /// waits.  A handle whose slot has another tag or no descriptor is stale,
    /// and so is one that points outside the pool.
    pub fn lookup(&mut self, handle: SlotHandle) -> (found: Lookup)
        requires
            old(self)@.wf(),
        ensures
            final(self)@.wf(),
            final(self)@.follows(old(self)@),
            found is Busy <==> handle.index < old(self)@.slots.len() && !old(
                self,
            )@.slots[handle.index as int].lock.can_share(),
            found is Hit <==> old(self)@.is_valid(handle) && old(
                self,
            )@.slots[handle.index as int].lock.can_share(),
            found is Hit ==> final(self)@.differs_at(
                old(self)@,
                handle.index as int,
                (Slot {
                    recently_used: true,
                    lock: old(self)@.slots[handle.index as int].lock.joined(),
                    ..old(self)@.slots[handle.index as int]
                }),
            ),
            !(found is Hit) ==> final(self)@ == old(self)@,
    {
        if handle.index >= self.slots.len() {
            return Lookup::Stale;
        }
        let slot = &mut self.slots[handle.index];
        let joined = match slot.lock {
            LockState::Free => LockState::Shared(1),
            LockState::Shared(n) => {
                if n == usize::MAX {
                    return Lookup::Busy;
                }
                LockState::Shared(n + 1)
            },
            LockState::Exclusive => {
                return Lookup::Busy;
            },
        };
        if slot.tag == handle.tag && slot.file.is_some() {
            slot.recently_used = true;
            slot.lock = joined;
            Lookup::Hit
        } else {
            Lookup::Stale
        }
    }

    /// Gives back one shared hold of the lock of slot `index`.
    pub fn release(&mut self, index: usize)
        requires
            old(self)@.wf(),
            index < old(self)@.slots.len(),
            old(self)@.slots[index as int].lock is Shared,
        ensures
            final(self)@.wf(),
            final(self)@.follows(old(self)@),
            final(self)@.differs_at(
                old(self)@,
                index as int,
                (Slot {
                    lock: old(self)@.slots[index as int].lock.left(),
                    ..old(self)@.slots[index as int]
                }),
            ),
    {
        let slot = &mut self.slots[index];
        slot.lock = match slot.lock {
            LockState::Shared(n) => if n > 1 {
                LockState::Shared(n - 1)
            } else {
                LockState::Free
            },
            _ => LockState::Free,
        };
    }

    /// Stores the descriptor that was opened for `handle` in its slot.
    pub fn install(&mut self, handle: SlotHandle, file: F)
        requires
            old(self)@.wf(),
            old(self)@.is_claimed(handle),
        ensures
            final(self)@.wf(),
            final(self)@.follows(old(self)@),
            final(self)@.differs_at(
                old(self)@,
                handle.index as int,
                (Slot { file: Some(file), ..old(self)@.slots[handle.index as int] }),
            ),
            final(self)@.is_valid(handle),
    {
        let slot = &mut self.slots[handle.index];
        slot.file = Some(file);
    }

    /// Gives up the exclusive lock of slot `index`.
    pub fn unlock(&mut self, index: usize)
        requires
            old(self)@.wf(),
            index < old(self)@.slots.len(),
            old(self)@.slots[index as int].lock is Exclusive,
        ensures
            final(self)@.wf(),
            final(self)@.follows(old(self)@),
            final(self)@.differs_at(
                old(self)@,
                index as int,
                (Slot { lock: LockState::Free, ..old(self)@.slots[index as int] }),
            ),
    {
        let slot = &mut self.slots[index];
        slot.lock = LockState::Free;
    }

    /// Turns the exclusive lock of slot `index` into a shared one, held by
    /// the same caller.
    pub fn downgrade(&mut self, index: usize)
        requires
            old(self)@.wf(),
            index < old(self)@.slots.len(),
            old(self)@.slots[index as int].lock is Exclusive,
        ensures
            final(self)@.wf(),
            final(self)@.follows(old(self)@),
            final(self)@.differs_at(
                old(self)@,
                index as int,
                (Slot { lock: LockState::Shared(1), ..old(self)@.slots[index as int] }),
            ),
    {
        let slot = &mut self.slots[index];
        slot.lock = LockState::Shared(1);
    }

    /// Closes the way to the descriptor of a handle that is going away.
    ///
    /// Nothing is done while the slot is locked.  Otherwise, if the slot
    /// still has the handle's tag, it loses its flag and its descriptor,
    /// which the caller closes; a slot that was recycled for someone else is
    /// left as it is.
    pub fn clean_slot(&mut self, handle: SlotHandle) -> (closing: Closing<F>)
        requires
            old(self)@.wf(),
        ensures
            final(self)@.wf(),
            final(self)@.follows(old(self)@),
            final(self)@.slot_cleaned(old(self)@, handle, closing),
    {
        if handle.index >= self.slots.len() {
            return Closing::Closed { file: None };
        }
        let slot = &mut self.slots[handle.index];
        match slot.lock {
            LockState::Free => {},
            _ => {
                return Closing::Deferred;
            },
        }
        if slot.tag == handle.tag {
            slot.recently_used = false;
            let file = slot.file.take();
            Closing::Closed { file }
        } else {
            Closing::Closed { file: None }
        }
    }

    /// Finds a slot to put a descriptor in, by the clock algorithm.
    ///
    /// The sweep visits the slots in a circle, starting at the clock arm.  A
    /// slot that was used recently loses its flag and is passed over; so is
    /// one that is locked.  The first other one is locked exclusively and
    /// taken: its tag goes up by one, its flag is set, and the descriptor it
    /// held is handed to the caller.  After twice as many failed attempts as
    /// there are slots the sweep stops at the next slot and tells the caller
    /// to wait for it, which happens only when every slot is locked.
    pub fn find_victim_slot(&mut self) -> (victim: Victim<F>)
        requires
            old(self)@.wf(),
            old(self)@.slots.len() > 0,
            old(self)@.has_tag_headroom(),
        ensures
            final(self)@.wf(),
            final(self)@.follows(old(self)@),
            final(self)@.victim_found(old(self)@, victim),
            old(self)@.failed_attempts() <= 2 * old(self)@.slots.len(),
            victim is Contended <==> old(self)@.all_locked(),
            victim matches Victim::Claimed { handle, .. } ==> final(self)@.is_claimed(handle),
    {
        let ghost before = self@;
        let n = self.slots.len();
        // Attempts are counted by rounds, so that twice the number of slots
        // is never computed.
        let mut rounds_left: u8 = 2;
        let mut in_round: usize = 0;
        let ghost mut retries: int = 0;
        proof {
            before.lemma_sweep_bounded();
            before.lemma_visited(0);
            assert forall|i: int| 0 <= i < n implies #[trigger] self@.slots[i]
                == before.slots[i].passed(before.distance(i) < 0) by {
                before.lemma_distance(i);
            }
        }
        loop
            invariant
                before == old(self)@,
                before.wf(),
                before.has_tag_headroom(),
                n == before.slots.len(),
                n > 0,
                self@.slots.len() == n,
                in_round < n,
                rounds_left <= 2,
                rounds_left == 2 ==> retries == in_round,
                rounds_left == 1 ==> retries == n + in_round,
                rounds_left == 0 ==> retries == 2 * n && in_round == 0,
                self@.cursor == before.visited(retries),
                before.first_take_from(retries) == before.failed_attempts(),
                before.failed_attempts() <= 2 * n,
                before.failed_attempts() == 2 * n <==> before.all_locked(),
                forall|i: int|
                    0 <= i < n ==> #[trigger] self@.slots[i] == before.slots[i].passed(
                        before.distance(i) < retries,
                    ),
            decreases 2 * n - retries,
        {
            let next = self.next;
            proof {
                before.lemma_visited(retries);
                before.lemma_visited(retries + 1);
                before.lemma_distance(next as int);
            }
            self.next = if next + 1 == n {
                0
            } else {
                next + 1
            };
            if rounds_left == 0 {
                return Victim::Contended { index: next };
            }
            let slot = &mut self.slots[next];
            let was_used = slot.recently_used;
            slot.recently_used = false;
            let unlocked = match slot.lock {
                LockState::Free => true,
                _ => false,
            };
            if !was_used && unlocked {
                assert(before.takes_at(retries));
                let ghost swept = self@;
                let (handle, evicted) = self.recycle(next);
                proof {
                    assert forall|i: int| 0 <= i < n && i != next implies #[trigger] self@.slots[i]
                        == before.slots[i].passed(before.distance(i) < retries) by {
                        assert(self@.slots[i] == swept.slots[i]);
                    }
                    assert(self@.slots[next as int] == before.slots[next as int].recycled());
                    assert forall|i: int| 0 <= i < n implies (#[trigger] self@.slots[i]).follows(
                        before.slots[i],
                    ) by {
                        if i != next {
                            assert(self@.slots[i] == swept.slots[i]);
                        }
                    }
                }
                return Victim::Claimed { handle, evicted };
            }
            proof {
                assert(!before.takes_at(retries));
                assert forall|i: int| 0 <= i < n implies #[trigger] self@.slots[i]
                    == before.slots[i].passed(before.distance(i) < retries + 1) by {
                    before.lemma_distance(i);
                }
                retries = retries + 1;
            }
            in_round += 1;
            if in_round == n {
                in_round = 0;
                rounds_left -= 1;
            }
        }
    }
}

/// Sets up the pool of a process, with room for `num_slots` descriptors.
///
/// To be called once, at startup, before any file is opened: every handle
/// is then opened against the pool that comes back.
pub fn init<F>(num_slots: usize) -> (pool: OpenFiles<F>)
    ensures
        pool@ == PoolView::<F>::fresh(num_slots as nat),
        pool@.slots.len() == num_slots,
        pool@.wf(),
{
    OpenFiles::new(num_slots)
}

/// Every state of a pool is a later state of itself.
pub proof fn lemma_follows_reflexive<F>(pool: PoolView<F>)
    ensures
        pool.follows(pool),
{
}

/// A later state of a later state is a later state.
pub proof fn lemma_follows_transitive<F>(first: PoolView<F>, second: PoolView<F>, third: PoolView<F>)
    requires
        second.follows(first),
        third.follows(second),
    ensures
        third.follows(first),
{
    assert forall|i: int| 0 <= i < third.slots.len() implies (#[trigger] third.slots[i]).follows(
        first.slots[i],
    ) by {
        assert(second.slots[i].follows(first.slots[i]));
    }
}

/// A handle that is valid now and still valid later finds the same
/// descriptor: whatever happened to the pool in between, no other
/// descriptor has appeared under the handle's tag.
pub proof fn lemma_valid_handle_keeps_descriptor<F>(
    before: PoolView<F>,
    after: PoolView<F>,
    handle: SlotHandle,
)
    requires
        before.is_valid(handle),
        !(before.slots[handle.index as int].lock is Exclusive),
        after.follows(before),
        after.is_valid(handle),
    ensures
        after.slots[handle.index as int].file == before.slots[handle.index as int].file,
{
    assert(after.slots[handle.index as int].follows(before.slots[handle.index as int]));
}

/// A slot that the sweep takes forgets its occupant: every handle that was
/// given out for the slot before is stale from then on.
pub proof fn lemma_eviction_makes_handles_stale<F>(
    before: PoolView<F>,
    after: PoolView<F>,
    victim: Victim<F>,
    handle: SlotHandle,
)
    requires
        before.wf(),
        before.slots.len() > 0,
        before.has_tag_headroom(),
        after.victim_found(before, victim),
        victim matches Victim::Claimed { handle: taken, .. } && taken.index == handle.index,
        handle.tag <= before.slots[handle.index as int].tag,
    ensures
        !after.is_valid(handle),
        !after.is_claimed(handle),
{
    before.lemma_sweep_bounded();
    before.lemma_visited(before.failed_attempts());
}

/// A handle that has gone stale stays stale: once its slot has moved on to
/// a later tag, or has lost the descriptor while nobody was replacing it,
/// the handle is never valid again.
pub proof fn lemma_stale_handle_stays_stale<F>(
    before: PoolView<F>,
    after: PoolView<F>,
    handle: SlotHandle,
)
    requires
        handle.index < before.slots.len(),
        handle.tag <= before.slots[handle.index as int].tag,
        !before.is_valid(handle),
        !before.is_claimed(handle),
        after.follows(before),
    ensures
        !after.is_valid(handle),
{
    assert(after.slots[handle.index as int].follows(before.slots[handle.index as int]));
}


} // verus!
