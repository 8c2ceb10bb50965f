//! Core of a freestanding, single-core kernel, modelled over plain values:
//! an interrupt-safe spinlock, descriptor-table and interrupt-table setup,
//! the interrupt-controller acknowledgment protocol, and the two
//! hardware-mapped output drivers (display and serial). The privileged
//! instructions and port accesses that realise these models on hardware
//! live outside this library.
use vstd::prelude::*;

pub mod gdt;
pub mod interrupts;
pub mod machine;
pub mod qemu;
pub mod serial;
pub mod vga;

verus! {

/// Relies on core::hint::spin_loop: a scheduling hint with no observable
/// effect on program state.
#[verifier::external_body]
fn spin_hint() {
    core::hint::spin_loop()
}

/// Burns time by spinning for the given number of iterations.
pub fn busy_spin(iterations: usize) {
    let mut i: usize = 0;
    while i < iterations
        invariant
            i <= iterations,
        decreases iterations - i,
    {
        spin_hint();
        i = i + 1;
    }
}

/// Exclusive-access wrapper around a value, with no OS dependency: the
/// flag records whether a guard is outstanding, and the value is absent
/// exactly while a guard holds it. Alongside the flag the lock carries
/// its event history as ghost state, so the mutual-exclusion law below
/// holds of every reachable lock.
pub struct Mutex<T> {
    locked: bool,
    data: Option<T>,
    init: Ghost<T>,
    history: Ghost<Seq<LockOp<T>>>,
}

/// A scoped token proving exclusive access: it owns the protected value
/// for as long as it lives — reads and writes go through it — and hands
/// the value back on release.
pub struct MutexGuard<T> {
    pub data: T,
}

impl<T> MutexGuard<T> {
    /// The value the guard gives exclusive access to.
    pub open spec fn value(&self) -> T {
        self.data
    }

    /// Read access to the protected value.
    pub fn get(&self) -> (r: &T)
        ensures
            *r == self.value(),
    {
        &self.data
    }

    /// Write access to the protected value.
    pub fn set(&mut self, v: T)
        ensures
            final(self).value() == v,
    {
        self.data = v;
    }
}

impl<T> Mutex<T> {
    /// The flag, the stored value and the ghost history agree: the value
    /// is absent exactly while a guard is outstanding, the flag is what
    /// the history says, the history is one a program can produce, and a
    /// free lock holds the value the history's last release stored.
    pub closed spec fn wf(&self) -> bool {
        &&& self.locked <==> self.data is None
        &&& self.locked == lock_held_after(self.history@)
        &&& lock_history_valid(self.history@)
        &&& !self.locked ==> self.data->0 == lock_value_after(self.init@, self.history@)
    }

    /// Whether a guard is currently outstanding.
    pub closed spec fn is_locked(&self) -> bool {
        self.locked
    }

    /// The acquisition attempts and guard drops this lock has seen, in
    /// order.
    pub closed spec fn history(&self) -> Seq<LockOp<T>> {
        self.history@
    }

    /// The value the lock was created with.
    pub closed spec fn initial_value(&self) -> T {
        self.init@
    }

    /// The protected value; meaningful only while no guard is outstanding.
    pub closed spec fn value(&self) -> T
        recommends
            !self.is_locked(),
    {
        self.data->0
    }

    /// Creates a free lock owning `data`, with an empty history.
    pub fn new(data: T) -> (m: Mutex<T>)
        ensures
            m.wf(),
            !m.is_locked(),
            m.value() == data,
            m.history() == Seq::<LockOp<T>>::empty(),
            m.initial_value() == data,
    {
        let ghost initial = data;
        Mutex {
            locked: false,
            data: Some(data),
            init: Ghost(initial),
            history: Ghost(Seq::empty()),
        }
    }

    /// Consumes the lock and returns the protected value.
    pub fn into_inner(self) -> (t: T)
        requires
            self.wf(),
            !self.is_locked(),
        ensures
            t == self.value(),
    {
        match self.data {
            Some(t) => t,
            None => unreached(),
        }
    }

    /// A single acquisition attempt: returns a guard exactly when the
    /// lock was free, and changes nothing but the history on failure.
    pub fn try_lock(&mut self) -> (r: Option<MutexGuard<T>>)
        requires
            old(self).wf(),
        ensures
            final(self).wf(),
            final(self).history() == old(self).history().push(LockOp::TryLock),
            final(self).initial_value() == old(self).initial_value(),
            r is Some <==> !old(self).is_locked(),
            final(self).is_locked() == (old(self).is_locked() || r is Some),
            !old(self).is_locked() ==> r->0.value() == old(self).value(),
    {
        proof {
            let h = self.history@;
            self.history@ = h.push(LockOp::TryLock);
            assert(self.history@.drop_last() =~= h);
            assert(self.history@.last() is TryLock);
        }
        if !self.locked {
            self.locked = true;
            let data = self.data.take();
            match data {
                Some(d) => Some(MutexGuard { data: d }),
                None => unreached(),
            }
        } else {
            None
        }
    }

    /// Acquires the lock. On hardware this retries `try_lock` in a loop,
    /// spinning on relaxed reads of the flag between attempts; with a
    /// single execution context an already-held lock is never released by
    /// anyone else, so that retry would hang permanently — the documented
    /// deadlock of re-acquiring a held lock. Every function here
    /// terminates, so that input is excluded and the first attempt is the
    /// one that succeeds.
    pub fn lock(&mut self) -> (g: MutexGuard<T>)
        requires
            old(self).wf(),
            !old(self).is_locked(),
        ensures
            final(self).wf(),
            final(self).is_locked(),
            g.value() == old(self).value(),
            final(self).history() == old(self).history().push(LockOp::TryLock),
            final(self).initial_value() == old(self).initial_value(),
    {
        let attempt = self.try_lock();
        match attempt {
            Some(g) => g,
            None => unreached(),
        }
    }

    /// Releases the lock, storing the guard's value for the next
    /// acquirer.
    pub fn unlock(&mut self, g: MutexGuard<T>)
        requires
            old(self).wf(),
            old(self).is_locked(),
        ensures
            final(self).wf(),
            !final(self).is_locked(),
            final(self).value() == g.value(),
            final(self).history() == old(self).history().push(LockOp::Release(g.value())),
            final(self).initial_value() == old(self).initial_value(),
    {
        proof {
            lemma_at_most_one_guard(self.history@);
            let h = self.history@;
            self.history@ = h.push(LockOp::Release(g.value()));
            assert(self.history@.drop_last() =~= h);
            assert(self.history@.last() == LockOp::Release(g.value()));
        }
        self.data = Some(g.data);
        self.locked = false;
    }
}

/// One event in the history of a single lock: an acquisition attempt
/// (`try_lock`, or the attempt inside `lock` that succeeds), or the drop
/// of a guard, carrying the value last written under that guard.
pub enum LockOp<T> {
    TryLock,
    Release(T),
}

/// Whether the lock is held after this event history. An acquisition
/// attempt on a free lock takes it, and on a held lock leaves it held;
/// a release frees it.
pub open spec fn lock_held_after<T>(ops: Seq<LockOp<T>>) -> bool {
    if ops.len() == 0 {
        false
    } else {
        ops.last() is TryLock
    }
}

/// Number of live guards after this event history: an attempt on a free
/// lock creates one, an attempt on a held lock creates none (it fails,
/// with no side effect), and a release destroys one.
pub open spec fn live_guards_after<T>(ops: Seq<LockOp<T>>) -> int
    decreases ops.len(),
{
    if ops.len() == 0 {
        0
    } else {
        let prev = live_guards_after(ops.drop_last());
        match ops.last() {
            LockOp::TryLock => if lock_held_after(ops.drop_last()) {
                prev
            } else {
                prev + 1
            },
            LockOp::Release(_) => prev - 1,
        }
    }
}

/// A history is one a program can produce: ownership lets a guard be
/// dropped only while it exists, so each release happens with a live
/// guard outstanding.
pub open spec fn lock_history_valid<T>(ops: Seq<LockOp<T>>) -> bool
    decreases ops.len(),
{
    if ops.len() == 0 {
        true
    } else {
        &&& lock_history_valid(ops.drop_last())
        &&& (ops.last() is Release ==> live_guards_after(ops.drop_last()) >= 1)
    }
}

/// The protected value after this event history: each release stores the
/// value written under its guard; acquisition attempts change nothing.
pub open spec fn lock_value_after<T>(init: T, ops: Seq<LockOp<T>>) -> T
    decreases ops.len(),
{
    if ops.len() == 0 {
        init
    } else {
        match ops.last() {
            LockOp::TryLock => lock_value_after(init, ops.drop_last()),
            LockOp::Release(w) => w,
        }
    }
}

/// Mutual exclusion, at the lock itself: every reachable lock's history
/// admits at most one live guard — exactly one while it is held, none
/// while it is free — and a free lock holds the value the history's
/// last release stored.
pub proof fn lemma_mutex_exclusion<T>(m: Mutex<T>)
    requires
        m.wf(),
    ensures
        live_guards_after(m.history()) <= 1,
        live_guards_after(m.history()) == if m.is_locked() {
            1int
        } else {
            0int
        },
        !m.is_locked() ==> m.value() == lock_value_after(m.initial_value(), m.history()),
{
    lemma_at_most_one_guard(m.history());
}

/// Mutual exclusion: over any interleaving of acquisition attempts and
/// guard drops on one lock, at most one live guard exists at any instant
/// — exactly one while the lock is held, none while it is free.
pub proof fn lemma_at_most_one_guard<T>(ops: Seq<LockOp<T>>)
    requires
        lock_history_valid(ops),
    ensures
        live_guards_after(ops) == if lock_held_after(ops) {
            1int
        } else {
            0int
        },
        live_guards_after(ops) <= 1,
    decreases ops.len(),
{
    if ops.len() > 0 {
        lemma_at_most_one_guard(ops.drop_last());
    }
}

/// A value observed through a guard reflects the last write made under
/// the immediately preceding guard: once that guard is dropped carrying
/// `w`, every later acquisition observes `w` until some guard writes
/// again.
pub proof fn lemma_guard_observes_last_write<T>(
    init: T,
    pre: Seq<LockOp<T>>,
    w: T,
    post: Seq<LockOp<T>>,
)
    requires
        forall|i: int| 0 <= i < post.len() ==> post[i] is TryLock,
    ensures
        lock_value_after(init, pre.push(LockOp::Release(w)) + post) == w,
    decreases post.len(),
{
    let whole = pre.push(LockOp::Release(w)) + post;
    if post.len() == 0 {
        assert(whole =~= pre.push(LockOp::Release(w)));
    } else {
        lemma_guard_observes_last_write(init, pre, w, post.drop_last());
        assert(whole.drop_last() =~= pre.push(LockOp::Release(w)) + post.drop_last());
        assert(whole.last() == post.last());
    }
}

} // verus!
