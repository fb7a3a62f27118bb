//! A bounded history of (CPU, keyboard) temperature pairs with strict FIFO
//! eviction, one entry per snapshot.

use std::collections::VecDeque;
use vstd::prelude::*;

verus! {

/// Entries kept by default: two minutes at one sample every two seconds.
pub const HISTORY_CAPACITY: usize = 60;

/// The window after appending `x` to `s` with room for `cap` entries: at
/// capacity the oldest entry leaves first; with no room nothing is kept.
pub open spec fn window_push<T>(s: Seq<T>, x: T, cap: nat) -> Seq<T> {
    if cap == 0 {
        Seq::empty()
    } else if s.len() >= cap {
        s.drop_first().push(x)
    } else {
        s.push(x)
    }
}

/// The window after appending each of `xs` in turn.
pub open spec fn window_push_all<T>(s: Seq<T>, xs: Seq<T>, cap: nat) -> Seq<T>
    decreases xs.len(),
{
    if xs.len() == 0 {
        s
    } else {
        window_push(window_push_all(s, xs.drop_last(), cap), xs.last(), cap)
    }
}

/// The last `min(cap, xs.len())` entries of `xs`.
pub open spec fn newest<T>(xs: Seq<T>, cap: nat) -> Seq<T> {
    if xs.len() <= cap {
        xs
    } else {
        xs.subrange(xs.len() - cap, xs.len() as int)
    }
}

/// Starting empty, a window of capacity `cap` holds after any run of pushes
/// exactly the `cap` newest entries, oldest first: it never grows past
/// `cap`, and once `cap + k` entries went in, the first `k` are gone.
pub proof fn lemma_window_keeps_newest<T>(xs: Seq<T>, cap: nat)
    ensures
        window_push_all(Seq::<T>::empty(), xs, cap) == newest(xs, cap),
        window_push_all(Seq::<T>::empty(), xs, cap).len() <= cap,
    decreases xs.len(),
{
    if xs.len() > 0 {
        let init = xs.drop_last();
        lemma_window_keeps_newest(init, cap);
        let prev = newest(init, cap);
        let next = window_push(prev, xs.last(), cap);
        if cap == 0 {
            assert(newest(xs, cap) =~= Seq::<T>::empty());
        } else if prev.len() >= cap {
            assert(next =~= newest(xs, cap));
        } else {
            assert(next =~= newest(xs, cap));
        }
    }
}

/// Temperature history: two channels of equal length, oldest first.
#[derive(Debug)]
pub struct TemperatureHistory {
    cpu_temps: VecDeque<i32>,
    kbd_temps: VecDeque<i32>,
    capacity: usize,
}

impl TemperatureHistory {
    /// CPU temperatures held, oldest first.
    pub closed spec fn cpu_view(&self) -> Seq<i32> {
        self.cpu_temps@
    }

    /// Keyboard temperatures held, oldest first.
    pub closed spec fn kbd_view(&self) -> Seq<i32> {
        self.kbd_temps@
    }

    pub closed spec fn capacity_view(&self) -> nat {
        self.capacity as nat
    }

    /// Both channels have the same length, which never exceeds the capacity.
    pub open spec fn wf(&self) -> bool {
        &&& self.cpu_view().len() == self.kbd_view().len()
        &&& self.cpu_view().len() <= self.capacity_view()
    }

    /// An empty history with room for `capacity` entries.
    pub fn new(capacity: usize) -> (r: TemperatureHistory)
        ensures
            r.wf(),
            r.cpu_view() == Seq::<i32>::empty(),
            r.kbd_view() == Seq::<i32>::empty(),
            r.capacity_view() == capacity as nat,
    {
        TemperatureHistory {
            cpu_temps: VecDeque::with_capacity(capacity),
            kbd_temps: VecDeque::with_capacity(capacity),
            capacity,
        }
    }

    /// Appends one pair; at capacity the oldest pair is evicted first.
    pub fn push(&mut self, cpu: i32, kbd: i32)
        requires
            old(self).wf(),
        ensures
            final(self).wf(),
            final(self).capacity_view() == old(self).capacity_view(),
            final(self).cpu_view() == window_push(old(self).cpu_view(), cpu, old(self).capacity_view()),
            final(self).kbd_view() == window_push(old(self).kbd_view(), kbd, old(self).capacity_view()),
    {
        if self.capacity == 0 {
            return;
        }
        if self.cpu_temps.len() >= self.capacity {
            self.cpu_temps.pop_front();
            self.kbd_temps.pop_front();
        }
        self.cpu_temps.push_back(cpu);
        self.kbd_temps.push_back(kbd);
        proof {
            assert(self.cpu_temps@ =~= window_push(old(self).cpu_view(), cpu, old(self).capacity_view()));
            assert(self.kbd_temps@ =~= window_push(old(self).kbd_view(), kbd, old(self).capacity_view()));
        }
    }

    /// The CPU channel as (tick offset, temperature) pairs.
    pub fn cpu_points(&self) -> (r: Vec<(usize, i32)>)
        requires
            self.wf(),
        ensures
            r@.len() == self.cpu_view().len(),
            forall|i: int| 0 <= i < r@.len() ==> #[trigger] r@[i] == (i as usize, self.cpu_view()[i]),
    {
        points_of(&self.cpu_temps)
    }

    /// The keyboard channel as (tick offset, temperature) pairs.
    pub fn kbd_points(&self) -> (r: Vec<(usize, i32)>)
        requires
            self.wf(),
        ensures
            r@.len() == self.kbd_view().len(),
            forall|i: int| 0 <= i < r@.len() ==> #[trigger] r@[i] == (i as usize, self.kbd_view()[i]),
    {
        points_of(&self.kbd_temps)
    }

    pub fn len(&self) -> (r: usize)
        requires
            self.wf(),
        ensures
            r == self.cpu_view().len(),
    {
        self.cpu_temps.len()
    }

    pub fn is_empty(&self) -> (r: bool)
        requires
            self.wf(),
        ensures
            r == (self.cpu_view().len() == 0),
    {
        self.cpu_temps.len() == 0
    }

    pub fn capacity(&self) -> (r: usize)
        ensures
            r as nat == self.capacity_view(),
    {
        self.capacity
    }
}

fn points_of(q: &VecDeque<i32>) -> (r: Vec<(usize, i32)>)
    ensures
        r@.len() == q@.len(),
        forall|i: int| 0 <= i < r@.len() ==> #[trigger] r@[i] == (i as usize, q@[i]),
{
    let n = q.len();
    let mut r: Vec<(usize, i32)> = Vec::new();
    let mut i: usize = 0;
    while i < n
        invariant
            n == q@.len(),
            i <= n,
            r@.len() == i,
            forall|k: int| 0 <= k < i ==> #[trigger] r@[k] == (k as usize, q@[k]),
        decreases n - i,
    {
        r.push((i, q[i]));
        i = i + 1;
    }
    r
}

impl Default for TemperatureHistory {
    /// An empty history of the default capacity.
    fn default() -> (r: TemperatureHistory)
        ensures
            r.wf(),
            r.cpu_view() == Seq::<i32>::empty(),
            r.kbd_view() == Seq::<i32>::empty(),
            r.capacity_view() == HISTORY_CAPACITY as nat,
    {
        TemperatureHistory::new(HISTORY_CAPACITY)
    }
}

} // verus!
