//! The modulation matrix and how its routes resolve onto a voice's parameters:
//! of several routes to one parameter, the last in index order takes effect.

use vstd::prelude::*;

use crate::common::{ModMatrixDest, ModMatrixSrc, N_MOD_SLOTS};

verus! {

/// Number of routes a modulation matrix holds.
pub const MOD_MATRIX_SIZE: usize = 255;

/// One modulation route: the value of `src`, scaled by `amt`, is written to `dest`.
/// A bipolar route swings around the destination's base value instead of above it.
/// The library only stores and orders amounts; their arithmetic belongs to the caller.
#[derive(Debug, Clone, Copy)]
pub struct ModMatrixItem<A> {
    pub src: ModMatrixSrc,
    pub dest: ModMatrixDest,
    pub amt: A,
    pub bipolar: bool,
}

impl<A> ModMatrixItem<A> {
    /// The route reads a source and writes a destination that exist on a voice.
    pub open spec fn valid(self) -> bool {
        self.src.valid() && self.dest.routable()
    }
}

/// Why an edit of the matrix was refused.
#[derive(Debug, Clone, Copy, PartialEq, Eq, Structural)]
pub enum ModMatrixError {
    IndexOutOfRange,
    InvalidSource,
    InvalidDestination,
}

/// A fixed-capacity table of optional modulation routes, evaluated in index order.
pub struct ModMatrix<A> {
    entries: Vec<Option<ModMatrixItem<A>>>,
}

impl<A> View for ModMatrix<A> {
    type V = Seq<Option<ModMatrixItem<A>>>;

    closed spec fn view(&self) -> Self::V {
        self.entries@
    }
}

/// The route `entry` writes modulation slot `s` of a voice whose oscillators are
/// switched on as `osc_on` says: a route to a switched-off oscillator writes nothing.
pub open spec fn route_writes<A>(entry: Option<ModMatrixItem<A>>, osc_on: Seq<bool>, s: int) -> bool {
    match entry {
        Some(item) => {
            &&& item.dest.routable()
            &&& item.dest.slot() == s
            &&& match item.dest {
                ModMatrixDest::Osc { osc, .. } => osc < osc_on.len() && osc_on[osc as int],
                _ => true,
            }
        },
        None => false,
    }
}

/// The index of the last of the first `n` routes that writes slot `s`, if any.
pub open spec fn last_writer<A>(
    entries: Seq<Option<ModMatrixItem<A>>>,
    osc_on: Seq<bool>,
    s: int,
    n: int,
) -> Option<int>
    decreases n,
{
    if n <= 0 {
        None
    } else if route_writes(entries[n - 1], osc_on, s) {
        Some(n - 1)
    } else {
        last_writer(entries, osc_on, s, n - 1)
    }
}

pub open spec fn as_index(o: Option<int>) -> Option<usize> {
    match o {
        Some(k) => Some(k as usize),
        None => None,
    }
}

/// The writer found by `last_writer` writes the slot, and no later route of the
/// prefix does; when none is found, no route of the prefix writes the slot.
pub proof fn lemma_last_writer<A>(
    entries: Seq<Option<ModMatrixItem<A>>>,
    osc_on: Seq<bool>,
    s: int,
    n: int,
)
    requires
        0 <= n <= entries.len(),
    ensures
        match last_writer(entries, osc_on, s, n) {
            Some(k) => {
                &&& 0 <= k < n
                &&& route_writes(entries[k], osc_on, s)
                &&& forall|m: int| k < m < n ==> !route_writes(#[trigger] entries[m], osc_on, s)
            },
            None => forall|m: int| 0 <= m < n ==> !route_writes(#[trigger] entries[m], osc_on, s),
        },
    decreases n,
{
    if n > 0 {
        lemma_last_writer(entries, osc_on, s, n - 1);
    }
}

/// Routes to one destination overwrite each other rather than add up: when two
/// routes write the same destination, the amount that takes effect is that of the
/// later one or of a route after it, never that of the earlier one.
pub proof fn lemma_later_route_wins<A>(
    entries: Seq<Option<ModMatrixItem<A>>>,
    osc_on: Seq<bool>,
    i: int,
    j: int,
)
    requires
        0 <= i < j < entries.len(),
        entries[i] is Some,
        entries[j] is Some,
        entries[i]->0.dest == entries[j]->0.dest,
        route_writes(entries[j], osc_on, entries[j]->0.dest.slot()),
    ensures
        ({
            let w = last_writer(entries, osc_on, entries[j]->0.dest.slot(), entries.len() as int);
            &&& w is Some
            &&& w->0 >= j
            &&& w != Some(i)
        }),
{
    let s = entries[j]->0.dest.slot();
    lemma_last_writer(entries, osc_on, s, entries.len() as int);
}

impl<A> ModMatrix<A> {
    /// Every slot exists and every route in it is valid.
    pub open spec fn wf(&self) -> bool {
        &&& self@.len() == MOD_MATRIX_SIZE
        &&& forall|i: int|
            0 <= i < self@.len() && (#[trigger] self@[i]) is Some ==> self@[i]->0.valid()
    }

    /// An empty matrix: no route in any slot.
    pub fn new() -> (m: Self)
        ensures
            m.wf(),
            forall|i: int| 0 <= i < MOD_MATRIX_SIZE ==> (#[trigger] m@[i]) is None,
    {
        let mut entries: Vec<Option<ModMatrixItem<A>>> = Vec::new();
        let mut i: usize = 0;
        while i < MOD_MATRIX_SIZE
            invariant
                i <= MOD_MATRIX_SIZE,
                entries@.len() == i,
                forall|j: int| 0 <= j < i ==> (#[trigger] entries@[j]) is None,
            decreases MOD_MATRIX_SIZE - i,
        {
            entries.push(None);
            i += 1;
        }
        ModMatrix { entries }
    }

    /// The route in slot `index`.
    pub fn get_entry(&self, index: usize) -> (r: &Option<ModMatrixItem<A>>)
        requires
            self.wf(),
            index < MOD_MATRIX_SIZE,
        ensures
            *r == self@[index as int],
    {
        &self.entries[index]
    }

    /// Writes `item` into slot `index`. The edit is refused, and the matrix left as
    /// it was, when the slot does not exist or the route reads or writes something
    /// that a voice does not have.
    pub fn set_entry(&mut self, index: usize, item: ModMatrixItem<A>) -> (r: Result<(), ModMatrixError>)
        requires
            old(self).wf(),
        ensures
            final(self).wf(),
            index >= MOD_MATRIX_SIZE ==> r == Err::<(), ModMatrixError>(ModMatrixError::IndexOutOfRange),
            index < MOD_MATRIX_SIZE && !item.src.valid() ==> r == Err::<(), ModMatrixError>(
                ModMatrixError::InvalidSource,
            ),
            index < MOD_MATRIX_SIZE && item.src.valid() && !item.dest.routable() ==> r == Err::<
                (),
                ModMatrixError,
            >(ModMatrixError::InvalidDestination),
            r is Ok <==> index < MOD_MATRIX_SIZE && item.valid(),
            r is Ok ==> final(self)@ == old(self)@.update(index as int, Some(item)),
            r is Err ==> final(self)@ == old(self)@,
    {
        if index >= self.entries.len() {
            return Err(ModMatrixError::IndexOutOfRange);
        }
        if !item.src.is_valid() {
            return Err(ModMatrixError::InvalidSource);
        }
        if !item.dest.is_routable() {
            return Err(ModMatrixError::InvalidDestination);
        }
        self.entries.set(index, Some(item));
        Ok(())
    }

    /// Empties slot `index`; refused when the slot does not exist.
    pub fn clear_entry(&mut self, index: usize) -> (r: Result<(), ModMatrixError>)
        requires
            old(self).wf(),
        ensures
            final(self).wf(),
            r is Ok <==> index < MOD_MATRIX_SIZE,
            r is Err ==> r == Err::<(), ModMatrixError>(ModMatrixError::IndexOutOfRange),
            r is Ok ==> final(self)@ == old(self)@.update(index as int, None),
            r is Err ==> final(self)@ == old(self)@,
    {
        if index >= self.entries.len() {
            return Err(ModMatrixError::IndexOutOfRange);
        }
        self.entries.set(index, None);
        Ok(())
    }

    /// For each modulation slot of a voice, the route whose amount it receives this
    /// sample: the last route, in index order, that writes it. Routes to a
    /// switched-off oscillator write nothing. A slot that no route writes gets
    /// `None`, and its modulation is cleared.
    pub fn resolve_routes(&self, osc_on: &Vec<bool>) -> (r: Vec<Option<usize>>)
        ensures
            r@.len() == N_MOD_SLOTS,
            forall|s: int|
                0 <= s < N_MOD_SLOTS ==> #[trigger] r@[s] == as_index(
                    last_writer(self@, osc_on@, s, self@.len() as int),
                ),
    {
        let mut r: Vec<Option<usize>> = Vec::new();
        let mut s: usize = 0;
        while s < N_MOD_SLOTS
            invariant
                s <= N_MOD_SLOTS,
                r@.len() == s,
                forall|t: int| 0 <= t < s ==> (#[trigger] r@[t]) is None,
            decreases N_MOD_SLOTS - s,
        {
            r.push(None);
            s += 1;
        }
        let mut k: usize = 0;
        while k < self.entries.len()
            invariant
                k <= self@.len(),
                self@ == self.entries@,
                r@.len() == N_MOD_SLOTS,
                forall|t: int|
                    0 <= t < N_MOD_SLOTS ==> #[trigger] r@[t] == as_index(
                        last_writer(self@, osc_on@, t, k as int),
                    ),
            decreases self@.len() - k,
        {
            if let Some(item) = &self.entries[k] {
                if item.dest.is_routable() {
                    let on = match item.dest {
                        ModMatrixDest::Osc { osc, .. } => osc < osc_on.len() && osc_on[osc],
                        _ => true,
                    };
                    if on {
                        let sl = item.dest.slot_index();
                        r.set(sl, Some(k));
                    }
                }
            }
            assert forall|t: int| 0 <= t < N_MOD_SLOTS implies #[trigger] r@[t] == as_index(
                last_writer(self@, osc_on@, t, k + 1),
            ) by {
                if route_writes(self@[k as int], osc_on@, t) {
                } else {
                }
            }
            k += 1;
        }
        r
    }
}

} // verus!
