//! The live parameter store: the current parameter values and device
//! selections, a dirty flag that marks a state not yet persisted, and the
//! edge-triggered notification of the persistence worker.

use crate::error::ErrorKind;
use crate::params::{ParamId, ParameterSet, ParameterSetView, PARAM_COUNT};
use vstd::prelude::*;

verus! {

/// Mathematical value of a [`ParameterStore`].
pub struct StoreView {
    pub set: ParameterSetView,
    /// The state differs from the last one taken for persistence.
    pub dirty: bool,
}

/// The store. Every change marks it dirty; only the change that finds it
/// clean notifies the persistence worker, so a burst of edits sends a single
/// notification however long it is. Threads that share the store hold it
/// behind a lock, so each read and write of a field is atomic.
pub struct ParameterStore {
    values: Vec<u32>,
    input_device: String,
    output_device: String,
    dirty: bool,
    notify: kanal::Sender<()>,
}

impl View for ParameterStore {
    type V = StoreView;

    closed spec fn view(&self) -> StoreView {
        StoreView {
            set: ParameterSetView {
                values: self.values@,
                input_device: self.input_device@,
                output_device: self.output_device@,
            },
            dirty: self.dirty,
        }
    }
}

/// The set after the parameter at `index` is given `bits`.
pub open spec fn with_value(s: ParameterSetView, index: int, bits: u32) -> ParameterSetView {
    ParameterSetView { values: s.values.update(index, bits), ..s }
}

/// The set after a new input device selection.
pub open spec fn with_input_device(s: ParameterSetView, device: Seq<char>) -> ParameterSetView {
    ParameterSetView { input_device: device, ..s }
}

/// The set after a new output device selection.
pub open spec fn with_output_device(s: ParameterSetView, device: Seq<char>) -> ParameterSetView {
    ParameterSetView { output_device: device, ..s }
}

/// The store after a sequence of `(index, bits)` parameter writes, with the
/// number of notifications they sent: what `set_parameter` does, write by
/// write.
pub open spec fn apply_writes(s: StoreView, writes: Seq<(usize, u32)>) -> (StoreView, nat)
    decreases writes.len(),
{
    if writes.len() == 0 {
        (s, 0)
    } else {
        let (p, n) = apply_writes(s, writes.drop_last());
        let (index, bits) = writes.last();
        if index < PARAM_COUNT {
            (
                StoreView { set: with_value(p.set, index as int, bits), dirty: true },
                n + if p.dirty {
                    0nat
                } else {
                    1nat
                },
            )
        } else {
            (p, n)
        }
    }
}

/// Edge-triggered notification: on a clean store, any run of writes of
/// which at least one is valid sends exactly one notification and leaves
/// the store dirty; on a dirty store, writes send none.
pub proof fn lemma_writes_notify_once(s: StoreView, writes: Seq<(usize, u32)>)
    requires
        exists|i: int| 0 <= i < writes.len() && (#[trigger] writes[i]).0 < PARAM_COUNT,
    ensures
        apply_writes(s, writes).1 == if s.dirty {
            0nat
        } else {
            1nat
        },
        apply_writes(s, writes).0.dirty,
    decreases writes.len(),
{
    let prev = writes.drop_last();
    if exists|i: int| 0 <= i < prev.len() && (#[trigger] prev[i]).0 < PARAM_COUNT {
        lemma_writes_notify_once(s, prev);
    } else {
        lemma_invalid_writes_change_nothing(s, prev);
        let i = choose|i: int| 0 <= i < writes.len() && (#[trigger] writes[i]).0 < PARAM_COUNT;
        if i < prev.len() {
            assert(prev[i] == writes[i]);
        }
    }
}

proof fn lemma_invalid_writes_change_nothing(s: StoreView, writes: Seq<(usize, u32)>)
    requires
        forall|i: int| 0 <= i < writes.len() ==> (#[trigger] writes[i]).0 >= PARAM_COUNT,
    ensures
        apply_writes(s, writes) == (s, 0nat),
    decreases writes.len(),
{
    if writes.len() > 0 {
        let prev = writes.drop_last();
        assert forall|i: int| 0 <= i < prev.len() implies (#[trigger] prev[i]).0 >= PARAM_COUNT by {
            assert(prev[i] == writes[i]);
        }
        lemma_invalid_writes_change_nothing(s, prev);
        assert(writes.last() == writes[writes.len() - 1]);
    }
}

impl ParameterStore {
    /// One value per parameter: established by `new`, kept by every method.
    pub open spec fn wf(&self) -> bool {
        self@.set.wf()
    }

    /// A clean store holding `set`, which notifies through `notify`. The
    /// notification is offered without waiting, so a write never blocks the
    /// writer (the engine's callback thread among them); on a bounded channel
    /// that is full the offer is dropped, a notification being pending then.
    pub fn new(set: ParameterSet, notify: kanal::Sender<()>) -> (r: ParameterStore)
        requires
            set.wf(),
        ensures
            r.wf(),
            r@.set == set@,
            !r@.dirty,
    {
        ParameterStore {
            values: set.values,
            input_device: set.input_device,
            output_device: set.output_device,
            dirty: false,
            notify,
        }
    }

    pub fn is_dirty(&self) -> (r: bool)
        ensures
            r == self@.dirty,
    {
        self.dirty
    }

    /// Marks the store dirty; offers the worker a notification when it was
    /// clean, and says whether it did.
    fn mark_dirty(&mut self) -> (notified: bool)
        ensures
            notified == !old(self)@.dirty,
            final(self)@.dirty,
            final(self)@.set == old(self)@.set,
    {
        if self.dirty {
            false
        } else {
            self.dirty = true;
            let _ = self.notify.try_send(());
            true
        }
    }

    /// The input and output device selections.
    pub fn devices(&self) -> (r: (String, String))
        ensures
            r.0@ == self@.set.input_device,
            r.1@ == self@.set.output_device,
    {
        (self.input_device.clone(), self.output_device.clone())
    }

    /// Selects the input device; returns whether the worker was notified.
    pub fn set_input_device(&mut self, device: String) -> (notified: bool)
        requires
            old(self).wf(),
        ensures
            final(self).wf(),
            final(self)@.set == with_input_device(old(self)@.set, device@),
            final(self)@.dirty,
            notified == !old(self)@.dirty,
    {
        self.input_device = device;
        self.mark_dirty()
    }

    /// Selects the output device; returns whether the worker was notified.
    pub fn set_output_device(&mut self, device: String) -> (notified: bool)
        requires
            old(self).wf(),
        ensures
            final(self).wf(),
            final(self)@.set == with_output_device(old(self)@.set, device@),
            final(self)@.dirty,
            notified == !old(self)@.dirty,
    {
        self.output_device = device;
        self.mark_dirty()
    }

    /// Writes one parameter by engine index. An index the engine does not
    /// have is rejected and leaves the store as it was; otherwise the value
    /// is stored, the store is dirty, and the result says whether the worker
    /// was notified.
    pub fn set_parameter(&mut self, index: usize, bits: u32) -> (r: Result<bool, ErrorKind>)
        requires
            old(self).wf(),
        ensures
            final(self).wf(),
            index < PARAM_COUNT ==> {
                &&& r == Ok::<bool, ErrorKind>(!old(self)@.dirty)
                &&& final(self)@.set == with_value(old(self)@.set, index as int, bits)
                &&& final(self)@.dirty
            },
            index >= PARAM_COUNT ==> {
                &&& r matches Err(ErrorKind::InvalidParameter(i)) && i == index
                &&& final(self)@ == old(self)@
            },
            final(self)@ == apply_writes(old(self)@, seq![(index, bits)]).0,
            apply_writes(old(self)@, seq![(index, bits)]).1 == if r == Ok::<bool, ErrorKind>(true) {
                1nat
            } else {
                0nat
            },
    {
        proof {
            let w = seq![(index, bits)];
            assert(w.drop_last() =~= Seq::<(usize, u32)>::empty());
            assert(apply_writes(self@, w.drop_last()) == (self@, 0nat));
        }
        match ParamId::from_index(index) {
            Some(id) => {
                self.values.set(id.index(), bits);
                Ok(self.mark_dirty())
            },
            None => Err(ErrorKind::InvalidParameter(index)),
        }
    }

    /// Value of one parameter.
    pub fn value(&self, id: ParamId) -> (r: u32)
        requires
            self.wf(),
        ensures
            r == self@.set.values[id.spec_index()],
    {
        self.values[id.index()]
    }

    /// A copy of the current set.
    pub fn snapshot(&self) -> (r: ParameterSet)
        requires
            self.wf(),
        ensures
            r@ == self@.set,
            r.wf(),
    {
        ParameterSet {
            values: self.values.clone(),
            input_device: self.input_device.clone(),
            output_device: self.output_device.clone(),
        }
    }

    /// Clears the dirty flag, then copies the set: what the persistence
    /// worker writes. A change made after this call marks the store dirty
    /// again and notifies anew.
    pub fn take_snapshot(&mut self) -> (r: ParameterSet)
        requires
            old(self).wf(),
        ensures
            final(self).wf(),
            r@ == old(self)@.set,
            r.wf(),
            final(self)@.set == old(self)@.set,
            !final(self)@.dirty,
    {
        self.dirty = false;
        self.snapshot()
    }
}

} // verus!
