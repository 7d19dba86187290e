//! Effect parameters, and the buffer positions of the chorus.

use vstd::prelude::*;

verus! {

/// A parameter of an effect that a user can set.
pub trait EffectParam {

}

/// The parameters of the chorus.
#[derive(Debug, Clone, Copy, PartialEq, Eq, Structural, Hash)]
pub enum ChorusParam {
    Volume,
    Speed,
}

impl EffectParam for ChorusParam {

}

impl ChorusParam {
    /// The label shown for the parameter.
    pub fn name(&self) -> (r: String)
        ensures
            r@ == match self {
                ChorusParam::Volume => "Vol."@,
                ChorusParam::Speed => "Speed"@,
            },
    {
        match self {
            ChorusParam::Volume => "Vol.".to_owned(),
            ChorusParam::Speed => "Speed".to_owned(),
        }
    }
}

/// The parameters of the reverb.
#[derive(Debug, Clone, Copy, PartialEq, Eq, Structural, Hash)]
pub enum ReverbParam {
    Gain,
    Decay,
    Damping,
    Cutoff,
}

impl EffectParam for ReverbParam {

}

impl ReverbParam {
    /// The label shown for the parameter.
    pub fn name(&self) -> (r: String)
        ensures
            r@ == match self {
                ReverbParam::Gain => "Gain"@,
                ReverbParam::Decay => "Decay"@,
                ReverbParam::Damping => "Damping"@,
                ReverbParam::Cutoff => "Cutoff"@,
            },
    {
        match self {
            ReverbParam::Gain => "Gain".to_owned(),
            ReverbParam::Decay => "Decay".to_owned(),
            ReverbParam::Damping => "Damping".to_owned(),
            ReverbParam::Cutoff => "Cutoff".to_owned(),
        }
    }
}

/// The write and read positions of the chorus's circular delay buffer. Each
/// input is written one place further on; each output is read `step` places
/// further on, so the delay between them drifts over time.
#[derive(Debug, Clone, Copy)]
pub struct ChorusIndex {
    size: usize,
    insert_i: usize,
    get_i: usize,
    step: usize,
}

impl ChorusIndex {
    pub closed spec fn len(&self) -> nat {
        self.size as nat
    }

    pub closed spec fn write_at(&self) -> nat {
        self.insert_i as nat
    }

    pub closed spec fn read_at(&self) -> nat {
        self.get_i as nat
    }

    pub closed spec fn step_by(&self) -> nat {
        self.step as nat
    }

    pub open spec fn wf(&self) -> bool {
        &&& self.len() > 0
        &&& self.write_at() < self.len()
        &&& self.read_at() < self.len()
    }

    /// Positions into a buffer of `size` samples, both at the start.
    pub fn new(size: usize, step: usize) -> (r: ChorusIndex)
        requires
            size > 0,
        ensures
            r.wf(),
            r.len() == size,
            r.write_at() == 0,
            r.read_at() == 0,
            r.step_by() == step,
    {
        ChorusIndex { size, insert_i: 0, get_i: 0, step }
    }

    /// Number of samples in the buffer.
    pub fn size(&self) -> (r: usize)
        ensures
            r == self.len(),
    {
        self.size
    }

    /// Where the next input goes.
    pub fn write_pos(&self) -> (r: usize)
        ensures
            r == self.write_at(),
    {
        self.insert_i
    }

    /// Where the next output comes from.
    pub fn read_pos(&self) -> (r: usize)
        ensures
            r == self.read_at(),
    {
        self.get_i
    }

    /// Sets how far the read position moves per output.
    pub fn set_step(&mut self, step: usize)
        ensures
            final(self).len() == old(self).len(),
            final(self).write_at() == old(self).write_at(),
            final(self).read_at() == old(self).read_at(),
            final(self).step_by() == step,
    {
        self.step = step;
    }

    /// Moves the write position one place on, wrapping at the end of the buffer.
    pub fn advance_write(&mut self)
        requires
            old(self).wf(),
        ensures
            final(self).wf(),
            final(self).len() == old(self).len(),
            final(self).write_at() == (old(self).write_at() + 1) % old(self).len(),
            final(self).read_at() == old(self).read_at(),
            final(self).step_by() == old(self).step_by(),
    {
        proof {
            if self.insert_i + 1 < self.size {
                vstd::arithmetic::div_mod::lemma_small_mod((self.insert_i + 1) as nat, self.size as nat);
            } else {
                vstd::arithmetic::div_mod::lemma_mod_self_0(self.size as int);
            }
        }
        self.insert_i = if self.insert_i + 1 == self.size {
            0
        } else {
            self.insert_i + 1
        };
    }

    /// Moves the read position `step` places on, wrapping at the end of the buffer.
    pub fn advance_read(&mut self)
        requires
            old(self).wf(),
        ensures
            final(self).wf(),
            final(self).len() == old(self).len(),
            final(self).write_at() == old(self).write_at(),
            final(self).read_at() == (old(self).read_at() + old(self).step_by()) % old(
                self,
            ).len(),
            final(self).step_by() == old(self).step_by(),
    {
        let s: usize = self.step % self.size;
        let pos: usize = if self.get_i >= self.size - s {
            self.get_i - (self.size - s)
        } else {
            self.get_i + s
        };
        proof {
            let (g, st, n) = (self.get_i as int, self.step as int, self.size as int);
            vstd::arithmetic::div_mod::lemma_mod_pos_bound(st, n);
            vstd::arithmetic::div_mod::lemma_add_mod_noop_right(g, st, n);
            if g + st % n >= n {
                vstd::arithmetic::div_mod::lemma_mod_sub_multiples_vanish(g + st % n, n);
                vstd::arithmetic::div_mod::lemma_small_mod((g + st % n - n) as nat, n as nat);
            } else {
                vstd::arithmetic::div_mod::lemma_small_mod((g + st % n) as nat, n as nat);
            }
        }
        self.get_i = pos;
    }
}

} // verus!
