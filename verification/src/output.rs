//! The output registry: the set of currently known physical displays and
//! their logical sizes. Output identities are owned by the compositor; the
//! registry keeps only the identity number and cached metadata.

use vstd::prelude::*;

verus! {

/// One known physical display: its compositor identity and its logical size
/// in device-independent units.
#[derive(Clone, Copy, Debug, PartialEq, Eq, Structural)]
pub struct OutputInfo {
    pub id: u32,
    pub width: u32,
    pub height: u32,
}

/// Position and size of an output in the compositor's global layout.
#[derive(Clone, Copy, Debug, PartialEq, Eq)]
pub struct IOutputInfo {
    pub position: (u32, u32),
    pub size: (u32, u32),
}

/// The currently known outputs, in discovery order.
pub struct OutputState {
    pub outputs: Vec<OutputInfo>,
}

impl OutputState {
    /// No two entries share a compositor identity.
    pub open spec fn wf(&self) -> bool {
        forall|i: int, j: int|
            0 <= i < j < self.outputs@.len() ==> self.outputs@[i].id != self.outputs@[j].id
    }

    /// Whether an output with this identity is known.
    pub open spec fn spec_contains(&self, id: u32) -> bool {
        exists|i: int| 0 <= i < self.outputs@.len() && self.outputs@[i].id == id
    }

    /// An empty registry.
    pub fn new() -> (s: Self)
        ensures
            s.outputs@ == Seq::<OutputInfo>::empty(),
            s.wf(),
    {
        OutputState { outputs: Vec::new() }
    }

    /// The position of the output with the given identity, if it is known.
    pub fn find(&self, id: u32) -> (r: Option<usize>)
        ensures
            r matches Some(i) ==> i < self.outputs@.len() && self.outputs@[i as int].id == id,
            r is None ==> !self.spec_contains(id),
    {
        let mut i: usize = 0;
        while i < self.outputs.len()
            invariant
                i <= self.outputs@.len(),
                forall|j: int| 0 <= j < i ==> self.outputs@[j].id != id,
            decreases self.outputs@.len() - i,
        {
            if self.outputs[i].id == id {
                return Some(i);
            }
            i = i + 1;
        }
        None
    }

    /// The current known outputs, in discovery order.
    pub fn list(&self) -> (r: &Vec<OutputInfo>)
        ensures
            r@ == self.outputs@,
    {
        &self.outputs
    }

    /// Record a newly discovered output; an identity that is already known is
    /// left as it is.
    pub fn on_added(&mut self, info: OutputInfo)
        requires
            old(self).wf(),
        ensures
            final(self).wf(),
            !old(self).spec_contains(info.id) ==> final(self).outputs@ == old(
            self).outputs@.push(info),
            old(self).spec_contains(info.id) ==> final(self).outputs@ == old(self).outputs@,
    {
        match self.find(info.id) {
            Some(_) => (),
            None => {
                self.outputs.push(info);
            },
        }
    }

    /// Record the new logical size of a known output; an unknown identity is
    /// ignored.
    pub fn on_changed(&mut self, id: u32, width: u32, height: u32)
        requires
            old(self).wf(),
        ensures
            final(self).wf(),
            final(self).outputs@.len() == old(self).outputs@.len(),
            forall|i: int|
                0 <= i < old(self).outputs@.len() ==> final(self).outputs@[i] == (if old(
                self).outputs@[i].id == id {
                    OutputInfo { id, width, height }
                } else {
                    old(self).outputs@[i]
                }),
    {
        let n: usize = self.outputs.len();
        let mut i: usize = 0;
        while i < n
            invariant
                i <= n,
                n == self.outputs@.len(),
                old(self).outputs@.len() == n,
                forall|j: int|
                    i <= j < n ==> self.outputs@[j] == old(self).outputs@[j],
                forall|j: int|
                    0 <= j < i ==> self.outputs@[j] == (if old(self).outputs@[j].id == id {
                        OutputInfo { id, width, height }
                    } else {
                        old(self).outputs@[j]
                    }),
            decreases n - i,
        {
            if self.outputs[i].id == id {
                self.outputs.set(i, OutputInfo { id, width, height });
            }
            i = i + 1;
        }
        proof {
            assert(final(self).wf()) by {
                assert forall|i: int, j: int|
                    0 <= i < j < self.outputs@.len() implies self.outputs@[i].id
                    != self.outputs@[j].id by {
                    assert(old(self).outputs@[i].id != old(self).outputs@[j].id);
                }
            }
        }
    }

    /// Keeps exactly the outputs whose identity is not `id`.
    pub open spec fn keeps(id: u32) -> spec_fn(OutputInfo) -> bool {
        |o: OutputInfo| o.id != id
    }

    /// Forget the output with the given identity.
    pub fn on_removed(&mut self, id: u32)
        requires
            old(self).wf(),
        ensures
            final(self).wf(),
            final(self).outputs@ == old(self).outputs@.filter(Self::keeps(id)),
    {
        let ghost pred = Self::keeps(id);
        let mut kept: Vec<OutputInfo> = Vec::new();
        let n: usize = self.outputs.len();
        let mut i: usize = 0;
        while i < n
            invariant
                i <= n,
                n == self.outputs@.len(),
                self.outputs@ == old(self).outputs@,
                old(self).wf(),
                pred == Self::keeps(id),
                kept@ == self.outputs@.take(i as int).filter(pred),
                forall|a: int|
                    0 <= a < kept@.len() ==> exists|j: int|
                        0 <= j < i && #[trigger] kept@[a] == self.outputs@[j],
                forall|a: int, b: int| 0 <= a < b < kept@.len() ==> kept@[a].id != kept@[b].id,
            decreases n - i,
        {
            let o = self.outputs[i];
            proof {
                assert(self.outputs@.take(i + 1) =~= self.outputs@.take(i as int).push(o));
                self.outputs@.take(i as int).lemma_filter_push(o, pred);
            }
            if o.id != id {
                let ghost kept_before = kept@;
                kept.push(o);
                proof {
                    assert(kept@[kept@.len() - 1] == self.outputs@[i as int]);
                    assert forall|a: int| 0 <= a < kept@.len() - 1 implies kept@[a].id != o.id by {
                        assert(kept@[a] == kept_before[a]);
                        let j = choose|j: int|
                            0 <= j < i && #[trigger] kept_before[a] == self.outputs@[j];
                        assert(self.outputs@[j].id != self.outputs@[i as int].id);
                    }
                }
            }
            i = i + 1;
        }
        proof {
            assert(self.outputs@.take(n as int) =~= self.outputs@);
        }
        self.outputs = kept;
    }
}

} // verus!
