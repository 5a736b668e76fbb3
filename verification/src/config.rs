use vstd::prelude::*;

verus! {

/// The mathematical content of a [`SharedTlsConfig`]: the material it was made with and
/// every material installed since, oldest first.
pub struct TlsHistory<M> {
    pub initial: M,
    pub reloaded: Seq<M>,
}

impl<M> TlsHistory<M> {
    /// The history of a cell that was made with `initial` and never written since.
    pub open spec fn fresh(initial: M) -> Self {
        TlsHistory { initial, reloaded: Seq::empty() }
    }

    /// The material that a read observes: the one installed last, or the initial one
    /// where nothing was installed yet.
    pub open spec fn active(self) -> M {
        if self.reloaded.len() == 0 {
            self.initial
        } else {
            self.reloaded.last()
        }
    }

    /// The history after `material` replaced the active one.
    pub open spec fn install(self, material: M) -> Self {
        TlsHistory { initial: self.initial, reloaded: self.reloaded.push(material) }
    }

    /// How many times the active material was replaced.
    pub open spec fn replacements(self) -> nat {
        self.reloaded.len()
    }

    /// The material that was active after `n` replacements.
    pub open spec fn at(self, n: int) -> M
        recommends
            0 <= n <= self.reloaded.len(),
    {
        if n == 0 {
            self.initial
        } else {
            self.reloaded[n - 1]
        }
    }
}

/// A cell that holds exactly one TLS material at a time.
///
/// A reader borrows the cell shared and the writer borrows it exclusively, so a read
/// yields the material from before an install or the one from after it, always whole.
pub struct SharedTlsConfig<M> {
    current: M,
    past: Ghost<TlsHistory<M>>,
}

impl<M> View for SharedTlsConfig<M> {
    type V = TlsHistory<M>;

    closed spec fn view(&self) -> TlsHistory<M> {
        self.past@
    }
}

impl<M> SharedTlsConfig<M> {
    #[verifier::type_invariant]
    spec fn holds_the_active_material(self) -> bool {
        self.current == self.past@.active()
    }

    /// A cell that holds `initial`.
    pub fn new(initial: M) -> (cell: Self)
        ensures
            cell@ == TlsHistory::fresh(initial),
    {
        let ghost past = TlsHistory::fresh(initial);
        SharedTlsConfig { current: initial, past: Ghost(past) }
    }

    /// The active material.
    pub fn read(&self) -> (material: &M)
        ensures
            *material == self@.active(),
    {
        proof {
            use_type_invariant(self);
        }
        &self.current
    }

    /// Replaces the active material by `material`, in one step.
    pub fn install(&mut self, material: M)
        ensures
            final(self)@ == old(self)@.install(material),
        no_unwind
    {
        let ghost past = self.past@.install(material);
        *self = SharedTlsConfig { current: material, past: Ghost(past) };
    }
}

} // verus!
