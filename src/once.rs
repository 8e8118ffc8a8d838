//! Write-once, owned state: the boot tables are built on first access and
//! every later access sees that same value.
use vstd::prelude::*;

verus! {

/// A slot that is filled at most once and never changed afterwards.
pub struct WriteOnce<T> {
    value: Option<T>,
    builds: Ghost<nat>,
}

impl<T> WriteOnce<T> {
    /// The value held, if it was built.
    pub closed spec fn value(&self) -> Option<T> {
        self.value
    }

    /// How many times a value was built into this slot.
    pub closed spec fn builds(&self) -> nat {
        self.builds@
    }

    /// A slot has been built into once exactly when it holds a value.
    pub open spec fn wf(&self) -> bool {
        &&& self.builds() <= 1
        &&& (self.builds() == 1 <==> self.value() is Some)
    }

    /// What one access through `get_or_init` does: an empty slot is filled
    /// with a freshly built value, a filled one is left as it is.
    pub open spec fn init_step(self, next: Self, fresh: T) -> bool {
        match self.value() {
            Some(v) => next.value() == Some(v) && next.builds() == self.builds(),
            None => next.value() == Some(fresh) && next.builds() == self.builds() + 1,
        }
    }

    pub fn new() -> (r: Self)
        ensures
            r.value() is None,
            r.builds() == 0,
            r.wf(),
    {
        WriteOnce { value: None, builds: Ghost(0) }
    }

    pub fn is_built(&self) -> (r: bool)
        ensures
            r == self.value() is Some,
    {
        self.value.is_some()
    }

    /// Builds the value with `make` if the slot is empty; `make` is not
    /// called otherwise.
    pub fn get_or_init<F: FnOnce() -> T>(&mut self, make: F)
        requires
            old(self).value() is None ==> make.requires(()),
        ensures
            match old(self).value() {
                Some(v) => final(self).value() == Some(v) && final(self).builds() == old(
                    self,
                ).builds(),
                None => exists|fresh: T|
                    make.ensures((), fresh) && old(self).init_step(*final(self), fresh),
            },
            old(self).wf() ==> final(self).wf(),
    {
        let ghost prev = *self;
        if self.value.is_none() {
            let fresh = make();
            let ghost built = fresh;
            self.value = Some(fresh);
            self.builds = Ghost(self.builds@ + 1);
            assert(prev.init_step(*self, built));
        }
    }

    /// The value held, if it was built.
    pub fn get(&self) -> (r: Option<&T>)
        ensures
            match self.value() {
                Some(v) => r == Some(&v),
                None => r is None,
            },
    {
        self.value.as_ref()
    }
}

/// What one access does when the value it would build satisfies `ok`: an
/// empty slot is filled with such a value, a filled one is left as it is.
pub open spec fn fill_step<T>(before: WriteOnce<T>, after: WriteOnce<T>, ok: spec_fn(T) -> bool) -> bool {
    &&& before.wf() ==> after.wf()
    &&& match before.value() {
        Some(v) => after.value() == Some(v) && after.builds() == before.builds(),
        None => after.value() matches Some(v) && ok(v) && after.builds() == before.builds() + 1,
    }
}

/// Filling a slot is done at most once: from a fresh slot, any number of
/// accesses build once, and each access after the first returns the value
/// the first one built.
pub proof fn lemma_built_at_most_once<T>(
    a: WriteOnce<T>,
    b: WriteOnce<T>,
    c: WriteOnce<T>,
    first: T,
    second: T,
)
    requires
        a.value() is None,
        a.builds() == 0,
        a.init_step(b, first),
        b.init_step(c, second),
    ensures
        b.value() == Some(first),
        c.value() == Some(first),
        c.builds() == 1,
        c.wf(),
{
}

/// Two accesses to a fresh slot build once: the second access keeps what
/// the first built, whatever it would have built itself.
pub proof fn lemma_filled_once<T>(
    a: WriteOnce<T>,
    b: WriteOnce<T>,
    c: WriteOnce<T>,
    ok: spec_fn(T) -> bool,
)
    requires
        a.value() is None,
        a.builds() == 0,
        fill_step(a, b, ok),
        fill_step(b, c, ok),
    ensures
        b.value() is Some,
        ok(b.value().unwrap()),
        c.value() == b.value(),
        c.builds() == 1,
        c.wf(),
{
}

} // verus!
