use vstd::prelude::*;

verus! {

/// Registry of boundary-owned objects, keyed by opaque integer handles.
///
/// A handle is an identity token handed across the boundary in place of a
/// raw address. Handle `0` is the null handle and is never valid. A freshly
/// inserted object gets a handle that was never issued before (slots are
/// only ever appended), so a released handle stays invalid forever: use
/// after release and double release are detected, not undefined.
pub struct HandleStore<T> {
    entries: Vec<Option<T>>,
}

impl<T: View> HandleStore<T> {
    /// Slot `i` holds the view of the live object with handle `i + 1`, or
    /// `None` if that handle was released (or the slot value replaced).
    pub closed spec fn slots(&self) -> Seq<Option<T::V>> {
        self.entries@.map_values(
            |e: Option<T>|
                match e {
                    Option::Some(v) => Some(v@),
                    Option::None => None,
                },
        )
    }

    /// A handle is valid when it refers to a live, not-yet-released object.
    pub open spec fn valid(&self, h: usize) -> bool {
        1 <= h <= self.slots().len() && self.slots()[h - 1] is Some
    }

    /// View of the object a valid handle refers to.
    pub open spec fn value(&self, h: usize) -> T::V
        recommends
            self.valid(h),
    {
        self.slots()[h - 1]->0
    }

    /// The object behind `h`: its view when `h` is valid, `None` when `h`
    /// is null, stale, or out of range.
    pub open spec fn lookup(&self, h: usize) -> Option<T::V> {
        if self.valid(h) {
            Some(self.value(h))
        } else {
            None
        }
    }

    /// An empty registry: no handle is valid.
    pub fn new() -> (s: Self)
        ensures
            s.slots() == Seq::<Option<T::V>>::empty(),
    {
        let s = HandleStore { entries: Vec::new() };
        proof {
            assert(s.slots() =~= Seq::<Option<T::V>>::empty());
        }
        s
    }

    /// Number of slots ever issued (live or released).
    pub fn slot_count(&self) -> (n: usize)
        ensures
            n == self.slots().len(),
    {
        self.entries.len()
    }

    /// Take ownership of `v` and issue a fresh handle for it. The new
    /// handle is non-null, was invalid before the call, and every other
    /// slot is left untouched.
    pub fn insert(&mut self, v: T) -> (h: usize)
        requires
            old(self).slots().len() < usize::MAX,
        ensures
            h == old(self).slots().len() + 1,
            !old(self).valid(h),
            final(self).valid(h),
            final(self).slots() =~= old(self).slots().push(Some(v@)),
    {
        self.entries.push(Some(v));
        proof {
            assert(self.slots() =~= old(self).slots().push(Some(v@)));
        }
        self.entries.len()
    }

    /// Borrow the object behind `h`; `None` exactly when `h` is not a
    /// valid handle.
    pub fn get(&self, h: usize) -> (r: Option<&T>)
        ensures
            match r {
                Some(t) => self.valid(h) && t@ == self.value(h),
                None => !self.valid(h),
            },
    {
        if h == 0 || h > self.entries.len() {
            None
        } else {
            match &self.entries[h - 1] {
                Some(t) => Some(t),
                None => None,
            }
        }
    }

    /// Replace the object behind a valid handle with `v`, in place: the
    /// handle keeps its identity. Returns `false`, changing nothing, when
    /// `h` is not valid.
    pub fn replace(&mut self, h: usize, v: T) -> (ok: bool)
        ensures
            ok == old(self).valid(h),
            ok ==> final(self).slots() =~= old(self).slots().update(h - 1, Some(v@)),
            !ok ==> final(self).slots() =~= old(self).slots(),
    {
        if h == 0 || h > self.entries.len() {
            return false;
        }
        let live = self.entries[h - 1].is_some();
        if !live {
            return false;
        }
        self.entries.set(h - 1, Some(v));
        proof {
            assert(self.slots() =~= old(self).slots().update(h - 1, Some(v@)));
        }
        true
    }

    /// Release the object behind `h`, reclaiming its slot's contents. A
    /// null, stale, or out-of-range handle is a no-op, not an error. Every
    /// other slot is left untouched, and `h` is invalid afterwards.
    pub fn remove(&mut self, h: usize)
        ensures
            old(self).valid(h) ==> final(self).slots() =~= old(self).slots().update(
                h - 1,
                None,
            ),
            !old(self).valid(h) ==> final(self).slots() =~= old(self).slots(),
            !final(self).valid(h),
    {
        if h == 0 || h > self.entries.len() {
            return ;
        }
        let live = self.entries[h - 1].is_some();
        if !live {
            return ;
        }
        self.entries.set(h - 1, None);
        proof {
            assert(self.slots() =~= old(self).slots().update(h - 1, None));
        }
    }
}

} // verus!
