use vstd::prelude::*;

verus! {

/// A non-owning reference to an object held in a [`Registry`].
///
/// Handles are never reused: once its object is removed, a handle resolves
/// to nothing for good. Two handles are the same reference exactly when they
/// are equal.
#[derive(Debug, Clone, Copy, PartialEq, Eq, Structural)]
pub struct Handle {
    id: usize,
}

impl View for Handle {
    type V = nat;

    closed spec fn view(&self) -> nat {
        self.id as nat
    }
}

/// Two handles are equal exactly when their views are.
pub broadcast proof fn handle_view_injective(a: Handle, b: Handle)
    ensures
        #![trigger a@, b@]
        a@ == b@ <==> a == b,
{
}

/// The objects that handles refer to. An object lives here until it is
/// removed; each slot is used by one object only.
pub struct Registry<T> {
    slots: Vec<Option<T>>,
}

impl<T> View for Registry<T> {
    type V = Seq<Option<T>>;

    closed spec fn view(&self) -> Seq<Option<T>> {
        self.slots@
    }
}

impl<T> Registry<T> {
    /// Whether `h` still refers to an object.
    pub open spec fn live(&self, h: Handle) -> bool {
        h@ < self@.len() && self@[h@ as int] is Some
    }

    /// The handles that still refer to an object.
    pub open spec fn live_set(&self) -> Set<Handle> {
        Set::new(|h: Handle| self.live(h))
    }

    /// The object that `h` refers to.
    pub open spec fn object(&self, h: Handle) -> T
        recommends
            self.live(h),
    {
        self@[h@ as int]->Some_0
    }

    /// Both registries hold a live object under the same handles.
    pub open spec fn same_handles(&self, other: &Registry<T>) -> bool {
        &&& self@.len() == other@.len()
        &&& forall|i: int| 0 <= i < self@.len() ==> (#[trigger] self@[i] is Some <==> other@[i] is Some)
    }

    /// An empty registry.
    pub fn new() -> (r: Registry<T>)
        ensures
            r@ == Seq::<Option<T>>::empty(),
    {
        Registry { slots: Vec::new() }
    }

    /// Stores `obj` and returns a fresh handle to it.
    pub fn add(&mut self, obj: T) -> (h: Handle)
        requires
            old(self)@.len() < usize::MAX,
        ensures
            h@ == old(self)@.len(),
            final(self)@ == old(self)@.push(Some(obj)),
            forall|g: Handle| old(self).live(g) ==> g != h,
    {
        let id = self.slots.len();
        self.slots.push(Some(obj));
        Handle { id }
    }

    /// Destroys the object that `h` refers to and hands it back, if it is
    /// still there.
    pub fn remove(&mut self, h: Handle) -> (r: Option<T>)
        ensures
            r == (if old(self).live(h) { Some(old(self).object(h)) } else { None::<T> }),
            old(self).live(h) ==> final(self)@ == old(self)@.update(h@ as int, None),
            !old(self).live(h) ==> final(self)@ == old(self)@,
    {
        if h.id < self.slots.len() {
            let mut slot: Option<T> = None;
            std::mem::swap(&mut slot, &mut self.slots[h.id]);
            slot
        } else {
            None
        }
    }

    /// Whether `h` still refers to an object.
    pub fn is_live(&self, h: Handle) -> (r: bool)
        ensures
            r == self.live(h),
    {
        h.id < self.slots.len() && self.slots[h.id].is_some()
    }

    /// The object that `h` refers to, if it is still there.
    pub fn get(&self, h: Handle) -> (r: Option<&T>)
        ensures
            r == (if self.live(h) { Some(&self.object(h)) } else { None::<&T> }),
    {
        if h.id < self.slots.len() {
            self.slots[h.id].as_ref()
        } else {
            None
        }
    }

    /// Takes the object that `h` refers to out of its slot, to be put back
    /// with `restore`.
    pub(crate) fn take(&mut self, h: Handle) -> (r: T)
        requires
            old(self).live(h),
        ensures
            r == old(self).object(h),
            final(self)@ == old(self)@.update(h@ as int, None),
    {
        let mut slot: Option<T> = None;
        std::mem::swap(&mut slot, &mut self.slots[h.id]);
        slot.unwrap()
    }

    /// Puts an object back into the slot of `h`.
    pub(crate) fn restore(&mut self, h: Handle, obj: T)
        requires
            h@ < old(self)@.len(),
        ensures
            final(self)@ == old(self)@.update(h@ as int, Some(obj)),
    {
        let mut slot: Option<T> = Some(obj);
        std::mem::swap(&mut slot, &mut self.slots[h.id]);
    }
}

} // verus!
