use crate::flavour::Flavour;
use vstd::prelude::*;

verus! {

/// The texts of a list of flavours, in order.
pub open spec fn flavour_texts(fs: Seq<Flavour>) -> Seq<Seq<char>> {
    fs.map_values(|f: Flavour| f@)
}

/// Whether some flavour of `fs` denotes the same media type as `f`.
pub open spec fn listed(fs: Seq<Seq<char>>, f: Seq<char>) -> bool {
    exists|i: int| 0 <= i < fs.len() && crate::flavour::mime_equal(#[trigger] fs[i], f)
}

/// The bytes a borrowed payload holds.
pub open spec fn payload(o: Option<&[u8]>) -> Option<Seq<u8>> {
    match o {
        Some(b) => Some(b@),
        None => None,
    }
}

/// Whether some flavour of `fs` denotes the same media type as `flavour`.
pub fn offered_in(fs: &[Flavour], flavour: &Flavour) -> (r: bool)
    ensures
        r == listed(flavour_texts(fs@), flavour@),
{
    let mut i: usize = 0;
    while i < fs.len()
        invariant
            i <= fs@.len(),
            forall|j: int|
                0 <= j < i ==> !crate::flavour::mime_equal(#[trigger] flavour_texts(fs@)[j], flavour@),
        decreases fs@.len() - i,
    {
        assert(flavour_texts(fs@)[i as int] == fs@[i as int]@);
        if fs[i].matches(flavour) {
            return true;
        }
        i = i + 1;
    }
    false
}

/// Data that can be handed over in one or more formats.
pub trait Transferable {
    /// The formats offered, in the order given. An implementation states
    /// them here; where it does not, nothing is known of them.
    closed spec fn flavours(&self) -> Seq<Seq<char>> {
        arbitrary()
    }

    /// The payload for a format, or `None` where it is not offered. An
    /// implementation states it here; where it does not, nothing is known of
    /// it.
    closed spec fn data(&self, flavour: Seq<char>) -> Option<Seq<u8>> {
        arbitrary()
    }

    /// Whether a request for `flavour` is served: by default, whether it is
    /// among the formats offered. An implementation may match more widely,
    /// for instance by wildcard.
    open spec fn supports(&self, flavour: Seq<char>) -> bool {
        listed(self.flavours(), flavour)
    }

    /// The formats offered.
    fn get_data_flavours(&self) -> (r: &[Flavour])
        ensures
            flavour_texts(r@) == self.flavours(),
    ;

    /// Whether a request for `flavour` is served. An implementation that
    /// serves the formats it offers and no others can answer with
    /// [`offered_in`] over [`Transferable::get_data_flavours`].
    fn is_flavour_supported(&self, flavour: &Flavour) -> (r: bool)
        ensures
            r == self.supports(flavour@),
    ;

    /// The payload for `flavour`, or `None` where it is not served.
    fn get_data(&self, flavour: &Flavour) -> (r: Option<&[u8]>)
        ensures
            payload(r) == self.data(flavour@),
            r is Some <==> self.supports(flavour@),
    ;
}

} // verus!
