use crate::error::NoDataError;
use crate::flavour::Flavour;
use crate::registry::{Handle, Registry};
use crate::transfer::Transferable;
use vstd::prelude::*;

verus! {

/// An object told when it sets the clipboard's content again while it is
/// still the registered owner.
pub trait ClipboardOwner<T> {
    /// For each time the object was told, the content the clipboard held
    /// then and the content handed over. A verified implementation states
    /// it here; where none does, nothing is known of it.
    closed spec fn losses(&self) -> Seq<(Option<T>, Option<T>)> {
        arbitrary()
    }

    /// Called with the clipboard as it stands before the change, and the
    /// content about to be installed.
    fn lost_ownership(&mut self, source: &Clipboard<T>, new_content: Option<&T>)
        ensures
            final(self).losses() == old(self).losses().push((source.content(), unref(new_content))),
    ;
}

/// An object told of every change of a clipboard's content.
pub trait ClipboardObserver {
    /// How many times the object was told of a change. A verified
    /// implementation states it here; where none does, nothing is known of
    /// it.
    closed spec fn changes(&self) -> nat {
        arbitrary()
    }

    /// Called once the new content and owner are in place.
    fn clipboard_changed(&mut self)
        ensures
            final(self).changes() == old(self).changes() + 1,
    ;
}

/// The value a borrowed option refers to.
pub open spec fn unref<T>(o: Option<&T>) -> Option<T> {
    match o {
        Some(v) => Some(*v),
        None => None,
    }
}

/// How many times `h` occurs in `ls`.
pub open spec fn occurrences(ls: Seq<Handle>, h: Handle) -> nat
    decreases ls.len(),
{
    if ls.len() == 0 {
        0
    } else {
        occurrences(ls.drop_last(), h) + if ls.last() == h { 1nat } else { 0nat }
    }
}

/// `after` is `before` once the owner registered as `registered` was dealt
/// with while `incoming` set `content` over `was`: where `registered` is
/// `incoming` and still live, it was told once, of `was` and `content`; no
/// other object changed, and no handle changed liveness.
pub open spec fn owner_told<T, O: ClipboardOwner<T>>(
    before: Registry<O>,
    after: Registry<O>,
    registered: Option<Handle>,
    incoming: Handle,
    was: Option<T>,
    content: T,
) -> bool {
    &&& after.same_handles(&before)
    &&& (registered == Some(incoming) && before.live(incoming)) ==> after.object(incoming).losses()
        == before.object(incoming).losses().push((was, Some(content)))
    &&& forall|h: Handle|
        !(h == incoming && registered == Some(incoming)) && before.live(h)
            ==> #[trigger] after.object(h) == before.object(h)
}

/// `after` is `before` once the observers `ls` were told of a change: each
/// live object once for each time it occurs in `ls`; no other object
/// changed, and no handle changed liveness.
pub open spec fn observers_told<B: ClipboardObserver>(
    before: Registry<B>,
    after: Registry<B>,
    ls: Seq<Handle>,
) -> bool {
    &&& after.same_handles(&before)
    &&& forall|h: Handle|
        before.live(h) ==> #[trigger] after.object(h).changes() == before.object(h).changes()
            + occurrences(ls, h)
    &&& forall|h: Handle|
        !ls.contains(h) && before.live(h) ==> #[trigger] after.object(h) == before.object(h)
}

/// A notification that a clipboard delivered, with the number of contents
/// the clipboard had been given when it was delivered. The clipboard keeps
/// them in the order of delivery; what each call did to its object is stated
/// by `owner_told` and `observers_told`.
pub enum Notice {
    /// `owner` was told that it lost ownership.
    LostOwnership { owner: Handle, epoch: nat },
    /// `observer` was told that the content changed.
    Changed { observer: Handle, epoch: nat },
}

/// The notifications due to the observers `ls`, in order: one for each entry
/// whose handle is in `live`.
pub open spec fn change_notices(ls: Seq<Handle>, live: Set<Handle>, epoch: nat) -> Seq<Notice>
    decreases ls.len(),
{
    if ls.len() == 0 {
        Seq::empty()
    } else {
        let rest = change_notices(ls.drop_last(), live, epoch);
        if live.contains(ls.last()) {
            rest.push(Notice::Changed { observer: ls.last(), epoch })
        } else {
            rest
        }
    }
}

/// The notification due to the registered owner when `incoming` sets new
/// content: only where it is live and is `incoming` itself.
pub open spec fn owner_notices(
    registered: Option<Handle>,
    incoming: Handle,
    live: Set<Handle>,
    epoch: nat,
) -> Seq<Notice> {
    if registered == Some(incoming) && live.contains(incoming) {
        seq![Notice::LostOwnership { owner: incoming, epoch }]
    } else {
        Seq::empty()
    }
}

/// The entries of `ls` that are in `live` and differ from `gone`, in order.
pub open spec fn kept_listeners(ls: Seq<Handle>, live: Set<Handle>, gone: Handle) -> Seq<Handle>
    decreases ls.len(),
{
    if ls.len() == 0 {
        Seq::empty()
    } else {
        let rest = kept_listeners(ls.drop_last(), live, gone);
        if live.contains(ls.last()) && ls.last() != gone {
            rest.push(ls.last())
        } else {
            rest
        }
    }
}

/// A named clipboard holding at most one content.
pub struct Clipboard<T> {
    name: String,
    owner: Option<Handle>,
    content: Option<T>,
    listeners: Vec<Handle>,
    epoch: Ghost<nat>,
    notices: Ghost<Seq<Notice>>,
}

impl<T> Clipboard<T> {
    /// The clipboard's name.
    pub closed spec fn name(&self) -> Seq<char> {
        self.name@
    }

    /// The owner registered with the current content.
    pub closed spec fn owner(&self) -> Option<Handle> {
        self.owner
    }

    /// The current content, `None` while empty.
    pub closed spec fn content(&self) -> Option<T> {
        self.content
    }

    /// The registered observers, in registration order.
    pub closed spec fn listeners(&self) -> Seq<Handle> {
        self.listeners@
    }

    /// How many contents the clipboard has been given.
    pub closed spec fn epoch(&self) -> nat {
        self.epoch@
    }

    /// Every notification delivered so far, in order.
    pub closed spec fn notices(&self) -> Seq<Notice> {
        self.notices@
    }

    /// `after` is this clipboard once `owner` set `content`, where
    /// `live_owners` and `live_observers` are the handles that still referred
    /// to an object when the call began.
    pub open spec fn sets_contents(
        &self,
        after: Clipboard<T>,
        content: T,
        owner: Handle,
        live_owners: Set<Handle>,
        live_observers: Set<Handle>,
    ) -> bool {
        &&& after.name() == self.name()
        &&& after.content() == Some(content)
        &&& after.owner() == Some(owner)
        &&& after.listeners() == self.listeners()
        &&& after.epoch() == self.epoch() + 1
        &&& after.notices() == self.notices() + owner_notices(
            self.owner(),
            owner,
            live_owners,
            self.epoch(),
        ) + change_notices(self.listeners(), live_observers, self.epoch() + 1)
    }
}

impl<T: Transferable> Clipboard<T> {
    /// The formats that the clipboard offers: those of its content, none
    /// while it is empty.
    pub open spec fn data_flavours(&self) -> Seq<Seq<char>> {
        match self.content() {
            Some(c) => c.flavours(),
            None => Seq::empty(),
        }
    }

    /// What asking whether `flavour` is offered gives.
    pub open spec fn flavour_available(&self, flavour: Seq<char>) -> Result<bool, NoDataError> {
        match self.content() {
            Some(c) => Ok(c.supports(flavour)),
            None => Err(NoDataError {}),
        }
    }

    /// What asking for the payload of `flavour` gives.
    pub open spec fn data_for(&self, flavour: Seq<char>) -> Result<Option<Seq<u8>>, NoDataError> {
        match self.content() {
            Some(c) => Ok(c.data(flavour)),
            None => Err(NoDataError {}),
        }
    }
}

broadcast use crate::registry::handle_view_injective;

impl<T: Transferable> Clipboard<T> {
    /// An empty clipboard with no owner and no observers.
    pub fn new(name: String) -> (r: Clipboard<T>)
        ensures
            r.name() == name@,
            r.owner() is None,
            r.content() is None,
            r.listeners() == Seq::<Handle>::empty(),
            r.epoch() == 0,
            r.notices() == Seq::<Notice>::empty(),
    {
        Clipboard {
            name,
            owner: None,
            content: None,
            listeners: Vec::new(),
            epoch: Ghost(0),
            notices: Ghost(Seq::empty()),
        }
    }

    /// The clipboard's name.
    pub fn get_name(&self) -> (r: &str)
        ensures
            r@ == self.name(),
    {
        self.name.as_str()
    }

    /// Installs `content` with `owner` as its owner.
    ///
    /// Where the registered owner is still live and is `owner` itself, it is
    /// first told that it lost ownership, before anything changes. Then the
    /// content and owner are replaced, and each live observer is told of the
    /// change, in registration order.
    pub fn set_contents<O: ClipboardOwner<T>, B: ClipboardObserver>(
        &mut self,
        content: T,
        owner: Handle,
        owners: &mut Registry<O>,
        observers: &mut Registry<B>,
    )
        ensures
            old(self).sets_contents(
                *final(self),
                content,
                owner,
                old(owners).live_set(),
                old(observers).live_set(),
            ),
            owner_told(
                *old(owners),
                *final(owners),
                old(self).owner(),
                owner,
                old(self).content(),
                content,
            ),
            observers_told(*old(observers), *final(observers), old(self).listeners()),
    {
        let ghost start_owners = *owners;
        if let Some(old_owner) = self.owner {
            if old_owner == owner && owners.is_live(old_owner) {
                let mut o = owners.take(old_owner);
                o.lost_ownership(&*self, Some(&content));
                owners.restore(old_owner, o);
                proof {
                    self.notices@ = self.notices@.push(
                        Notice::LostOwnership { owner: old_owner, epoch: self.epoch@ },
                    );
                }
            }
        }
        assert(owners.same_handles(&start_owners));
        assert(owners.live_set() =~= start_owners.live_set());
        self.content = Some(content);
        self.owner = Some(owner);
        proof {
            self.epoch@ = self.epoch@ + 1;
        }
        let ghost mid = self.notices@;
        self.fire_flavor_change(observers);
        assert(mid =~= old(self).notices() + owner_notices(
            old(self).owner(),
            owner,
            start_owners.live_set(),
            old(self).epoch(),
        ));
    }

    /// The current content, or `None` while the clipboard is empty.
    pub fn get_contents(&self) -> (r: Option<&T>)
        ensures
            r == (match self.content() {
                Some(c) => Some(&c),
                None => None::<&T>,
            }),
    {
        match &self.content {
            None => None,
            Some(c) => Some(c),
        }
    }

    /// The formats of the current content in the order it gives them; none
    /// while the clipboard is empty.
    pub fn available_data_flavours(&self) -> (r: &[Flavour])
        ensures
            crate::transfer::flavour_texts(r@) == self.data_flavours(),
    {
        match &self.content {
            None => {
                let r: &[Flavour] = &[];
                assert(crate::transfer::flavour_texts(r@) =~= self.data_flavours());
                r
            },
            Some(c) => c.get_data_flavours(),
        }
    }

    /// Whether the current content is offered as `flavour`; an error while
    /// the clipboard is empty.
    pub fn is_data_flavour_available(&self, flavour: &Flavour) -> (r: Result<bool, NoDataError>)
        ensures
            r == self.flavour_available(flavour@),
    {
        match &self.content {
            None => Err(NoDataError {}),
            Some(c) => Ok(c.is_flavour_supported(flavour)),
        }
    }

    /// The payload of the current content for `flavour`: `Ok(None)` where the
    /// content is not offered in that format, an error while the clipboard is
    /// empty.
    pub fn get_data(&self, flavour: &Flavour) -> (r: Result<Option<&[u8]>, NoDataError>)
        ensures
            r is Err ==> r == Err::<Option<&[u8]>, NoDataError>(NoDataError {}),
            match r {
                Ok(b) => self.data_for(flavour@) == Ok::<Option<Seq<u8>>, NoDataError>(
                    crate::transfer::payload(b),
                ),
                Err(e) => self.data_for(flavour@) == Err::<Option<Seq<u8>>, NoDataError>(e),
            },
    {
        match &self.content {
            None => Err(NoDataError {}),
            Some(c) => Ok(c.get_data(flavour)),
        }
    }

    /// Registers `callback` to be told of each change; a handle registered
    /// twice is told twice.
    pub fn register_change_callback(&mut self, callback: Handle)
        ensures
            final(self).listeners() == old(self).listeners().push(callback),
            final(self).name() == old(self).name(),
            final(self).content() == old(self).content(),
            final(self).owner() == old(self).owner(),
            final(self).epoch() == old(self).epoch(),
            final(self).notices() == old(self).notices(),
    {
        self.listeners.push(callback);
    }

    /// Removes every registration of `callback`, together with every
    /// registration whose object is gone.
    pub fn unregister_change_callback<B>(&mut self, callback: Handle, observers: &Registry<B>)
        ensures
            final(self).listeners() == kept_listeners(
                old(self).listeners(),
                observers.live_set(),
                callback,
            ),
            final(self).name() == old(self).name(),
            final(self).content() == old(self).content(),
            final(self).owner() == old(self).owner(),
            final(self).epoch() == old(self).epoch(),
            final(self).notices() == old(self).notices(),
    {
        let mut kept: Vec<Handle> = Vec::new();
        let mut i: usize = 0;
        while i < self.listeners.len()
            invariant
                i <= self.listeners@.len(),
                kept@ == kept_listeners(self.listeners@.take(i as int), observers.live_set(), callback),
            decreases self.listeners@.len() - i,
        {
            let h = self.listeners[i];
            assert(self.listeners@.take(i as int + 1).drop_last() =~= self.listeners@.take(i as int));
            if observers.is_live(h) && h != callback {
                kept.push(h);
            }
            i = i + 1;
        }
        assert(self.listeners@.take(i as int) =~= self.listeners@);
        self.listeners = kept;
    }

    /// Tells each live observer that the content changed.
    fn fire_flavor_change<B: ClipboardObserver>(&mut self, observers: &mut Registry<B>)
        ensures
            *final(self) == (Clipboard::<T> {
                notices: Ghost(
                    old(self).notices() + change_notices(
                        old(self).listeners(),
                        old(observers).live_set(),
                        old(self).epoch(),
                    ),
                ),
                ..*old(self)
            }),
            observers_told(*old(observers), *final(observers), old(self).listeners()),
    {
        let ghost start = *observers;
        let ghost start_notices = self.notices@;
        let mut i: usize = 0;
        while i < self.listeners.len()
            invariant
                i <= self.listeners@.len(),
                self.name == old(self).name,
                self.owner == old(self).owner,
                self.content == old(self).content,
                self.listeners == old(self).listeners,
                self.epoch == old(self).epoch,
                start == *old(observers),
                start_notices == old(self).notices@,
                observers.same_handles(&start),
                forall|g: Handle|
                    start.live(g) ==> #[trigger] observers.object(g).changes() == start.object(g).changes()
                        + occurrences(self.listeners@.take(i as int), g),
                self.notices@ == start_notices + change_notices(
                    self.listeners@.take(i as int),
                    start.live_set(),
                    self.epoch@,
                ),
                forall|h: Handle|
                    !self.listeners@.contains(h) && start.live(h)
                        ==> #[trigger] observers.object(h) == start.object(h),
            decreases self.listeners@.len() - i,
        {
            let h = self.listeners[i];
            assert(self.listeners@.take(i as int + 1).drop_last() =~= self.listeners@.take(i as int));
            let ghost pre = *observers;
            if observers.is_live(h) {
                let mut b = observers.take(h);
                b.clipboard_changed();
                observers.restore(h, b);
                assert(self.listeners@.contains(h));
                assert forall|g: Handle|
                    !self.listeners@.contains(g) && start.live(g) implies #[trigger] observers.object(g)
                        == start.object(g) by {
                    assert(g != h);
                    assert(g@ != h@);
                    assert(observers@[g@ as int] == pre@[g@ as int]);
                    assert(pre.object(g) == start.object(g));
                }
                assert forall|g: Handle| g != h && pre.live(g) implies #[trigger] observers.object(g)
                    == pre.object(g) by {
                    assert(g@ != h@);
                }
            }
            assert(self.listeners@.take(i as int + 1).last() == h);
            proof {
                assert(observers.live(h) == start.live(h));
                if start.live(h) {
                    self.notices@ = self.notices@.push(Notice::Changed { observer: h, epoch: self.epoch@ });
                }
                assert(self.notices@ =~= start_notices + change_notices(
                    self.listeners@.take(i as int + 1),
                    start.live_set(),
                    self.epoch@,
                ));
            }
            i = i + 1;
        }
        assert(self.listeners@.take(i as int) =~= self.listeners@);
    }
}

} // verus!
