//! Properties of the clipboard protocol that hold across its operations.
use crate::clipboard::{
    change_notices, kept_listeners, occurrences, observers_told, owner_told, Clipboard,
    ClipboardObserver, ClipboardOwner, Notice,
};
use crate::error::NoDataError;
use crate::registry::{Handle, Registry};
use crate::transfer::Transferable;
use vstd::prelude::*;

verus! {

/// How many change notifications of `ns` went to `h`.
pub open spec fn changes_to(ns: Seq<Notice>, h: Handle) -> nat
    decreases ns.len(),
{
    if ns.len() == 0 {
        0
    } else {
        changes_to(ns.drop_last(), h) + match ns.last() {
            Notice::Changed { observer, .. } => if observer == h { 1nat } else { 0nat },
            _ => 0nat,
        }
    }
}

/// How many ownership-loss notifications of `ns` went to `h`.
pub open spec fn losses_to(ns: Seq<Notice>, h: Handle) -> nat
    decreases ns.len(),
{
    if ns.len() == 0 {
        0
    } else {
        losses_to(ns.drop_last(), h) + match ns.last() {
            Notice::LostOwnership { owner, .. } => if owner == h { 1nat } else { 0nat },
            _ => 0nat,
        }
    }
}

proof fn lemma_changes_to_append(a: Seq<Notice>, b: Seq<Notice>, h: Handle)
    ensures
        changes_to(a + b, h) == changes_to(a, h) + changes_to(b, h),
    decreases b.len(),
{
    if b.len() > 0 {
        assert((a + b).drop_last() =~= a + b.drop_last());
        lemma_changes_to_append(a, b.drop_last(), h);
    } else {
        assert(a + b =~= a);
    }
}

proof fn lemma_losses_to_append(a: Seq<Notice>, b: Seq<Notice>, h: Handle)
    ensures
        losses_to(a + b, h) == losses_to(a, h) + losses_to(b, h),
    decreases b.len(),
{
    if b.len() > 0 {
        assert((a + b).drop_last() =~= a + b.drop_last());
        lemma_losses_to_append(a, b.drop_last(), h);
    } else {
        assert(a + b =~= a);
    }
}

proof fn lemma_change_notices_counts(ls: Seq<Handle>, live: Set<Handle>, epoch: nat, h: Handle)
    ensures
        changes_to(change_notices(ls, live, epoch), h) == if live.contains(h) {
            occurrences(ls, h)
        } else {
            0
        },
        losses_to(change_notices(ls, live, epoch), h) == 0,
    decreases ls.len(),
{
    if ls.len() > 0 {
        lemma_change_notices_counts(ls.drop_last(), live, epoch, h);
        let rest = change_notices(ls.drop_last(), live, epoch);
        if live.contains(ls.last()) {
            let n = Notice::Changed { observer: ls.last(), epoch };
            assert(rest.push(n).drop_last() =~= rest);
        }
    }
}

/// A clipboard that has just been made is empty: it has no content, offers
/// no format, and reading any format fails with `NoDataError`.
pub proof fn lemma_new_clipboard_is_empty<T: Transferable>(c: Clipboard<T>, flavour: Seq<char>)
    requires
        c.content() is None,
        c.owner() is None,
        c.listeners().len() == 0,
    ensures
        c.data_flavours() == Seq::<Seq<char>>::empty(),
        c.data_for(flavour) == Err::<Option<Seq<u8>>, NoDataError>(NoDataError {}),
        c.flavour_available(flavour) == Err::<bool, NoDataError>(NoDataError {}),
{
}

/// Once `owner` sets `content`, the clipboard holds exactly that content,
/// offers its formats in its order, and answers each format with the
/// content's own payload.
pub proof fn lemma_set_then_read<T: Transferable>(
    before: Clipboard<T>,
    after: Clipboard<T>,
    content: T,
    owner: Handle,
    live_owners: Set<Handle>,
    live_observers: Set<Handle>,
    flavour: Seq<char>,
)
    requires
        before.sets_contents(after, content, owner, live_owners, live_observers),
    ensures
        after.content() == Some(content),
        after.data_flavours() == content.flavours(),
        after.data_for(flavour) == Ok::<Option<Seq<u8>>, NoDataError>(content.data(flavour)),
{
}

/// When the registered owner sets content again while it is still live, it
/// is told exactly once that it lost ownership, and that notification comes
/// first, while the previous content is still in place; no other owner is
/// told.
pub proof fn lemma_same_owner_told_once<T: Transferable>(
    before: Clipboard<T>,
    after: Clipboard<T>,
    content: T,
    owner: Handle,
    live_owners: Set<Handle>,
    live_observers: Set<Handle>,
)
    requires
        before.sets_contents(after, content, owner, live_owners, live_observers),
        before.owner() == Some(owner),
        live_owners.contains(owner),
    ensures
        after.notices()[before.notices().len() as int] == (Notice::LostOwnership {
            owner,
            epoch: before.epoch(),
        }),
        losses_to(after.notices(), owner) == losses_to(before.notices(), owner) + 1,
        forall|g: Handle| g != owner ==> losses_to(after.notices(), g) == losses_to(before.notices(), g),
{
    let lost = seq![Notice::LostOwnership { owner, epoch: before.epoch() }];
    let changes = change_notices(before.listeners(), live_observers, before.epoch() + 1);
    assert(after.notices() == before.notices() + lost + changes);
    assert(lost.drop_last() =~= Seq::<Notice>::empty());
    assert forall|g: Handle| losses_to(after.notices(), g) == losses_to(before.notices(), g) + losses_to(lost, g) by {
        lemma_losses_to_append(before.notices() + lost, changes, g);
        lemma_losses_to_append(before.notices(), lost, g);
        lemma_change_notices_counts(before.listeners(), live_observers, before.epoch() + 1, g);
    }
    reveal_with_fuel(losses_to, 2);
    assert(losses_to(lost, owner) == 1);
    assert forall|g: Handle| g != owner implies losses_to(lost, g) == 0 by {}
}

/// When an owner other than the registered one sets content, no owner is
/// told that it lost ownership.
pub proof fn lemma_other_owner_not_told<T: Transferable>(
    before: Clipboard<T>,
    after: Clipboard<T>,
    content: T,
    owner: Handle,
    live_owners: Set<Handle>,
    live_observers: Set<Handle>,
)
    requires
        before.sets_contents(after, content, owner, live_owners, live_observers),
        before.owner() != Some(owner),
    ensures
        forall|g: Handle| losses_to(after.notices(), g) == losses_to(before.notices(), g),
{
    let changes = change_notices(before.listeners(), live_observers, before.epoch() + 1);
    assert(after.notices() =~= before.notices() + changes);
    assert forall|g: Handle| losses_to(after.notices(), g) == losses_to(before.notices(), g) by {
        lemma_losses_to_append(before.notices(), changes, g);
        lemma_change_notices_counts(before.listeners(), live_observers, before.epoch() + 1, g);
    }
}

/// Setting content tells each live observer once for each time it is
/// registered, and an observer that is not registered not at all.
pub proof fn lemma_observer_told_per_registration<T: Transferable>(
    before: Clipboard<T>,
    after: Clipboard<T>,
    content: T,
    owner: Handle,
    live_owners: Set<Handle>,
    live_observers: Set<Handle>,
    observer: Handle,
)
    requires
        before.sets_contents(after, content, owner, live_owners, live_observers),
        live_observers.contains(observer),
    ensures
        changes_to(after.notices(), observer) == changes_to(before.notices(), observer)
            + occurrences(before.listeners(), observer),
{
    let lost = crate::clipboard::owner_notices(before.owner(), owner, live_owners, before.epoch());
    let changes = change_notices(before.listeners(), live_observers, before.epoch() + 1);
    lemma_changes_to_append(before.notices() + lost, changes, observer);
    lemma_changes_to_append(before.notices(), lost, observer);
    lemma_change_notices_counts(before.listeners(), live_observers, before.epoch() + 1, observer);
    if lost.len() > 0 {
        assert(lost.drop_last() =~= Seq::<Notice>::empty());
        reveal_with_fuel(changes_to, 2);
    }
    assert(changes_to(lost, observer) == 0);
    assert(after.notices() == before.notices() + lost + changes);
}

/// Unregistering removes every registration of the given observer and of
/// every observer that is gone, and keeps the others in their order; an
/// observer no longer registered is then told of no change.
pub proof fn lemma_unregister_purges(ls: Seq<Handle>, live: Set<Handle>, gone: Handle, h: Handle)
    ensures
        kept_listeners(ls, live, gone).contains(h) <==> (ls.contains(h) && live.contains(h) && h != gone),
        occurrences(kept_listeners(ls, live, gone), gone) == 0,
        forall|epoch: nat| changes_to(change_notices(kept_listeners(ls, live, gone), live, epoch), gone) == 0,
    decreases ls.len(),
{
    if ls.len() > 0 {
        lemma_unregister_purges(ls.drop_last(), live, gone, h);
        let rest = kept_listeners(ls.drop_last(), live, gone);
        if live.contains(ls.last()) && ls.last() != gone {
            assert(rest.push(ls.last()).drop_last() =~= rest);
            assert(rest.push(ls.last()).last() == ls.last());
        }
        if ls.contains(h) && !ls.drop_last().contains(h) {
            let i = choose|i: int| 0 <= i < ls.len() && ls[i] == h;
            if i < ls.len() - 1 {
                assert(ls.drop_last()[i] == h);
            }
        }
        if ls.drop_last().contains(h) {
            let i = choose|i: int| 0 <= i < ls.drop_last().len() && ls.drop_last()[i] == h;
            assert(ls[i] == h);
        }
        if rest.push(ls.last()).contains(h) && !rest.contains(h) && live.contains(ls.last()) && ls.last() != gone {
            let i = choose|i: int| 0 <= i < rest.len() + 1 && rest.push(ls.last())[i] == h;
            if i < rest.len() {
                assert(rest[i] == h);
            }
        }
        if rest.contains(h) {
            let i = choose|i: int| 0 <= i < rest.len() && rest[i] == h;
            assert(rest.push(ls.last())[i] == h);
        }
        assert(ls[ls.len() - 1] == ls.last());
    }
    assert forall|epoch: nat| changes_to(change_notices(kept_listeners(ls, live, gone), live, epoch), gone) == 0 by {
        lemma_change_notices_counts(kept_listeners(ls, live, gone), live, epoch, gone);
    }
}

/// When the registered owner sets content again while it is still live, its
/// object is told exactly once, and what it is told is the content the
/// clipboard held before the change together with the new content.
pub proof fn lemma_same_owner_object_told_once<T, O: ClipboardOwner<T>>(
    before: Registry<O>,
    after: Registry<O>,
    owner: Handle,
    was: Option<T>,
    content: T,
)
    requires
        owner_told(before, after, Some(owner), owner, was, content),
        before.live(owner),
    ensures
        after.live(owner),
        after.object(owner).losses().len() == before.object(owner).losses().len() + 1,
        after.object(owner).losses().last() == (was, Some(content)),
        after.object(owner).losses().drop_last() == before.object(owner).losses(),
        forall|h: Handle| h != owner && before.live(h) ==> after.object(h) == before.object(h),
{
    assert(after@[owner@ as int] is Some);
    assert(after.object(owner).losses().drop_last() =~= before.object(owner).losses());
}

/// When an owner other than the registered one sets content, no owner
/// object is touched: the previous owner is not told.
pub proof fn lemma_other_owner_object_untouched<T, O: ClipboardOwner<T>>(
    before: Registry<O>,
    after: Registry<O>,
    registered: Option<Handle>,
    owner: Handle,
    was: Option<T>,
    content: T,
    h: Handle,
)
    requires
        owner_told(before, after, registered, owner, was, content),
        registered != Some(owner),
        before.live(h),
    ensures
        after.live(h),
        after.object(h) == before.object(h),
{
    assert(after@[h@ as int] is Some);
}

/// An observer registered once is told exactly once when content is set.
pub proof fn lemma_observer_object_told_once<B: ClipboardObserver>(
    before: Registry<B>,
    after: Registry<B>,
    ls: Seq<Handle>,
    observer: Handle,
)
    requires
        observers_told(before, after, ls),
        before.live(observer),
        occurrences(ls, observer) == 1,
    ensures
        after.object(observer).changes() == before.object(observer).changes() + 1,
{
}

/// An observer that was unregistered is not told when content is set
/// afterwards: its object is left as it was.
pub proof fn lemma_unregistered_observer_untouched<B: ClipboardObserver>(
    before: Registry<B>,
    after: Registry<B>,
    ls: Seq<Handle>,
    live: Set<Handle>,
    observer: Handle,
)
    requires
        observers_told(before, after, kept_listeners(ls, live, observer)),
        before.live(observer),
    ensures
        after.object(observer) == before.object(observer),
{
    lemma_unregister_purges(ls, live, observer, observer);
}

} // verus!
