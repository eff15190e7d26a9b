use vstd::prelude::*;
use vstd::pervasive::VecAdditionalExecFns;

use crate::item::Item;
use crate::item::Label;
use crate::item::name_set;
use crate::item::new_item;
use crate::item::with_completion_date;
use crate::item::with_due_date;
use crate::item::with_labels;

verus! {

/// An opaque reference to one record owned by an `ItemStore`. A handle is a
/// plain value: copying it does not copy the record, and a handle stays the
/// caller's proof of an allocation until the matching destroy call.
#[derive(Clone, Copy, Debug, PartialEq, Eq, Structural)]
pub struct ItemHandle {
    pub id: usize,
}

/// An opaque reference to an exported copy of a label sequence.
#[derive(Clone, Copy, Debug, PartialEq, Eq, Structural)]
pub struct LabelSeqHandle {
    pub id: usize,
}

/// An opaque reference to an exported copy of a single label.
#[derive(Clone, Copy, Debug, PartialEq, Eq, Structural)]
pub struct LabelHandle {
    pub id: usize,
}

/// The detectable faults of the boundary. Absence of a date is not an error
/// and is never reported here; it travels as `None` in the value itself.
#[derive(Clone, Copy, Debug, PartialEq, Eq, Structural)]
pub enum AccessError {
    /// The handle was never produced by this store, or was already destroyed.
    InvalidHandle,
    /// A label index at or past the end of the sequence.
    IndexOutOfBounds,
}

/// The handle table. Every allocation a caller can hold a handle to lives in
/// one of three slots tables; a destroyed slot is `None` and its index is
/// never reused, so a stale handle is recognized instead of reading freed
/// memory.
pub struct ItemStore {
    items: Vec<Option<Item>>,
    label_seqs: Vec<Option<Vec<Label>>>,
    labels: Vec<Option<Label>>,
}

impl ItemStore {
    /// The item slots: one entry per handle ever produced, `None` once
    /// destroyed.
    pub closed spec fn items_view(self) -> Seq<Option<Item>> {
        self.items@
    }

    /// The exported label-sequence slots.
    pub closed spec fn label_seqs_view(self) -> Seq<Option<Vec<Label>>> {
        self.label_seqs@
    }

    /// The exported single-label slots.
    pub closed spec fn labels_view(self) -> Seq<Option<Label>> {
        self.labels@
    }

    /// `h` refers to a live (created and not yet destroyed) record.
    pub open spec fn item_live(self, h: ItemHandle) -> bool {
        h.id < self.items_view().len() && self.items_view()[h.id as int] is Some
    }

    /// The record behind a live item handle.
    pub open spec fn item_at(self, h: ItemHandle) -> Item
        recommends
            self.item_live(h),
    {
        self.items_view()[h.id as int]->0
    }

    /// `sh` refers to a live exported label sequence.
    pub open spec fn seq_live(self, sh: LabelSeqHandle) -> bool {
        sh.id < self.label_seqs_view().len() && self.label_seqs_view()[sh.id as int] is Some
    }

    /// The labels behind a live sequence handle.
    pub open spec fn seq_at(self, sh: LabelSeqHandle) -> Seq<Label>
        recommends
            self.seq_live(sh),
    {
        self.label_seqs_view()[sh.id as int]->0@
    }

    /// `lh` refers to a live exported label.
    pub open spec fn label_live(self, lh: LabelHandle) -> bool {
        lh.id < self.labels_view().len() && self.labels_view()[lh.id as int] is Some
    }

    /// The label behind a live label handle.
    pub open spec fn label_at(self, lh: LabelHandle) -> Label
        recommends
            self.label_live(lh),
    {
        self.labels_view()[lh.id as int]->0
    }

    /// An empty store: no handle of any kind is live.
    pub fn new() -> (store: ItemStore)
        ensures
            store.items_view() == Seq::<Option<Item>>::empty(),
            store.label_seqs_view() == Seq::<Option<Vec<Label>>>::empty(),
            store.labels_view() == Seq::<Option<Label>>::empty(),
    {
        ItemStore { items: Vec::new(), label_seqs: Vec::new(), labels: Vec::new() }
    }
}

/// The item slots of `pre` and `post` agree everywhere but possibly at `i`.
pub open spec fn items_unchanged_except(pre: ItemStore, post: ItemStore, i: int) -> bool {
    &&& post.items_view().len() == pre.items_view().len()
    &&& forall|j: int|
        0 <= j < pre.items_view().len() && j != i ==> post.items_view()[j]
            == pre.items_view()[j]
}

/// No label-sequence or single-label slot changed.
pub open spec fn exports_unchanged(pre: ItemStore, post: ItemStore) -> bool {
    &&& post.label_seqs_view() == pre.label_seqs_view()
    &&& post.labels_view() == pre.labels_view()
}

/// No item slot changed.
pub open spec fn items_unchanged(pre: ItemStore, post: ItemStore) -> bool {
    post.items_view() == pre.items_view()
}

/// No slot of any kind changed: the call observed the store and left it
/// exactly as it was.
pub open spec fn store_unchanged(pre: ItemStore, post: ItemStore) -> bool {
    &&& items_unchanged(pre, post)
    &&& exports_unchanged(pre, post)
}

/// `post` is `pre` with the record behind `h` replaced by `item` and nothing
/// else touched: the frame of every single-record mutation.
pub open spec fn item_replaced(pre: ItemStore, post: ItemStore, h: ItemHandle, item: Item) -> bool {
    &&& post.item_live(h)
    &&& post.item_at(h) == item
    &&& items_unchanged_except(pre, post, h.id as int)
    &&& exports_unchanged(pre, post)
}

/// Takes the record behind `h` out of its slot, leaving the slot `None`.
/// Returns `None`, with the store unchanged, when `h` is not live.
fn item_take(store: &mut ItemStore, h: ItemHandle) -> (r: Option<Item>)
    ensures
        old(store).item_live(h) ==> {
            &&& r == Some(old(store).item_at(h))
            &&& final(store).items_view() == old(store).items_view().update(
                h.id as int,
                None::<Item>,
            )
        },
        !old(store).item_live(h) ==> r is None && store_unchanged(*old(store), *final(store)),
        exports_unchanged(*old(store), *final(store)),
{
    if h.id < store.items.len() {
        let mut slot: Option<Item> = None;
        store.items.set_and_swap(h.id, &mut slot);
        if slot.is_none() {
            proof {
                assert(store.items@ =~= old(store).items@);
            }
        }
        slot
    } else {
        None
    }
}

/// Puts `item` back into slot `h`, which must exist in the table.
fn item_put(store: &mut ItemStore, h: ItemHandle, item: Item)
    requires
        h.id < old(store).items_view().len(),
    ensures
        final(store).items_view() == old(store).items_view().update(h.id as int, Some(item)),
        exports_unchanged(*old(store), *final(store)),
{
    store.items.set(h.id, Some(item));
}

/// Allocates one new record at its defaults and transfers its ownership to
/// the caller as a fresh handle: never one that was live before, so no
/// destroyed handle comes back to life.
pub fn item_new(store: &mut ItemStore) -> (h: ItemHandle)
    ensures
        h.id == old(store).items_view().len(),
        !old(store).item_live(h),
        final(store).item_live(h),
        final(store).item_at(h).is_default(),
        final(store).items_view().len() == old(store).items_view().len() + 1,
        forall|j: int|
            0 <= j < old(store).items_view().len() ==> final(store).items_view()[j] == old(
                store,
            ).items_view()[j],
        exports_unchanged(*old(store), *final(store)),
{
    let h = ItemHandle { id: store.items.len() };
    let item = new_item();
    store.items.push(Some(item));
    proof {
        assert forall|j: int| 0 <= j < old(store).items_view().len() implies store.items@[j]
            == old(store).items_view()[j] by {
            assert(old(store).items@.push(Some(item))[j] == old(store).items@[j]);
        }
    }
    h
}

/// Releases the record behind `h`. The two tolerated no-ops of the boundary:
/// an absent handle (`None`) and a handle already destroyed both leave the
/// store exactly as it was; destroying a live handle empties its slot, whose
/// index is never handed out again.
pub fn item_destroy(store: &mut ItemStore, h: Option<ItemHandle>)
    ensures
        h is None ==> store_unchanged(*old(store), *final(store)),
        h is Some && !old(store).item_live(h->0) ==> store_unchanged(*old(store), *final(store)),
        h is Some && old(store).item_live(h->0) ==> {
            &&& final(store).items_view() == old(store).items_view().update(
                h->0.id as int,
                None::<Item>,
            )
            &&& exports_unchanged(*old(store), *final(store))
        },
        h is Some ==> !final(store).item_live(h->0),
{
    match h {
        None => {
        },
        Some(hh) => {
            let _ = item_take(store, hh);
        },
    }
}

/// A fresh copy of the name of the record behind `h`; the empty string where
/// no name was ever set. A dead handle is the detectable fault, not a read of
/// freed memory.
pub fn item_get_name(store: &ItemStore, h: ItemHandle) -> (r: Result<String, AccessError>)
    ensures
        store.item_live(h) ==> r is Ok && r->Ok_0@ == store.item_at(h).name@,
        !store.item_live(h) ==> r == Err::<String, AccessError>(AccessError::InvalidHandle),
{
    if h.id < store.items.len() {
        match &store.items[h.id] {
            Some(item) => Ok(item.get_name()),
            None => Err(AccessError::InvalidHandle),
        }
    } else {
        Err(AccessError::InvalidHandle)
    }
}

/// Replaces the name of the record behind `h` with what `name` decoded to
/// (`None`, a failed decode, degrades to the empty fallback). Nothing else in
/// the store changes.
pub fn item_set_name(store: &mut ItemStore, h: ItemHandle, name: Option<String>) -> (r: Result<
    (),
    AccessError,
>)
    ensures
        old(store).item_live(h) ==> {
            &&& r is Ok
            &&& name_set(old(store).item_at(h), final(store).item_at(h), name)
            &&& item_replaced(*old(store), *final(store), h, final(store).item_at(h))
        },
        !old(store).item_live(h) ==> r == Err::<(), AccessError>(AccessError::InvalidHandle)
            && store_unchanged(*old(store), *final(store)),
{
    match item_take(store, h) {
        Some(mut item) => {
            item.set_name(name);
            item_put(store, h, item);
            Ok(())
        },
        None => Err(AccessError::InvalidHandle),
    }
}

/// The due date of the record behind `h`: `Ok(Some(seconds))` when set,
/// `Ok(None)` — the explicit absent sentinel, distinct from any timestamp,
/// zero included — when not.
pub fn item_get_due_date(store: &ItemStore, h: ItemHandle) -> (r: Result<Option<i64>, AccessError>)
    ensures
        store.item_live(h) ==> r == Ok::<Option<i64>, AccessError>(store.item_at(h).due_date),
        !store.item_live(h) ==> r == Err::<Option<i64>, AccessError>(AccessError::InvalidHandle),
{
    if h.id < store.items.len() {
        match &store.items[h.id] {
            Some(item) => Ok(item.get_due_date()),
            None => Err(AccessError::InvalidHandle),
        }
    } else {
        Err(AccessError::InvalidHandle)
    }
}

/// Sets the due date of the record behind `h` verbatim — any seconds value,
/// zero and negative included — or clears it on `None`. The completion date
/// and every other field keep their values.
pub fn item_set_due_date(store: &mut ItemStore, h: ItemHandle, due: Option<i64>) -> (r: Result<
    (),
    AccessError,
>)
    ensures
        old(store).item_live(h) ==> r is Ok && item_replaced(
            *old(store),
            *final(store),
            h,
            with_due_date(old(store).item_at(h), due),
        ),
        !old(store).item_live(h) ==> r == Err::<(), AccessError>(AccessError::InvalidHandle)
            && store_unchanged(*old(store), *final(store)),
{
    match item_take(store, h) {
        Some(mut item) => {
            item.set_due_date(due);
            item_put(store, h, item);
            Ok(())
        },
        None => Err(AccessError::InvalidHandle),
    }
}

/// The completion date of the record behind `h`, under the same contract as
/// the due date.
pub fn item_get_completion_date(store: &ItemStore, h: ItemHandle) -> (r: Result<
    Option<i64>,
    AccessError,
>)
    ensures
        store.item_live(h) ==> r == Ok::<Option<i64>, AccessError>(
            store.item_at(h).completion_date,
        ),
        !store.item_live(h) ==> r == Err::<Option<i64>, AccessError>(AccessError::InvalidHandle),
{
    if h.id < store.items.len() {
        match &store.items[h.id] {
            Some(item) => Ok(item.get_completion_date()),
            None => Err(AccessError::InvalidHandle),
        }
    } else {
        Err(AccessError::InvalidHandle)
    }
}

/// Sets the completion date of the record behind `h` verbatim or clears it on
/// `None`. The due date and every other field keep their values.
pub fn item_set_completion_date(
    store: &mut ItemStore,
    h: ItemHandle,
    completion: Option<i64>,
) -> (r: Result<(), AccessError>)
    ensures
        old(store).item_live(h) ==> r is Ok && item_replaced(
            *old(store),
            *final(store),
            h,
            with_completion_date(old(store).item_at(h), completion),
        ),
        !old(store).item_live(h) ==> r == Err::<(), AccessError>(AccessError::InvalidHandle)
            && store_unchanged(*old(store), *final(store)),
{
    match item_take(store, h) {
        Some(mut item) => {
            item.set_completion_date(completion);
            item_put(store, h, item);
            Ok(())
        },
        None => Err(AccessError::InvalidHandle),
    }
}

/// Replaces the label sequence of the record behind `h` with the sequence the
/// owning collection built, in its order, duplicates kept.
pub fn item_set_labels(store: &mut ItemStore, h: ItemHandle, labels: Vec<Label>) -> (r: Result<
    (),
    AccessError,
>)
    ensures
        old(store).item_live(h) ==> r is Ok && item_replaced(
            *old(store),
            *final(store),
            h,
            with_labels(old(store).item_at(h), labels),
        ),
        !old(store).item_live(h) ==> r == Err::<(), AccessError>(AccessError::InvalidHandle)
            && store_unchanged(*old(store), *final(store)),
{
    match item_take(store, h) {
        Some(mut item) => {
            item.set_labels(labels);
            item_put(store, h, item);
            Ok(())
        },
        None => Err(AccessError::InvalidHandle),
    }
}

/// Exports the labels of the record behind `h` as a new, independently owned
/// copy under a fresh sequence handle, which the caller must release
/// separately. The record itself — every item slot — is untouched, so no
/// later operation on the copy can reach the record.
pub fn item_get_labels(store: &mut ItemStore, h: ItemHandle) -> (r: Result<
    LabelSeqHandle,
    AccessError,
>)
    ensures
        old(store).item_live(h) ==> {
            &&& r is Ok
            &&& r->Ok_0.id == old(store).label_seqs_view().len()
            &&& !old(store).seq_live(r->Ok_0)
            &&& final(store).seq_live(r->Ok_0)
            &&& final(store).seq_at(r->Ok_0) == old(store).item_at(h).labels@
            &&& items_unchanged(*old(store), *final(store))
            &&& final(store).labels_view() == old(store).labels_view()
            &&& final(store).label_seqs_view().len() == old(store).label_seqs_view().len() + 1
            &&& forall|j: int|
                0 <= j < old(store).label_seqs_view().len() ==> final(store).label_seqs_view()[j]
                    == old(store).label_seqs_view()[j]
        },
        !old(store).item_live(h) ==> r == Err::<LabelSeqHandle, AccessError>(
            AccessError::InvalidHandle,
        ) && store_unchanged(*old(store), *final(store)),
{
    if h.id < store.items.len() {
        match &store.items[h.id] {
            Some(item) => {
                let copy = item.labels_clone();
                let sh = LabelSeqHandle { id: store.label_seqs.len() };
                store.label_seqs.push(Some(copy));
                Ok(sh)
            },
            None => Err(AccessError::InvalidHandle),
        }
    } else {
        Err(AccessError::InvalidHandle)
    }
}

/// The number of labels behind a live sequence handle: exactly the length of
/// the sequence as it was copied out.
pub fn item_labels_count(store: &ItemStore, sh: LabelSeqHandle) -> (r: Result<usize, AccessError>)
    ensures
        store.seq_live(sh) ==> r is Ok && r->Ok_0 == store.seq_at(sh).len(),
        !store.seq_live(sh) ==> r == Err::<usize, AccessError>(AccessError::InvalidHandle),
{
    if sh.id < store.label_seqs.len() {
        match &store.label_seqs[sh.id] {
            Some(labels) => Ok(labels.len()),
            None => Err(AccessError::InvalidHandle),
        }
    } else {
        Err(AccessError::InvalidHandle)
    }
}

/// Exports an independently owned copy of the label at `index` under a fresh
/// label handle. An index at or past the count is the detectable bounds
/// fault: it returns `IndexOutOfBounds` and never adjacent data.
pub fn item_label_at(store: &mut ItemStore, sh: LabelSeqHandle, index: usize) -> (r: Result<
    LabelHandle,
    AccessError,
>)
    ensures
        old(store).seq_live(sh) && index < old(store).seq_at(sh).len() ==> {
            &&& r is Ok
            &&& r->Ok_0.id == old(store).labels_view().len()
            &&& !old(store).label_live(r->Ok_0)
            &&& final(store).label_live(r->Ok_0)
            &&& final(store).label_at(r->Ok_0) == old(store).seq_at(sh)[index as int]
            &&& items_unchanged(*old(store), *final(store))
            &&& final(store).label_seqs_view() == old(store).label_seqs_view()
            &&& final(store).labels_view().len() == old(store).labels_view().len() + 1
            &&& forall|j: int|
                0 <= j < old(store).labels_view().len() ==> final(store).labels_view()[j]
                    == old(store).labels_view()[j]
        },
        old(store).seq_live(sh) && index >= old(store).seq_at(sh).len() ==> r == Err::<
            LabelHandle,
            AccessError,
        >(AccessError::IndexOutOfBounds) && store_unchanged(*old(store), *final(store)),
        !old(store).seq_live(sh) ==> r == Err::<LabelHandle, AccessError>(
            AccessError::InvalidHandle,
        ) && store_unchanged(*old(store), *final(store)),
{
    if sh.id < store.label_seqs.len() {
        match &store.label_seqs[sh.id] {
            Some(labels) => {
                if index < labels.len() {
                    let label = labels[index].clone();
                    let lh = LabelHandle { id: store.labels.len() };
                    store.labels.push(Some(label));
                    Ok(lh)
                } else {
                    Err(AccessError::IndexOutOfBounds)
                }
            },
            None => Err(AccessError::InvalidHandle),
        }
    } else {
        Err(AccessError::InvalidHandle)
    }
}

/// The value behind a live label handle, as a fresh copy: the clone-and-export
/// accessor through which a caller reads an exported label.
pub fn label_get(store: &ItemStore, lh: LabelHandle) -> (r: Result<Label, AccessError>)
    ensures
        store.label_live(lh) ==> r is Ok && r->Ok_0 == store.label_at(lh),
        !store.label_live(lh) ==> r == Err::<Label, AccessError>(AccessError::InvalidHandle),
{
    if lh.id < store.labels.len() {
        match &store.labels[lh.id] {
            Some(label) => Ok(label.clone()),
            None => Err(AccessError::InvalidHandle),
        }
    } else {
        Err(AccessError::InvalidHandle)
    }
}

/// Releases an exported label sequence, under the same tolerances as
/// `item_destroy`: an absent or already-destroyed handle is a safe no-op. No
/// item slot is touched — releasing the copy cannot reach the record it was
/// copied from.
pub fn label_seq_destroy(store: &mut ItemStore, sh: Option<LabelSeqHandle>)
    ensures
        sh is None ==> store_unchanged(*old(store), *final(store)),
        sh is Some && !old(store).seq_live(sh->0) ==> store_unchanged(*old(store), *final(store)),
        sh is Some && old(store).seq_live(sh->0) ==> {
            &&& final(store).label_seqs_view() == old(store).label_seqs_view().update(
                sh->0.id as int,
                None::<Vec<Label>>,
            )
            &&& items_unchanged(*old(store), *final(store))
            &&& final(store).labels_view() == old(store).labels_view()
        },
        sh is Some ==> !final(store).seq_live(sh->0),
{
    match sh {
        None => {
        },
        Some(shh) => {
            if shh.id < store.label_seqs.len() {
                let mut slot: Option<Vec<Label>> = None;
                store.label_seqs.set_and_swap(shh.id, &mut slot);
                if slot.is_none() {
                    proof {
                        assert(store.label_seqs@ =~= old(store).label_seqs@);
                    }
                }
            }
        },
    }
}

/// Releases an exported label, under the same tolerances as `item_destroy`:
/// an absent or already-destroyed handle is a safe no-op.
pub fn label_destroy(store: &mut ItemStore, lh: Option<LabelHandle>)
    ensures
        lh is None ==> store_unchanged(*old(store), *final(store)),
        lh is Some && !old(store).label_live(lh->0) ==> store_unchanged(*old(store), *final(store)),
        lh is Some && old(store).label_live(lh->0) ==> {
            &&& final(store).labels_view() == old(store).labels_view().update(
                lh->0.id as int,
                None::<Label>,
            )
            &&& items_unchanged(*old(store), *final(store))
            &&& final(store).label_seqs_view() == old(store).label_seqs_view()
        },
        lh is Some ==> !final(store).label_live(lh->0),
{
    match lh {
        None => {
        },
        Some(lhh) => {
            if lhh.id < store.labels.len() {
                let mut slot: Option<Label> = None;
                store.labels.set_and_swap(lhh.id, &mut slot);
                if slot.is_none() {
                    proof {
                        assert(store.labels@ =~= old(store).labels@);
                    }
                }
            }
        },
    }
}

} // verus!
