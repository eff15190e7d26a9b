use vstd::prelude::*;

use crate::item::Item;
use crate::item::name_set;
use crate::item::with_completion_date;
use crate::item::with_due_date;
use crate::store::ItemHandle;
use crate::store::ItemStore;
use crate::store::LabelSeqHandle;
use crate::store::item_replaced;
use crate::store::items_unchanged;

verus! {

/// Round trip of the name: after a name-setting call, the name a reader
/// observes is the string that was set; when the input failed decoding
/// (`None`), the observed name is the empty-string fallback, never a fault.
pub proof fn lemma_name_round_trip(pre: Item, post: Item, name: Option<String>)
    requires
        name_set(pre, post, name),
    ensures
        name is Some ==> post.name@ == name->0@,
        name is None ==> post.name@ == Seq::<char>::empty(),
{
}

/// Round trip of a date: after setting the due date to any timestamp `due` —
/// `Some` of any seconds value, zero and negative included, or the absent
/// `None` — reading it back observes exactly `due`.
pub proof fn lemma_date_round_trip(item: Item, due: Option<i64>, completion: Option<i64>)
    ensures
        with_due_date(item, due).due_date == due,
        with_completion_date(item, completion).completion_date == completion,
{
}

/// Independence of the two dates: setting the due date never changes the
/// completion date, and setting the completion date never changes the due
/// date — nor does either touch the name, the labels or the reserved uuid.
pub proof fn lemma_date_independence(item: Item, due: Option<i64>, completion: Option<i64>)
    ensures
        with_due_date(item, due).completion_date == item.completion_date,
        with_due_date(item, due).name == item.name,
        with_due_date(item, due).labels == item.labels,
        with_due_date(item, due).uuid == item.uuid,
        with_completion_date(item, completion).due_date == item.due_date,
        with_completion_date(item, completion).name == item.name,
        with_completion_date(item, completion).labels == item.labels,
        with_completion_date(item, completion).uuid == item.uuid,
        with_completion_date(with_due_date(item, due), completion).due_date == due,
        with_due_date(with_completion_date(item, completion), due).completion_date == completion,
{
}

/// Destroying a handle twice leaves the slot table exactly as the first
/// destroy left it: emptying a slot is idempotent, so the second destroy of
/// the same handle is a safe no-op.
pub proof fn lemma_destroy_idempotent(slots: Seq<Option<Item>>, i: int)
    requires
        0 <= i < slots.len(),
    ensures
        slots.update(i, None::<Item>).update(i, None::<Item>) == slots.update(i, None::<Item>),
{
    assert(slots.update(i, None::<Item>).update(i, None::<Item>) =~= slots.update(
        i,
        None::<Item>,
    ));
}

/// An exported label sequence is a copy: any mutation of any record — any
/// store transition of the `item_replaced` shape, which every setter ensures
/// — leaves every live exported sequence live, with exactly the labels it was
/// copied with.
pub proof fn lemma_export_survives_record_mutation(
    pre: ItemStore,
    post: ItemStore,
    h: ItemHandle,
    item: Item,
    sh: LabelSeqHandle,
)
    requires
        item_replaced(pre, post, h, item),
        pre.seq_live(sh),
    ensures
        post.seq_live(sh),
        post.seq_at(sh) == pre.seq_at(sh),
{
}

/// The record is independent of its exported copies: any operation that
/// leaves the item slots unchanged — every sequence or label accessor and
/// every release of an exported handle ensures `items_unchanged` — leaves
/// every live record live, with exactly its labels, so a later export
/// observes the same sequence.
pub proof fn lemma_record_survives_export_release(
    pre: ItemStore,
    post: ItemStore,
    h: ItemHandle,
)
    requires
        items_unchanged(pre, post),
        pre.item_live(h),
    ensures
        post.item_live(h),
        post.item_at(h) == pre.item_at(h),
        post.item_at(h).labels@ == pre.item_at(h).labels@,
{
}

} // verus!
