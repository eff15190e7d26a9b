use vstd::prelude::*;

verus! {

/// A tag attached to an item. The rest of this library treats a label as an
/// opaque value type: it can be cloned and handed out, nothing in here reads
/// its content. The comparison and debug derives exist for callers and tests.
#[derive(Debug, PartialEq, Eq)]
pub struct Label {
    pub name: String,
}

impl Clone for Label {
    /// A cloned label is equal to the original.
    fn clone(&self) -> (r: Self)
        ensures
            r == *self,
    {
        Label { name: self.name.clone() }
    }
}

/// The record: a to-do entry.
///
/// `uuid` is reserved for the owning collection; no operation of this module
/// reads or writes it beyond giving it its empty default. The two dates are
/// seconds-resolution timestamps; `None` is the explicit "absent" state,
/// distinct from any timestamp value, zero included.
#[derive(Debug)]
#[verifier::ext_equal]
pub struct Item {
    pub uuid: String,
    pub name: String,
    pub due_date: Option<i64>,
    pub completion_date: Option<i64>,
    pub labels: Vec<Label>,
}

impl Item {
    /// The defaults of a newly created record: everything empty or absent.
    pub open spec fn is_default(self) -> bool {
        &&& self.uuid@ == Seq::<char>::empty()
        &&& self.name@ == Seq::<char>::empty()
        &&& self.due_date is None
        &&& self.completion_date is None
        &&& self.labels@ == Seq::<Label>::empty()
    }
}

/// What a name crossing the boundary decodes to: the string itself when it
/// decoded, the empty fallback when it did not (`None`).
pub open spec fn decoded_name(name: Option<String>) -> Seq<char> {
    match name {
        Some(s) => s@,
        None => Seq::<char>::empty(),
    }
}

/// `item` with its due date replaced and every other field kept.
pub open spec fn with_due_date(item: Item, due: Option<i64>) -> Item {
    Item { due_date: due, ..item }
}

/// `item` with its completion date replaced and every other field kept.
pub open spec fn with_completion_date(item: Item, completion: Option<i64>) -> Item {
    Item { completion_date: completion, ..item }
}

/// `item` with its labels replaced and every other field kept.
pub open spec fn with_labels(item: Item, labels: Vec<Label>) -> Item {
    Item { labels: labels, ..item }
}

/// `post` is `pre` with exactly the name replaced by what `name` decodes to.
/// This is the whole effect of a name-setting call on the record.
pub open spec fn name_set(pre: Item, post: Item, name: Option<String>) -> bool {
    &&& post.name@ == decoded_name(name)
    &&& post.uuid == pre.uuid
    &&& post.due_date == pre.due_date
    &&& post.completion_date == pre.completion_date
    &&& post.labels == pre.labels
}

/// A new record with all fields at their documented defaults. Never fails.
pub fn new_item() -> (item: Item)
    ensures
        item.is_default(),
{
    Item {
        uuid: String::new(),
        name: String::new(),
        due_date: None,
        completion_date: None,
        labels: Vec::new(),
    }
}

impl Item {
    /// A fresh copy of the name; the record is only borrowed.
    pub fn get_name(&self) -> (r: String)
        ensures
            r@ == self.name@,
    {
        self.name.clone()
    }

    /// Replaces the name. `None` stands for an input that failed decoding at
    /// the boundary: the name then degrades to the empty fallback rather than
    /// faulting. No other field is touched.
    pub fn set_name(&mut self, name: Option<String>)
        ensures
            name_set(*old(self), *final(self), name),
    {
        match name {
            Some(s) => {
                self.name = s;
            },
            None => {
                self.name = String::new();
            },
        }
    }

    /// The due date: `Some` seconds when set, `None` when absent. `None` is
    /// the only absent encoding; a due date of zero comes back as `Some(0)`.
    pub fn get_due_date(&self) -> (r: Option<i64>)
        ensures
            r == self.due_date,
    {
        self.due_date
    }

    /// Replaces the due date verbatim: any seconds value, zero and negative
    /// included, or `None` to clear it. The completion date and every other
    /// field are untouched.
    pub fn set_due_date(&mut self, due: Option<i64>)
        ensures
            *final(self) == with_due_date(*old(self), due),
    {
        self.due_date = due;
    }

    /// The completion date, under the same contract as the due date.
    pub fn get_completion_date(&self) -> (r: Option<i64>)
        ensures
            r == self.completion_date,
    {
        self.completion_date
    }

    /// Replaces the completion date verbatim; the due date and every other
    /// field are untouched.
    pub fn set_completion_date(&mut self, completion: Option<i64>)
        ensures
            *final(self) == with_completion_date(*old(self), completion),
    {
        self.completion_date = completion;
    }

    /// Replaces the label sequence with the one the owning collection built,
    /// in its order, duplicates kept. No other field is touched.
    pub fn set_labels(&mut self, labels: Vec<Label>)
        ensures
            *final(self) == with_labels(*old(self), labels),
    {
        self.labels = labels;
    }

    /// A new, independently owned copy of the label sequence: element for
    /// element equal to the record's labels at the time of the call.
    pub fn labels_clone(&self) -> (r: Vec<Label>)
        ensures
            r@ == self.labels@,
    {
        let r = self.labels.clone();
        proof {
            assert forall|i: int| 0 <= i < self.labels@.len() implies r@[i]
                == self.labels@[i] by {
                assert(cloned::<Label>(self.labels@[i], r@[i]));
            }
            assert(r@ =~= self.labels@);
        }
        r
    }
}

impl Clone for Item {
    /// A cloned record observes the same state as the original, field for
    /// field; its label sequence is an independently owned copy.
    fn clone(&self) -> (r: Self)
        ensures
            r.uuid == self.uuid,
            r.name == self.name,
            r.due_date == self.due_date,
            r.completion_date == self.completion_date,
            r.labels@ == self.labels@,
    {
        Item {
            uuid: self.uuid.clone(),
            name: self.name.clone(),
            due_date: self.due_date,
            completion_date: self.completion_date,
            labels: self.labels_clone(),
        }
    }
}

/// The automatic-lifetime variant of item creation: the host runtime owns the
/// returned value directly, so there is no matching destroy obligation beyond
/// dropping it.
pub fn a_item_new() -> (item: Box<Item>)
    ensures
        item.is_default(),
{
    Box::new(new_item())
}

/// The automatic-lifetime variant of destruction: consuming the owned record
/// releases it; there is nothing else to do.
pub fn a_item_destroy(_item: Box<Item>) {
}

/// The automatic-lifetime variant of name setting, on a directly borrowed
/// record; same contract as `Item::set_name`.
pub fn a_item_set_name(item: &mut Item, name: Option<String>)
    ensures
        name_set(*old(item), *final(item), name),
{
    item.set_name(name);
}

/// The automatic-lifetime variant of due-date setting, on a directly borrowed
/// record; same contract as `Item::set_due_date`.
pub fn a_item_set_due_date(item: &mut Item, due: Option<i64>)
    ensures
        *final(item) == with_due_date(*old(item), due),
{
    item.set_due_date(due);
}

} // verus!
