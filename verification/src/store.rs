//! The subscriber set: which chats receive broadcasts.
//!
//! One row per chat identity, kept as text. A row is written the first time a
//! chat subscribes and never changed or removed. Adding an identity that has a
//! row already changes nothing and is no error.

use crate::text::same_text;
use vstd::prelude::*;

verus! {

/// The rows after adding `id` to `rows`: unchanged where `id` has a row,
/// otherwise with `id` as the newest row.
pub open spec fn added(rows: Seq<Seq<char>>, id: Seq<char>) -> Seq<Seq<char>> {
    if rows.contains(id) {
        rows
    } else {
        rows.push(id)
    }
}

/// The rows after adding each of `ids` in turn to an empty set.
pub open spec fn added_all(ids: Seq<Seq<char>>) -> Seq<Seq<char>>
    decreases ids.len(),
{
    if ids.len() == 0 {
        Seq::empty()
    } else {
        added(added_all(ids.drop_last()), ids.last())
    }
}

/// Adding an identity a second time changes nothing.
pub proof fn add_is_idempotent(rows: Seq<Seq<char>>, id: Seq<char>)
    ensures
        added(added(rows, id), id) == added(rows, id),
        added(rows, id).contains(id),
{
    if !rows.contains(id) {
        assert(rows.push(id)[rows.len() as int] == id);
    }
}

/// Adding keeps one row per identity, keeps every earlier row, and the
/// identities with a row afterwards are the earlier ones and the added one.
pub proof fn add_keeps_rows_distinct(rows: Seq<Seq<char>>, id: Seq<char>)
    requires
        rows.no_duplicates(),
    ensures
        added(rows, id).no_duplicates(),
        added(rows, id).to_set() == rows.to_set().insert(id),
{
    let after = added(rows, id);
    assert forall|x: Seq<char>| after.to_set().contains(x) <==> rows.to_set().insert(
        id,
    ).contains(x) by {
        if !rows.contains(id) {
            if rows.contains(x) {
                let i = choose|i: int| 0 <= i < rows.len() && rows[i] == x;
                assert(after[i] == x);
            }
            assert(after[rows.len() as int] == id);
        }
    }
}

/// However often and in whatever order identities were added, the set holds
/// exactly the distinct identities, each in one row.
pub proof fn rows_after_adds(ids: Seq<Seq<char>>)
    ensures
        added_all(ids).no_duplicates(),
        added_all(ids).to_set() == ids.to_set(),
    decreases ids.len(),
{
    if ids.len() > 0 {
        let earlier = ids.drop_last();
        rows_after_adds(earlier);
        add_keeps_rows_distinct(added_all(earlier), ids.last());
        assert forall|x: Seq<char>| earlier.to_set().insert(ids.last()).contains(x)
            <==> ids.to_set().contains(x) by {
            if earlier.contains(x) {
                let i = choose|i: int| 0 <= i < earlier.len() && earlier[i] == x;
                assert(ids[i] == x);
            }
            if ids.contains(x) {
                let i = choose|i: int| 0 <= i < ids.len() && ids[i] == x;
                if i < ids.len() - 1 {
                    assert(earlier[i] == x);
                }
            }
        }
    }
}

/// The subscriber set, held in memory.
pub struct SubscriberStore {
    rows: Vec<String>,
}

impl View for SubscriberStore {
    type V = Seq<Seq<char>>;

    /// The rows, oldest first.
    closed spec fn view(&self) -> Seq<Seq<char>> {
        self.rows.deep_view()
    }
}

impl SubscriberStore {
    #[verifier::type_invariant]
    spec fn one_row_per_identity(&self) -> bool {
        self.rows.deep_view().no_duplicates()
    }

    /// A set without subscribers.
    pub fn new() -> (store: SubscriberStore)
        ensures
            store@ == Seq::<Seq<char>>::empty(),
    {
        SubscriberStore { rows: Vec::new() }
    }

    /// The number of subscribers.
    pub fn len(&self) -> (n: usize)
        ensures
            n == self@.len(),
    {
        self.rows.len()
    }

    /// Whether `chat_id` has a row.
    pub fn contains(&self, chat_id: &str) -> (found: bool)
        ensures
            found == self@.contains(chat_id@),
    {
        let mut i: usize = 0;
        while i < self.rows.len()
            invariant
                0 <= i <= self.rows.len(),
                forall|j: int| 0 <= j < i ==> self@[j] != chat_id@,
            decreases self.rows.len() - i,
        {
            if same_text(self.rows[i].as_str(), chat_id) {
                assert(self@[i as int] == chat_id@);
                return true;
            }
            i = i + 1;
        }
        false
    }

    /// Adds `chat_id` unless it has a row already, and says whether a row was
    /// written.
    pub fn add(&mut self, chat_id: &str) -> (written: bool)
        ensures
            final(self)@ == added(old(self)@, chat_id@),
            written == !old(self)@.contains(chat_id@),
            final(self)@.no_duplicates(),
    {
        proof {
            use_type_invariant(&*self);
        }
        if self.contains(chat_id) {
            false
        } else {
            let ghost before = self.rows.deep_view();
            let mut rows: Vec<String> = Vec::new();
            std::mem::swap(&mut self.rows, &mut rows);
            rows.push(chat_id.to_owned());
            proof {
                assert(rows.deep_view() =~= before.push(chat_id@));
                add_keeps_rows_distinct(before, chat_id@);
            }
            self.rows = rows;
            true
        }
    }

    /// Every subscriber, oldest first, each exactly once.
    pub fn list_all(&self) -> (all: Vec<String>)
        ensures
            all.deep_view() == self@,
            all.deep_view().no_duplicates(),
    {
        proof {
            use_type_invariant(self);
        }
        let mut all: Vec<String> = Vec::new();
        let mut i: usize = 0;
        while i < self.rows.len()
            invariant
                0 <= i <= self.rows.len(),
                all.len() == i,
                forall|j: int| 0 <= j < i ==> all@[j]@ == self.rows@[j]@,
            decreases self.rows.len() - i,
        {
            all.push(self.rows[i].clone());
            i = i + 1;
        }
        all
    }
}

} // verus!
