//! Subscription rows and an append-only table of them, keyed by a unique id.
use vstd::prelude::*;

verus! {

/// One stored subscription.
pub struct Subscription {
    pub id: u128,
    pub name: String,
    pub email: String,
    /// Microseconds since the Unix epoch.
    pub subscribed_at: i64,
}

/// What a stored subscription holds.
pub ghost struct SubscriptionView {
    pub id: u128,
    pub name: Seq<char>,
    pub email: Seq<char>,
    pub subscribed_at: i64,
}

impl View for Subscription {
    type V = SubscriptionView;

    open spec fn view(&self) -> SubscriptionView {
        SubscriptionView {
            id: self.id,
            name: self.name@,
            email: self.email@,
            subscribed_at: self.subscribed_at,
        }
    }
}

/// Whether some row has identifier `id`.
pub open spec fn has_id(rows: Seq<SubscriptionView>, id: u128) -> bool {
    exists|i: int| 0 <= i < rows.len() && rows[i].id == id
}

/// No two rows share an identifier.
pub open spec fn ids_unique(rows: Seq<SubscriptionView>) -> bool {
    forall|i: int, j: int| 0 <= i < j < rows.len() ==> rows[i].id != rows[j].id
}

/// The rows after an insert: the new row is appended, unless its identifier
/// is taken, in which case the insert is refused (`None`). Nothing else, a
/// repeated email included, stops an insert.
pub open spec fn insert_row(rows: Seq<SubscriptionView>, row: SubscriptionView) -> Option<
    Seq<SubscriptionView>,
> {
    if has_id(rows, row.id) {
        None
    } else {
        Some(rows.push(row))
    }
}

/// An insert was refused: the identifier is already in the table.
#[derive(Clone, Copy, Debug, PartialEq, Eq, Structural)]
pub struct DuplicateId {
    pub id: u128,
}

/// The subscriptions table: rows are only ever appended, and each has an
/// identifier of its own.
pub struct SubscriptionTable {
    rows: Vec<Subscription>,
}

impl View for SubscriptionTable {
    type V = Seq<SubscriptionView>;

    closed spec fn view(&self) -> Seq<SubscriptionView> {
        self.rows@.map_values(|s: Subscription| s@)
    }
}

impl SubscriptionTable {
    /// The table's invariant.
    pub open spec fn wf(&self) -> bool {
        ids_unique(self@)
    }

    /// An empty table.
    pub fn new() -> (t: SubscriptionTable)
        ensures
            t.wf(),
            t@ == Seq::<SubscriptionView>::empty(),
    {
        let t = SubscriptionTable { rows: Vec::new() };
        assert(t@ =~= Seq::<SubscriptionView>::empty());
        t
    }

    /// The number of rows.
    pub fn len(&self) -> (n: usize)
        ensures
            n == self@.len(),
    {
        self.rows.len()
    }

    /// The row at position `i`, in the order of insertion.
    pub fn get(&self, i: usize) -> (r: &Subscription)
        requires
            i < self@.len(),
        ensures
            r@ == self@[i as int],
    {
        &self.rows[i]
    }

    /// Whether a row has identifier `id`.
    pub fn contains_id(&self, id: u128) -> (r: bool)
        ensures
            r == has_id(self@, id),
    {
        let mut i: usize = 0;
        while i < self.rows.len()
            invariant
                i <= self.rows@.len(),
                self@.len() == self.rows@.len(),
                forall|j: int| 0 <= j < i ==> self@[j].id != id,
            decreases self.rows@.len() - i,
        {
            if self.rows[i].id == id {
                assert(self@[i as int].id == id);
                return true;
            }
            i = i + 1;
        }
        false
    }

    /// Appends a row, unless its identifier is already taken.
    pub fn insert(&mut self, row: Subscription) -> (r: Result<(), DuplicateId>)
        requires
            old(self).wf(),
        ensures
            final(self).wf(),
            match insert_row(old(self)@, row@) {
                Some(rows) => r is Ok && final(self)@ == rows,
                None => r == Err::<(), DuplicateId>(DuplicateId { id: row.id })
                    && final(self)@ == old(self)@,
            },
    {
        let id = row.id;
        if self.contains_id(id) {
            Err(DuplicateId { id })
        } else {
            let ghost row_view = row@;
            self.rows.push(row);
            assert(self@ =~= old(self)@.push(row_view));
            Ok(())
        }
    }
}

} // verus!
