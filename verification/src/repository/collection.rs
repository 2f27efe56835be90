//! A model of the collection behind the repository: what the store holds and
//! how it answers each command when nothing fails.
//!
//! Nothing here runs. The model is what the guarantees of the handlers are
//! stated against.
use crate::models::user_model::UserView;
use crate::repository::mongodb_repo::{StoreCommandView, StoreReplyView};
use vstd::prelude::*;

verus! {

/// The collection: its records in the order they were inserted, and the
/// records that the open cursor has yet to give.
pub struct Collection {
    pub users: Seq<UserView>,
    pub cursor: Seq<UserView>,
}

impl Collection {
    /// The collection before anything was inserted.
    pub open spec fn empty() -> Collection {
        Collection { users: Seq::empty(), cursor: Seq::empty() }
    }

    /// Every record has an identifier, and no two records share one.
    pub open spec fn well_formed(self) -> bool {
        &&& forall|i: int| 0 <= i < self.users.len() ==> (#[trigger] self.users[i]).id is Some
        &&& forall|i: int, j: int|
            0 <= i < j < self.users.len() ==> (#[trigger] self.users[i]).id != (
            #[trigger] self.users[j]).id
    }

    /// Whether the record at `i` has the identifier `id`.
    pub open spec fn holds_at(self, i: int, id: Seq<u8>) -> bool {
        0 <= i < self.users.len() && self.users[i].id == Some(id)
    }

    /// Whether some record has the identifier `id`.
    pub open spec fn contains(self, id: Seq<u8>) -> bool {
        exists|i: int| self.holds_at(i, id)
    }

    /// Where the record with the identifier `id` stands, if there is one.
    pub open spec fn position(self, id: Seq<u8>) -> int {
        choose|i: int| self.holds_at(i, id)
    }

    /// The record with the identifier `id`, if there is one.
    pub open spec fn get(self, id: Seq<u8>) -> Option<UserView> {
        if self.contains(id) {
            Some(self.users[self.position(id)])
        } else {
            None
        }
    }

    /// What the store does with `command`: the collection afterwards, and the
    /// reply. `fresh` is the identifier that an insertion would assign; the
    /// store refuses one that is already taken.
    ///
    /// An update replaces name, location and title of the record it matches
    /// and leaves the identifier it is found by. The cursor gives the records
    /// in the order they stand in.
    pub open spec fn apply(self, command: StoreCommandView, fresh: Seq<u8>) -> (
        Collection,
        StoreReplyView,
    ) {
        match command {
            StoreCommandView::InsertOne { document } => {
                if self.contains(fresh) {
                    (self, StoreReplyView::Rejected("duplicate key"@))
                } else {
                    (
                        Collection {
                            users: self.users.push(document.with_id(Some(fresh))),
                            cursor: self.cursor,
                        },
                        StoreReplyView::Inserted { inserted_id: fresh },
                    )
                }
            },
            StoreCommandView::FindOne { id } => (self, StoreReplyView::Found(self.get(id))),
            StoreCommandView::UpdateOne { id, set } => {
                if self.contains(id) {
                    let i = self.position(id);
                    (
                        Collection {
                            users: self.users.update(i, set.with_id(self.users[i].id)),
                            cursor: self.cursor,
                        },
                        StoreReplyView::Updated { matched_count: 1 },
                    )
                } else {
                    (self, StoreReplyView::Updated { matched_count: 0 })
                }
            },
            StoreCommandView::DeleteOne { id } => {
                if self.contains(id) {
                    (
                        Collection {
                            users: self.users.remove(self.position(id)),
                            cursor: self.cursor,
                        },
                        StoreReplyView::Deleted { deleted_count: 1 },
                    )
                } else {
                    (self, StoreReplyView::Deleted { deleted_count: 0 })
                }
            },
            StoreCommandView::Find => (
                Collection { users: self.users, cursor: self.users },
                StoreReplyView::CursorOpened,
            ),
            StoreCommandView::CursorNext => {
                if self.cursor.len() > 0 {
                    (
                        Collection { users: self.users, cursor: self.cursor.drop_first() },
                        StoreReplyView::CursorItem(Some(self.cursor[0])),
                    )
                } else {
                    (self, StoreReplyView::CursorItem(None))
                }
            },
        }
    }

    /// In a well-formed collection the record with a given identifier stands
    /// at one place only.
    pub proof fn lemma_position_unique(self, i: int, id: Seq<u8>)
        requires
            self.well_formed(),
            self.holds_at(i, id),
        ensures
            self.contains(id),
            self.position(id) == i,
            self.get(id) == Some(self.users[i]),
    {
        let p = self.position(id);
        assert(self.holds_at(p, id));
        if p < i {
            assert(self.users[p].id != self.users[i].id);
        } else if i < p {
            assert(self.users[i].id != self.users[p].id);
        }
    }

    /// Once the record with the identifier `id` is deleted, no record has it.
    pub proof fn lemma_deleted_is_absent(self, id: Seq<u8>, fresh: Seq<u8>)
        requires
            self.well_formed(),
            self.contains(id),
        ensures
            !self.apply(StoreCommandView::DeleteOne { id }, fresh).0.contains(id),
    {
        let p = self.position(id);
        let after = self.apply(StoreCommandView::DeleteOne { id }, fresh).0;
        assert(self.holds_at(p, id));
        assert forall|i: int| !after.holds_at(i, id) by {
            if 0 <= i < after.users.len() {
                let k = if i < p { i } else { i + 1 };
                assert(after.users[i] == self.users[k]);
                if k < p {
                    assert(self.users[k].id != self.users[p].id);
                } else {
                    assert(self.users[p].id != self.users[k].id);
                }
            }
        }
    }

    /// Identifiers stay unique: whatever the command, the store keeps the
    /// collection well-formed.
    pub proof fn lemma_apply_preserves_well_formed(
        self,
        command: StoreCommandView,
        fresh: Seq<u8>,
    )
        requires
            self.well_formed(),
        ensures
            self.apply(command, fresh).0.well_formed(),
    {
        let after = self.apply(command, fresh).0;
        match command {
            StoreCommandView::InsertOne { document } => {
                if !self.contains(fresh) {
                    let n = self.users.len() as int;
                    assert forall|i: int, j: int| 0 <= i < j < after.users.len() implies (
                    #[trigger] after.users[i]).id != (#[trigger] after.users[j]).id by {
                        if j == n {
                            assert(!self.holds_at(i, fresh));
                        }
                    }
                }
            },
            StoreCommandView::UpdateOne { id, set } => {},
            StoreCommandView::DeleteOne { id } => {
                if self.contains(id) {
                    let p = self.position(id);
                    assert(self.holds_at(p, id));
                    assert forall|i: int| 0 <= i < after.users.len() implies (
                    #[trigger] after.users[i]).id is Some by {
                        if i < p {
                            assert(after.users[i] == self.users[i]);
                        } else {
                            assert(after.users[i] == self.users[i + 1]);
                        }
                    }
                    assert forall|i: int, j: int| 0 <= i < j < after.users.len() implies (
                    #[trigger] after.users[i]).id != (#[trigger] after.users[j]).id by {
                        let a = if i < p { i } else { i + 1 };
                        let b = if j < p { j } else { j + 1 };
                        assert(after.users[i] == self.users[a]);
                        assert(after.users[j] == self.users[b]);
                        assert(self.users[a].id != self.users[b].id);
                    }
                }
            },
            _ => {},
        }
    }
}

} // verus!
