//! A verified model of the `users` table's lifecycle.
//!
//! The database owns the real table; this module states, as executable
//! code with contracts, exactly what each of the four operations does to
//! the table's contents: ids are assigned once from a monotone counter and
//! never reused, the creation timestamp is set once at insert time, an
//! update overwrites both mutable fields of one row, and a delete removes
//! at most one row and is harmless on an absent id.

use vstd::prelude::*;
use vstd::string::*;

use crate::models::CreateUser;
use crate::models::UpdateUser;
use crate::models::User;
use crate::models::UserView;

verus! {

/// Mathematical view of the table: the rows in database order, and the
/// next identity value the server will assign.
#[verifier::ext_equal]
pub struct StoreView {
    pub rows: Seq<UserView>,
    pub next_id: int,
}

/// Well-formedness of the table: ids are positive, below the identity
/// counter, pairwise distinct, and every persisted row carries its
/// creation timestamp.
pub open spec fn wf(s: StoreView) -> bool {
    &&& 1 <= s.next_id <= i32::MAX as int
    &&& forall|i: int| 0 <= i < s.rows.len() ==> 1 <= (#[trigger] s.rows[i]).id < s.next_id
    &&& forall|i: int, j: int|
        0 <= i < s.rows.len() && 0 <= j < s.rows.len() && i != j ==> s.rows[i].id != s.rows[j].id
    &&& forall|i: int| 0 <= i < s.rows.len() ==> (#[trigger] s.rows[i]).created_at is Some
}

/// Index of the first row with the given id, or -1 when no row has it.
pub open spec fn idx_of(rows: Seq<UserView>, id: int) -> int
    decreases rows.len(),
{
    if rows.len() == 0 {
        -1
    } else if rows[0].id == id {
        0
    } else {
        let rest = idx_of(rows.drop_first(), id);
        if rest == -1 {
            -1
        } else {
            rest + 1
        }
    }
}

/// `idx_of` finds the first matching row, and -1 means there is none.
pub proof fn lemma_idx_of(rows: Seq<UserView>, id: int)
    ensures
        idx_of(rows, id) == -1 ==> forall|j: int|
            0 <= j < rows.len() ==> (#[trigger] rows[j]).id != id,
        idx_of(rows, id) != -1 ==> {
            &&& 0 <= idx_of(rows, id) < rows.len()
            &&& rows[idx_of(rows, id)].id == id
            &&& forall|j: int| 0 <= j < idx_of(rows, id) ==> (#[trigger] rows[j]).id != id
        },
    decreases rows.len(),
{
    if rows.len() == 0 {
    } else if rows[0].id == id {
    } else {
        lemma_idx_of(rows.drop_first(), id);
        if idx_of(rows, id) == -1 {
            assert forall|j: int| 0 <= j < rows.len() implies (#[trigger] rows[j]).id != id by {
                if j > 0 {
                    assert(rows.drop_first()[j - 1] == rows[j]);
                }
            }
        } else {
            assert(rows[idx_of(rows, id)] == rows.drop_first()[idx_of(rows, id) - 1]);
            assert forall|j: int| 0 <= j < idx_of(rows, id) implies (#[trigger] rows[j]).id != id by {
                if j > 0 {
                    assert(rows.drop_first()[j - 1] == rows[j]);
                }
            }
        }
    }
}

/// Two row sequences with the same ids position by position give the
/// same `idx_of` for every id.
pub proof fn lemma_idx_of_same_ids(rows1: Seq<UserView>, rows2: Seq<UserView>, id: int)
    requires
        rows1.len() == rows2.len(),
        forall|j: int| 0 <= j < rows1.len() ==> (#[trigger] rows1[j]).id == rows2[j].id,
    ensures
        idx_of(rows1, id) == idx_of(rows2, id),
    decreases rows1.len(),
{
    if rows1.len() == 0 {
    } else {
        assert(rows1[0].id == rows2[0].id);
        assert(forall|j: int|
            0 <= j < rows1.drop_first().len() ==> #[trigger] rows1.drop_first()[j] == rows1[j + 1]);
        assert(forall|j: int|
            0 <= j < rows2.drop_first().len() ==> #[trigger] rows2.drop_first()[j] == rows2[j + 1]);
        lemma_idx_of_same_ids(rows1.drop_first(), rows2.drop_first(), id);
    }
}

/// The row a create inserts: server-assigned id and timestamp, the
/// caller's name and email.
pub open spec fn created_row(s: StoreView, name: Seq<char>, email: Seq<char>, now: Seq<char>) -> UserView {
    UserView { id: s.next_id, name: name, email: email, created_at: Some(now) }
}

/// Table contents after a create.
pub open spec fn spec_create(s: StoreView, name: Seq<char>, email: Seq<char>, now: Seq<char>) -> StoreView {
    StoreView { rows: s.rows.push(created_row(s, name, email, now)), next_id: s.next_id + 1 }
}

/// A row after an update: both mutable fields overwritten, id and
/// creation timestamp untouched.
pub open spec fn updated_row(r: UserView, name: Seq<char>, email: Seq<char>) -> UserView {
    UserView { id: r.id, name: name, email: email, created_at: r.created_at }
}

/// Table contents after an update of the row with the given id; a miss
/// changes nothing.
pub open spec fn spec_update(s: StoreView, id: int, name: Seq<char>, email: Seq<char>) -> StoreView {
    let i = idx_of(s.rows, id);
    if i == -1 {
        s
    } else {
        StoreView { rows: s.rows.update(i, updated_row(s.rows[i], name, email)), next_id: s.next_id }
    }
}

/// Table contents after a delete of the row with the given id; a miss
/// changes nothing.
pub open spec fn spec_delete(s: StoreView, id: int) -> StoreView {
    let i = idx_of(s.rows, id);
    if i == -1 {
        s
    } else {
        StoreView { rows: s.rows.remove(i), next_id: s.next_id }
    }
}

/// The row a fetch-one by id yields, if any.
pub open spec fn spec_find(s: StoreView, id: int) -> Option<UserView> {
    let i = idx_of(s.rows, id);
    if i == -1 {
        None
    } else {
        Some(s.rows[i])
    }
}

/// A create preserves well-formedness and assigns a fresh id.
pub proof fn lemma_create_preserves_wf(s: StoreView, name: Seq<char>, email: Seq<char>, now: Seq<char>)
    requires
        wf(s),
        s.next_id < i32::MAX as int,
    ensures
        wf(spec_create(s, name, email, now)),
        forall|i: int| 0 <= i < s.rows.len() ==> (#[trigger] s.rows[i]).id != s.next_id,
{
    let s2 = spec_create(s, name, email, now);
    assert(forall|i: int|
        0 <= i < s2.rows.len() - 1 ==> #[trigger] s2.rows[i] == s.rows[i]);
    assert(s2.rows[s2.rows.len() - 1] == created_row(s, name, email, now));
}

/// Law: a create followed immediately by a list shows exactly one row
/// whose name and email match the input, and that row carries a
/// server-generated positive id and the server's timestamp. Stated for
/// inputs whose name/email pair is not already in the table; a table
/// that already holds an equal pair would show both.
pub proof fn lemma_create_then_list(s: StoreView, name: Seq<char>, email: Seq<char>, now: Seq<char>)
    requires
        wf(s),
        s.next_id < i32::MAX as int,
        forall|i: int|
            0 <= i < s.rows.len() ==> !((#[trigger] s.rows[i]).name == name && s.rows[i].email
                == email),
    ensures
        ({
            let s2 = spec_create(s, name, email, now);
            let k = s2.rows.len() - 1;
            &&& s2.rows[k].name == name
            &&& s2.rows[k].email == email
            &&& s2.rows[k].id >= 1
            &&& s2.rows[k].created_at == Some(now)
            &&& forall|i: int|
                0 <= i < s2.rows.len() && (#[trigger] s2.rows[i]).name == name && s2.rows[i].email
                    == email ==> i == k
        }),
{
    lemma_create_preserves_wf(s, name, email, now);
    let s2 = spec_create(s, name, email, now);
    let k = s2.rows.len() - 1;
    assert forall|i: int|
        0 <= i < s2.rows.len() && (#[trigger] s2.rows[i]).name == name && s2.rows[i].email
            == email implies i == k by {
        if i < k {
            assert(s2.rows[i] == s.rows[i]);
        }
    }
}

/// Law: updating an existing id and then fetching that id yields the new
/// name and email under the same id, with the creation timestamp
/// untouched.
pub proof fn lemma_update_then_find(s: StoreView, id: int, name: Seq<char>, email: Seq<char>)
    requires
        wf(s),
        spec_find(s, id) is Some,
    ensures
        ({
            let s2 = spec_update(s, id, name, email);
            let u0 = spec_find(s, id)->Some_0;
            spec_find(s2, id) == Some(
                UserView { id: id, name: name, email: email, created_at: u0.created_at },
            )
        }),
{
    let i = idx_of(s.rows, id);
    lemma_idx_of(s.rows, id);
    let s2 = spec_update(s, id, name, email);
    assert(forall|j: int| 0 <= j < s2.rows.len() ==> (#[trigger] s2.rows[j]).id == s.rows[j].id);
    lemma_idx_of_same_ids(s2.rows, s.rows, id);
}

/// Law: after a delete of an id, a fetch of that id finds no row, and a
/// second delete of the same id changes nothing (the operation stays
/// well-defined on an already-deleted id).
pub proof fn lemma_delete_then_find(s: StoreView, id: int)
    requires
        wf(s),
    ensures
        ({
            let s2 = spec_delete(s, id);
            &&& spec_find(s2, id) is None
            &&& spec_delete(s2, id) == s2
        }),
{
    let i = idx_of(s.rows, id);
    lemma_idx_of(s.rows, id);
    let s2 = spec_delete(s, id);
    if i != -1 {
        lemma_idx_of(s2.rows, id);
        let k = idx_of(s2.rows, id);
        if k != -1 {
            let k0 = if k < i {
                k
            } else {
                k + 1
            };
            assert(s2.rows[k] == s.rows[k0]);
            assert(false);
        }
    }
}

/// The table after a sequence of creates, each input a (name, email,
/// timestamp) triple.
pub open spec fn apply_creates(s: StoreView, inputs: Seq<(Seq<char>, Seq<char>, Seq<char>)>) -> StoreView
    decreases inputs.len(),
{
    if inputs.len() == 0 {
        s
    } else {
        apply_creates(spec_create(s, inputs[0].0, inputs[0].1, inputs[0].2), inputs.drop_first())
    }
}

/// Law: a list after N creates holds exactly N more rows than before
/// (exactly N on an initially empty table), every one of them with a
/// server-generated positive id and a populated creation timestamp.
pub proof fn lemma_creates_populate(s: StoreView, inputs: Seq<(Seq<char>, Seq<char>, Seq<char>)>)
    requires
        wf(s),
        s.next_id + inputs.len() <= i32::MAX as int,
    ensures
        ({
            let s2 = apply_creates(s, inputs);
            &&& wf(s2)
            &&& s2.rows.len() == s.rows.len() + inputs.len()
            &&& s2.next_id == s.next_id + inputs.len()
            &&& forall|i: int|
                0 <= i < s2.rows.len() ==> 1 <= (#[trigger] s2.rows[i]).id && s2.rows[i].created_at
                    is Some
        }),
    decreases inputs.len(),
{
    if inputs.len() == 0 {
    } else {
        lemma_create_preserves_wf(s, inputs[0].0, inputs[0].1, inputs[0].2);
        lemma_creates_populate(
            spec_create(s, inputs[0].0, inputs[0].1, inputs[0].2),
            inputs.drop_first(),
        );
    }
}

/// The executable model of the table: the rows and the identity counter.
pub struct UserStore {
    rows: Vec<User>,
    next_id: i32,
}

impl View for UserStore {
    type V = StoreView;

    closed spec fn view(&self) -> StoreView {
        StoreView {
            rows: self.rows@.map_values(|u: User| u@),
            next_id: self.next_id as int,
        }
    }
}

impl UserStore {
    /// A fresh, empty table; identities start at 1.
    pub fn new() -> (s: Self)
        ensures
            s@.rows.len() == 0,
            s@.next_id == 1,
            wf(s@),
    {
        UserStore { rows: Vec::new(), next_id: 1 }
    }

    /// Insert a row with a server-assigned id and creation timestamp,
    /// and return it as a fetch of the fresh row would.
    pub fn create(&mut self, input: &CreateUser, now: &str) -> (u: User)
        requires
            wf(old(self)@),
            old(self)@.next_id < i32::MAX as int,
        ensures
            wf(final(self)@),
            final(self)@ == spec_create(old(self)@, input@.0, input@.1, now@),
            u@ == created_row(old(self)@, input@.0, input@.1, now@),
    {
        let u = User {
            id: self.next_id,
            name: input.name.clone(),
            email: input.email.clone(),
            created_at: Some(String::from_str(now)),
        };
        let u2 = u.clone();
        self.rows.push(u2);
        self.next_id = self.next_id + 1;
        proof {
            lemma_create_preserves_wf(old(self)@, input@.0, input@.1, now@);
            assert(self@.rows =~= old(self)@.rows.push(u@));
            assert(self@ =~= spec_create(old(self)@, input@.0, input@.1, now@));
        }
        u
    }

    /// Fetch-one by id: the first row with this id, or `None`.
    #[verifier::loop_isolation(false)]
    pub fn get(&self, id: i32) -> (r: Option<User>)
        ensures
            match r {
                Some(u) => spec_find(self@, id as int) == Some(u@),
                None => spec_find(self@, id as int) is None,
            },
    {
        let n = self.rows.len();
        let mut i: usize = 0;
        while i < n
            invariant
                i <= n,
                n == self@.rows.len(),
                forall|j: int| 0 <= j < i ==> (#[trigger] self@.rows[j]).id != id as int,
            decreases n - i,
        {
            if self.rows[i].id == id {
                let u = self.rows[i].clone();
                proof {
                    lemma_idx_of(self@.rows, id as int);
                    assert(self@.rows[i as int].id == id as int);
                    assert(idx_of(self@.rows, id as int) == i as int);
                    assert(u@ == self@.rows[i as int]);
                }
                return Some(u);
            }
            i = i + 1;
        }
        proof {
            lemma_idx_of(self@.rows, id as int);
        }
        None
    }

    /// Overwrite name and email of the row with this id and return the
    /// row's new state, as a fetch after the update would; a miss leaves
    /// the table unchanged and yields `None` (the distinct "no row"
    /// failure of a fetch-one).
    #[verifier::loop_isolation(false)]
    pub fn update(&mut self, id: i32, input: &UpdateUser) -> (r: Option<User>)
        requires
            wf(old(self)@),
        ensures
            wf(final(self)@),
            final(self)@ == spec_update(old(self)@, id as int, input@.0, input@.1),
            match r {
                Some(u) => spec_find(old(self)@, id as int) is Some && u@ == updated_row(
                    spec_find(old(self)@, id as int)->Some_0,
                    input@.0,
                    input@.1,
                ),
                None => spec_find(old(self)@, id as int) is None,
            },
    {
        let n = self.rows.len();
        let mut i: usize = 0;
        while i < n
            invariant
                i <= n,
                n == self@.rows.len(),
                self@ == old(self)@,
                forall|j: int| 0 <= j < i ==> (#[trigger] self@.rows[j]).id != id as int,
            decreases n - i,
        {
            if self.rows[i].id == id {
                proof {
                    lemma_idx_of(self@.rows, id as int);
                }
                let mut u = self.rows.remove(i);
                u.name = input.name.clone();
                u.email = input.email.clone();
                let u2 = u.clone();
                self.rows.insert(i, u2);
                proof {
                    let srows = old(self)@.rows;
                    let upd = updated_row(srows[i as int], input@.0, input@.1);
                    assert(self@.rows =~= srows.update(i as int, upd));
                    assert(final(self)@ =~= spec_update(old(self)@, id as int, input@.0, input@.1));
                    assert forall|a: int| 0 <= a < self@.rows.len() implies 1 <= (
                    #[trigger] self@.rows[a]).id < self@.next_id && self@.rows[a].id == srows[a].id
                        && self@.rows[a].created_at is Some by {
                        assert(srows[a].id >= 1);
                    }
                }
                return Some(u);
            }
            i = i + 1;
        }
        proof {
            lemma_idx_of(self@.rows, id as int);
        }
        None
    }

    /// Remove the row with this id; removing an absent id changes
    /// nothing and is not an error.
    #[verifier::loop_isolation(false)]
    pub fn delete(&mut self, id: i32)
        requires
            wf(old(self)@),
        ensures
            wf(final(self)@),
            final(self)@ == spec_delete(old(self)@, id as int),
    {
        let n = self.rows.len();
        let mut i: usize = 0;
        while i < n
            invariant
                i <= n,
                n == self@.rows.len(),
                self@ == old(self)@,
                forall|j: int| 0 <= j < i ==> (#[trigger] self@.rows[j]).id != id as int,
            decreases n - i,
        {
            if self.rows[i].id == id {
                proof {
                    lemma_idx_of(self@.rows, id as int);
                }
                self.rows.remove(i);
                proof {
                    let srows = old(self)@.rows;
                    assert(srows[i as int].id == id as int);
                    assert(idx_of(srows, id as int) == i as int);
                    assert(self@.rows =~= srows.remove(i as int));
                    assert(final(self)@ =~= spec_delete(old(self)@, id as int));
                    assert forall|a: int| 0 <= a < self@.rows.len() implies 1 <= (
                    #[trigger] self@.rows[a]).id < self@.next_id && self@.rows[a].created_at
                        is Some && (forall|b: int|
                        0 <= b < self@.rows.len() && b != a ==> self@.rows[b].id
                            != self@.rows[a].id) by {
                        let a0 = if a < i { a } else { a + 1 };
                        assert(self@.rows[a] == srows[a0]);
                        assert forall|b: int|
                            0 <= b < self@.rows.len() && b != a implies self@.rows[b].id
                            != self@.rows[a].id by {
                            let b0 = if b < i { b } else { b + 1 };
                            assert(self@.rows[b] == srows[b0]);
                        }
                    }
                }
                return ;
            }
            i = i + 1;
        }
        proof {
            lemma_idx_of(self@.rows, id as int);
        }
    }

    /// All rows, in database order.
    #[verifier::loop_isolation(false)]
    pub fn list(&self) -> (r: Vec<User>)
        ensures
            r@.len() == self@.rows.len(),
            forall|j: int| 0 <= j < r@.len() ==> (#[trigger] r@[j])@ == self@.rows[j],
    {
        let n = self.rows.len();
        let mut r: Vec<User> = Vec::new();
        let mut i: usize = 0;
        while i < n
            invariant
                i <= n,
                n == self@.rows.len(),
                r@.len() == i,
                forall|j: int| 0 <= j < i ==> (#[trigger] r@[j])@ == self@.rows[j],
            decreases n - i,
        {
            let u = self.rows[i].clone();
            r.push(u);
            i = i + 1;
        }
        r
    }
}

} // verus!
