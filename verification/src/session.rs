//! Server-side session store: an opaque high-entropy id held by the client
//! maps to the authenticated principal and one-shot flash data. Reading the
//! flash removes it; destroying the session removes the whole row.

use vstd::prelude::*;

verus! {

/// A session operation addressed an id it cannot serve: creating under a
/// taken id, or attaching flash data to an absent session.
#[derive(Debug, PartialEq, Eq, Structural)]
pub struct SessionError;

/// A server-side session row.
pub struct SessionRecord {
    pub id: Vec<u8>,
    pub user_id: Option<u128>,
    pub flash: Option<Vec<u8>>,
}

/// Spec-level image of a session row.
pub ghost struct SessionRow {
    pub id: Seq<u8>,
    pub user_id: Option<u128>,
    pub flash: Option<Seq<u8>>,
}

impl SessionRecord {
    /// Spec: the row this record stands for.
    pub open spec fn view(&self) -> SessionRow {
        SessionRow {
            id: self.id@,
            user_id: self.user_id,
            flash: match self.flash {
                Some(f) => Some(f@),
                None => None,
            },
        }
    }
}

/// Spec: session ids are pairwise distinct.
pub open spec fn unique_ids(rows: Seq<SessionRow>) -> bool {
    forall|i: int, j: int|
        0 <= i < j < rows.len() ==> (#[trigger] rows[i]).id != (#[trigger] rows[j]).id
}

/// Spec: the first row carrying this id, if any.
pub open spec fn find_session(rows: Seq<SessionRow>, id: Seq<u8>) -> Option<SessionRow>
    decreases rows.len(),
{
    if rows.len() == 0 {
        None
    } else if rows[0].id == id {
        Some(rows[0])
    } else {
        find_session(rows.drop_first(), id)
    }
}

/// Spec: the authenticated principal a session id stands for, if any.
pub open spec fn session_user(rows: Seq<SessionRow>, id: Seq<u8>) -> Option<u128> {
    match find_session(rows, id) {
        Some(r) => r.user_id,
        None => None,
    }
}

/// Spec: the pending flash data of a session id, if any.
pub open spec fn session_flash(rows: Seq<SessionRow>, id: Seq<u8>) -> Option<Seq<u8>> {
    match find_session(rows, id) {
        Some(r) => r.flash,
        None => None,
    }
}

proof fn lemma_find_first(rows: Seq<SessionRow>, id: Seq<u8>, i: int)
    requires
        unique_ids(rows),
        0 <= i < rows.len(),
        rows[i].id == id,
    ensures
        find_session(rows, id) == Some(rows[i]),
    decreases rows.len(),
{
    if i == 0 {
    } else {
        assert(rows[0].id != id);
        assert(unique_ids(rows.drop_first())) by {
            assert(forall|x: int, y: int|
                0 <= x < y < rows.drop_first().len() ==> (#[trigger] rows.drop_first()[x]).id != (
                #[trigger] rows.drop_first()[y]).id);
        }
        assert(rows.drop_first()[i - 1] == rows[i]);
        lemma_find_first(rows.drop_first(), id, i - 1);
    }
}

proof fn lemma_find_none(rows: Seq<SessionRow>, id: Seq<u8>)
    requires
        forall|j: int| 0 <= j < rows.len() ==> (#[trigger] rows[j]).id != id,
    ensures
        find_session(rows, id) is None,
    decreases rows.len(),
{
    if rows.len() == 0 {
    } else {
        assert(forall|j: int|
            0 <= j < rows.drop_first().len() ==> (#[trigger] rows.drop_first()[j]).id != id);
        lemma_find_none(rows.drop_first(), id);
    }
}

proof fn lemma_find_push(rows: Seq<SessionRow>, r2: SessionRow)
    ensures
        find_session(rows, r2.id) is None ==> find_session(rows.push(r2), r2.id) == Some(r2),
        forall|other: Seq<u8>|
            other != r2.id ==> find_session(rows.push(r2), other) == find_session(rows, other),
    decreases rows.len(),
{
    if rows.len() == 0 {
        assert(rows.push(r2)[0] == r2);
        assert(rows.push(r2).drop_first() =~= Seq::<SessionRow>::empty());
        assert forall|other: Seq<u8>| other != r2.id implies find_session(rows.push(r2), other)
            == find_session(rows, other) by {
            assert(find_session(rows.push(r2).drop_first(), other) is None);
        }
    } else {
        assert(rows.push(r2)[0] == rows[0]);
        assert(rows.push(r2).drop_first() =~= rows.drop_first().push(r2));
        lemma_find_push(rows.drop_first(), r2);
        assert forall|other: Seq<u8>| other != r2.id implies find_session(rows.push(r2), other)
            == find_session(rows, other) by {
            if rows[0].id == other {
            } else {
                assert(find_session(rows.drop_first().push(r2), other) == find_session(
                    rows.drop_first(),
                    other,
                ));
            }
        }
    }
}

proof fn lemma_find_update(rows: Seq<SessionRow>, i: int, r2: SessionRow)
    requires
        unique_ids(rows),
        0 <= i < rows.len(),
        r2.id == rows[i].id,
    ensures
        unique_ids(rows.update(i, r2)),
        find_session(rows.update(i, r2), r2.id) == Some(r2),
        forall|other: Seq<u8>|
            other != r2.id ==> find_session(rows.update(i, r2), other) == find_session(rows, other),
    decreases rows.len(),
{
    assert(forall|x: int|
        0 <= x < rows.len() && x != i ==> (#[trigger] rows.update(i, r2)[x]) == rows[x]);
    if i == 0 {
        assert(rows.update(0, r2)[0] == r2);
        assert(rows.update(0, r2).drop_first() =~= rows.drop_first());
        assert forall|other: Seq<u8>| other != r2.id implies find_session(
            rows.update(0, r2),
            other,
        ) == find_session(rows, other) by {
            assert(rows[0].id == r2.id);
        }
    } else {
        assert(unique_ids(rows.drop_first())) by {
            assert(forall|x: int, y: int|
                0 <= x < y < rows.drop_first().len() ==> (#[trigger] rows.drop_first()[x]).id != (
                #[trigger] rows.drop_first()[y]).id);
        }
        assert(rows.update(i, r2).drop_first() =~= rows.drop_first().update(i - 1, r2));
        assert(rows.drop_first()[i - 1] == rows[i]);
        lemma_find_update(rows.drop_first(), i - 1, r2);
        assert(rows[0].id != r2.id);
        assert(rows.update(i, r2)[0] == rows[0]);
        assert forall|other: Seq<u8>| other != r2.id implies find_session(
            rows.update(i, r2),
            other,
        ) == find_session(rows, other) by {
            if rows[0].id == other {
            } else {
                assert(find_session(rows.drop_first().update(i - 1, r2), other) == find_session(
                    rows.drop_first(),
                    other,
                ));
            }
        }
    }
}

proof fn lemma_find_remove(rows: Seq<SessionRow>, i: int)
    requires
        unique_ids(rows),
        0 <= i < rows.len(),
    ensures
        unique_ids(rows.remove(i)),
        find_session(rows.remove(i), rows[i].id) is None,
        forall|other: Seq<u8>|
            other != rows[i].id ==> find_session(rows.remove(i), other) == find_session(
                rows,
                other,
            ),
    decreases rows.len(),
{
    if i == 0 {
        assert(rows.remove(0) =~= rows.drop_first());
        assert(forall|j: int|
            0 <= j < rows.drop_first().len() ==> (#[trigger] rows.drop_first()[j]).id != rows[0].id);
        lemma_find_none(rows.drop_first(), rows[0].id);
        assert forall|other: Seq<u8>| other != rows[0].id implies find_session(
            rows.remove(0),
            other,
        ) == find_session(rows, other) by {
            assert(rows.remove(0) =~= rows.drop_first());
        }
        assert(unique_ids(rows.drop_first())) by {
            assert(forall|x: int, y: int|
                0 <= x < y < rows.drop_first().len() ==> (#[trigger] rows.drop_first()[x]).id != (
                #[trigger] rows.drop_first()[y]).id);
        }
    } else {
        assert(unique_ids(rows.drop_first())) by {
            assert(forall|x: int, y: int|
                0 <= x < y < rows.drop_first().len() ==> (#[trigger] rows.drop_first()[x]).id != (
                #[trigger] rows.drop_first()[y]).id);
        }
        assert(rows.remove(i).drop_first() =~= rows.drop_first().remove(i - 1));
        assert(rows.drop_first()[i - 1] == rows[i]);
        lemma_find_remove(rows.drop_first(), i - 1);
        assert(rows.remove(i)[0] == rows[0]);
        assert(rows[0].id != rows[i].id);
        assert forall|other: Seq<u8>| other != rows[i].id implies find_session(
            rows.remove(i),
            other,
        ) == find_session(rows, other) by {
            if rows[0].id == other {
            } else {
                assert(find_session(rows.drop_first().remove(i - 1), other) == find_session(
                    rows.drop_first(),
                    other,
                ));
            }
        }
    }
}

/// The session store.
pub struct SessionStore {
    sessions: Vec<SessionRecord>,
}

impl SessionStore {
    /// Spec: the session rows.
    pub closed spec fn rows(&self) -> Seq<SessionRow> {
        self.sessions@.map_values(|r: SessionRecord| r@)
    }

    /// Spec: the store invariant.
    pub open spec fn wf(&self) -> bool {
        unique_ids(self.rows())
    }

    /// An empty store.
    pub fn new() -> (r: SessionStore)
        ensures
            r.wf(),
            r.rows() =~= Seq::<SessionRow>::empty(),
    {
        let r = SessionStore { sessions: Vec::new() };
        proof {
            assert(r.rows() =~= Seq::<SessionRow>::empty());
        }
        r
    }

    fn find_index(&self, id: &[u8]) -> (r: Option<usize>)
        requires
            self.wf(),
        ensures
            r matches Some(i) ==> 0 <= i < self.rows().len() && self.rows()[i as int].id == id@
                && find_session(self.rows(), id@) == Some(self.rows()[i as int]),
            r is None ==> find_session(self.rows(), id@) is None,
    {
        let mut i: usize = 0;
        while i < self.sessions.len()
            invariant
                self.wf(),
                i <= self.sessions@.len(),
                self.rows().len() == self.sessions@.len(),
                forall|j: int| 0 <= j < i ==> (#[trigger] self.rows()[j]).id != id@,
            decreases self.sessions@.len() - i,
        {
            if crate::store::bytes_eq(self.sessions[i].id.as_slice(), id) {
                proof {
                    assert(self.rows()[i as int].id == id@);
                    lemma_find_first(self.rows(), id@, i as int);
                }
                return Some(i);
            }
            i = i + 1;
        }
        proof {
            lemma_find_none(self.rows(), id@);
        }
        None
    }

    /// Create a session under a caller-supplied opaque id, which must be
    /// drawn with the same entropy bar as confirmation tokens. Fails exactly
    /// when the id is already taken, changing nothing.
    pub fn create(&mut self, id: Vec<u8>, user_id: Option<u128>) -> (r: Result<(), SessionError>)
        requires
            old(self).wf(),
        ensures
            final(self).wf(),
            r is Ok <==> find_session(old(self).rows(), id@) is None,
            r is Ok ==> find_session(final(self).rows(), id@) == Some(
                SessionRow { id: id@, user_id, flash: None },
            ),
            r is Err ==> *final(self) == *old(self),
            forall|other: Seq<u8>|
                other != id@ ==> find_session(final(self).rows(), other) == find_session(
                    old(self).rows(),
                    other,
                ),
    {
        match self.find_index(id.as_slice()) {
            Some(_) => Err(SessionError),
            None => {
                let ghost old_rows = self.rows();
                let ghost row = SessionRow { id: id@, user_id, flash: None };
                let record = SessionRecord { id, user_id, flash: None };
                self.sessions.push(record);
                proof {
                    assert(self.rows() =~= old_rows.push(row));
                    lemma_find_push(old_rows, row);
                    assert forall|x: int, y: int|
                        0 <= x < y < self.rows().len() implies (#[trigger] self.rows()[x]).id != (
                    #[trigger] self.rows()[y]).id by {
                        if y == self.rows().len() - 1 {
                            if self.rows()[x].id == row.id {
                                lemma_find_first(old_rows, row.id, x);
                            }
                        }
                    }
                }
                Ok(())
            },
        }
    }

    /// The authenticated principal this session id stands for, if any.
    pub fn get(&self, id: &[u8]) -> (r: Option<u128>)
        requires
            self.wf(),
        ensures
            r == session_user(self.rows(), id@),
    {
        match self.find_index(id) {
            Some(i) => self.sessions[i].user_id,
            None => None,
        }
    }

    /// Attach one-shot flash data to an existing session, replacing any
    /// pending entry. Fails exactly when the session does not exist.
    pub fn set_flash(&mut self, id: &[u8], flash: Vec<u8>) -> (r: Result<(), SessionError>)
        requires
            old(self).wf(),
        ensures
            final(self).wf(),
            r is Ok <==> find_session(old(self).rows(), id@) is Some,
            r is Ok ==> session_flash(final(self).rows(), id@) == Some(flash@) && session_user(
                final(self).rows(),
                id@,
            ) == session_user(old(self).rows(), id@),
            r is Err ==> *final(self) == *old(self),
            forall|other: Seq<u8>|
                other != id@ ==> find_session(final(self).rows(), other) == find_session(
                    old(self).rows(),
                    other,
                ),
    {
        match self.find_index(id) {
            None => Err(SessionError),
            Some(i) => {
                let ghost old_rows = self.rows();
                let old_rec = self.sessions.remove(i);
                let new_rec = SessionRecord {
                    id: old_rec.id,
                    user_id: old_rec.user_id,
                    flash: Some(flash),
                };
                self.sessions.insert(i, new_rec);
                proof {
                    let row2 = SessionRow {
                        id: old_rows[i as int].id,
                        user_id: old_rows[i as int].user_id,
                        flash: Some(flash@),
                    };
                    assert(self.rows() =~= old_rows.update(i as int, row2));
                    lemma_find_update(old_rows, i as int, row2);
                }
                Ok(())
            },
        }
    }

    /// Read and remove the pending flash data in one step: the one-shot
    /// guarantee. A second take for the same session yields nothing.
    pub fn take_flash(&mut self, id: &[u8]) -> (r: Option<Vec<u8>>)
        requires
            old(self).wf(),
        ensures
            final(self).wf(),
            r is Some <==> session_flash(old(self).rows(), id@) is Some,
            r matches Some(f) ==> session_flash(old(self).rows(), id@) == Some(f@),
            session_flash(final(self).rows(), id@) is None,
            session_user(final(self).rows(), id@) == session_user(old(self).rows(), id@),
            forall|other: Seq<u8>|
                other != id@ ==> find_session(final(self).rows(), other) == find_session(
                    old(self).rows(),
                    other,
                ),
    {
        match self.find_index(id) {
            None => None,
            Some(i) => {
                let ghost old_rows = self.rows();
                let old_rec = self.sessions.remove(i);
                let flash = old_rec.flash;
                let new_rec = SessionRecord {
                    id: old_rec.id,
                    user_id: old_rec.user_id,
                    flash: None,
                };
                self.sessions.insert(i, new_rec);
                proof {
                    let row2 = SessionRow {
                        id: old_rows[i as int].id,
                        user_id: old_rows[i as int].user_id,
                        flash: None,
                    };
                    assert(self.rows() =~= old_rows.update(i as int, row2));
                    lemma_find_update(old_rows, i as int, row2);
                }
                flash
            },
        }
    }

    /// Destroy a session: its id maps to nothing afterwards. Destroying an
    /// absent session changes nothing.
    pub fn destroy(&mut self, id: &[u8])
        requires
            old(self).wf(),
        ensures
            final(self).wf(),
            find_session(final(self).rows(), id@) is None,
            forall|other: Seq<u8>|
                other != id@ ==> find_session(final(self).rows(), other) == find_session(
                    old(self).rows(),
                    other,
                ),
    {
        match self.find_index(id) {
            None => {
            },
            Some(i) => {
                let ghost old_rows = self.rows();
                let _ = self.sessions.remove(i);
                proof {
                    assert(self.rows() =~= old_rows.remove(i as int));
                    lemma_find_remove(old_rows, i as int);
                }
            },
        }
    }
}

/// Law: a destroyed or absent session stands for no principal, so the
/// access-control check on protected routes denies it.
pub proof fn lemma_absent_session_is_anonymous(rows: Seq<SessionRow>, id: Seq<u8>)
    requires
        find_session(rows, id) is None,
    ensures
        session_user(rows, id) is None,
        session_flash(rows, id) is None,
{
}

} // verus!
