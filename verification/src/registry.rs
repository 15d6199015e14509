//! Registration records and the keyed store they live in.
//!
//! The store models durable registration storage: records keyed by the
//! registrant's provider-assigned id, one per registrant, created while the
//! window is open and reviewed by the administrator.  A deployment backs it
//! with a database; every decision about what may be inserted, updated or
//! removed is made here.

use vstd::prelude::*;

verus! {

/// A pending entry awaiting the administrator's review.
pub const STATUS_PENDING: i32 = 0;

/// An entry the administrator has approved.
pub const STATUS_APPROVED: i32 = 1;

/// An entry the administrator has rejected.
pub const STATUS_REJECTED: i32 = 2;

/// One registration: keyed by `lichess_id`, carrying the registrant's own
/// comment and, once reviewed, the tournament director's comment.
pub struct Registration {
    pub lichess_id: String,
    pub lichess_username: String,
    pub status: i32,
    pub registrant_comment: String,
    pub td_comment: String,
    pub special: bool,
}

/// The mathematical value of a `Registration`.
pub struct RegistrationView {
    pub lichess_id: Seq<char>,
    pub lichess_username: Seq<char>,
    pub status: int,
    pub registrant_comment: Seq<char>,
    pub td_comment: Seq<char>,
    pub special: bool,
}

impl View for Registration {
    type V = RegistrationView;

    open spec fn view(&self) -> RegistrationView {
        RegistrationView {
            lichess_id: self.lichess_id@,
            lichess_username: self.lichess_username@,
            status: self.status as int,
            registrant_comment: self.registrant_comment@,
            td_comment: self.td_comment@,
            special: self.special,
        }
    }
}

impl Clone for Registration {
    fn clone(&self) -> (r: Self)
        ensures
            r@ == self@,
    {
        Registration {
            lichess_id: self.lichess_id.clone(),
            lichess_username: self.lichess_username.clone(),
            status: self.status,
            registrant_comment: self.registrant_comment.clone(),
            td_comment: self.td_comment.clone(),
            special: self.special,
        }
    }
}

/// String-slice comparison, routed through owned strings because that is the
/// equality vstd gives a meaning to.
pub(crate) fn str_eq(a: &str, b: &str) -> (r: bool)
    ensures
        r == (a@ == b@),
{
    let sa = a.to_owned();
    let sb = b.to_owned();
    sa == sb
}

/// A status value the store admits.
pub open spec fn valid_status(st: int) -> bool {
    st == STATUS_PENDING as int || st == STATUS_APPROVED as int || st == STATUS_REJECTED as int
}

/// The views of a sequence of records.
pub open spec fn views_of(v: Seq<Registration>) -> Seq<RegistrationView> {
    v.map(|i: int, r: Registration| r@)
}

/// Whether some record in `s` is keyed by `id`.
pub open spec fn has_id(s: Seq<RegistrationView>, id: Seq<char>) -> bool {
    exists|i: int| 0 <= i < s.len() && s[i].lichess_id == id
}

/// The index of the record keyed by `id`; meaningful only under `has_id`
/// together with `unique_ids`.
pub open spec fn idx_of(s: Seq<RegistrationView>, id: Seq<char>) -> int {
    choose|i: int| 0 <= i < s.len() && s[i].lichess_id == id
}

/// How many records in `s` are keyed by `id`.
pub open spec fn count_id(s: Seq<RegistrationView>, id: Seq<char>) -> int
    decreases s.len(),
{
    if s.len() == 0 {
        0
    } else {
        count_id(s.drop_last(), id) + if s.last().lichess_id == id {
            1int
        } else {
            0int
        }
    }
}

/// A key nothing carries is counted zero times.
pub proof fn lemma_count_id_none(s: Seq<RegistrationView>, id: Seq<char>)
    requires
        !has_id(s, id),
    ensures
        count_id(s, id) == 0,
    decreases s.len(),
{
    if s.len() > 0 {
        assert(forall|i: int| 0 <= i < s.len() - 1 ==> s.drop_last()[i] == s[i]);
        assert(!has_id(s.drop_last(), id));
        lemma_count_id_none(s.drop_last(), id);
        assert(s.last().lichess_id != id);
    }
}

/// No two records share a key.
pub open spec fn unique_ids(s: Seq<RegistrationView>) -> bool {
    forall|i: int, j: int| 0 <= i < j < s.len() ==> s[i].lichess_id != s[j].lichess_id
}

/// Every record carries an admitted status.
pub open spec fn valid_statuses(s: Seq<RegistrationView>) -> bool {
    forall|i: int| 0 <= i < s.len() ==> valid_status(#[trigger] s[i].status)
}

/// A record as reviewed: status and director's comment replaced, the
/// registrant's own fields untouched.
pub open spec fn reviewed(r: RegistrationView, status: int, td_comment: Seq<char>) -> RegistrationView {
    RegistrationView { status: status, td_comment: td_comment, ..r }
}

/// The store contents after a review of the record keyed by `id`: that
/// record gains the new status and comment, every other record is unchanged,
/// and an absent key changes nothing.
pub open spec fn set_status_spec(
    s: Seq<RegistrationView>,
    id: Seq<char>,
    td_comment: Seq<char>,
    status: int,
) -> Seq<RegistrationView> {
    s.map(
        |i: int, r: RegistrationView|
            if r.lichess_id == id {
                reviewed(r, status, td_comment)
            } else {
                r
            },
    )
}

/// The keyed registration store.  One record per registrant id; insertion of
/// a key already present is absorbed, so duplicate submissions cannot create
/// a second record.
pub struct RegistrationStore {
    regs: Vec<Registration>,
}

impl View for RegistrationStore {
    type V = Seq<RegistrationView>;

    closed spec fn view(&self) -> Seq<RegistrationView> {
        views_of(self.regs@)
    }
}

impl RegistrationStore {
    /// Keys unique and statuses admitted: established at construction,
    /// preserved by every operation.
    pub open spec fn wf(&self) -> bool {
        unique_ids(self@) && valid_statuses(self@)
    }

    /// An empty store.
    pub fn new() -> (s: Self)
        ensures
            s@ == Seq::<RegistrationView>::empty(),
            s.wf(),
    {
        let s = RegistrationStore { regs: Vec::new() };
        proof {
            assert(s@ =~= Seq::<RegistrationView>::empty());
        }
        s
    }

    /// Looks a record up by its key.
    pub fn find_registration(&self, lichess_id: &str) -> (r: Option<Registration>)
        requires
            self.wf(),
        ensures
            r is Some <==> has_id(self@, lichess_id@),
            r is Some ==> r->0@ == self@[idx_of(self@, lichess_id@)]
                && r->0@.lichess_id == lichess_id@,
    {
        let n = self.regs.len();
        let mut i: usize = 0;
        while i < n
            invariant
                n == self.regs.len(),
                0 <= i <= n,
                self.wf(),
                forall|k: int| 0 <= k < i ==> self@[k].lichess_id != lichess_id@,
            decreases n - i,
        {
            if str_eq(self.regs[i].lichess_id.as_str(), lichess_id) {
                let found = self.regs[i].clone();
                proof {
                    assert(self@[i as int].lichess_id == lichess_id@);
                    assert(has_id(self@, lichess_id@));
                    let j = idx_of(self@, lichess_id@);
                    assert(0 <= j < self@.len() && self@[j].lichess_id == lichess_id@);
                    assert(j == i as int);
                }
                return Some(found);
            }
            i += 1;
        }
        None
    }

    /// Inserts a record unless its key is already taken: the uniqueness
    /// constraint absorbs a duplicate as "already registered" instead of
    /// storing it twice.
    pub fn insert_registration(&mut self, registration: Registration) -> (inserted: bool)
        requires
            old(self).wf(),
            valid_status(registration@.status),
        ensures
            final(self).wf(),
            inserted == !has_id(old(self)@, registration@.lichess_id),
            inserted ==> final(self)@ == old(self)@.push(registration@),
            !inserted ==> final(self)@ == old(self)@,
    {
        if self.find_registration(registration.lichess_id.as_str()).is_some() {
            return false;
        }
        let ghost before = self@;
        self.regs.push(registration);
        proof {
            assert(self@ =~= before.push(registration@));
        }
        true
    }

    /// Hands out every record, in store order.
    pub fn all_registrations(&self) -> (v: Vec<Registration>)
        ensures
            views_of(v@) == self@,
    {
        let n = self.regs.len();
        let mut out: Vec<Registration> = Vec::new();
        let mut i: usize = 0;
        while i < n
            invariant
                n == self.regs.len(),
                0 <= i <= n,
                views_of(out@) =~= self@.take(i as int),
            decreases n - i,
        {
            let ghost prefix = views_of(out@);
            out.push(self.regs[i].clone());
            proof {
                assert(views_of(out@) =~= prefix.push(self@[i as int]));
                assert(views_of(out@) =~= self@.take(i as int + 1));
            }
            i += 1;
        }
        proof {
            assert(self@.take(n as int) =~= self@);
        }
        out
    }

    /// Reviews the record keyed by `lichess_id`: sets its status and the
    /// director's comment; a key with no record changes nothing.
    #[verifier::loop_isolation(false)]
    fn set_status(&mut self, lichess_id: &str, td_comment: &str, status: i32)
        requires
            old(self).wf(),
            valid_status(status as int),
        ensures
            final(self).wf(),
            final(self)@ == set_status_spec(old(self)@, lichess_id@, td_comment@, status as int),
    {
        let ghost before = self@;
        let n = self.regs.len();
        let mut i: usize = 0;
        while i < n
            invariant
                n == self.regs.len(),
                0 <= i <= n,
                valid_status(status as int),
                self@.len() == before.len(),
                forall|k: int| i <= k < n ==> self@[k] == before[k],
                forall|k: int|
                    0 <= k < i ==> self@[k] == (if before[k].lichess_id == lichess_id@ {
                        reviewed(before[k], status as int, td_comment@)
                    } else {
                        before[k]
                    }),
            decreases n - i,
        {
            let ghost pre = self@;
            if str_eq(self.regs[i].lichess_id.as_str(), lichess_id) {
                let copied = self.regs[i].clone();
                let updated = Registration {
                    status: status,
                    td_comment: td_comment.to_owned(),
                    ..copied
                };
                proof {
                    assert(updated@ == reviewed(pre[i as int], status as int, td_comment@));
                }
                self.regs[i] = updated;
                proof {
                    assert(self@[i as int] == reviewed(before[i as int], status as int, td_comment@));
                    assert(forall|k: int| 0 <= k < n && k != i ==> self@[k] == pre[k]);
                }
            }
            proof {
                assert(self@.len() == before.len());
                assert forall|k: int| 0 <= k < i + 1 implies self@[k] == (if before[k].lichess_id == lichess_id@ {
                    reviewed(before[k], status as int, td_comment@)
                } else {
                    before[k]
                }) by {
                    if k < i {
                        assert(self@[k] == pre[k]);
                        assert(pre[k] == (if before[k].lichess_id == lichess_id@ {
                            reviewed(before[k], status as int, td_comment@)
                        } else {
                            before[k]
                        }));
                    } else {
                        assert(k == i);
                    }
                }
            }
            i += 1;
        }
        proof {
            assert(self@ =~= set_status_spec(before, lichess_id@, td_comment@, status as int));
            assert forall|a: int, b: int| 0 <= a < b < self@.len() implies
                self@[a].lichess_id != self@[b].lichess_id by {
                assert(unique_ids(before));
            }
        }
    }

    /// Marks the record keyed by `lichess_id` approved, with the director's
    /// comment.
    pub fn approve_registration(&mut self, lichess_id: &str, td_comment: &str)
        requires
            old(self).wf(),
        ensures
            final(self).wf(),
            final(self)@ == set_status_spec(old(self)@, lichess_id@, td_comment@, STATUS_APPROVED as int),
    {
        self.set_status(lichess_id, td_comment, STATUS_APPROVED)
    }

    /// Marks the record keyed by `lichess_id` rejected, with the director's
    /// comment.
    pub fn reject_registration(&mut self, lichess_id: &str, td_comment: &str)
        requires
            old(self).wf(),
        ensures
            final(self).wf(),
            final(self)@ == set_status_spec(old(self)@, lichess_id@, td_comment@, STATUS_REJECTED as int),
    {
        self.set_status(lichess_id, td_comment, STATUS_REJECTED)
    }

    /// Removes the record keyed by `lichess_id`; a key with no record
    /// changes nothing.
    #[verifier::loop_isolation(false)]
    pub fn withdraw_registration(&mut self, lichess_id: &str)
        requires
            old(self).wf(),
        ensures
            final(self).wf(),
            !has_id(old(self)@, lichess_id@) ==> final(self)@ == old(self)@,
            has_id(old(self)@, lichess_id@) ==> final(self)@ == old(self)@.remove(
                idx_of(old(self)@, lichess_id@),
            ),
    {
        let ghost before = self@;
        let n = self.regs.len();
        let mut i: usize = 0;
        while i < n
            invariant
                n == self.regs.len(),
                0 <= i <= n,
                self@ == before,
                forall|k: int| 0 <= k < i ==> before[k].lichess_id != lichess_id@,
            decreases n - i,
        {
            if str_eq(self.regs[i].lichess_id.as_str(), lichess_id) {
                self.regs.remove(i);
                proof {
                    assert(before[i as int].lichess_id == lichess_id@);
                    assert(has_id(before, lichess_id@));
                    let j = idx_of(before, lichess_id@);
                    assert(0 <= j < before.len() && before[j].lichess_id == lichess_id@);
                    assert(unique_ids(before));
                    assert(j == i as int);
                    assert(self@ =~= before.remove(i as int));
                    assert forall|a: int, b: int| 0 <= a < b < self@.len() implies
                        self@[a].lichess_id != self@[b].lichess_id by {}
                }
                return;
            }
            i += 1;
        }
        proof {
            assert(!has_id(before, lichess_id@));
        }
    }
}

} // verus!
