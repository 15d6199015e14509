//! Request-level decisions: what each caller may see and do, given the
//! phase, the authenticated session, and the configured administrator.
//!
//! Every function here is pure decision logic: the surrounding application
//! fetches values, calls in, and renders or persists what comes back.

use vstd::prelude::*;
use crate::config::Config;
use crate::phase::RegistrationPhase;
use crate::registry::{
    count_id, has_id, idx_of, lemma_count_id_none, set_status_spec, str_eq, views_of, Registration,
    RegistrationStore, RegistrationView, STATUS_APPROVED, STATUS_PENDING, STATUS_REJECTED,
};
use crate::session::Session;

verus! {

/// The registrant's comment, or empty where none was given.
pub open spec fn comment_or_empty(comment: Option<String>) -> Seq<char> {
    match comment {
        Option::Some(c) => c@,
        Option::None => Seq::empty(),
    }
}

/// The record a registration submission creates: pending, with the
/// registrant's comment and nothing from the director yet.
pub open spec fn pending_registration(session: crate::session::SessionView, comment: Seq<char>) -> RegistrationView {
    RegistrationView {
        lichess_id: session.lichess_id,
        lichess_username: session.lichess_username,
        status: STATUS_PENDING as int,
        registrant_comment: comment,
        td_comment: Seq::empty(),
        special: false,
    }
}

/// The store after a registration submission while the window is open: a
/// subject with a record keeps exactly what it had; one without gains a
/// pending record.
pub open spec fn register_spec(
    s: Seq<RegistrationView>,
    session: crate::session::SessionView,
    comment: Seq<char>,
) -> Seq<RegistrationView> {
    if has_id(s, session.lichess_id) {
        s
    } else {
        s.push(pending_registration(session, comment))
    }
}

/// Whether the caller is the configured administrator: equality of the
/// session's subject id with the configured director id, nothing else.
pub fn is_admin(session: &Session, config: &Config) -> (r: bool)
    ensures
        r == (session@.lichess_id == config.tournament_director@),
{
    str_eq(session.lichess_id.as_str(), config.tournament_director.as_str())
}

/// A registration submission.  Only while the phase is `Open`, and only for
/// a subject with no record yet, is anything stored — a pending record with
/// the registrant's comment.  Everything else is a silent no-op, which makes
/// duplicate submissions idempotent.
pub fn register(
    store: &mut RegistrationStore,
    phase: RegistrationPhase,
    session: &Session,
    comment: Option<String>,
)
    requires
        old(store).wf(),
    ensures
        final(store).wf(),
        phase != RegistrationPhase::Open ==> final(store)@ == old(store)@,
        phase == RegistrationPhase::Open ==> final(store)@ == register_spec(
            old(store)@,
            session@,
            comment_or_empty(comment),
        ),
{
    if phase == RegistrationPhase::Open {
        let record = Registration {
            lichess_id: session.lichess_id.clone(),
            lichess_username: session.lichess_username.clone(),
            status: STATUS_PENDING,
            registrant_comment: match comment {
                Some(c) => c,
                None => String::new(),
            },
            td_comment: String::new(),
            special: false,
        };
        store.insert_registration(record);
    }
}

/// The record a submission should create against an outside store that
/// enforces the key's uniqueness itself: `Some` exactly when the window is
/// open and the subject is not yet registered.  `register` applies the same
/// decision to the in-crate store.
pub fn registration_submission(
    phase: RegistrationPhase,
    already_registered: bool,
    session: &Session,
    comment: Option<String>,
) -> (r: Option<Registration>)
    ensures
        r is Some <==> (phase == RegistrationPhase::Open && !already_registered),
        r is Some ==> r->0@ == pending_registration(session@, comment_or_empty(comment)),
{
    if phase == RegistrationPhase::Open && !already_registered {
        Some(
            Registration {
                lichess_id: session.lichess_id.clone(),
                lichess_username: session.lichess_username.clone(),
                status: STATUS_PENDING,
                registrant_comment: match comment {
                    Some(c) => c,
                    None => String::new(),
                },
                td_comment: String::new(),
                special: false,
            },
        )
    } else {
        None
    }
}

/// The outcome of an administrative action.
#[derive(Clone, Copy, PartialEq, Eq, Structural, Debug)]
pub enum AdminOutcome {
    /// The action was applied to the store.
    Done,
    /// The caller is not the administrator; nothing changed.
    Forbidden,
    /// The action name is not one of the three known ones; nothing changed.
    UnknownAction,
}

/// An administrative action on the record keyed by `who`: `approve`,
/// `reject` or `withdraw`, with the director's comment.  A caller other than
/// the configured administrator never changes the store, whatever the phase;
/// an unknown action name is rejected rather than applied.
pub fn admin_action(
    store: &mut RegistrationStore,
    session: &Session,
    config: &Config,
    what: &str,
    who: &str,
    comment: Option<String>,
) -> (r: AdminOutcome)
    requires
        old(store).wf(),
    ensures
        final(store).wf(),
        session@.lichess_id != config.tournament_director@ ==> r == AdminOutcome::Forbidden
            && final(store)@ == old(store)@,
        session@.lichess_id == config.tournament_director@ && what@ == "approve"@ ==> r
            == AdminOutcome::Done && final(store)@ == set_status_spec(
            old(store)@,
            who@,
            comment_or_empty(comment),
            STATUS_APPROVED as int,
        ),
        session@.lichess_id == config.tournament_director@ && what@ == "reject"@ ==> r
            == AdminOutcome::Done && final(store)@ == set_status_spec(
            old(store)@,
            who@,
            comment_or_empty(comment),
            STATUS_REJECTED as int,
        ),
        session@.lichess_id == config.tournament_director@ && what@ == "withdraw"@ ==> r
            == AdminOutcome::Done && (if has_id(old(store)@, who@) {
            final(store)@ == old(store)@.remove(idx_of(old(store)@, who@))
        } else {
            final(store)@ == old(store)@
        }),
        session@.lichess_id == config.tournament_director@ && what@ != "approve"@ && what@
            != "reject"@ && what@ != "withdraw"@ ==> r == AdminOutcome::UnknownAction && final(store)@ == old(store)@,
{
    proof {
        reveal_strlit("approve");
        reveal_strlit("reject");
        reveal_strlit("withdraw");
        assert("approve"@.len() == 7);
        assert("reject"@.len() == 6);
        assert("withdraw"@.len() == 8);
    }
    if !is_admin(session, config) {
        return AdminOutcome::Forbidden;
    }
    let td_comment = match comment {
        Some(c) => c,
        None => String::new(),
    };
    if str_eq(what, "approve") {
        store.approve_registration(who, td_comment.as_str());
        AdminOutcome::Done
    } else if str_eq(what, "reject") {
        store.reject_registration(who, td_comment.as_str());
        AdminOutcome::Done
    } else if str_eq(what, "withdraw") {
        store.withdraw_registration(who);
        AdminOutcome::Done
    } else {
        AdminOutcome::UnknownAction
    }
}

/// What the landing page shows.
pub enum HomeView {
    /// Registration has not opened yet.
    Landing,
    /// Registration is over.
    RegistrationClosedPage,
    /// Registration is open, but the visitor is not signed in.
    RegistrationOpenPage,
    /// The signed-in visitor has no record yet: show the form.
    RegistrationFormPage,
    /// The signed-in visitor's record, with the director's comment.
    RegisteredPage { status: i32, td_comment: String },
}

/// Decides the landing page from the phase, the session, and the visitor's
/// record as the store reported it (consulted only when signed in while
/// registration is open).
pub fn home_view(
    phase: RegistrationPhase,
    session: &Option<Session>,
    found: &Option<Registration>,
) -> (r: HomeView)
    ensures
        phase == RegistrationPhase::NotOpen ==> r is Landing,
        phase == RegistrationPhase::Closed ==> r is RegistrationClosedPage,
        phase == RegistrationPhase::Open && session is None ==> r is RegistrationOpenPage,
        phase == RegistrationPhase::Open && session is Some && found is None ==> r
            is RegistrationFormPage,
        (phase == RegistrationPhase::Open && session is Some && found is Some) ==> (
        r matches HomeView::RegisteredPage { status, td_comment } && status == found->0.status
            && td_comment@ == found->0@.td_comment),
{
    match phase {
        RegistrationPhase::NotOpen => HomeView::Landing,
        RegistrationPhase::Closed => HomeView::RegistrationClosedPage,
        RegistrationPhase::Open => match session {
            None => HomeView::RegistrationOpenPage,
            Some(_) => match found {
                None => HomeView::RegistrationFormPage,
                Some(reg) => HomeView::RegisteredPage {
                    status: reg.status,
                    td_comment: reg.td_comment.clone(),
                },
            },
        },
    }
}

/// Status rendered for a page, on the three statuses the store admits.
pub fn status_label(status: i32) -> (r: &'static str)
    requires
        crate::registry::valid_status(status as int),
    ensures
        status == STATUS_PENDING ==> r@ == "pending"@,
        status == STATUS_APPROVED ==> r@ == "approved"@,
        status == STATUS_REJECTED ==> r@ == "rejected"@,
{
    if status == STATUS_PENDING {
        "pending"
    } else if status == STATUS_APPROVED {
        "approved"
    } else {
        "rejected"
    }
}

/// The records of `s` whose status is `want`, in order.
pub open spec fn with_status(s: Seq<RegistrationView>, want: int) -> Seq<RegistrationView>
    decreases s.len(),
{
    if s.len() == 0 {
        Seq::empty()
    } else {
        let rest = with_status(s.drop_last(), want);
        if s.last().status == want {
            rest.push(s.last())
        } else {
            rest
        }
    }
}

/// Records in review order: pending first, then approved, then rejected,
/// each group in store order — a stable sort on the status key.
pub open spec fn by_status(s: Seq<RegistrationView>) -> Seq<RegistrationView> {
    with_status(s, STATUS_PENDING as int) + with_status(s, STATUS_APPROVED as int) + with_status(
        s,
        STATUS_REJECTED as int,
    )
}

/// Clones the records carrying one status, in order.
fn filter_status(regs: &Vec<Registration>, want: i32) -> (out: Vec<Registration>)
    ensures
        views_of(out@) == with_status(views_of(regs@), want as int),
{
    let n = regs.len();
    let mut out: Vec<Registration> = Vec::new();
    proof {
        assert(views_of(out@) =~= views_of(regs@).take(0));
        assert(with_status(views_of(regs@).take(0), want as int) == views_of(regs@).take(0));
    }
    let mut i: usize = 0;
    while i < n
        invariant
            n == regs.len(),
            0 <= i <= n,
            views_of(out@) == with_status(views_of(regs@).take(i as int), want as int),
        decreases n - i,
    {
        let ghost prefix = views_of(out@);
        if regs[i].status == want {
            out.push(regs[i].clone());
            proof {
                assert(views_of(out@) =~= prefix.push(views_of(regs@)[i as int]));
            }
        }
        proof {
            let t1 = views_of(regs@).take(i + 1);
            assert(t1.len() == i + 1);
            assert(t1.drop_last() =~= views_of(regs@).take(i as int));
            assert(t1.last() == views_of(regs@)[i as int]);
            assert(views_of(out@) == with_status(t1, want as int));
        }
        i += 1;
    }
    proof {
        assert(views_of(regs@).take(n as int) =~= views_of(regs@));
    }
    out
}

/// Every record, in review order: what the administrator's list shows.
pub fn registrations_by_status(store: &RegistrationStore) -> (out: Vec<Registration>)
    ensures
        views_of(out@) == by_status(store@),
{
    let all = store.all_registrations();
    let mut out = filter_status(&all, STATUS_PENDING);
    let mut mid = filter_status(&all, STATUS_APPROVED);
    let mut rest = filter_status(&all, STATUS_REJECTED);
    let ghost first = views_of(out@);
    let ghost second = views_of(mid@);
    let ghost third = views_of(rest@);
    out.append(&mut mid);
    proof {
        assert(views_of(out@) =~= first + second);
    }
    out.append(&mut rest);
    proof {
        assert(views_of(out@) =~= (first + second) + third);
        assert(views_of(out@) == by_status(store@));
    }
    out
}

/// What the administration page shows.
pub enum AdminPage {
    /// The caller is not the administrator.
    AccessDenied,
    /// The full list, in review order.
    RegistrationList { registrations: Vec<Registration> },
}

/// Decides the administration page: the configured administrator sees every
/// record in review order; anyone else sees access denied.
pub fn admin_page(store: &RegistrationStore, session: &Session, config: &Config) -> (r: AdminPage)
    ensures
        session@.lichess_id != config.tournament_director@ ==> r is AccessDenied,
        session@.lichess_id == config.tournament_director@ ==> (r matches AdminPage::RegistrationList { registrations }
            && views_of(registrations@) == by_status(store@)),
{
    if is_admin(session, config) {
        AdminPage::RegistrationList { registrations: registrations_by_status(store) }
    } else {
        AdminPage::AccessDenied
    }
}

/// What the single-record review page shows.
pub enum AdminReviewPage {
    /// The caller is not the administrator.
    AccessDenied,
    /// The record under review, as the store reported it.
    Review { registration: Option<Registration> },
}

/// Decides the review page for one record, which the administrator alone may
/// see.
pub fn admin_review_page(
    session: &Session,
    config: &Config,
    found: Option<Registration>,
) -> (r: AdminReviewPage)
    ensures
        session@.lichess_id != config.tournament_director@ ==> r is AccessDenied,
        session@.lichess_id == config.tournament_director@ ==> r == (AdminReviewPage::Review {
            registration: found,
        }),
{
    if is_admin(session, config) {
        AdminReviewPage::Review { registration: found }
    } else {
        AdminReviewPage::AccessDenied
    }
}

/// Submitting twice for one subject stores exactly one record, and it is
/// the pending record of the first submission: the first call adds it, and
/// the second call, finding the subject registered, changes nothing.
pub proof fn lemma_register_idempotent(
    s: Seq<RegistrationView>,
    session: crate::session::SessionView,
    c1: Seq<char>,
    c2: Seq<char>,
)
    requires
        !has_id(s, session.lichess_id),
    ensures
        register_spec(s, session, c1) == s.push(pending_registration(session, c1)),
        register_spec(register_spec(s, session, c1), session, c2) == register_spec(s, session, c1),
        count_id(register_spec(s, session, c1), session.lichess_id) == 1,
{
    let p = pending_registration(session, c1);
    let s1 = s.push(p);
    assert(s1[s.len() as int].lichess_id == session.lichess_id);
    assert(has_id(s1, session.lichess_id));
    lemma_count_id_none(s, session.lichess_id);
    assert(s1.drop_last() =~= s);
    assert(count_id(s1, session.lichess_id) == 1);
}

} // verus!

