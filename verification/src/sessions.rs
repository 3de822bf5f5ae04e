//! The sessions that the server holds open, and those that it let go.

use std::collections::{HashMap, HashSet};

use vstd::prelude::*;
use vstd::std_specs::iter::IteratorSpec;

use crate::ids::{nibble, random_uuid};
use crate::pipeline::ErrorView;
use crate::server::{
    after_2fa, after_escrow, attempt_at, error_reply, error_response, escrow_outcome,
    law_failures_are_told_to_whoever_waits, law_status_of_each_error, start_outcome, start_reply,
    step_name, step_view, tells_error, tfa_outcome, wrong_step, wrong_step_reply, Fate, Reply,
    ReplyView, Step, StepView, SESSION_TTL,
};

verus! {

/// One session: where its pipeline is, and when it was last asked for, in nanoseconds on the
/// server's clock.
pub struct Session {
    pub step: Step,
    pub last_touch: u128,
}

/// One session.
pub struct SessionView {
    pub step: StepView,
    pub last_touch: int,
}

impl View for Session {
    type V = SessionView;

    open spec fn view(&self) -> SessionView {
        SessionView { step: self.step@, last_touch: self.last_touch as int }
    }
}

/// The time that a session may idle, in nanoseconds.
pub open spec fn ttl() -> int {
    SESSION_TTL * 1_000_000_000
}

/// Whether a session has idled past its time and is not at work: the escrow join and the CloudKit
/// sync may take longer than that, and must not be stopped under the request that waits for them.
pub open spec fn reapable(s: SessionView, now: int) -> bool {
    !(s.step is Running) && now - s.last_touch > ttl()
}

/// Whether a session has idled past its time and is not at work.
pub fn is_reapable(s: &Session, now: u128) -> (r: bool)
    ensures
        r == reapable(s@, now as int),
{
    if matches!(s.step, Step::Running) {
        return false;
    }
    now > s.last_touch && now - s.last_touch > SESSION_TTL as u128 * 1_000_000_000
}

/// Whether `id` is among the first `n` keys, and in the set.
spec fn picked(keys: Seq<u128>, n: int, among: Set<u128>, id: u128) -> bool {
    among.contains(id) && exists|j: int| 0 <= j < n && #[trigger] keys[j] == id
}

/// A session that was reaped: how long it had idled, in nanoseconds, and at which step.
pub struct Reaped {
    pub id: u128,
    pub idle: u128,
    pub step: &'static str,
}

/// The identifiers of reaped sessions.
pub open spec fn reaped_ids(reaped: Seq<Reaped>) -> Seq<u128> {
    reaped.map_values(|r: Reaped| r.id)
}

/// The sessions of a server.
pub struct Sessions {
    live: HashMap<u128, Session>,
    expired: HashSet<u128>,
}

/// The sessions of a server: those that are open, and the identifiers of those that lapsed.
pub struct SessionsView {
    pub live: Map<u128, SessionView>,
    pub expired: Set<u128>,
}

impl View for Sessions {
    type V = SessionsView;

    closed spec fn view(&self) -> SessionsView {
        SessionsView { live: self.live@.map_values(|s: Session| s@), expired: self.expired@ }
    }
}

impl SessionsView {
    /// The sessions once one more is open.
    pub open spec fn opened(self, id: u128, now: int) -> SessionsView {
        SessionsView {
            live: self.live.insert(id, SessionView { step: StepView::Starting, last_touch: now }),
            ..self
        }
    }

    /// The sessions once the pipeline of one has moved on. One that is gone stays gone.
    pub open spec fn published(self, id: u128, step: StepView) -> SessionsView {
        if self.live.contains_key(id) {
            SessionsView {
                live: self.live.insert(id, SessionView { step, ..self.live[id] }),
                ..self
            }
        } else {
            self
        }
    }

    /// The sessions once one has been asked for.
    pub open spec fn touched(self, id: u128, now: int) -> SessionsView {
        if self.live.contains_key(id) {
            SessionsView {
                live: self.live.insert(id, SessionView { last_touch: now, ..self.live[id] }),
                ..self
            }
        } else {
            self
        }
    }

    /// The sessions once one is over and forgotten.
    pub open spec fn removed(self, id: u128) -> SessionsView {
        SessionsView { live: self.live.remove(id), ..self }
    }

    /// The sessions once one is over and remembered as expired.
    pub open spec fn retired(self, id: u128) -> SessionsView {
        SessionsView { live: self.live.remove(id), expired: self.expired.insert(id) }
    }

    /// The sessions once an answer has decided what becomes of one.
    pub open spec fn settled(self, id: u128, fate: Fate) -> SessionsView {
        match fate {
            Fate::Keep => self,
            Fate::Remove => self.removed(id),
            Fate::Retire => self.retired(id),
            Fate::Abort => self.retired(id),
        }
    }

    /// The identifiers of the sessions that are to be reaped.
    pub open spec fn idle(self, now: int) -> Set<u128> {
        self.live.dom().filter(|id: u128| reapable(self.live[id], now))
    }

    /// The sessions once the idle ones have been reaped.
    pub open spec fn reaped(self, now: int) -> SessionsView {
        SessionsView {
            live: self.live.remove_keys(self.idle(now)),
            expired: self.expired.union(self.idle(now)),
        }
    }

    /// What a 2FA code is refused with: that there is no such session, or that it is not at that
    /// step. `None` where it is taken.
    pub open spec fn refusal_of_2fa(self, id: u128) -> Option<ReplyView> {
        if !self.live.contains_key(id) {
            Some(self.missing(id))
        } else if !(self.live[id].step is AwaitingTfa) {
            Some(wrong_step_reply())
        } else {
            None
        }
    }

    /// What a device and its passcode are refused with. `None` where they are taken.
    pub open spec fn refusal_of_escrow(self, id: u128) -> Option<ReplyView> {
        if !self.live.contains_key(id) {
            Some(self.missing(id))
        } else if !self.live[id].step.takes_escrow() {
            Some(wrong_step_reply())
        } else {
            None
        }
    }

    /// What a request for a session that is not open is answered: one that lapsed is gone, and any
    /// other was never here.
    pub open spec fn missing(self, id: u128) -> ReplyView {
        if self.expired.contains(id) {
            error_reply("session_expired"@, "This connection attempt expired."@)
        } else {
            error_reply("session_not_found"@, "Unknown connection attempt."@)
        }
    }
}

impl Sessions {
    /// A server without sessions.
    pub fn new() -> (r: Sessions)
        ensures
            r@.live == Map::<u128, SessionView>::empty(),
            r@.expired == Set::<u128>::empty(),
    {
        broadcast use vstd::std_specs::hash::group_hash_axioms;

        let r = Sessions { live: HashMap::new(), expired: HashSet::new() };
        assert(r@.live =~= Map::empty());
        r
    }

    /// Opens a session under this identifier.
    pub fn insert(&mut self, id: u128, now: u128)
        ensures
            final(self)@ == old(self)@.opened(id, now as int),
    {
        broadcast use vstd::std_specs::hash::group_hash_axioms;

        self.live.insert(id, Session { step: Step::Starting, last_touch: now });
        assert(self@.live =~= old(self)@.opened(id, now as int).live);
    }

    /// Opens a session under a new random identifier.
    pub fn create(&mut self, now: u128) -> (id: u128)
        ensures
            final(self)@ == old(self)@.opened(id, now as int),
            nibble(id, 12) == 4,
            8 <= nibble(id, 16) <= 11,
    {
        let id = random_uuid();
        self.insert(id, now);
        id
    }

    /// How many sessions are open.
    pub fn len(&self) -> (r: usize)
        ensures
            r == self@.live.len(),
    {
        broadcast use vstd::std_specs::hash::group_hash_axioms;

        assert(self@.live.dom() =~= self.live@.dom());
        self.live.len()
    }

    /// Forgets a session.
    pub fn remove(&mut self, id: u128)
        ensures
            final(self)@ == old(self)@.removed(id),
    {
        broadcast use vstd::std_specs::hash::group_hash_axioms;

        self.live.remove(&id);
        assert(self@.live =~= old(self)@.removed(id).live);
    }

    /// Ends a session and remembers it as expired, so that a later request for it is answered the
    /// same way whatever ended it.
    pub fn retire(&mut self, id: u128)
        ensures
            final(self)@ == old(self)@.retired(id),
    {
        broadcast use vstd::std_specs::hash::group_hash_axioms;

        self.live.remove(&id);
        self.expired.insert(id);
        assert(self@.live =~= old(self)@.retired(id).live);
    }

    /// Notes where the pipeline of a session is.
    pub fn publish(&mut self, id: u128, step: Step)
        ensures
            final(self)@ == old(self)@.published(id, step@),
    {
        broadcast use vstd::std_specs::hash::group_hash_axioms;

        if let Some(s) = self.live.remove(&id) {
            self.live.insert(id, Session { step, last_touch: s.last_touch });
        }
        assert(self@.live =~= old(self)@.published(id, step@).live);
    }

    /// Notes that a session was asked for, or says why there is none.
    pub fn touch(&mut self, id: u128, now: u128) -> (r: Result<(), Reply>)
        ensures
            final(self)@ == old(self)@.touched(id, now as int),
            match r {
                Ok(_) => old(self)@.live.contains_key(id),
                Err(reply) => !old(self)@.live.contains_key(id) && reply@ == old(self)@.missing(id),
            },
    {
        broadcast use vstd::std_specs::hash::group_hash_axioms;

        if let Some(s) = self.live.remove(&id) {
            self.live.insert(id, Session { step: s.step, last_touch: now });
            assert(self@.live =~= old(self)@.touched(id, now as int).live);
            return Ok(());
        }
        assert(self@.live =~= old(self)@.live);
        if self.expired.contains(&id) {
            Err(
                error_response(
                    "session_expired",
                    "This connection attempt expired.".to_string(),
                ),
            )
        } else {
            Err(error_response("session_not_found", "Unknown connection attempt.".to_string()))
        }
    }

    /// Where the pipeline of a session is, if the session is open.
    pub fn step(&self, id: u128) -> (r: Option<&Step>)
        ensures
            match r {
                Some(step) => self@.live.contains_key(id) && self@.live[id].step == step@,
                None => !self@.live.contains_key(id),
            },
    {
        broadcast use vstd::std_specs::hash::group_hash_axioms;

        match self.live.get(&id) {
            Some(s) => Some(&s.step),
            None => None,
        }
    }

    /// Takes a posted 2FA code, or refuses it: the pipeline reads codes only at that step, so one
    /// that came at another would be read later, sight unseen.
    pub fn admit_2fa(&mut self, id: u128, now: u128) -> (r: Result<(), Reply>)
        ensures
            final(self)@ == old(self)@.touched(id, now as int),
            match r {
                Ok(_) => old(self)@.refusal_of_2fa(id) is None,
                Err(reply) => old(self)@.refusal_of_2fa(id) == Some(reply@),
            },
    {
        match self.touch(id, now) {
            Ok(_) => {},
            Err(reply) => {
                return Err(reply);
            },
        }
        match self.step(id) {
            Some(Step::AwaitingTfa) => Ok(()),
            _ => Err(wrong_step()),
        }
    }

    /// Takes a posted device and passcode, or refuses them: one posted before its step would be
    /// used later, for a device that the user never saw. Says which attempt at a device it is.
    pub fn admit_escrow(&mut self, id: u128, now: u128) -> (r: Result<usize, Reply>)
        ensures
            final(self)@ == old(self)@.touched(id, now as int),
            match r {
                Ok(attempt) => {
                    &&& old(self)@.refusal_of_escrow(id) is None
                    &&& attempt == old(self)@.live[id].step.attempt()
                },
                Err(reply) => old(self)@.refusal_of_escrow(id) == Some(reply@),
            },
    {
        match self.touch(id, now) {
            Ok(_) => {},
            Err(reply) => {
                return Err(reply);
            },
        }
        match self.step(id) {
            Some(step) => match step {
                Step::AwaitingEscrow { .. } | Step::AwaitingRetry { .. } => Ok(attempt_at(step)),
                _ => Err(wrong_step()),
            },
            None => Err(wrong_step()),
        }
    }

    fn settle(&mut self, id: u128, fate: Fate)
        ensures
            final(self)@ == old(self)@.settled(id, fate),
    {
        match fate {
            Fate::Keep => {},
            Fate::Remove => self.remove(id),
            Fate::Retire => self.retire(id),
            Fate::Abort => self.retire(id),
        }
    }

    /// Answers a new session, from the first step that login decided on. The flag says whether the
    /// pipeline is to be stopped.
    pub fn finish_start(&mut self, id: u128, outcome: Option<Step>) -> (r: (bool, Reply))
        ensures
            ({
                let (keep, reply) = start_reply(id, step_view(outcome));
                &&& r.0 == !keep
                &&& r.1@ == reply
                &&& final(self)@ == (if keep {
                    old(self)@
                } else {
                    old(self)@.retired(id)
                })
            }),
    {
        let (keep, status, body) = start_outcome(id, outcome);
        if !keep {
            self.retire(id);
        }
        (!keep, Reply { status, body })
    }

    /// Answers a 2FA code, from the step that came next. The flag says whether the pipeline is to
    /// be stopped.
    pub fn finish_2fa(&mut self, id: u128, next: Option<Step>) -> (r: (bool, Reply))
        ensures
            ({
                let outcome = after_2fa(step_view(next));
                &&& r.0 == (outcome.fate == Fate::Abort)
                &&& r.1@ == outcome.reply
                &&& final(self)@ == old(self)@.settled(id, outcome.fate)
            }),
    {
        let outcome = tfa_outcome(next);
        self.settle(id, outcome.fate);
        (outcome.fate == Fate::Abort, outcome.reply)
    }

    /// Answers a device and its passcode, from the step that came of them. The flag says whether
    /// the pipeline is to be stopped.
    pub fn finish_escrow(&mut self, id: u128, next: Option<Step>) -> (r: (bool, Reply))
        requires
            step_view(next) matches Some(s) ==> s.fits(),
        ensures
            ({
                let outcome = after_escrow(step_view(next));
                &&& r.0 == (outcome.fate == Fate::Abort)
                &&& r.1@ == outcome.reply
                &&& final(self)@ == old(self)@.settled(id, outcome.fate)
            }),
    {
        let outcome = escrow_outcome(next);
        self.settle(id, outcome.fate);
        (outcome.fate == Fate::Abort, outcome.reply)
    }

    /// The identifiers of the sessions that are to be reaped, in any order.
    fn idle_ids(&self, now: u128) -> (r: Vec<u128>)
        ensures
            r@.no_duplicates(),
            r@.to_set() == self@.idle(now as int),
    {
        broadcast use vstd::std_specs::hash::group_hash_axioms;

        let mut found: Vec<u128> = Vec::new();
        let ghost idle = self@.idle(now as int);
        let ghost keys = self.live.keys().remaining().unref();
        assert(keys.to_set() == self.live@.dom());
        assert(keys.take(0) =~= Seq::empty());
        for k in it: self.live.keys()
            invariant
                idle == self@.idle(now as int),
                keys == it.seq().unref(),
                keys.to_set() == self.live@.dom(),
                keys.no_duplicates(),
                found@.no_duplicates(),
                forall|id: u128| #[trigger]
                    found@.contains(id) <==> picked(keys, it.index(), idle, id),
        {
            broadcast use vstd::std_specs::hash::group_hash_axioms;

            let ghost before = found@;
            let ghost n = it.index();
            let id = *k;
            assert(id == keys[n]);
            assert(keys.to_set().contains(id));
            assert(!picked(keys, n, idle, id));
            assert(!before.contains(id));
            if let Some(s) = self.live.get(&id) {
                assert(self@.live[id] == s@);
                if is_reapable(s, now) {
                    found.push(id);
                    assert(found@[before.len() as int] == id);
                }
            }
            assert forall|x: u128| #[trigger]
                found@.contains(x) <==> picked(keys, n + 1, idle, x) by {
                if before.contains(x) {
                    let j = choose|j: int| 0 <= j < before.len() && before[j] == x;
                    assert(found@[j] == x);
                }
                if picked(keys, n, idle, x) {
                    let j = choose|j: int| 0 <= j < n && keys[j] == x;
                    assert(picked(keys, n + 1, idle, x));
                }
            }
        }
        assert(found@.to_set() =~= idle) by {
            assert forall|x: u128| idle.contains(x) implies found@.contains(x) by {
                assert(keys.to_set().contains(x));
                let j = choose|j: int| 0 <= j < keys.len() && keys[j] == x;
                assert(picked(keys, keys.len() as int, idle, x));
            }
        }
        found
    }

    /// Ends the sessions that have idled past their time, and remembers them as expired. Says which
    /// they were, in any order.
    pub fn reap(&mut self, now: u128) -> (r: Vec<Reaped>)
        ensures
            final(self)@ == old(self)@.reaped(now as int),
            reaped_ids(r@).no_duplicates(),
            reaped_ids(r@).to_set() == old(self)@.idle(now as int),
            forall|i: int|
                0 <= i < r@.len() ==> {
                    let s = old(self)@.live[(#[trigger] r@[i]).id];
                    &&& r@[i].idle == now - s.last_touch
                    &&& r@[i].step@ == s.step.name()
                },
    {
        broadcast use vstd::std_specs::hash::group_hash_axioms;

        let ids = self.idle_ids(now);
        let ghost before = self@;
        let mut out: Vec<Reaped> = Vec::new();
        assert(ids@.take(0).to_set() =~= Set::empty());
        assert(self@.live =~= before.live.remove_keys(ids@.take(0).to_set()));
        assert(self@.expired =~= before.expired.union(ids@.take(0).to_set()));
        assert(reaped_ids(out@) =~= ids@.take(0));
        for i in 0..ids.len()
            invariant
                before == old(self)@,
                ids@.no_duplicates(),
                ids@.to_set() == before.idle(now as int),
                self@.live == before.live.remove_keys(ids@.take(i as int).to_set()),
                self@.expired == before.expired.union(ids@.take(i as int).to_set()),
                reaped_ids(out@) == ids@.take(i as int),
                forall|k: int|
                    0 <= k < out@.len() ==> {
                        let s = before.live[(#[trigger] out@[k]).id];
                        &&& out@[k].idle == now - s.last_touch
                        &&& out@[k].step@ == s.step.name()
                    },
        {
            broadcast use vstd::std_specs::hash::group_hash_axioms;

            let id = ids[i];
            let ghost gone = ids@.take(i as int).to_set();
            assert(ids@.to_set().contains(id));
            assert(!gone.contains(id));
            assert(self@.live.contains_key(id));
            assert(self@.live[id] == before.live[id]);
            let ghost mid = self@;
            if let Some(s) = self.live.remove(&id) {
                assert(s@ == before.live[id]);
                out.push(Reaped { id, idle: now - s.last_touch, step: step_name(&s.step) });
            }
            self.expired.insert(id);
            assert(self@.live =~= mid.live.remove(id));
            assert(ids@.take(i + 1) =~= ids@.take(i as int).push(id));
            assert(ids@.take(i + 1).to_set() =~= gone.insert(id)) by {
                assert(ids@.take(i + 1)[i as int] == id);
                assert forall|x: u128| gone.contains(x) implies ids@.take(i + 1).contains(x) by {
                    let j = choose|j: int| 0 <= j < i && ids@.take(i as int)[j] == x;
                    assert(ids@.take(i + 1)[j] == x);
                }
            }
            assert(self@.live =~= before.live.remove_keys(ids@.take(i + 1).to_set()));
            assert(self@.expired =~= before.expired.union(ids@.take(i + 1).to_set()));
            assert(reaped_ids(out@) =~= ids@.take(i + 1));
        }
        assert(ids@.take(ids@.len() as int) =~= ids@);
        out
    }
}

/// A session that is open can be asked for; one that was retired is gone, whatever ended it; and
/// one that came to its end is not known any more.
pub proof fn law_requests_after_the_end(v: SessionsView, id: u128, now: int)
    ensures
        v.opened(id, now).live.contains_key(id),
        v.retired(id).refusal_of_2fa(id) == Some(v.retired(id).missing(id)),
        v.retired(id).refusal_of_escrow(id) == Some(v.retired(id).missing(id)),
        v.retired(id).missing(id).status == 410,
        !v.expired.contains(id) ==> v.removed(id).missing(id).status == 404,
        v.removed(id).refusal_of_2fa(id) == Some(v.removed(id).missing(id)),
        v.removed(id).refusal_of_escrow(id) == Some(v.removed(id).missing(id)),
{
    law_status_of_each_error(ErrorView::NoBottles);
}

/// A session at work is never reaped, nor is one that was asked for within its time; any other is,
/// and is then answered as one that expired. The rest stay as they were.
pub proof fn law_reaping(v: SessionsView, now: int, id: u128)
    requires
        v.live.contains_key(id),
    ensures
        v.live[id].step is Running ==> v.reaped(now).live.contains_key(id),
        now - v.live[id].last_touch <= ttl() ==> v.reaped(now).live.contains_key(id),
        v.reaped(now).live.contains_key(id) ==> v.reaped(now).live[id] == v.live[id],
        !v.reaped(now).live.contains_key(id) ==> v.reaped(now).missing(id).status == 410,
        !v.reaped(now).live.contains_key(id) <==> reapable(v.live[id], now),
{
    law_status_of_each_error(ErrorView::NoBottles);
}

/// A post at the wrong step is refused with a conflict, and takes nothing: the session stays at its
/// step, and the post that belongs there is still taken.
pub proof fn law_a_refused_post_changes_no_step(v: SessionsView, id: u128, now: int)
    requires
        v.live.contains_key(id),
    ensures
        v.touched(id, now).live[id].step == v.live[id].step,
        v.touched(id, now).refusal_of_2fa(id) == v.refusal_of_2fa(id),
        v.touched(id, now).refusal_of_escrow(id) == v.refusal_of_escrow(id),
        v.live[id].step is AwaitingTfa ==> v.refusal_of_escrow(id) == Some(wrong_step_reply())
            && v.refusal_of_2fa(id) is None,
        v.live[id].step.takes_escrow() ==> v.refusal_of_2fa(id) == Some(wrong_step_reply())
            && v.refusal_of_escrow(id) is None,
        wrong_step_reply().status == 409,
{
}

/// What happens to one session leaves every other as it was.
pub proof fn law_sessions_are_independent(
    v: SessionsView,
    id: u128,
    other: u128,
    step: StepView,
    fate: Fate,
    now: int,
)
    requires
        id != other,
    ensures
        ({
            let same = |w: SessionsView|
                {
                    &&& w.live.contains_key(other) == v.live.contains_key(other)
                    &&& v.live.contains_key(other) ==> w.live[other] == v.live[other]
                    &&& w.expired.contains(other) == v.expired.contains(other)
                };
            &&& same(v.opened(id, now))
            &&& same(v.published(id, step))
            &&& same(v.touched(id, now))
            &&& same(v.settled(id, fate))
        }),
{
}

/// The session is kept exactly where the client is asked for something more; otherwise it is
/// over, and a later request for it is answered with 410, or with 404 after a success.
pub proof fn law_kept_while_there_is_a_next_step(
    v: SessionsView,
    id: u128,
    next: Option<StepView>,
)
    requires
        v.live.contains_key(id),
        !v.expired.contains(id),
    ensures
        ({
            let outcome = after_escrow(next);
            let after = v.settled(id, outcome.fate);
            &&& after.live.contains_key(id) <==> next is Some && next->0 is AwaitingRetry
            &&& next is Some && next->0 is Done ==> outcome.reply.status == 200 && after.missing(
                id,
            ).status == 404
            &&& !after.live.contains_key(id) && !(next is Some && next->0 is Done)
                ==> after.missing(id).status == 410
        }),
        ({
            let outcome = after_2fa(next);
            let after = v.settled(id, outcome.fate);
            &&& after.live.contains_key(id) <==> next is Some && next->0 is AwaitingEscrow
            &&& !after.live.contains_key(id) ==> after.missing(id).status == 410
        }),
{
    law_status_of_each_error(ErrorView::NoBottles);
}

/// A session lives for ten minutes from when it was opened, and from each time that it was asked
/// for: reaped at any later moment within that time, it is still open, was last asked for then, and
/// is at the step that it was at.
pub proof fn law_a_session_lives_for_its_time(v: SessionsView, id: u128, now: int, later: int)
    ensures
        ttl() == 600_000_000_000,
        v.opened(id, now).live.contains_key(id),
        v.opened(id, now).live[id].last_touch == now,
        v.opened(id, now).live[id].step is Starting,
        later - now <= ttl() ==> {
            let after = v.opened(id, now).reaped(later);
            &&& after.live.contains_key(id)
            &&& after.live[id].last_touch == now
            &&& after.live[id].step is Starting
        },
        later - now <= ttl() && v.live.contains_key(id) ==> {
            let after = v.touched(id, now).reaped(later);
            &&& after.live.contains_key(id)
            &&& after.live[id].last_touch == now
            &&& after.live[id].step == v.live[id].step
        },
        later - now > ttl() ==> {
            let after = v.opened(id, now).reaped(later);
            &&& !after.live.contains_key(id)
            &&& after.expired.contains(id)
        },
        later - now > ttl() && v.live.contains_key(id) ==> {
            let after = v.touched(id, now).reaped(later);
            after.live.contains_key(id) <==> v.live[id].step is Running
        },
{
}

/// Reaping ends the sessions that have idled for more than ten minutes and are not at work, all of
/// them and no other, and remembers each as expired; one that had expired before stays expired.
pub proof fn law_exactly_the_idle_are_reaped(v: SessionsView, now: int, id: u128)
    ensures
        ({
            let s = v.live[id];
            let over = v.live.contains_key(id) && !(s.step is Running) && now - s.last_touch
                > 600_000_000_000;
            let after = v.reaped(now);
            &&& v.idle(now).contains(id) <==> over
            &&& after.live.contains_key(id) <==> v.live.contains_key(id) && !over
            &&& after.live.contains_key(id) ==> after.live[id] == s
            &&& after.expired.contains(id) <==> v.expired.contains(id) || over
        }),
{
}

/// A pipeline that moved on changes the step of its session and not when it was last asked for; a
/// request changes when, and not the step. Neither opens a session that is not open, and none of
/// what is done to an open session makes it expire.
pub proof fn law_steps_and_requests_are_noted_apart(
    v: SessionsView,
    id: u128,
    step: StepView,
    now: int,
)
    ensures
        v.live.contains_key(id) ==> {
            &&& v.published(id, step).live.contains_key(id)
            &&& v.published(id, step).live[id].step == step
            &&& v.published(id, step).live[id].last_touch == v.live[id].last_touch
            &&& v.touched(id, now).live.contains_key(id)
            &&& v.touched(id, now).live[id].step == v.live[id].step
            &&& v.touched(id, now).live[id].last_touch == now
        },
        !v.live.contains_key(id) ==> v.published(id, step) == v && v.touched(id, now) == v,
        v.opened(id, now).expired == v.expired,
        v.published(id, step).expired == v.expired,
        v.touched(id, now).expired == v.expired,
{
}

/// What an answer decides is done: a session that is kept stays as it is; a removed one is closed
/// and forgotten; a retired or a stopped one is closed and remembered as expired.
pub proof fn law_an_answer_settles_the_session(v: SessionsView, id: u128)
    ensures
        v.settled(id, Fate::Keep) == v,
        v.removed(id) == v.settled(id, Fate::Remove),
        v.retired(id) == v.settled(id, Fate::Retire),
        v.retired(id) == v.settled(id, Fate::Abort),
        !v.removed(id).live.contains_key(id),
        v.removed(id).expired == v.expired,
        !v.retired(id).live.contains_key(id),
        v.retired(id).expired.contains(id),
{
}

/// A 2FA code is taken while one is waited for, and a device while one is, a first time or again;
/// at any other step of an open session a post is a conflict. A session that is not open is said to
/// have expired where it lapsed, and to be unknown where it did not.
pub proof fn law_when_a_post_is_taken(v: SessionsView, id: u128)
    ensures
        v.refusal_of_2fa(id) is None <==> v.live.contains_key(id)
            && v.live[id].step is AwaitingTfa,
        v.refusal_of_escrow(id) is None <==> v.live.contains_key(id) && (
        v.live[id].step is AwaitingEscrow || v.live[id].step is AwaitingRetry),
        v.live.contains_key(id) && v.refusal_of_2fa(id) is Some ==> v.refusal_of_2fa(id)->0
            == wrong_step_reply(),
        v.live.contains_key(id) && v.refusal_of_escrow(id) is Some ==> v.refusal_of_escrow(id)->0
            == wrong_step_reply(),
        !v.live.contains_key(id) ==> v.refusal_of_2fa(id) == Some(v.missing(id))
            && v.refusal_of_escrow(id) == Some(v.missing(id)),
        v.expired.contains(id) ==> v.missing(id).status == 410 && tells_error(
            v.missing(id),
            "session_expired"@,
            "This connection attempt expired."@,
        ),
        !v.expired.contains(id) ==> v.missing(id).status == 404 && tells_error(
            v.missing(id),
            "session_not_found"@,
            "Unknown connection attempt."@,
        ),
{
    law_status_of_each_error(ErrorView::NoBottles);
    let expired = "This connection attempt expired."@;
    law_failures_are_told_to_whoever_waits(0, "session_expired"@, expired, None);
    let unknown = "Unknown connection attempt."@;
    law_failures_are_told_to_whoever_waits(0, "session_not_found"@, unknown, None);
}

/// A session is seen with its step and the time that it was last asked for, and the reaped ones
/// each at its place.
pub proof fn law_a_session_is_seen_in_full(s: Session, reaped: Seq<Reaped>, i: int)
    ensures
        s@.step == s.step@,
        s@.last_touch == s.last_touch,
        reaped_ids(reaped).len() == reaped.len(),
        0 <= i < reaped.len() ==> reaped_ids(reaped)[i] == reaped[i].id,
{
}

} // verus!
