//! Bootstrap of the configured administrators: the tally of one sweep and
//! the audit record of each elevation.  The driver asks the user store to
//! promote every configured Telegram id and feeds each answer to
//! [`BootstrapSummary::record`].
use vstd::prelude::*;

use crate::domain::audit::{AdminAuditEntry, AuditActionCode};
use crate::domain::errors::{ctx_two, ContextValue};
use crate::domain::user::User;
use crate::time::Timestamp;

verus! {

/// Where bootstrap administrators are configured.
pub const BOOTSTRAP_SOURCE: &'static str = "env:TELEGRAM_ADMIN_IDS";

/// `s` is in strictly ascending order.
pub open spec fn strictly_ascending(s: Seq<i64>) -> bool {
    forall|i: int, j: int| 0 <= i < j < s.len() ==> s[i] < s[j]
}

/// The configured ids, each once, in ascending order: the order in which
/// the sweep promotes them.
pub fn distinct_admin_ids(ids: &Vec<i64>) -> (r: Vec<i64>)
    ensures
        strictly_ascending(r@),
        forall|x: i64| r@.contains(x) <==> ids@.contains(x),
{
    let mut out: Vec<i64> = Vec::new();
    let mut i: usize = 0;
    while i < ids.len()
        invariant
            i <= ids@.len(),
            strictly_ascending(out@),
            forall|x: i64| out@.contains(x) <==> ids@.take(i as int).contains(x),
        decreases ids.len() - i,
    {
        let id = ids[i];
        let mut pos: usize = 0;
        while pos < out.len() && out[pos] < id
            invariant
                pos <= out@.len(),
                forall|k: int| 0 <= k < pos ==> out@[k] < id,
            decreases out.len() - pos,
        {
            pos = pos + 1;
        }
        let ghost before = out@;
        let ghost prev = ids@.take(i as int);
        let ghost next = ids@.take(i + 1);
        assert(next =~= prev.push(id));
        if pos < out.len() && out[pos] == id {
            assert forall|x: i64| out@.contains(x) <==> next.contains(x) by {
                if next.contains(x) && x == id {
                    assert(out@[pos as int] == x);
                }
                if out@.contains(x) {
                    assert(prev.contains(x));
                    let k = choose|k: int| 0 <= k < prev.len() && prev[k] == x;
                    assert(next[k] == x);
                }
                if next.contains(x) && x != id {
                    let k = choose|k: int| 0 <= k < next.len() && next[k] == x;
                    assert(k < i);
                    assert(prev[k] == x);
                }
            }
        } else {
            proof {
                if pos < out@.len() {
                    assert(before[pos as int] > id);
                }
            }
            out.insert(pos, id);
            assert(out@ == before.insert(pos as int, id));
            assert forall|a: int, b: int| 0 <= a < b < out@.len() implies out@[a] < out@[b] by {
                if b < pos {
                } else if b == pos {
                } else if a < pos {
                    assert(out@[b] == before[b - 1]);
                    if pos < before.len() {
                        assert(before[pos as int] > id);
                        assert(before[pos as int] <= before[b - 1] || pos == b - 1);
                    }
                } else if a == pos {
                    assert(out@[b] == before[b - 1]);
                    assert(before[pos as int] > id);
                    assert(pos == b - 1 || before[pos as int] < before[b - 1]);
                } else {
                    assert(out@[a] == before[a - 1]);
                    assert(out@[b] == before[b - 1]);
                }
            }
            assert forall|x: i64| out@.contains(x) <==> next.contains(x) by {
                if out@.contains(x) {
                    let k = choose|k: int| 0 <= k < out@.len() && out@[k] == x;
                    if k < pos {
                        assert(before[k] == x);
                    } else if k > pos {
                        assert(before[k - 1] == x);
                    }
                    if x != id {
                        assert(before.contains(x));
                        let m = choose|m: int| 0 <= m < prev.len() && prev[m] == x;
                        assert(next[m] == x);
                    } else {
                        assert(next[i as int] == x);
                    }
                }
                if next.contains(x) {
                    if x == id {
                        assert(out@[pos as int] == x);
                    } else {
                        let m = choose|m: int| 0 <= m < next.len() && next[m] == x;
                        assert(m < i);
                        assert(prev[m] == x);
                        assert(before.contains(x));
                        let k = choose|k: int| 0 <= k < before.len() && before[k] == x;
                        if k < pos {
                            assert(out@[k] == x);
                        } else {
                            assert(out@[k + 1] == x);
                        }
                    }
                }
            }
        }
        assert(forall|x: i64| out@.contains(x) <==> next.contains(x));
        i = i + 1;
    }
    assert(ids@.take(ids@.len() as int) =~= ids@);
    out
}

/// Counts of one bootstrap sweep.
#[derive(Debug, Clone, Copy, PartialEq, Eq, Structural)]
pub struct BootstrapSummary {
    pub configured_admins: usize,
    pub elevated_now: usize,
    pub already_admin: usize,
    pub pending_signup: usize,
    pub failed: usize,
}

/// What the user store answered for one configured id.
#[derive(Debug, Clone, Copy, PartialEq, Eq, Structural)]
pub enum PromotionOutcome {
    /// No such user yet: promoted after their first `/start`.
    PendingSignup,
    AlreadyAdmin,
    Elevated,
    /// The store failed; the sweep goes on.
    Failed,
}

impl BootstrapSummary {
    /// Ids whose answer has been recorded.
    pub open spec fn recorded(&self) -> int {
        self.elevated_now + self.already_admin + self.pending_signup + self.failed
    }

    /// A sweep over `configured_admins` ids with nothing recorded yet.
    pub fn start(configured_admins: usize) -> (r: BootstrapSummary)
        ensures
            r.configured_admins == configured_admins,
            r.elevated_now == 0 && r.already_admin == 0 && r.pending_signup == 0 && r.failed == 0,
            r.recorded() == 0,
    {
        BootstrapSummary { configured_admins, elevated_now: 0, already_admin: 0, pending_signup: 0, failed: 0 }
    }

    /// Counts one answer under its own heading.
    pub fn record(&mut self, outcome: PromotionOutcome)
        requires
            old(self).recorded() < old(self).configured_admins,
        ensures
            final(self).configured_admins == old(self).configured_admins,
            final(self).elevated_now == old(self).elevated_now + (if outcome == PromotionOutcome::Elevated { 1int } else { 0 }),
            final(self).already_admin == old(self).already_admin + (if outcome == PromotionOutcome::AlreadyAdmin { 1int } else { 0 }),
            final(self).pending_signup == old(self).pending_signup + (if outcome == PromotionOutcome::PendingSignup { 1int } else { 0 }),
            final(self).failed == old(self).failed + (if outcome == PromotionOutcome::Failed { 1int } else { 0 }),
            final(self).recorded() == old(self).recorded() + 1,
    {
        match outcome {
            PromotionOutcome::PendingSignup => self.pending_signup = self.pending_signup + 1,
            PromotionOutcome::AlreadyAdmin => self.already_admin = self.already_admin + 1,
            PromotionOutcome::Elevated => self.elevated_now = self.elevated_now + 1,
            PromotionOutcome::Failed => self.failed = self.failed + 1,
        }
    }
}

/// The admin-audit record of a bootstrap elevation of `user`.
pub fn bootstrap_audit_entry(telegram_id: i64, user: &User, now: Timestamp) -> (r: AdminAuditEntry)
    ensures
        r.id is None,
        r.actor_user_id is None,
        r.target_user_id == user.id,
        r.action_code == AuditActionCode::RoleElevatedByBootstrap,
        r.metadata@.len() == 2,
        r.metadata@[0].key@ == "telegram_id"@,
        r.metadata@[0].value == ContextValue::Int(telegram_id),
        r.metadata@[1].key@ == "source"@,
        r.metadata@[1].value matches ContextValue::Text(s) && s@ == BOOTSTRAP_SOURCE@,
        r.created_at == now,
{
    AdminAuditEntry {
        id: None,
        actor_user_id: None,
        target_user_id: user.id,
        action_code: AuditActionCode::RoleElevatedByBootstrap,
        metadata: ctx_two(
            "telegram_id",
            ContextValue::Int(telegram_id),
            "source",
            ContextValue::Text(String::from_str(BOOTSTRAP_SOURCE)),
        ),
        created_at: now,
    }
}

/// Every configured id is counted exactly once: after a sweep over all of
/// them, the four counts add up to the configured number.
pub proof fn bootstrap_tally_is_complete(s: BootstrapSummary, outcomes: Seq<PromotionOutcome>)
    requires
        s.recorded() == 0,
        outcomes.len() == s.configured_admins,
    ensures
        tally(s, outcomes).recorded() == s.configured_admins,
        tally(s, outcomes).configured_admins == s.configured_admins,
    decreases outcomes.len(),
{
    lemma_tally(s, outcomes);
}

/// The summary after recording `outcomes` in order.
pub open spec fn tally(s: BootstrapSummary, outcomes: Seq<PromotionOutcome>) -> BootstrapSummary
    decreases outcomes.len(),
{
    if outcomes.len() == 0 {
        s
    } else {
        let t = tally(s, outcomes.drop_last());
        match outcomes.last() {
            PromotionOutcome::PendingSignup => BootstrapSummary { pending_signup: (t.pending_signup + 1) as usize, ..t },
            PromotionOutcome::AlreadyAdmin => BootstrapSummary { already_admin: (t.already_admin + 1) as usize, ..t },
            PromotionOutcome::Elevated => BootstrapSummary { elevated_now: (t.elevated_now + 1) as usize, ..t },
            PromotionOutcome::Failed => BootstrapSummary { failed: (t.failed + 1) as usize, ..t },
        }
    }
}

proof fn lemma_tally(s: BootstrapSummary, outcomes: Seq<PromotionOutcome>)
    requires
        s.recorded() + outcomes.len() <= s.configured_admins,
    ensures
        tally(s, outcomes).recorded() == s.recorded() + outcomes.len(),
        tally(s, outcomes).configured_admins == s.configured_admins,
    decreases outcomes.len(),
{
    if outcomes.len() > 0 {
        lemma_tally(s, outcomes.drop_last());
    }
}

} // verus!
