use vstd::prelude::*;

verus! {

/// How many more issues one trigger may summarize.
pub struct IssueQuota {
    pub remaining: u64,
}

impl IssueQuota {
    /// A quota of `limit` issues.
    pub fn new(limit: u64) -> (r: IssueQuota)
        ensures
            r.remaining == limit,
    {
        IssueQuota { remaining: limit }
    }

    /// Counts one posted summary; returns whether the quota is now used up,
    /// in which case the limit notice follows and no further issue is taken.
    pub fn record_summary(&mut self) -> (exhausted: bool)
        ensures
            final(self).remaining == if old(self).remaining > 0 {
                (old(self).remaining - 1) as u64
            } else {
                0
            },
            exhausted == (final(self).remaining == 0),
    {
        if self.remaining > 0 {
            self.remaining = self.remaining - 1;
        }
        self.remaining == 0
    }
}

/// One message posted for a trigger.
#[derive(PartialEq, Eq, Structural, Debug, Clone, Copy)]
pub enum Emission {
    /// The summary of the matched issue at this position.
    Summary(usize),
    /// The notice that the quota is used up.
    Notice,
}

/// The number of summaries after which a quota of `limit` is used up; the
/// first issue is always summarized.
pub open spec fn effective_limit(limit: nat) -> nat {
    if limit == 0 {
        1
    } else {
        limit
    }
}

/// What is posted for `n` matched issues under a quota of `limit`: the
/// summaries of the first issues, in order, up to the quota, then the notice
/// if the quota was reached.
pub open spec fn emissions(n: nat, limit: nat) -> Seq<Emission> {
    let m = effective_limit(limit);
    let k = if n < m {
        n
    } else {
        m
    };
    Seq::new(k, |i: int| Emission::Summary(i as usize)) + if n >= m {
        seq![Emission::Notice]
    } else {
        Seq::empty()
    }
}

/// The messages posted for `n_issues` matched issues under a quota of
/// `limit`, in order.
pub fn schedule(n_issues: usize, limit: u64) -> (r: Vec<Emission>)
    ensures
        r@ == emissions(n_issues as nat, limit as nat),
{
    let ghost m = effective_limit(limit as nat);
    let mut quota = IssueQuota::new(limit);
    let mut r: Vec<Emission> = Vec::new();
    let mut i: usize = 0;
    let mut stopped = false;
    while i < n_issues && !stopped
        invariant
            m == effective_limit(limit as nat),
            i <= n_issues,
            !stopped ==> quota.remaining == limit - i && (i < limit || i == 0),
            !stopped ==> r@ =~= Seq::new(i as nat, |j: int| Emission::Summary(j as usize)),
            stopped ==> i == m && r@ =~= Seq::new(m, |j: int| Emission::Summary(j as usize))
                + seq![Emission::Notice],
        decreases n_issues - i,
    {
        r.push(Emission::Summary(i));
        i += 1;
        let ghost before = r@;
        let ghost rem0 = quota.remaining;
        if quota.record_summary() {
            r.push(Emission::Notice);
            stopped = true;
            proof {
                assert(rem0 <= 1);
                if limit == 0 {
                    assert(i == 1);
                } else {
                    assert(i == limit);
                }
                assert(i == m);
                assert(before =~= Seq::new(m, |j: int| Emission::Summary(j as usize)));
            }
        }
    }
    r
}

/// With more matched issues than a quota of `limit`, exactly `limit`
/// summaries are posted, of the first issues in order, then one notice, and
/// no later issue is summarized.
pub proof fn law_quota_boundary(n: nat, limit: nat)
    requires
        limit >= 1,
        n > limit,
    ensures
        emissions(n, limit).len() == limit + 1,
        forall|i: int| 0 <= i < limit ==> #[trigger] emissions(n, limit)[i] == Emission::Summary(i as usize),
        emissions(n, limit)[limit as int] == Emission::Notice,
{
}

/// Where no issue matched, nothing is posted: no summary and no notice.
pub proof fn law_no_match_no_message(limit: nat)
    ensures
        emissions(0, limit).len() == 0,
{
}

} // verus!
