use issue_digest::quota::{schedule, Emission, IssueQuota};
use issue_digest::ISSUE_LIMIT;

#[test]
fn eleven_issues_give_ten_summaries_and_a_notice() {
    let r = schedule(11, ISSUE_LIMIT);
    let mut expected: Vec<Emission> = (0..10).map(Emission::Summary).collect();
    expected.push(Emission::Notice);
    assert_eq!(r, expected);
}

#[test]
fn ten_issues_reach_the_limit() {
    let r = schedule(10, ISSUE_LIMIT);
    assert_eq!(r.len(), 11);
    assert_eq!(r[10], Emission::Notice);
}

#[test]
fn fewer_issues_than_the_limit_give_no_notice() {
    let r = schedule(3, ISSUE_LIMIT);
    assert_eq!(r, vec![Emission::Summary(0), Emission::Summary(1), Emission::Summary(2)]);
}

#[test]
fn no_matched_issue_posts_nothing() {
    assert_eq!(schedule(0, ISSUE_LIMIT), Vec::new());
}

#[test]
fn quota_counts_down_to_exhaustion() {
    let mut q = IssueQuota::new(2);
    assert!(!q.record_summary());
    assert_eq!(q.remaining, 1);
    assert!(q.record_summary());
    assert_eq!(q.remaining, 0);
}

#[test]
fn zero_quota_still_summarizes_one_issue() {
    assert_eq!(schedule(5, 0), vec![Emission::Summary(0), Emission::Notice]);
}
