use issue_digest::corpus::IssueContext;
use issue_digest::pipeline::{Action, SummaryRun};
use issue_digest::prompts::{map_prompt, reduce_prompt, unsplit_prompt};
use issue_digest::CHUNK_BUDGET;

fn issue() -> IssueContext {
    IssueContext {
        owner: "o".to_string(),
        repo: "r".to_string(),
        issue_number: 7,
        title: "Slow build".to_string(),
        creator_login: "dave".to_string(),
        creator_role: "MEMBER".to_string(),
        labels: vec!["perf".to_string()],
        body: None,
        html_url: "https://github.com/o/r/issues/7".to_string(),
    }
}

fn hello_tokens(n: usize) -> Vec<u32> {
    let t = tiktoken_rs::cl100k_base_singleton().encode_ordinary(" hello");
    assert_eq!(t.len(), 1);
    vec![t[0]; n]
}

fn asked(a: Action) -> String {
    match a {
        Action::Ask(p) => p,
        Action::Post(m) => panic!("expected a request, got a post: {}", m),
    }
}

fn posted(a: Action) -> String {
    match a {
        Action::Post(m) => m,
        Action::Ask(p) => panic!("expected a post, got a request: {}", p),
    }
}

#[test]
fn fitting_corpus_goes_straight_to_one_summary() {
    let s = hello_tokens(1500);
    let (mut run, first) = SummaryRun::start(&issue(), &s, CHUNK_BUDGET);
    assert!(!run.split);
    assert_eq!(run.chunks.len(), 1);
    assert_eq!(asked(first), unsplit_prompt(&" hello".repeat(1500)));
    let m = posted(run.reply(Some("All good".to_string())));
    assert_eq!(m, "Issue Summary:\nAll good\nhttps://github.com/o/r/issues/7");
    assert!(run.done);
}

#[test]
fn long_corpus_maps_three_chunks_then_reduces() {
    let s = hello_tokens(6000);
    let (mut run, first) = SummaryRun::start(&issue(), &s, CHUNK_BUDGET);
    assert!(run.split);
    let sizes: Vec<usize> = run.chunks.iter().map(|c| c.len()).collect();
    assert_eq!(sizes, vec![2800, 2800, 400]);
    assert_eq!(asked(first), map_prompt("Slow build", &" hello".repeat(2800)));
    assert_eq!(asked(run.reply(Some("A".to_string()))), map_prompt("Slow build", &" hello".repeat(2800)));
    assert_eq!(asked(run.reply(Some("B".to_string()))), map_prompt("Slow build", &" hello".repeat(400)));
    let reduce = asked(run.reply(Some("C".to_string())));
    assert_eq!(reduce, reduce_prompt("dave", "MEMBER", "Slow build", "perf", "ABC"));
    let m = posted(run.reply(Some("Final".to_string())));
    assert_eq!(m, "Issue Summary:\nFinal\nhttps://github.com/o/r/issues/7");
}

#[test]
fn failed_interim_request_adds_nothing() {
    let s = hello_tokens(6000);
    let (mut run, _) = SummaryRun::start(&issue(), &s, CHUNK_BUDGET);
    run.reply(Some("A".to_string()));
    run.reply(None);
    let reduce = asked(run.reply(Some("C".to_string())));
    assert_eq!(reduce, reduce_prompt("dave", "MEMBER", "Slow build", "perf", "AC"));
}

#[test]
fn failed_final_request_posts_an_empty_summary() {
    let s = hello_tokens(10);
    let (mut run, _) = SummaryRun::start(&issue(), &s, CHUNK_BUDGET);
    let m = posted(run.reply(None));
    assert_eq!(m, "Issue Summary:\n\nhttps://github.com/o/r/issues/7");
}

#[test]
fn empty_corpus_asks_for_a_summary_of_empty_text() {
    let (mut run, first) = SummaryRun::start(&issue(), &Vec::new(), CHUNK_BUDGET);
    assert_eq!(run.chunks, vec![Vec::<u32>::new()]);
    assert_eq!(asked(first), unsplit_prompt(""));
    assert!(matches!(run.reply(None), Action::Post(_)));
}

#[test]
fn chunk_that_does_not_decode_reads_as_empty_text() {
    let s = vec![u32::MAX; 5];
    let (_, first) = SummaryRun::start(&issue(), &s, 3);
    assert_eq!(asked(first), map_prompt("Slow build", ""));
}
