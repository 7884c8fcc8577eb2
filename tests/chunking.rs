use issue_digest::chunking::plan_chunks;
use issue_digest::CHUNK_BUDGET;

fn stream(n: usize) -> Vec<u32> {
    (0..n).map(|i| (i % 1000) as u32).collect()
}

#[test]
fn long_stream_is_cut_into_full_windows_and_a_tail() {
    let s = stream(6000);
    let chunks = plan_chunks(&s, CHUNK_BUDGET);
    let sizes: Vec<usize> = chunks.iter().map(|c| c.len()).collect();
    assert_eq!(sizes, vec![2800, 2800, 400]);
    assert_eq!(chunks.concat(), s);
}

#[test]
fn fitting_stream_is_one_chunk() {
    let s = stream(1500);
    let chunks = plan_chunks(&s, CHUNK_BUDGET);
    assert_eq!(chunks, vec![s]);
}

#[test]
fn stream_of_exactly_the_budget_is_one_chunk() {
    let s = stream(2800);
    let chunks = plan_chunks(&s, CHUNK_BUDGET);
    assert_eq!(chunks.len(), 1);
    assert_eq!(chunks[0], s);
}

#[test]
fn one_token_over_the_budget_makes_two_chunks() {
    let s = stream(2801);
    let chunks = plan_chunks(&s, CHUNK_BUDGET);
    let sizes: Vec<usize> = chunks.iter().map(|c| c.len()).collect();
    assert_eq!(sizes, vec![2800, 1]);
    assert_eq!(chunks.concat(), s);
}

#[test]
fn empty_stream_is_one_empty_chunk() {
    let chunks = plan_chunks(&Vec::new(), CHUNK_BUDGET);
    assert_eq!(chunks, vec![Vec::<u32>::new()]);
}

#[test]
fn small_budget_covers_stream_in_order() {
    let s = vec![5, 6, 7, 8, 9, 10, 11];
    let chunks = plan_chunks(&s, 3);
    assert_eq!(chunks, vec![vec![5, 6, 7], vec![8, 9, 10], vec![11]]);
}

#[test]
fn planning_twice_gives_the_same_chunks() {
    let s = stream(7000);
    assert_eq!(plan_chunks(&s, 2800), plan_chunks(&s, 2800));
    assert_eq!(plan_chunks(&s, 7), plan_chunks(&s, 7));
}
