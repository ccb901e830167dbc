use mango_tcs::prepare::PreparedJob;
use mango_tcs::selection::{allowed_tokens, executable_jobs, token_candidates};

fn job(tokens: Vec<u16>) -> PreparedJob {
    PreparedJob {
        pubkey: [0; 32],
        tcs_id: 0,
        volume: 0,
        token_indexes: tokens,
        max_buy_token_to_liqee: 0,
        max_sell_token_to_liqor: 0,
        min_buy_token: 0,
    }
}

#[test]
fn token_candidates_in_first_occurrence_order() {
    let jobs = vec![job(vec![3, 1]), job(vec![]), job(vec![1, 4]), job(vec![3, 5])];
    assert_eq!(token_candidates(&jobs), vec![3, 1, 4, 5]);
    assert_eq!(token_candidates(&vec![]), Vec::<u16>::new());
}

#[test]
fn allowed_tokens_keep_flagged_ones() {
    assert_eq!(allowed_tokens(&vec![3, 1, 4, 5], &vec![true, false, true, true]), vec![3, 4, 5]);
}

#[test]
fn only_jobs_with_allowed_tokens_execute() {
    let jobs = vec![job(vec![3, 1]), job(vec![]), job(vec![4, 3]), job(vec![5, 1])];
    assert_eq!(executable_jobs(&jobs, &vec![3, 4, 5]), vec![1, 2]);
}
