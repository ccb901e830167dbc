use mango_tcs::schedule::{ScheduleAction, TcsCandidate, TcsScheduler, MAX_PREPARED};

fn candidate(n: u8, volume: u64) -> TcsCandidate {
    TcsCandidate { pubkey: [n; 32], tcs_id: n as u64, volume }
}

#[test]
fn zero_budget_is_done_at_once() {
    let mut s = TcsScheduler::new(vec![candidate(1, 5)], 0);
    assert_eq!(s.step(), ScheduleAction::Done);
}

#[test]
fn single_candidate_round_trip() {
    let mut s = TcsScheduler::new(vec![candidate(1, 40)], 100);
    match s.step() {
        ScheduleAction::Prepare { index, pubkey, tcs_id, volume } => {
            assert_eq!(index, 0);
            assert_eq!(pubkey, [1; 32]);
            assert_eq!(tcs_id, 1);
            assert_eq!(volume, 40);
            s.job_started(pubkey, volume);
        }
        other => panic!("unexpected {:?}", other),
    }
    assert_eq!(s.candidates[0].volume, u64::MAX);
    assert_eq!(s.pending_volume, 40);
    // nothing else fits: wait for the pending job
    assert_eq!(s.step(), ScheduleAction::AwaitOne);
    assert!(s.no_new_job);
    let finished = s.job_finished(0, Some(38));
    assert_eq!(finished.volume, 40);
    assert_eq!(s.pending_volume, 0);
    assert_eq!(s.prepared_volume, 38);
    assert_eq!(s.prepared_count, 1);
    assert!(!s.no_new_job);
    // the only candidate was picked: nothing fits, nothing pending
    assert_eq!(s.step(), ScheduleAction::Done);
}

#[test]
fn candidates_over_the_budget_are_not_picked() {
    // budget 100, 30 already reserved: a candidate of 80 does not fit
    let mut s = TcsScheduler::new(vec![candidate(1, 30), candidate(2, 80)], 100);
    let first = s.step();
    match first {
        ScheduleAction::Prepare { index, pubkey, volume, .. } => {
            s.job_started(pubkey, volume);
            if index == 0 {
                assert_eq!(s.step(), ScheduleAction::AwaitOne);
            } else {
                // 80 reserved, 30 does not fit either
                assert_eq!(s.step(), ScheduleAction::AwaitOne);
            }
        }
        other => panic!("unexpected {:?}", other),
    }
}

#[test]
fn slots_are_capped() {
    let candidates: Vec<TcsCandidate> = (0..40).map(|n| candidate(n as u8, 1)).collect();
    let mut s = TcsScheduler::new(candidates, 1_000_000);
    for _ in 0..MAX_PREPARED {
        match s.step() {
            ScheduleAction::Prepare { pubkey, volume, .. } => s.job_started(pubkey, volume),
            other => panic!("unexpected {:?}", other),
        }
    }
    assert_eq!(s.pending.len(), MAX_PREPARED);
    assert_eq!(s.step(), ScheduleAction::AwaitOne);
    // a failed preparation frees its slot
    s.job_finished(3, None);
    assert_eq!(s.prepared_count, 0);
    assert_eq!(s.pending.len(), MAX_PREPARED - 1);
    match s.step() {
        ScheduleAction::Prepare { .. } => {}
        other => panic!("unexpected {:?}", other),
    }
}

#[test]
fn prepared_budget_ends_the_phase() {
    let mut s = TcsScheduler::new(vec![candidate(1, 10), candidate(2, 10)], 10);
    match s.step() {
        ScheduleAction::Prepare { pubkey, volume, .. } => s.job_started(pubkey, volume),
        other => panic!("unexpected {:?}", other),
    }
    assert_eq!(s.step(), ScheduleAction::AwaitOne);
    s.job_finished(0, Some(10));
    assert_eq!(s.step(), ScheduleAction::Done);
}

#[test]
fn each_candidate_is_picked_once() {
    let candidates: Vec<TcsCandidate> = (0..5).map(|n| candidate(n as u8, 2)).collect();
    let mut s = TcsScheduler::new(candidates, 1_000);
    let mut picked = vec![];
    loop {
        match s.step() {
            ScheduleAction::Prepare { index, pubkey, volume, .. } => {
                picked.push(index);
                s.job_started(pubkey, volume);
            }
            ScheduleAction::AwaitOne => {
                s.job_finished(0, Some(1));
            }
            ScheduleAction::Done => break,
        }
    }
    picked.sort();
    assert_eq!(picked, vec![0, 1, 2, 3, 4]);
    assert_eq!(s.prepared_count, 5);
}
