use blog_demos::metropolis::{tick_stage, MhChain, Stage};

#[test]
fn stage_of_each_counter_value_with_three_frames() {
    let stages: Vec<Stage> = (-1..=9).map(|p| tick_stage(p, 3)).collect();
    assert_eq!(
        stages,
        vec![
            Stage::Wait,
            Stage::Propose,
            Stage::Wait,
            Stage::Wait,
            Stage::Judge,
            Stage::Wait,
            Stage::Wait,
            Stage::Commit,
            Stage::Wait,
            Stage::Wait,
            Stage::Restart,
        ]
    );
}

#[test]
fn stage_with_one_frame_per_stage() {
    assert_eq!(tick_stage(-1, 1), Stage::Restart);
    assert_eq!(tick_stage(0, 1), Stage::Propose);
    assert_eq!(tick_stage(1, 1), Stage::Judge);
    assert_eq!(tick_stage(2, 1), Stage::Commit);
    assert_eq!(tick_stage(3, 1), Stage::Restart);
    assert_eq!(tick_stage(40, 1), Stage::Restart);
}

#[test]
fn stage_follows_truncating_division() {
    // -6 / -3 == 2 and -6 % -3 == 0
    assert_eq!(tick_stage(-6, -3), Stage::Commit);
    // -3 / -3 == 1
    assert_eq!(tick_stage(-3, -3), Stage::Judge);
    // 6 / -3 == -2
    assert_eq!(tick_stage(6, -3), Stage::Restart);
    // -7 % 3 == -1
    assert_eq!(tick_stage(-7, 3), Stage::Wait);
    assert_eq!(tick_stage(0, -5), Stage::Propose);
    assert_eq!(tick_stage(-1, -1), Stage::Judge);
    assert_eq!(tick_stage(i32::MAX, i32::MAX), Stage::Judge);
}

#[test]
fn chain_cycles_every_three_frames_plus_one() {
    let mut chain = MhChain::new(21);
    assert_eq!(chain.progress_index(), -1);
    assert!(!chain.accepted());
    assert_eq!(chain.hist_counts().len(), 21);
    let mut seen: Vec<Stage> = Vec::new();
    for _ in 0..(1 + 2 * 7) {
        seen.push(chain.advance(2));
    }
    assert_eq!(
        seen,
        vec![
            Stage::Wait,
            Stage::Propose,
            Stage::Wait,
            Stage::Judge,
            Stage::Wait,
            Stage::Commit,
            Stage::Wait,
            Stage::Restart,
            Stage::Propose,
            Stage::Wait,
            Stage::Judge,
            Stage::Wait,
            Stage::Commit,
            Stage::Wait,
            Stage::Restart,
        ]
    );
    assert_eq!(chain.progress_index(), 0);
}

#[test]
fn accepted_point_is_counted_once() {
    let mut chain = MhChain::new(4);
    chain.judge(false, true);
    assert!(chain.accepted());
    assert!(chain.commit(2));
    assert_eq!(chain.hist_counts(), &vec![0, 0, 1, 0]);
    chain.judge(true, false);
    assert!(chain.commit(2));
    assert!(chain.commit(0));
    assert_eq!(chain.hist_counts(), &vec![1, 0, 2, 0]);
    assert_eq!(chain.hist_counts().iter().sum::<usize>(), 3);
}

#[test]
fn rejected_point_changes_nothing() {
    let mut chain = MhChain::new(3);
    chain.judge(false, false);
    assert!(!chain.accepted());
    assert!(!chain.commit(1));
    assert!(!chain.commit(99));
    assert_eq!(chain.hist_counts(), &vec![0, 0, 0]);
    assert_eq!(chain.progress_index(), -1);
}

#[test]
fn empty_histogram_chain() {
    let chain = MhChain::new(0);
    assert!(chain.hist_counts().is_empty());
}

#[test]
fn histogram_total_equals_accepted_commits_over_a_run() {
    let mut chain = MhChain::new(5);
    let mut accepted_commits = 0usize;
    let decisions = [(true, false), (false, false), (false, true), (true, true), (false, false)];
    let mut d = 0;
    for tick in 0..40 {
        match chain.advance(1) {
            Stage::Judge => {
                let (uphill, lucky) = decisions[d % decisions.len()];
                d += 1;
                chain.judge(uphill, lucky);
            }
            Stage::Commit => {
                if chain.commit(tick % 5) {
                    accepted_commits += 1;
                }
            }
            _ => {}
        }
        assert!(chain.progress_index() >= 0 && chain.progress_index() <= 3);
        assert_eq!(chain.hist_counts().iter().sum::<usize>(), accepted_commits);
        assert_eq!(chain.hist_counts().len(), 5);
    }
    assert!(accepted_commits > 0);
}
