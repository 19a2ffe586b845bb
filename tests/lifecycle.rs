use paras::blob::{validate_code, validate_head};
use paras::paras::Paras;
use paras::types::{
    Event, HeadData, HostConfig, ParaAction, ParaId, ParasError, ValidationCode, MAX_CODE_SIZE,
    MAX_HEAD_DATA_SIZE,
};

fn default_config() -> HostConfig {
    HostConfig {
        max_code_size: MAX_CODE_SIZE,
        max_head_data_size: MAX_HEAD_DATA_SIZE,
        code_retention_period: 10,
    }
}

/// Fills the pruning queue with a thousand retired codes whose eligible
/// blocks come in shuffled order.
fn generate_disordered_pruning(p: &mut Paras) {
    for i in 0..1000u32 {
        let eligible = (i * 7919) % 1000 + 1;
        p.note_past_code(ParaId(i), ValidationCode(vec![1]), eligible);
    }
}

#[test]
fn force_set_current_code() {
    let cfg = default_config();
    for c in [1u32, 1000, MAX_CODE_SIZE] {
        let mut p = Paras::new();
        generate_disordered_pruning(&mut p);
        let para = ParaId(c);
        let code = ValidationCode(vec![0; c as usize]);
        assert_eq!(p.force_set_code(para, code.clone(), &cfg), Ok(()));
        assert_eq!(p.last_event(), Some(Event::CurrentCodeUpdated(para)));
        assert_eq!(p.current_code(para), Some(&code));
        assert_eq!(p.past_code().len(), 1000);
    }
}

#[test]
fn force_set_current_head() {
    let cfg = default_config();
    let mut p = Paras::new();
    let para = ParaId(1000);
    let head = HeadData(vec![0; MAX_HEAD_DATA_SIZE as usize]);
    assert_eq!(p.force_set_head(para, head.clone(), &cfg), Ok(()));
    assert_eq!(p.last_event(), Some(Event::CurrentHeadUpdated(para)));
    assert_eq!(p.current_head(para), Some(&head));
}

#[test]
fn force_schedule_code_upgrade() {
    let cfg = default_config();
    for c in [1u32, 77, MAX_CODE_SIZE] {
        let mut p = Paras::new();
        let para = ParaId(c);
        let code = ValidationCode(vec![0; c as usize]);
        assert_eq!(p.schedule_code_upgrade(para, code.clone(), c, &cfg), Ok(()));
        assert_eq!(p.last_event(), Some(Event::CodeUpgradeScheduled(para)));
        let up = p.scheduled_upgrade(para).unwrap();
        assert_eq!(up.code, code);
        assert_eq!(up.activation_block, c);
        assert_eq!(p.current_code(para), None);
    }
}

#[test]
fn force_note_new_head() {
    let cfg = default_config();
    let mut p = Paras::new();
    let para = ParaId(1000);
    let now: u32 = 50;
    let expired = now - 1;
    generate_disordered_pruning(&mut p);
    p.force_set_code(para, ValidationCode(vec![9, 9]), &cfg).unwrap();
    p.schedule_code_upgrade(para, ValidationCode(vec![0]), expired, &cfg).unwrap();
    let head = HeadData(vec![0; MAX_HEAD_DATA_SIZE as usize]);
    assert_eq!(p.note_new_head(para, head.clone(), now, &cfg), Ok(true));
    assert_eq!(p.last_event(), Some(Event::NewHeadNoted(para)));
    let events = p.events();
    assert_eq!(events[events.len() - 2], Event::CurrentCodeUpdated(para));
    assert_eq!(p.current_head(para), Some(&head));
    assert_eq!(p.current_code(para), Some(&ValidationCode(vec![0])));
    assert!(p.scheduled_upgrade(para).is_none());
    assert_eq!(p.past_code().len(), 1001);
    let last = &p.past_code()[1000];
    assert_eq!(last.para, para);
    assert_eq!(last.code, ValidationCode(vec![9, 9]));
    assert_eq!(last.eligible_block, now + cfg.code_retention_period);
}

#[test]
fn note_new_head_without_due_upgrade() {
    let cfg = default_config();
    let mut p = Paras::new();
    let para = ParaId(3);
    p.schedule_code_upgrade(para, ValidationCode(vec![4]), 20, &cfg).unwrap();
    assert_eq!(p.note_new_head(para, HeadData(vec![1]), 19, &cfg), Ok(false));
    assert_eq!(p.current_code(para), None);
    assert!(p.scheduled_upgrade(para).is_some());
    assert_eq!(p.last_event(), Some(Event::NewHeadNoted(para)));
}

#[test]
fn force_queue_action() {
    let mut p = Paras::new();
    let para = ParaId(1000);
    let current_session: u32 = 4;
    let next = p.queue_action(para, ParaAction::Onboard, current_session);
    assert_eq!(next, current_session + 1);
    assert_eq!(p.last_event(), Some(Event::ActionQueued(para, next)));
    assert_eq!(p.queued_action_count(), 1);
}

#[test]
fn set_code_then_read_returns_same_blob() {
    let cfg = default_config();
    let mut p = Paras::new();
    for (i, len) in [0usize, 1, 255, MAX_CODE_SIZE as usize].iter().enumerate() {
        let para = ParaId(i as u32);
        let code = ValidationCode((0..*len).map(|b| (b % 251) as u8).collect());
        assert_eq!(p.force_set_code(para, code.clone(), &cfg), Ok(()));
        assert_eq!(p.current_code(para), Some(&code));
    }
    // A second overwrite replaces the first and retires nothing.
    p.force_set_code(ParaId(1), ValidationCode(vec![5]), &cfg).unwrap();
    assert_eq!(p.current_code(ParaId(1)), Some(&ValidationCode(vec![5])));
    assert_eq!(p.past_code().len(), 0);
}

#[test]
fn oversized_blobs_are_rejected_without_change() {
    let cfg = default_config();
    let mut p = Paras::new();
    let para = ParaId(8);
    p.force_set_code(para, ValidationCode(vec![1]), &cfg).unwrap();
    p.force_set_head(para, HeadData(vec![2]), &cfg).unwrap();
    let n_events = p.events().len();

    let big_code = ValidationCode(vec![0; MAX_CODE_SIZE as usize + 1]);
    assert_eq!(p.force_set_code(para, big_code.clone(), &cfg), Err(ParasError::BlobTooLarge));
    assert_eq!(
        p.schedule_code_upgrade(para, big_code, 1, &cfg),
        Err(ParasError::BlobTooLarge)
    );
    let big_head = HeadData(vec![0; MAX_HEAD_DATA_SIZE as usize + 1]);
    assert_eq!(p.force_set_head(para, big_head.clone(), &cfg), Err(ParasError::BlobTooLarge));
    assert_eq!(p.note_new_head(para, big_head, 5, &cfg), Err(ParasError::BlobTooLarge));

    assert_eq!(p.current_code(para), Some(&ValidationCode(vec![1])));
    assert_eq!(p.current_head(para), Some(&HeadData(vec![2])));
    assert!(p.scheduled_upgrade(para).is_none());
    assert_eq!(p.events().len(), n_events);
}

#[test]
fn validation_bounds_are_inclusive() {
    let cfg = HostConfig { max_code_size: 3, max_head_data_size: 2, code_retention_period: 0 };
    assert_eq!(validate_code(&ValidationCode(vec![]), &cfg), Ok(()));
    assert_eq!(validate_code(&ValidationCode(vec![1, 2, 3]), &cfg), Ok(()));
    assert_eq!(validate_code(&ValidationCode(vec![1, 2, 3, 4]), &cfg), Err(ParasError::BlobTooLarge));
    assert_eq!(validate_head(&HeadData(vec![1, 2]), &cfg), Ok(()));
    assert_eq!(validate_head(&HeadData(vec![1, 2, 3]), &cfg), Err(ParasError::BlobTooLarge));
}

#[test]
fn second_schedule_supersedes_first() {
    let cfg = default_config();
    let mut p = Paras::new();
    let para = ParaId(2);
    p.force_set_code(para, ValidationCode(vec![1]), &cfg).unwrap();
    p.schedule_code_upgrade(para, ValidationCode(vec![2]), 10, &cfg).unwrap();
    p.schedule_code_upgrade(para, ValidationCode(vec![3]), 20, &cfg).unwrap();
    // The first one's block has passed, but it was discarded.
    assert!(!p.apply_if_due(para, 15, &cfg));
    assert_eq!(p.current_code(para), Some(&ValidationCode(vec![1])));
    assert!(p.apply_if_due(para, 20, &cfg));
    assert_eq!(p.current_code(para), Some(&ValidationCode(vec![3])));
    assert!(!p.apply_if_due(para, 30, &cfg));
    assert_eq!(p.current_code(para), Some(&ValidationCode(vec![3])));
    assert_eq!(p.past_code().len(), 1);
    assert_eq!(p.past_code()[0].code, ValidationCode(vec![1]));
}

#[test]
fn expired_upgrade_is_applied() {
    let cfg = default_config();
    let mut p = Paras::new();
    let para = ParaId(6);
    p.force_set_code(para, ValidationCode(vec![1]), &cfg).unwrap();
    p.schedule_code_upgrade(para, ValidationCode(vec![2]), 3, &cfg).unwrap();
    assert!(p.apply_if_due(para, 40, &cfg));
    assert_eq!(p.last_event(), Some(Event::CurrentCodeUpdated(para)));
    assert_eq!(p.current_code(para), Some(&ValidationCode(vec![2])));
    assert_eq!(p.past_code().len(), 1);
    assert_eq!(p.past_code()[0].eligible_block, 50);
    // Idempotent at the same block.
    let n_events = p.events().len();
    assert!(!p.apply_if_due(para, 40, &cfg));
    assert_eq!(p.events().len(), n_events);
    assert_eq!(p.past_code().len(), 1);
}

#[test]
fn upgrade_without_prior_code_retires_nothing() {
    let cfg = default_config();
    let mut p = Paras::new();
    let para = ParaId(7);
    p.schedule_code_upgrade(para, ValidationCode(vec![2]), 0, &cfg).unwrap();
    assert!(p.apply_if_due(para, 0, &cfg));
    assert_eq!(p.current_code(para), Some(&ValidationCode(vec![2])));
    assert_eq!(p.past_code().len(), 0);
}

#[test]
fn retention_saturates_at_the_largest_block() {
    let cfg = default_config();
    let mut p = Paras::new();
    let para = ParaId(9);
    p.force_set_code(para, ValidationCode(vec![1]), &cfg).unwrap();
    p.schedule_code_upgrade(para, ValidationCode(vec![2]), u32::MAX - 3, &cfg).unwrap();
    assert!(p.apply_if_due(para, u32::MAX - 3, &cfg));
    assert_eq!(p.past_code()[0].eligible_block, u32::MAX);
}

#[test]
fn end_to_end_upgrade_at_block_100() {
    let cfg = default_config();
    let mut p = Paras::new();
    let para = ParaId(100);
    let c1 = ValidationCode(vec![1, 1]);
    let c2 = ValidationCode(vec![2, 2, 2]);
    p.force_set_code(para, c1.clone(), &cfg).unwrap();
    p.schedule_code_upgrade(para, c2.clone(), 100, &cfg).unwrap();
    assert!(!p.apply_if_due(para, 99, &cfg));
    assert_eq!(p.current_code(para), Some(&c1));
    assert!(p.apply_if_due(para, 100, &cfg));
    assert_eq!(p.current_code(para), Some(&c2));
    assert_eq!(p.past_code().len(), 1);
    let entry = &p.past_code()[0];
    assert_eq!(entry.para, para);
    assert_eq!(entry.code, c1);
    assert_eq!(entry.eligible_block, 100 + cfg.code_retention_period);
}

#[test]
fn offboard_removes_para_state() {
    let cfg = default_config();
    let mut p = Paras::new();
    let para = ParaId(11);
    assert_eq!(p.offboard(para), Err(ParasError::NoSuchPara));
    p.force_set_code(para, ValidationCode(vec![1]), &cfg).unwrap();
    p.force_set_head(para, HeadData(vec![1]), &cfg).unwrap();
    p.schedule_code_upgrade(para, ValidationCode(vec![2]), 5, &cfg).unwrap();
    assert_eq!(p.offboard(para), Ok(()));
    assert_eq!(p.current_code(para), None);
    assert_eq!(p.current_head(para), None);
    assert!(p.scheduled_upgrade(para).is_none());
    assert_eq!(p.offboard(para), Err(ParasError::NoSuchPara));
}
