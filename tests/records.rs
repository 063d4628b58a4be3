use bevy_koto::entity::{
    entities_to_despawn, record_step, should_despawn, should_update, EntityStatus, RecordPhase,
};
use bevy_koto::schedule::KotoUpdate;

const PHASES: [KotoUpdate; 4] = [
    KotoUpdate::Compile,
    KotoUpdate::PreUpdate,
    KotoUpdate::Update,
    KotoUpdate::PostUpdate,
];

#[test]
fn inactive_record_is_despawned_and_not_updated() {
    for count in [1usize, 2, 5] {
        assert!(should_despawn(count, false));
        assert!(!should_update(count, false));
    }
}

#[test]
fn last_reference_triggers_despawn() {
    assert!(should_despawn(1, true));
    assert!(!should_update(1, true));
    assert!(!should_despawn(2, true));
    assert!(should_update(2, true));
}

#[test]
fn despawn_pass_lists_due_records_in_order() {
    let statuses = [
        EntityStatus { ref_count: 2, is_active: true },
        EntityStatus { ref_count: 1, is_active: true },
        EntityStatus { ref_count: 3, is_active: false },
        EntityStatus { ref_count: 4, is_active: true },
    ];
    assert_eq!(entities_to_despawn(&statuses), vec![1, 2]);
    assert_eq!(entities_to_despawn(&[]), Vec::<usize>::new());
}

#[test]
fn record_dropping_to_one_reference_is_removed_by_post_update() {
    let mut record = RecordPhase::Active;
    let mut seen = Vec::new();
    for phase in PHASES {
        record = record_step(record, phase, 1, true);
        seen.push(record);
    }
    assert_eq!(
        seen,
        vec![
            RecordPhase::Active,
            RecordPhase::Active,
            RecordPhase::PendingRemoval,
            RecordPhase::Removed
        ]
    );
}

#[test]
fn referenced_record_stays_active() {
    let mut record = RecordPhase::Active;
    for _frame in 0..3 {
        for phase in PHASES {
            record = record_step(record, phase, 2, true);
            assert_eq!(record, RecordPhase::Active);
        }
    }
}

#[test]
fn removed_record_never_comes_back() {
    for phase in PHASES {
        assert_eq!(record_step(RecordPhase::Removed, phase, 9, true), RecordPhase::Removed);
    }
}

#[test]
fn replaced_script_records_are_removed_without_update() {
    // a fresh load marks every record inactive in PreUpdate
    let mut record = RecordPhase::Active;
    for phase in PHASES {
        assert!(!should_update(3, false));
        record = record_step(record, phase, 3, false);
    }
    assert_eq!(record, RecordPhase::Removed);
}
