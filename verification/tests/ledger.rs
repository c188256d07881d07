use execgo_runtime::ledger::ResourceLedger;
use execgo_runtime::types::{ResourceCapacity, TaskResourceReservation};
use execgo_runtime::error::AppError;

fn make_ledger_with_quota() -> ResourceLedger {
    let quotas = vec![(
        "alice".to_string(),
        ResourceCapacity {
            task_slots: 2,
            memory_bytes: Some(200),
            pids: Some(10),
        },
    )];
    ResourceLedger::with_tenant_quotas(
        ResourceCapacity {
            task_slots: 8,
            memory_bytes: Some(800),
            pids: Some(64),
        },
        quotas,
    )
}

#[test]
fn detects_capacity_overflow() {
    let ledger = ResourceLedger::new(ResourceCapacity {
        task_slots: 2,
        memory_bytes: Some(100),
        pids: Some(8),
    });
    let reserved = ResourceCapacity {
        task_slots: 1,
        memory_bytes: Some(50),
        pids: Some(2),
    };
    let reservation = TaskResourceReservation {
        task_slots: 2,
        memory_bytes: Some(60),
        pids: Some(1),
    };
    assert!(!ledger.can_reserve(&reserved, &reservation));
}

#[test]
fn ensure_within_tenant_quota_passes_when_no_quota_configured() {
    let ledger = ResourceLedger::new(ResourceCapacity {
        task_slots: 4,
        memory_bytes: None,
        pids: None,
    });
    let reservation = TaskResourceReservation {
        task_slots: 99,
        memory_bytes: None,
        pids: None,
    };
    assert!(ledger
        .ensure_within_tenant_quota(Some("bob"), &reservation)
        .is_ok());
    assert!(ledger.ensure_within_tenant_quota(None, &reservation).is_ok());
}

#[test]
fn ensure_within_tenant_quota_rejects_over_quota() {
    let ledger = make_ledger_with_quota();

    let over_slots = TaskResourceReservation {
        task_slots: 3,
        memory_bytes: None,
        pids: None,
    };
    assert!(ledger
        .ensure_within_tenant_quota(Some("alice"), &over_slots)
        .is_err());

    let over_mem = TaskResourceReservation {
        task_slots: 1,
        memory_bytes: Some(201),
        pids: None,
    };
    assert!(ledger
        .ensure_within_tenant_quota(Some("alice"), &over_mem)
        .is_err());

    let over_pids = TaskResourceReservation {
        task_slots: 1,
        memory_bytes: None,
        pids: Some(11),
    };
    assert!(ledger
        .ensure_within_tenant_quota(Some("alice"), &over_pids)
        .is_err());
}

#[test]
fn can_reserve_for_tenant_respects_quota() {
    let ledger = make_ledger_with_quota();

    let tenant_reserved = ResourceCapacity {
        task_slots: 1,
        memory_bytes: Some(100),
        pids: Some(5),
    };
    let ok_reservation = TaskResourceReservation {
        task_slots: 1,
        memory_bytes: Some(100),
        pids: Some(5),
    };
    assert!(ledger.can_reserve_for_tenant(Some("alice"), &tenant_reserved, &ok_reservation));

    let over_reservation = TaskResourceReservation {
        task_slots: 2,
        memory_bytes: Some(1),
        pids: Some(1),
    };
    assert!(!ledger.can_reserve_for_tenant(Some("alice"), &tenant_reserved, &over_reservation));

    assert!(ledger.can_reserve_for_tenant(
        Some("unknown"),
        &tenant_reserved,
        &over_reservation
    ));
}

#[test]
fn capacity_errors_name_the_resource_and_amounts() {
    let ledger = ResourceLedger::new(ResourceCapacity {
        task_slots: 2,
        memory_bytes: Some(100),
        pids: Some(8),
    });
    let too_many_slots = TaskResourceReservation { task_slots: 3, memory_bytes: None, pids: None };
    assert_eq!(
        ledger.ensure_within_capacity(&too_many_slots),
        Err(AppError::InsufficientResources(
            "task requires 3 task slots but runtime capacity is 2".to_string()
        ))
    );
    let too_much_memory = TaskResourceReservation { task_slots: 1, memory_bytes: Some(101), pids: Some(1) };
    assert_eq!(
        ledger.ensure_within_capacity(&too_much_memory),
        Err(AppError::InsufficientResources(
            "task requires 101 memory_bytes but runtime capacity is 100".to_string()
        ))
    );
    let too_many_pids = TaskResourceReservation { task_slots: 1, memory_bytes: Some(100), pids: Some(18446744073709551615) };
    assert_eq!(
        ledger.ensure_within_capacity(&too_many_pids),
        Err(AppError::InsufficientResources(
            "task requires 18446744073709551615 pids but runtime capacity is 8".to_string()
        ))
    );
    let fits = TaskResourceReservation { task_slots: 2, memory_bytes: Some(100), pids: Some(8) };
    assert_eq!(ledger.ensure_within_capacity(&fits), Ok(()));
}

#[test]
fn tenant_quota_errors_name_the_tenant() {
    let ledger = make_ledger_with_quota();
    let over_slots = TaskResourceReservation { task_slots: 3, memory_bytes: None, pids: None };
    assert_eq!(
        ledger.ensure_within_tenant_quota(Some("alice"), &over_slots),
        Err(AppError::InsufficientResources(
            "tenant 'alice': task requires 3 task slots but tenant quota is 2".to_string()
        ))
    );
    let over_mem = TaskResourceReservation { task_slots: 1, memory_bytes: Some(201), pids: None };
    assert_eq!(
        ledger.ensure_within_tenant_quota(Some("alice"), &over_mem),
        Err(AppError::InsufficientResources(
            "tenant 'alice': task requires 201 memory_bytes but tenant quota is 200".to_string()
        ))
    );
}

#[test]
fn memory_and_pids_are_ignored_where_not_accounted() {
    let ledger = ResourceLedger::new(ResourceCapacity { task_slots: 4, memory_bytes: None, pids: Some(10) });
    let reserved = ResourceCapacity { task_slots: 1, memory_bytes: Some(1_000_000), pids: Some(9) };
    let big_memory = TaskResourceReservation { task_slots: 1, memory_bytes: Some(u64::MAX), pids: None };
    assert!(ledger.can_reserve(&reserved, &big_memory));
    assert!(ledger.ensure_within_capacity(&big_memory).is_ok());
    let two_pids = TaskResourceReservation { task_slots: 1, memory_bytes: None, pids: Some(2) };
    assert!(!ledger.can_reserve(&reserved, &two_pids));
}

#[test]
fn saturating_sums_never_wrap() {
    let ledger = ResourceLedger::new(ResourceCapacity { task_slots: u64::MAX, memory_bytes: None, pids: None });
    let reserved = ResourceCapacity { task_slots: u64::MAX, memory_bytes: None, pids: None };
    let one = TaskResourceReservation { task_slots: 1, memory_bytes: None, pids: None };
    // the saturated sum equals the capacity, so the reservation is admitted
    assert!(ledger.can_reserve(&reserved, &one));
    let total = ledger.reserved_capacity(&[one, TaskResourceReservation { task_slots: u64::MAX, memory_bytes: None, pids: None }]);
    assert_eq!(total.task_slots, u64::MAX);
}

#[test]
fn reserved_capacity_adds_up_reservations() {
    let ledger = ResourceLedger::new(ResourceCapacity { task_slots: 8, memory_bytes: Some(1000), pids: None });
    let rs = vec![
        TaskResourceReservation { task_slots: 1, memory_bytes: Some(100), pids: None },
        TaskResourceReservation { task_slots: 2, memory_bytes: None, pids: Some(7) },
        TaskResourceReservation { task_slots: 1, memory_bytes: Some(50), pids: Some(3) },
    ];
    let total = ledger.reserved_capacity(&rs);
    assert_eq!(total, ResourceCapacity { task_slots: 4, memory_bytes: Some(150), pids: Some(10) });
    let empty = ledger.reserved_capacity(&[]);
    assert_eq!(empty, ResourceCapacity { task_slots: 0, memory_bytes: Some(0), pids: None });
}

#[test]
fn available_capacity_is_capacity_minus_reserved() {
    let ledger = ResourceLedger::new(ResourceCapacity { task_slots: 4, memory_bytes: Some(1000), pids: Some(64) });
    let reserved = ResourceCapacity { task_slots: 5, memory_bytes: Some(400), pids: None };
    assert_eq!(
        ledger.available_capacity(&reserved),
        ResourceCapacity { task_slots: 0, memory_bytes: Some(600), pids: Some(64) }
    );
    let quota = ResourceCapacity { task_slots: 2, memory_bytes: None, pids: Some(10) };
    let held = ResourceCapacity { task_slots: 1, memory_bytes: Some(5), pids: Some(4) };
    assert_eq!(
        ResourceLedger::tenant_available_capacity(&quota, &held),
        ResourceCapacity { task_slots: 1, memory_bytes: None, pids: Some(6) }
    );
}

#[test]
fn admitted_reservations_stay_within_capacity() {
    let ledger = ResourceLedger::new(ResourceCapacity { task_slots: 3, memory_bytes: Some(300), pids: None });
    let mut held: Vec<TaskResourceReservation> = Vec::new();
    let candidates = [
        TaskResourceReservation { task_slots: 1, memory_bytes: Some(200), pids: None },
        TaskResourceReservation { task_slots: 1, memory_bytes: Some(200), pids: None },
        TaskResourceReservation { task_slots: 1, memory_bytes: Some(100), pids: None },
        TaskResourceReservation { task_slots: 1, memory_bytes: None, pids: None },
        TaskResourceReservation { task_slots: 1, memory_bytes: None, pids: None },
    ];
    for c in candidates.iter() {
        let reserved = ledger.reserved_capacity(&held);
        if ledger.can_reserve(&reserved, c) {
            held.push(*c);
        }
    }
    let total = ledger.reserved_capacity(&held);
    assert_eq!(held.len(), 3);
    assert_eq!(total, ResourceCapacity { task_slots: 3, memory_bytes: Some(300), pids: None });
}

#[test]
fn idle_admission_agrees_with_submission_check() {
    let ledger = ResourceLedger::new(ResourceCapacity { task_slots: 2, memory_bytes: Some(100), pids: Some(5) });
    let idle = ledger.reserved_capacity(&[]);
    for r in [
        TaskResourceReservation { task_slots: 2, memory_bytes: Some(100), pids: Some(5) },
        TaskResourceReservation { task_slots: 3, memory_bytes: None, pids: None },
        TaskResourceReservation { task_slots: 1, memory_bytes: Some(101), pids: None },
        TaskResourceReservation { task_slots: 1, memory_bytes: None, pids: Some(6) },
    ] {
        assert_eq!(ledger.can_reserve(&idle, &r), ledger.ensure_within_capacity(&r).is_ok());
    }
}

#[test]
fn fit_in_available_matches_admission() {
    let ledger = ResourceLedger::new(ResourceCapacity { task_slots: 4, memory_bytes: Some(100), pids: Some(10) });
    let reserved = ResourceCapacity { task_slots: 2, memory_bytes: Some(60), pids: Some(7) };
    let available = ledger.available_capacity(&reserved);
    let r = TaskResourceReservation { task_slots: 2, memory_bytes: Some(40), pids: Some(3) };
    assert!(ledger.can_reserve(&reserved, &r));
    assert!(r.task_slots <= available.task_slots && r.memory_bytes <= available.memory_bytes && r.pids <= available.pids);
    let r2 = TaskResourceReservation { task_slots: 1, memory_bytes: Some(41), pids: Some(1) };
    assert!(!ledger.can_reserve(&reserved, &r2));
}

#[test]
fn tenant_quotas_are_kept_in_name_order_and_later_entries_win() {
    let q = |n: u64| ResourceCapacity { task_slots: n, memory_bytes: None, pids: None };
    let ledger = ResourceLedger::with_tenant_quotas(
        q(10),
        vec![("carol".to_string(), q(1)), ("alice".to_string(), q(2)), ("bob".to_string(), q(3)), ("alice".to_string(), q(4))],
    );
    let names: Vec<&str> = ledger.tenant_quotas_snapshot().iter().map(|(n, _)| n.as_str()).collect();
    assert_eq!(names, vec!["alice", "bob", "carol"]);
    assert_eq!(ledger.tenant_quota("alice"), Some(&q(4)));
    assert_eq!(ledger.tenant_quota("bob"), Some(&q(3)));
    assert_eq!(ledger.tenant_quota("dave"), None);
    assert_eq!(ledger.capacity(), &q(10));
}

#[test]
fn empty_snapshot_reports_everything_available() {
    let cap = ResourceCapacity { task_slots: 4, memory_bytes: Some(1024), pids: None };
    let ledger = ResourceLedger::new(cap);
    let snap = ledger.empty_snapshot("runtime-test".to_string());
    assert_eq!(snap.runtime_id, "runtime-test");
    assert_eq!(snap.capacity, cap);
    assert_eq!(snap.available, cap);
    assert_eq!(snap.reserved, ResourceCapacity { task_slots: 0, memory_bytes: Some(0), pids: None });
    assert!(snap.active_reservations.is_empty());
    assert_eq!(snap.accepted_waiting_tasks, 0);
    assert!(snap.tenants.is_empty());
}

#[test]
fn cloned_ledger_keeps_capacity_and_quotas() {
    let ledger = make_ledger_with_quota();
    let copy = ledger.clone();
    assert_eq!(copy.capacity(), ledger.capacity());
    assert_eq!(copy.tenant_quotas_snapshot(), ledger.tenant_quotas_snapshot());
}

#[test]
fn refusals_carry_insufficient_resources() {
    let ledger = make_ledger_with_quota();
    let over = TaskResourceReservation { task_slots: 9, memory_bytes: None, pids: None };
    let err = ledger.ensure_within_capacity(&over).unwrap_err();
    assert_eq!(err.code(), execgo_runtime::types::ErrorCode::InsufficientResources);
    assert_eq!(err.status_code(), 400);
    let err = ledger.ensure_within_tenant_quota(Some("alice"), &over).unwrap_err();
    assert_eq!(err.code(), execgo_runtime::types::ErrorCode::InsufficientResources);
    assert_eq!(err.status_code(), 400);
}

#[test]
fn reserved_total_ignores_order() {
    let ledger = ResourceLedger::new(ResourceCapacity { task_slots: u64::MAX, memory_bytes: Some(10), pids: None });
    let a = TaskResourceReservation { task_slots: u64::MAX - 1, memory_bytes: Some(4), pids: None };
    let b = TaskResourceReservation { task_slots: 5, memory_bytes: None, pids: Some(3) };
    let c = TaskResourceReservation { task_slots: 1, memory_bytes: Some(u64::MAX), pids: Some(2) };
    let t1 = ledger.reserved_capacity(&[a, b, c]);
    assert_eq!(t1, ledger.reserved_capacity(&[c, a, b]));
    assert_eq!(t1, ledger.reserved_capacity(&[b, c, a]));
    assert_eq!(t1, ResourceCapacity { task_slots: u64::MAX, memory_bytes: Some(u64::MAX), pids: Some(5) });
}

#[test]
fn sorted_quota_input_is_the_snapshot() {
    let q = |n: u64| ResourceCapacity { task_slots: n, memory_bytes: Some(n * 10), pids: None };
    let input = vec![("alice".to_string(), q(1)), ("bob".to_string(), q(2)), ("carol".to_string(), q(3))];
    let ledger = ResourceLedger::with_tenant_quotas(q(9), input.clone());
    assert_eq!(ledger.tenant_quotas_snapshot(), &input);
}
