use newsletter_core::run::DeliveryPlan;
use newsletter_core::run::RunStatus;
use newsletter_core::run::TenantConfig;
use newsletter_core::run::format_date;
use newsletter_core::run::plan_after_generation;
use newsletter_core::run::record_after_delivery;
use newsletter_core::run::run_due_tenant;
use newsletter_core::run::tick_plan;
use newsletter_core::run::tick_records;
use newsletter_core::schedule::Date;

fn tenant(id: u128, title: &str, minute: u32, active: bool) -> TenantConfig {
    TenantConfig {
        id,
        title: title.to_string(),
        send_time_minute: minute,
        is_active: active,
        delivery_email: format!("tenant{}@example.com", id),
    }
}

fn today() -> Date {
    Date { year: 2025, month: 3, day: 7 }
}

#[test]
fn failing_generation_yields_one_failure_and_no_delivery() {
    let t = tenant(1, "Daily", 540, true);
    let plan = plan_after_generation(&t, &today(), Err("gateway unreachable".to_string()));
    match plan {
        DeliveryPlan::Record(rec) => {
            assert_eq!(rec.tenant_id, 1);
            assert_eq!(rec.status, RunStatus::Failure);
            assert_eq!(rec.error_message, Some("gateway unreachable".to_string()));
        }
        DeliveryPlan::Send { .. } => panic!("a failed generation must not be delivered"),
    }
}

#[test]
fn whitespace_only_generation_yields_one_failure_and_no_delivery() {
    let t = tenant(2, "Daily", 540, true);
    let plan = plan_after_generation(&t, &today(), Ok("  \t\n  ".to_string()));
    match plan {
        DeliveryPlan::Record(rec) => {
            assert_eq!(rec.tenant_id, 2);
            assert_eq!(rec.status, RunStatus::Failure);
            assert!(rec.error_message.is_some());
        }
        DeliveryPlan::Send { .. } => panic!("empty content must not be delivered"),
    }
}

#[test]
fn usable_generation_is_delivered_trimmed_under_composed_subject() {
    let t = tenant(3, "Morning Notes", 540, true);
    let plan = plan_after_generation(&t, &today(), Ok("  Hello world \n".to_string()));
    match plan {
        DeliveryPlan::Send { address, subject, body } => {
            assert_eq!(address, "tenant3@example.com");
            assert_eq!(subject, "Morning Notes – 2025-03-07");
            assert_eq!(body, "Hello world");
        }
        DeliveryPlan::Record(_) => panic!("usable content must be delivered"),
    }
}

#[test]
fn date_formatting_pads_with_zeros() {
    assert_eq!(format_date(&Date { year: 987, month: 1, day: 2 }), "0987-01-02");
    assert_eq!(format_date(&Date { year: 2025, month: 12, day: 31 }), "2025-12-31");
}

#[test]
fn delivery_success_records_success_without_message() {
    let rec = record_after_delivery(7, Ok(()));
    assert_eq!(rec.tenant_id, 7);
    assert_eq!(rec.status, RunStatus::Success);
    assert_eq!(rec.error_message, None);
}

#[test]
fn delivery_failure_records_failure_with_message() {
    let rec = record_after_delivery(7, Err("smtp refused".to_string()));
    assert_eq!(rec.tenant_id, 7);
    assert_eq!(rec.status, RunStatus::Failure);
    assert_eq!(rec.error_message, Some("smtp refused".to_string()));
}

#[test]
fn full_run_attempts_delivery_only_for_usable_content() {
    let t = tenant(9, "Daily", 540, true);
    let (rec, sent) = run_due_tenant(&t, &today(), Err("boom".to_string()), Ok(()));
    assert!(!sent);
    assert_eq!(rec.status, RunStatus::Failure);

    let (rec, sent) = run_due_tenant(&t, &today(), Ok("   ".to_string()), Ok(()));
    assert!(!sent);
    assert_eq!(rec.status, RunStatus::Failure);

    let (rec, sent) = run_due_tenant(&t, &today(), Ok("text".to_string()), Ok(()));
    assert!(sent);
    assert_eq!(rec.status, RunStatus::Success);

    let (rec, sent) = run_due_tenant(&t, &today(), Ok("text".to_string()), Err("smtp".to_string()));
    assert!(sent);
    assert_eq!(rec.status, RunStatus::Failure);
    assert_eq!(rec.error_message, Some("smtp".to_string()));
}

#[test]
fn tick_plan_selects_active_due_tenants_in_order() {
    let tenants = vec![
        tenant(1, "A", 540, true),   // due
        tenant(2, "B", 540, false),  // inactive
        tenant(3, "C", 600, true),   // outside the window
        tenant(4, "D", 535, true),   // due (window still open at 09:05)
        tenant(5, "E", 540, true),   // ran today already
    ];
    let last_runs = vec![None, None, None, Some(Date { year: 2025, month: 3, day: 6 }), Some(today())];
    let due = tick_plan(&tenants, &last_runs, &today(), 545);
    assert_eq!(due, vec![0, 3]);
}

#[test]
fn tick_gives_every_tenant_exactly_one_record_despite_one_failing() {
    // Three due tenants; the second one's generation fails. All three must
    // still receive exactly one record each.
    let tenants = vec![
        tenant(1, "A", 540, true),
        tenant(2, "B", 540, true),
        tenant(3, "C", 540, true),
    ];
    let generations = vec![
        Ok("first".to_string()),
        Err("generator crashed".to_string()),
        Ok("third".to_string()),
    ];
    let deliveries = vec![Ok(()), Ok(()), Ok(())];
    let records = tick_records(&tenants, &today(), &generations, &deliveries);
    assert_eq!(records.len(), 3);
    assert_eq!(records[0].tenant_id, 1);
    assert_eq!(records[0].status, RunStatus::Success);
    assert_eq!(records[1].tenant_id, 2);
    assert_eq!(records[1].status, RunStatus::Failure);
    assert_eq!(records[1].error_message, Some("generator crashed".to_string()));
    assert_eq!(records[2].tenant_id, 3);
    assert_eq!(records[2].status, RunStatus::Success);
}
