use nuuro::timer::{Timer, TimerInstance, TimerRegistry};

#[test]
fn finite_timer_advances_and_clamps_at_expiration() {
    let mut registry = TimerRegistry::new();
    let timer = Timer::new(1000, true, &mut registry);

    registry.update_all(500);
    assert!(timer.active(&registry));
    assert!(!timer.expired(&registry));
    assert_eq!(timer.elapsed(&registry), 500);

    registry.update_all(600);
    assert_eq!(timer.elapsed(&registry), 1000);
    assert!(timer.expired(&registry));
    assert!(!timer.active(&registry));

    registry.update_all(250);
    assert_eq!(timer.elapsed(&registry), 1000);
    assert!(timer.expired(&registry));
}

#[test]
fn endless_timer_never_expires() {
    let mut registry = TimerRegistry::new();
    let timer = Timer::new(0, false, &mut registry);

    assert!(timer.active(&registry));
    for _ in 0..10 {
        registry.update_all(u32::MAX as u64);
        assert!(timer.active(&registry));
        assert!(!timer.expired(&registry));
    }
    assert!(timer.elapsed(&registry) > 0);
}

#[test]
fn inactive_start_begins_expired_and_reset_reactivates() {
    let mut registry = TimerRegistry::new();
    let timer = Timer::new(800, false, &mut registry);

    assert!(timer.expired(&registry));
    assert_eq!(timer.elapsed(&registry), 800);

    timer.reset(&mut registry);
    assert!(timer.active(&registry));
    assert_eq!(timer.elapsed(&registry), 0);

    registry.update_all(799);
    assert!(timer.active(&registry));
    registry.update_all(1);
    assert!(timer.expired(&registry));
}

#[test]
fn set_time_replaces_expiration_and_start_rule() {
    let mut registry = TimerRegistry::new();
    let timer = Timer::new(100, true, &mut registry);
    registry.update_all(50);

    timer.set_time(2000, true, &mut registry);
    assert_eq!(timer.elapsed(&registry), 0);
    assert!(timer.active(&registry));

    timer.set_time(300, false, &mut registry);
    assert_eq!(timer.elapsed(&registry), 300);
    assert!(timer.expired(&registry));

    timer.set_time(0, false, &mut registry);
    assert!(timer.active(&registry));
}

#[test]
fn timer_ids_increase_and_are_not_reused() {
    let mut registry = TimerRegistry::new();
    let a = Timer::new(10, true, &mut registry);
    let b = Timer::new(20, true, &mut registry);
    assert!(b.id() > a.id());
    let a_id = a.id();
    a.dispose(&mut registry);
    let c = Timer::new(30, true, &mut registry);
    assert!(c.id() > b.id());
    assert_ne!(c.id(), a_id);
}

#[test]
fn dispose_removes_only_the_owned_entry() {
    let mut registry = TimerRegistry::new();
    let a = Timer::new(100, true, &mut registry);
    let b = Timer::new(200, true, &mut registry);
    registry.update_all(40);
    assert_eq!(registry.len(), 2);

    a.dispose(&mut registry);
    assert_eq!(registry.len(), 1);
    assert_eq!(b.elapsed(&registry), 40);
    assert!(b.active(&registry));
}

#[test]
fn instance_follows_the_start_rule() {
    let instance = TimerInstance::new(500, true, 1);
    assert!(instance.active());
    assert_eq!(instance.elapsed(), 0);
    assert!(!instance.is_endless());

    let inactive = TimerInstance::new(500, false, 2);
    assert!(inactive.expired());
    assert_eq!(inactive.elapsed(), 500);

    let endless = TimerInstance::new(0, false, 3);
    assert!(endless.is_endless());
    assert!(endless.active());
}

#[test]
fn instance_update_pins_at_expiration() {
    let mut instance = TimerInstance::new(1000, true, 1);
    instance.update(500);
    assert_eq!(instance.elapsed(), 500);
    assert!(instance.active());
    instance.update(600);
    assert_eq!(instance.elapsed(), 1000);
    assert!(instance.expired());
    instance.update(100);
    assert_eq!(instance.elapsed(), 1000);
}

#[test]
fn instance_set_endless_changes_only_the_flag() {
    let mut instance = TimerInstance::new(100, true, 1);
    instance.update(100);
    assert!(instance.expired());
    instance.set_endless(true);
    assert!(instance.is_endless());
    assert!(instance.active());
    instance.set_endless(false);
    assert!(instance.expired());
}

#[test]
fn instance_reset_and_set_time() {
    let mut instance = TimerInstance::new(100, true, 7);
    instance.update(60);
    instance.reset();
    assert_eq!(instance.elapsed(), 0);
    instance.set_time(40, false);
    assert_eq!(instance.elapsed(), 40);
    assert!(instance.expired());
}
