use detour::guard::{detour_bypass_off, DetourGuard, ReentrancyFlag};

#[test]
fn a_thread_starts_outside_any_hook() {
    assert!(!ReentrancyFlag::new().is_active());
}

#[test]
fn the_second_of_two_acquisitions_gets_no_guard() {
    let mut flag = ReentrancyFlag::new();
    let first = DetourGuard::new(&mut flag);
    assert!(first.is_some());
    assert!(flag.is_active());
    let second = DetourGuard::new(&mut flag);
    assert!(second.is_none());
    assert!(flag.is_active());
}

#[test]
fn a_released_guard_makes_room_for_the_next() {
    let mut flag = ReentrancyFlag::new();
    let first = DetourGuard::new(&mut flag).expect("the flag starts out lowered");
    assert!(DetourGuard::new(&mut flag).is_none());
    first.release(&mut flag);
    assert!(!flag.is_active());
    let next = DetourGuard::new(&mut flag);
    assert!(next.is_some());
    assert!(flag.is_active());
}

#[test]
fn every_round_of_acquire_and_release_grants_one_guard() {
    let mut flag = ReentrancyFlag::new();
    for _ in 0..5 {
        let guard = DetourGuard::new(&mut flag).expect("the flag is lowered between rounds");
        assert!(DetourGuard::new(&mut flag).is_none());
        assert!(DetourGuard::new(&mut flag).is_none());
        guard.release(&mut flag);
        assert!(!flag.is_active());
    }
}

#[test]
fn a_scope_left_early_still_lowers_the_flag() {
    fn hook(flag: &mut ReentrancyFlag, fail: bool) -> Result<u32, &'static str> {
        let guard = match DetourGuard::new(flag) {
            Some(guard) => guard,
            None => return Err("inside a hook already"),
        };
        let result = if fail { Err("the hook failed") } else { Ok(1) };
        guard.release(flag);
        result
    }
    let mut flag = ReentrancyFlag::new();
    assert_eq!(hook(&mut flag, true), Err("the hook failed"));
    assert!(!flag.is_active());
    assert_eq!(hook(&mut flag, false), Ok(1));
    assert!(!flag.is_active());
}

#[test]
fn detour_bypass_off_lowers_the_flag_whatever_it_was() {
    let mut flag = ReentrancyFlag::new();
    detour_bypass_off(&mut flag);
    assert!(!flag.is_active());
    let _guard = DetourGuard::new(&mut flag);
    assert!(flag.is_active());
    detour_bypass_off(&mut flag);
    assert!(!flag.is_active());
    assert!(DetourGuard::new(&mut flag).is_some());
}

#[test]
fn each_thread_has_a_flag_of_its_own() {
    let mut one = ReentrancyFlag::new();
    let mut other = ReentrancyFlag::new();
    assert!(DetourGuard::new(&mut one).is_some());
    assert!(DetourGuard::new(&mut other).is_some());
    assert!(DetourGuard::new(&mut one).is_none());
    assert!(DetourGuard::new(&mut other).is_none());
}
