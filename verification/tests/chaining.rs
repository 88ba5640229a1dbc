use std::cell::Cell;

use detour::bypass::Bypass;
use detour::detour::Detour;
use detour::error::HookError;

fn validate(path: &str) -> Detour<String> {
    if path.starts_with('/') {
        Detour::Success(path.to_string())
    } else {
        Detour::Bypass(Bypass::relative_path(path.as_bytes().to_vec()))
    }
}

fn lookup(registry: &[(i32, u64)], fd: i32) -> Detour<u64> {
    match registry.iter().find(|(known, _)| *known == fd) {
        Some((_, remote)) => Detour::Success(*remote),
        None => Detour::Bypass(Bypass::LocalFdNotFound(fd)),
    }
}

#[test]
fn and_then_runs_the_step_on_a_success() {
    let out = Detour::Success(20).and_then(|v: i32| Detour::Success(v + 1));
    assert!(matches!(out, Detour::Success(21)));
}

#[test]
fn and_then_returns_what_the_step_returns() {
    let out: Detour<i32> = Detour::Success(20).and_then(|_: i32| Detour::Bypass(Bypass::Port(80)));
    assert!(matches!(out, Detour::Bypass(Bypass::Port(80))));
    let out: Detour<i32> =
        Detour::Success(20).and_then(|_: i32| Detour::Error(HookError::new(13)));
    assert!(matches!(out, Detour::Error(HookError { errno: 13 })));
}

#[test]
fn a_bypass_in_the_second_step_ends_a_chain_of_three() {
    let third_ran = Cell::new(false);
    let out: Detour<i32> = Detour::Success(1)
        .and_then(|v: i32| Detour::Success(v + 1))
        .and_then(|_: i32| Detour::<i32>::Bypass(Bypass::DisabledOutgoing))
        .and_then(|v: i32| {
            third_ran.set(true);
            Detour::Success(v * 10)
        });
    assert!(matches!(out, Detour::Bypass(Bypass::DisabledOutgoing)));
    assert!(!third_ran.get());
}

#[test]
fn an_error_in_the_second_step_ends_a_chain_of_three() {
    let third_ran = Cell::new(false);
    let out: Detour<i32> = Detour::Success(1)
        .and_then(|v: i32| Detour::Success(v + 1))
        .and_then(|_: i32| Detour::<i32>::Error(HookError::new(5)))
        .and_then(|v: i32| {
            third_ran.set(true);
            Detour::Success(v * 10)
        });
    assert!(matches!(out, Detour::Error(HookError { errno: 5 })));
    assert!(!third_ran.get());
}

#[test]
fn a_chain_of_successes_runs_every_step() {
    let out: Detour<i32> = Detour::Success(1)
        .and_then(|v: i32| Detour::Success(v + 1))
        .and_then(|v: i32| Detour::Success(v * 10))
        .and_then(|v: i32| Detour::Success(v - 3));
    assert!(matches!(out, Detour::Success(17)));
}

#[test]
fn a_descriptor_missing_from_the_registry_ends_the_handler() {
    let registry = [(3, 300u64), (4, 400u64)];
    let performed = Cell::new(false);
    let out: Detour<usize> = validate("/etc/hosts")
        .and_then(|_| lookup(&registry, 7))
        .and_then(|remote| {
            performed.set(true);
            Detour::Success(remote as usize)
        });
    assert!(matches!(out, Detour::Bypass(Bypass::LocalFdNotFound(7))));
    assert!(!performed.get());
}

#[test]
fn a_known_descriptor_lets_the_handler_run_through() {
    let registry = [(3, 300u64), (7, 700u64)];
    let out: Detour<usize> = validate("/etc/hosts")
        .and_then(|_| lookup(&registry, 7))
        .and_then(|remote| Detour::Success(remote as usize));
    assert!(matches!(out, Detour::Success(700)));
}

#[test]
fn a_relative_path_ends_the_handler_before_the_lookup() {
    let registry = [(7, 700u64)];
    let looked_up = Cell::new(false);
    let out: Detour<u64> = validate("etc/hosts").and_then(|_| {
        looked_up.set(true);
        lookup(&registry, 7)
    });
    match out {
        Detour::Bypass(Bypass::RelativePath(path)) => assert_eq!(path.as_bytes(), b"etc/hosts"),
        other => panic!("expected a bypass for a relative path, got {:?}", other),
    }
    assert!(!looked_up.get());
}

#[test]
fn chaining_is_nesting() {
    let first = |v: i32| {
        if v % 2 == 0 {
            Detour::Success(v / 2)
        } else {
            Detour::Bypass(Bypass::Type(v))
        }
    };
    let second = |v: i32| {
        if v > 10 {
            Detour::Error(HookError::new(v))
        } else {
            Detour::Success(v + 100)
        }
    };
    for start in [4, 5, 40] {
        let chained = Detour::Success(start).and_then(first).and_then(second);
        let nested = Detour::Success(start).and_then(|v| first(v).and_then(second));
        assert_eq!(format!("{:?}", chained), format!("{:?}", nested));
    }
    let chained = Detour::Success(4).and_then(first).and_then(second);
    assert!(matches!(chained, Detour::Success(102)));
    let chained = Detour::Success(5).and_then(first).and_then(second);
    assert!(matches!(chained, Detour::Bypass(Bypass::Type(5))));
    let chained = Detour::Success(40).and_then(first).and_then(second);
    assert!(matches!(chained, Detour::Error(HookError { errno: 20 })));
}

#[test]
fn map_changes_the_value_of_a_success_only() {
    let ran = Cell::new(0);
    let double = |v: i32| {
        ran.set(ran.get() + 1);
        v * 2
    };
    assert!(matches!(Detour::Success(21).map(double), Detour::Success(42)));
    assert!(matches!(
        Detour::<i32>::Bypass(Bypass::LocalDns).map(double),
        Detour::Bypass(Bypass::LocalDns)
    ));
    assert!(matches!(
        Detour::<i32>::Error(HookError::new(9)).map(double),
        Detour::Error(HookError { errno: 9 })
    ));
    assert_eq!(ran.get(), 1);
}

#[test]
fn or_else_runs_after_an_error_only() {
    let ran = Cell::new(0);
    let retry = |e: HookError| {
        ran.set(ran.get() + 1);
        Detour::Success(e.errno + 1)
    };
    assert!(matches!(Detour::Success(1).or_else(retry), Detour::Success(1)));
    assert!(matches!(
        Detour::<i32>::Bypass(Bypass::NullNode).or_else(retry),
        Detour::Bypass(Bypass::NullNode)
    ));
    assert_eq!(ran.get(), 0);
    assert!(matches!(
        Detour::<i32>::Error(HookError::new(11)).or_else(retry),
        Detour::Success(12)
    ));
    assert_eq!(ran.get(), 1);
}

#[test]
fn or_bypass_runs_after_a_bypass_only() {
    let ran = Cell::new(0);
    let retry = |reason: Bypass| {
        ran.set(ran.get() + 1);
        match reason {
            Bypass::Port(port) => Detour::Success(i32::from(port)),
            other => Detour::Bypass(other),
        }
    };
    assert!(matches!(Detour::Success(1).or_bypass(retry), Detour::Success(1)));
    assert!(matches!(
        Detour::<i32>::Error(HookError::new(11)).or_bypass(retry),
        Detour::Error(HookError { errno: 11 })
    ));
    assert_eq!(ran.get(), 0);
    assert!(matches!(
        Detour::<i32>::Bypass(Bypass::Port(8080)).or_bypass(retry),
        Detour::Success(8080)
    ));
    assert!(matches!(
        Detour::<i32>::Bypass(Bypass::EmptyBuffer).or_bypass(retry),
        Detour::Bypass(Bypass::EmptyBuffer)
    ));
    assert_eq!(ran.get(), 2);
}

#[test]
fn branch_and_from_residual_return_early() {
    fn handler(step: Detour<i32>, ran_on: &Cell<bool>) -> Detour<String> {
        let value = match step.branch() {
            std::ops::ControlFlow::Continue(value) => value,
            std::ops::ControlFlow::Break(residual) => return Detour::from_residual(residual),
        };
        ran_on.set(true);
        Detour::from_output(value.to_string())
    }
    let ran_on = Cell::new(false);
    assert!(matches!(
        handler(Detour::Bypass(Bypass::OpenLocal), &ran_on),
        Detour::Bypass(Bypass::OpenLocal)
    ));
    assert!(matches!(
        handler(Detour::Error(HookError::new(2)), &ran_on),
        Detour::Error(HookError { errno: 2 })
    ));
    assert!(!ran_on.get());
    match handler(Detour::Success(7), &ran_on) {
        Detour::Success(text) => assert_eq!(text, "7"),
        other => panic!("expected a success, got {:?}", other),
    }
    assert!(ran_on.get());
}
