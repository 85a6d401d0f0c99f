use reachability::OptionExt;

#[test]
#[allow(unreachable_code)]
fn dead_code() {
    return;
    None::<()>.unwrap_static();
}

#[test]
fn black_box() {
    match std::hint::black_box(Some(1)) {
        Some(0) => None::<()>.unwrap_static(),
        _ => (),
    }
}

#[test]
fn black_box_stable() {
    fn blackish_box<T>(dummy: T) -> T {
        std::hint::black_box(dummy)
    }

    match blackish_box(Some(1)) {
        Some(0) => None::<()>.unwrap_static(),
        _ => (),
    }
}

#[test]
#[should_panic]
fn unchecked_assert() {
    let claim: Result<(), &str> = Err("intentional");
    OptionExt::unwrap_unchecked(claim);
}
