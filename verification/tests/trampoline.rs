use call_recursion::cell::{Output, Poll};
use call_recursion::computations::{pow_mod_iterative, CountDown, Immediate, PowMod};
use call_recursion::recursion::{
    drive_interleaved, recurse, start_recursion, start_recursion_with_peak, FutureWrapper,
};
use call_recursion::slot::{HandoffSlot, RecursionError};

fn fresh_pow(base: u64, n: u64, modulus: u64) -> PowMod {
    PowMod { base, modulus, n, awaiting: false }
}

fn fresh_count(n: u64, seed: u64) -> CountDown {
    CountDown { n, seed, awaiting: false }
}

#[test]
fn base_case_returns_value_unchanged() {
    let mut slot: HandoffSlot<FutureWrapper<Immediate, u64>> = HandoffSlot::new();
    assert_eq!(start_recursion(Immediate { value: 42 }, &mut slot), 42);
    assert_eq!(start_recursion(Immediate { value: 0 }, &mut slot), 0);
    assert_eq!(start_recursion(Immediate { value: u64::MAX }, &mut slot), u64::MAX);
    assert!(slot.drain().is_none());
}

#[test]
fn base_case_peak_is_one_frame() {
    let mut slot: HandoffSlot<FutureWrapper<Immediate, u64>> = HandoffSlot::new();
    let (value, peak) = start_recursion_with_peak(Immediate { value: 7 }, &mut slot);
    assert_eq!(value, 7);
    assert_eq!(peak, 1);
}

#[test]
fn pow_mod_small_exact_values() {
    let mut slot: HandoffSlot<FutureWrapper<PowMod, u64>> = HandoffSlot::new();
    assert_eq!(start_recursion(fresh_pow(2, 4, 1000), &mut slot), 16);
    assert_eq!(start_recursion(fresh_pow(2, 10, 1000), &mut slot), 24);
    assert_eq!(start_recursion(fresh_pow(3, 5, 7), &mut slot), 5);
    assert_eq!(start_recursion(fresh_pow(7, 0, 13), &mut slot), 1);
    assert_eq!(start_recursion(fresh_pow(0, 3, 13), &mut slot), 0);
    assert_eq!(start_recursion(fresh_pow(0, 0, 13), &mut slot), 1);
}

#[test]
fn pow_mod_modulus_one() {
    let mut slot: HandoffSlot<FutureWrapper<PowMod, u64>> = HandoffSlot::new();
    assert_eq!(start_recursion(fresh_pow(2, 0, 1), &mut slot), 1);
    assert_eq!(start_recursion(fresh_pow(2, 5, 1), &mut slot), 0);
}

#[test]
fn pow_mod_matches_iterative_reference() {
    let mut slot: HandoffSlot<FutureWrapper<PowMod, u64>> = HandoffSlot::new();
    for &(base, n, modulus) in
        &[(2u64, 17u64, 1009u64), (5, 100, 99991), (123, 321, 1000003), (999983, 12, 999979)]
    {
        assert_eq!(
            start_recursion(fresh_pow(base, n, modulus), &mut slot),
            pow_mod_iterative(base, n, modulus),
        );
    }
}

#[test]
fn pow_mod_deep_recursion_does_not_exhaust_native_stack() {
    let base: u64 = 2;
    let n: u64 = 10_000_000;
    let modulus: u64 = 1_000_000;
    let mut slot: HandoffSlot<FutureWrapper<PowMod, u64>> = HandoffSlot::new();
    let driven = start_recursion(fresh_pow(base, n, modulus), &mut slot);
    assert_eq!(driven, pow_mod_iterative(base, n, modulus));
}

#[test]
fn linear_recursion_peak_equals_depth_plus_one() {
    let mut slot: HandoffSlot<FutureWrapper<CountDown, u64>> = HandoffSlot::new();
    let (value, peak) = start_recursion_with_peak(fresh_count(5, 0), &mut slot);
    assert_eq!(value, 5);
    assert_eq!(peak, 6);
    let (value, peak) = start_recursion_with_peak(fresh_count(0, 9), &mut slot);
    assert_eq!(value, 9);
    assert_eq!(peak, 1);
    let (value, peak) = start_recursion_with_peak(fresh_count(1000, 0), &mut slot);
    assert_eq!(value, 1000);
    assert_eq!(peak, 1001);
}

#[test]
fn second_offer_without_suspension_is_incorrect_recursion() {
    let mut slot: HandoffSlot<FutureWrapper<CountDown, u64>> = HandoffSlot::new();
    assert_eq!(recurse(fresh_count(3, 0), &mut slot), Ok(()));
    assert_eq!(
        recurse(fresh_count(4, 0), &mut slot),
        Err(RecursionError::IncorrectRecursion),
    );
    let parked = slot.drain().expect("the first offered call must still be parked");
    assert_eq!(parked.future.n, 3);
    assert_eq!(recurse(fresh_count(4, 0), &mut slot), Ok(()));
}

#[test]
fn direct_offer_when_occupied_is_refused() {
    let mut slot: HandoffSlot<u64> = HandoffSlot::new();
    assert_eq!(slot.offer(1), Ok(()));
    assert_eq!(slot.offer(2), Err(RecursionError::IncorrectRecursion));
    assert_eq!(slot.drain(), Some(1));
    assert_eq!(slot.offer(2), Ok(()));
}

#[test]
fn nested_drive_leaves_parked_call_untouched() {
    let mut slot: HandoffSlot<FutureWrapper<CountDown, u64>> = HandoffSlot::new();
    assert_eq!(recurse(fresh_count(3, 10), &mut slot), Ok(()));
    // An independent drive started while the call above is still parked,
    // as from inside an already-running outer drive.
    assert_eq!(start_recursion(fresh_count(7, 0), &mut slot), 7);
    let parked = slot.drain().expect("the parked call must have survived the nested drive");
    assert_eq!(parked.future.n, 3);
    assert_eq!(parked.future.seed, 10);
    assert_eq!(start_recursion(parked.future, &mut slot), 13);
}

#[test]
fn interleaved_drives_stay_uncorrupted() {
    let mut slot: HandoffSlot<FutureWrapper<CountDown, u64>> = HandoffSlot::new();
    let (first, second) = drive_interleaved(fresh_count(3, 0), fresh_count(4, 1), &mut slot);
    assert_eq!(first, 3);
    assert_eq!(second, 5);
    assert!(slot.drain().is_none());
}

#[test]
fn interleaved_pow_mod_drives() {
    let mut slot: HandoffSlot<FutureWrapper<PowMod, u64>> = HandoffSlot::new();
    let (first, second) = drive_interleaved(fresh_pow(2, 10, 10000), fresh_pow(3, 7, 10000), &mut slot);
    assert_eq!(first, 1024);
    assert_eq!(second, 2187);
}

#[test]
fn result_cell_yields_its_value_exactly_once() {
    let mut cell: Output<u64> = Output::default();
    assert!(matches!(cell.poll(), Poll::Pending));
    cell.put(11);
    match cell.poll() {
        Poll::Ready(v) => assert_eq!(v, 11),
        Poll::Pending => panic!("a filled cell must yield its value"),
    }
    assert!(matches!(cell.poll(), Poll::Pending));
    assert!(matches!(cell.poll(), Poll::Pending));
}

#[test]
fn wrapper_keeps_the_wrapped_computation() {
    let w: FutureWrapper<Immediate, u64> = FutureWrapper::new(Immediate { value: 3 });
    assert_eq!(w.future.value, 3);
}
