use onewipe::policy::{FillSpec, Policy};
use onewipe::wipe::{block_count, fill_block, start_file_wipe, WipeMachine, WipeStep, BLOCK_SIZE};

#[test]
fn block_count_covers_file_length() {
    // One block more than the number of complete blocks the size fills.
    // The final block is not clamped: a 4096-byte file gets two full
    // blocks per pass, so a pass may extend the on-disk length.
    assert_eq!(block_count(0), 1);
    assert_eq!(block_count(1), 1);
    assert_eq!(block_count(4095), 1);
    assert_eq!(block_count(4096), 2);
    assert_eq!(block_count(5000), 2);
    assert_eq!(block_count(10 * 4096), 11);
}

#[test]
fn zero_fill_block_is_all_zeros() {
    let mut rng = rand::rng();
    let b = fill_block(&FillSpec::Zeros, &mut rng);
    assert_eq!(b.len(), BLOCK_SIZE);
    assert!(b.iter().all(|&x| x == 0x00));
}

#[test]
fn one_fill_block_is_all_ones() {
    let mut rng = rand::rng();
    let b = fill_block(&FillSpec::Ones, &mut rng);
    assert_eq!(b.len(), BLOCK_SIZE);
    assert!(b.iter().all(|&x| x == 0xFF));
}

#[test]
fn random_fill_blocks_are_fresh_draws() {
    let mut rng = rand::rng();
    let a = fill_block(&FillSpec::Random, &mut rng);
    let b = fill_block(&FillSpec::Random, &mut rng);
    assert_eq!(a.len(), BLOCK_SIZE);
    assert_eq!(b.len(), BLOCK_SIZE);
    // Two fresh 4096-byte entropy draws coincide (or equal the zeroed
    // buffer the generator fills) only with negligible probability.
    assert_ne!(a, b);
    assert!(a.iter().any(|&x| x != 0x00));
}

#[test]
fn dry_run_prescribes_no_steps() {
    // Under dry-run no machine exists, so no write or seek is ever
    // prescribed and file contents are left untouched.
    assert!(start_file_wipe(true, &Policy::Dod, 5000).is_none());
    assert!(start_file_wipe(true, &Policy::Clear, 0).is_none());
    assert!(start_file_wipe(false, &Policy::Clear, 0).is_some());
}

fn drive(machine: &mut WipeMachine) -> (Vec<WipeStep>, u64) {
    let mut steps = Vec::new();
    let mut writes: u64 = 0;
    loop {
        let step = machine.next();
        if step == WipeStep::Done {
            break;
        }
        if let WipeStep::Write(_) = step {
            writes += 1;
        }
        steps.push(step);
    }
    (steps, writes)
}

#[test]
fn dod_on_one_byte_file_completes_three_passes() {
    // A 1-byte file still gets every pass, one block each, with no crash.
    let mut m = WipeMachine::new(&Policy::Dod, 1);
    let (steps, writes) = drive(&mut m);
    assert_eq!(writes, 3);
    assert_eq!(
        steps,
        vec![
            WipeStep::Write(FillSpec::Zeros),
            WipeStep::SeekStart,
            WipeStep::Write(FillSpec::Ones),
            WipeStep::SeekStart,
            WipeStep::Write(FillSpec::Random),
        ]
    );
    assert!(m.is_done());
    let labels = m.into_labels();
    assert_eq!(
        labels,
        vec![
            "Pass 1: zeros".to_string(),
            "Pass 2: ones".to_string(),
            "Pass 3: random".to_string(),
        ]
    );
}

#[test]
fn clear_writes_each_block_once_then_stops() {
    // 5000 bytes cover one full block and part of a second: two blocks per
    // pass, a single pass, no seek after the final pass.
    let mut m = WipeMachine::new(&Policy::Clear, 5000);
    let (steps, writes) = drive(&mut m);
    assert_eq!(writes, 2);
    assert_eq!(
        steps,
        vec![WipeStep::Write(FillSpec::Zeros), WipeStep::Write(FillSpec::Zeros)]
    );
    assert_eq!(m.into_labels(), vec!["Pass 1: zeros".to_string()]);
}

#[test]
fn machine_stays_done() {
    let mut m = WipeMachine::new(&Policy::Clear, 0);
    let _ = drive(&mut m);
    assert!(m.is_done());
    assert_eq!(m.next(), WipeStep::Done);
    assert_eq!(m.next(), WipeStep::Done);
}
