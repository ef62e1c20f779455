use cu_mpc::codec::{decode_state, encode_state, PersistedState, STATE_FORMAT_VERSION};
use cu_mpc::task::{GenericMPCTask, ProcessOutcome, TaskConfig};
use cu_mpc::MpcError;

const PERIOD: u64 = 100_000_000;
const DT: u64 = 10_000_000;

fn bits_vec(xs: &[f64]) -> Vec<u64> {
    xs.iter().map(|x| x.to_bits()).collect()
}

fn limit_bits(ls: &[(f64, f64)]) -> Vec<(u64, u64)> {
    ls.iter().map(|&(a, b)| (a.to_bits(), b.to_bits())).collect()
}

fn error_bits(setpoint: &[f64], m: &[f64]) -> Vec<u64> {
    setpoint.iter().zip(m.iter()).map(|(s, x)| (s - x).to_bits()).collect()
}

fn config_2d() -> TaskConfig {
    TaskConfig {
        setpoint: bits_vec(&[1.0, 1.0]),
        output_limits: limit_bits(&[(-1.0, 1.0), (-1.0, 1.0)]),
        sample_period: PERIOD,
        tolerance: 1e-3f64.to_bits(),
        has_state_cost: true,
        has_terminal_cost: false,
    }
}

// A stand-in for the host's solver backend: deterministic and stateful, the
// iterate depending on the warm start as the real warm-started solver's
// does, so runs can be compared bit for bit and a lost warm start shows.
fn stub_solver(error: &[u64], warm: &[u64]) -> Vec<u64> {
    error
        .iter()
        .zip(warm.iter())
        .map(|(e, w)| (0.5 * f64::from_bits(*e) + 0.25 * f64::from_bits(*w)).to_bits())
        .collect()
}

fn drive(task: &mut GenericMPCTask, measurement: &[f64], dt: u64) -> Vec<u64> {
    let e = error_bits(&[1.0, 1.0], measurement);
    match task.process(Some(&e), dt).unwrap() {
        ProcessOutcome::Cleared => Vec::new(),
        ProcessOutcome::Hold => task.last_output().output,
        ProcessOutcome::SolveDue => {
            let raw = stub_solver(task.last_error(), task.warm_start());
            task.apply_solution(&raw).unwrap().output
        }
    }
}

#[test]
fn codec_round_trip_is_exact() {
    let s = PersistedState {
        first_run: false,
        elapsed: 42,
        last_error: bits_vec(&[0.5, -0.25]),
        warm_start: bits_vec(&[0.375, -0.5]),
        last_output: bits_vec(&[0.125, 0.0]),
    };
    let w = encode_state(&s);
    assert_eq!(w[0], STATE_FORMAT_VERSION);
    let d = decode_state(&w).unwrap();
    assert_eq!(d.first_run, s.first_run);
    assert_eq!(d.elapsed, s.elapsed);
    assert_eq!(d.last_error, s.last_error);
    assert_eq!(d.warm_start, s.warm_start);
    assert_eq!(d.last_output, s.last_output);
}

#[test]
fn codec_round_trip_empty_output() {
    let s = PersistedState {
        first_run: true,
        elapsed: 0,
        last_error: bits_vec(&[0.0]),
        warm_start: bits_vec(&[0.0]),
        last_output: Vec::new(),
    };
    let w = encode_state(&s);
    let d = decode_state(&w).unwrap();
    assert!(d.first_run);
    assert_eq!(d.last_error, s.last_error);
    assert_eq!(d.warm_start, s.warm_start);
    assert!(d.last_output.is_empty());
}

#[test]
fn corrupted_images_are_rejected() {
    let s = PersistedState {
        first_run: false,
        elapsed: 7,
        last_error: bits_vec(&[0.5, -0.25]),
        warm_start: bits_vec(&[0.25, 0.0]),
        last_output: bits_vec(&[0.125, 0.0]),
    };
    let w = encode_state(&s);

    // wrong version word
    let mut bad = w.clone();
    bad[0] = STATE_FORMAT_VERSION + 1;
    assert!(matches!(decode_state(&bad), Err(MpcError::SerializationError)));

    // first-run flag out of range
    let mut bad = w.clone();
    bad[2] = 5;
    assert!(matches!(decode_state(&bad), Err(MpcError::SerializationError)));

    // truncated image
    let mut bad = w.clone();
    bad.pop();
    assert!(matches!(decode_state(&bad), Err(MpcError::SerializationError)));

    // trailing garbage
    let mut bad = w.clone();
    bad.push(0);
    assert!(matches!(decode_state(&bad), Err(MpcError::SerializationError)));

    // inner length field pointing past the end
    let mut bad = w.clone();
    bad[1] = 1000;
    assert!(matches!(decode_state(&bad), Err(MpcError::SerializationError)));

    // too short to hold a header at all
    assert!(matches!(decode_state(&vec![1, 2, 3]), Err(MpcError::SerializationError)));
}

#[test]
fn freeze_thaw_reproduces_the_run() {
    // Drive a task, checkpoint it mid-run, restore into a new instance with
    // the same configuration, and continue both with the same inputs and the
    // same deterministic backend: the outputs stay identical bit for bit.
    let mut original = GenericMPCTask::new(Some(config_2d())).unwrap();
    drive(&mut original, &[0.0, 0.0], DT); // seeds, solves
    drive(&mut original, &[0.1, 0.1], DT); // held

    let image = original.freeze();

    let mut restored = GenericMPCTask::new(Some(config_2d())).unwrap();
    restored.thaw(&image).unwrap();
    assert_eq!(restored.elapsed(), original.elapsed());
    assert_eq!(restored.last_error(), original.last_error());
    assert_eq!(restored.warm_start(), original.warm_start());
    assert_eq!(restored.last_output().output, original.last_output().output);

    let script: &[(&[f64], u64)] = &[
        (&[0.2, 0.1], DT),
        (&[0.3, 0.2], 9 * DT), // reaches the period: solve
        (&[0.4, 0.2], DT),
        (&[0.5, 0.3], 10 * DT), // solve again
    ];
    for (m, dt) in script {
        let a = drive(&mut original, m, *dt);
        let b = drive(&mut restored, m, *dt);
        assert_eq!(a, b);
    }
}

#[test]
fn thaw_rejects_a_foreign_dimension() {
    // An image checkpointed from a 1-axis task does not fit a 2-axis task.
    let mut one_axis = GenericMPCTask::new(Some(TaskConfig {
        setpoint: bits_vec(&[1.0]),
        output_limits: limit_bits(&[(-1.0, 1.0)]),
        sample_period: PERIOD,
        tolerance: 1e-3f64.to_bits(),
        has_state_cost: true,
        has_terminal_cost: false,
    }))
    .unwrap();
    let e = error_bits(&[1.0], &[0.0]);
    one_axis.process(Some(&e), DT).unwrap();
    let image = one_axis.freeze();

    let mut two_axis = GenericMPCTask::new(Some(config_2d())).unwrap();
    assert!(matches!(two_axis.thaw(&image), Err(MpcError::SerializationError)));
    // the failed restore left the task untouched
    assert!(two_axis.last_output().output.is_empty());
}

#[test]
fn thaw_rejects_an_out_of_limits_output() {
    // A tampered image whose stored output violates the configured limits is
    // refused rather than replayed.
    let s = PersistedState {
        first_run: false,
        elapsed: 0,
        last_error: bits_vec(&[0.0, 0.0]),
        warm_start: bits_vec(&[0.0, 0.0]),
        last_output: bits_vec(&[5.0, 0.0]),
    };
    let image = encode_state(&s);
    let mut task = GenericMPCTask::new(Some(config_2d())).unwrap();
    assert!(matches!(task.thaw(&image), Err(MpcError::SerializationError)));
}

#[test]
fn thaw_rejects_a_warm_start_of_the_wrong_dimension() {
    // A tampered image whose warm-start section does not match the
    // controller's dimension is refused.
    let s = PersistedState {
        first_run: false,
        elapsed: 0,
        last_error: bits_vec(&[0.0, 0.0]),
        warm_start: bits_vec(&[0.0]),
        last_output: Vec::new(),
    };
    let image = encode_state(&s);
    let mut task = GenericMPCTask::new(Some(config_2d())).unwrap();
    assert!(matches!(task.thaw(&image), Err(MpcError::SerializationError)));
}

#[test]
fn missing_config_fails_construction() {
    assert!(matches!(GenericMPCTask::new(None), Err(MpcError::ConfigurationError)));
}

#[test]
fn absent_measurement_clears_and_changes_nothing() {
    let mut task = GenericMPCTask::new(Some(config_2d())).unwrap();
    let e = error_bits(&[1.0, 1.0], &[0.0, 0.0]);
    task.process(Some(&e), DT).unwrap();
    let raw = stub_solver(task.last_error(), task.warm_start());
    let out = task.apply_solution(&raw).unwrap();

    let r = task.process(None, DT).unwrap();
    assert_eq!(r, ProcessOutcome::Cleared);
    assert_eq!(task.last_output().output, out.output);
    assert_eq!(task.elapsed(), 0);
}

#[test]
fn stop_resets_and_reseeds_like_a_restart() {
    // stop + the next measurement behaves like a fresh task: same gate
    // decisions, and with the same deterministic backend the same outputs.
    let mut task = GenericMPCTask::new(Some(config_2d())).unwrap();
    drive(&mut task, &[0.3, -0.2], DT);
    drive(&mut task, &[0.35, -0.1], DT);
    task.stop();

    let mut fresh = GenericMPCTask::new(Some(config_2d())).unwrap();
    let a = drive(&mut task, &[0.0, 0.5], DT);
    let b = drive(&mut fresh, &[0.0, 0.5], DT);
    assert_eq!(a, b);
    assert_eq!(task.elapsed(), fresh.elapsed());
    assert_eq!(task.last_error(), fresh.last_error());
}
