use fm_demod::header::{be_bytes, prepare_output};
use fm_demod::pipeline::{ChunkError, Pipeline};
use fm_demod::run::{Action, Event, Run, RunState};
use fm_demod::sample::{SampleBuffer, SampleKind};
use fm_demod::stage::{Kernels, Stage, StageError};
use fm_demod::transform::{decimate, decode_pairs, discriminate, group_count, shift};
use num_complex::Complex;
use std::f32::consts::PI;

type C = Complex<f32>;

fn rotate(rate: &f32, n: usize, x: C) -> C {
    x * Complex::new(0.0, 2.0 * PI * rate * n as f32).exp()
}

fn mean_complex(g: &[C]) -> C {
    g.iter().sum::<C>() / g.len() as f32
}

fn mean_real(g: &[f32]) -> f32 {
    g.iter().sum::<f32>() / g.len() as f32
}

fn step(a: C, b: C) -> f32 {
    (b * a.conj()).arg() / PI
}

fn decode(i: u8, q: u8) -> C {
    Complex::new((i as f32 - 127.5) / 127.5, (q as f32 - 127.5) / 127.5)
}

fn kernels() -> Kernels<fn(&f32, usize, C) -> C, fn(&[C]) -> C, fn(&[f32]) -> f32, fn(C, C) -> f32> {
    Kernels { rotate, mean_complex, mean_real, step }
}

fn close(a: f32, b: f32) -> bool {
    (a - b).abs() < 1e-5
}

#[test]
fn decimate_real_example() {
    let r = decimate(&[1.0f32, 2.0, 3.0, 4.0, 5.0], 2, mean_real);
    assert_eq!(r, vec![1.5, 3.5, 5.0]);
}

#[test]
fn decimate_complex_example() {
    let v = vec![
        Complex::new(1.0f32, 0.0),
        Complex::new(0.0, 1.0),
        Complex::new(-1.0, 0.0),
        Complex::new(0.0, -1.0),
        Complex::new(1.0, 0.0),
    ];
    let r = decimate(&v, 2, mean_complex);
    assert_eq!(r, vec![Complex::new(0.5, 0.5), Complex::new(-0.5, -0.5), Complex::new(1.0, 0.0)]);
}

#[test]
fn decimate_lengths_are_ceilings() {
    for n in 0..40usize {
        for k in 2..9usize {
            let v: Vec<f32> = (0..n).map(|i| i as f32).collect();
            let r = decimate(&v, k, mean_real);
            assert_eq!(r.len(), (n + k - 1) / k);
            assert_eq!(group_count(n, k), (n + k - 1) / k);
        }
    }
    assert_eq!(group_count(0, 3), 0);
    assert_eq!(group_count(6, 3), 2);
    assert_eq!(group_count(7, 3), 3);
    assert_eq!(group_count(usize::MAX, 2), usize::MAX / 2 + 1);
}

#[test]
fn decimate_short_last_group() {
    let r = decimate(&[2.0f32, 4.0, 6.0, 10.0], 3, mean_real);
    assert_eq!(r, vec![4.0, 10.0]);
}

#[test]
fn zero_shift_is_identity() {
    let v: Vec<C> = (0..50).map(|i| Complex::new(i as f32 * 0.1 - 2.0, 1.5 - i as f32 * 0.03)).collect();
    let r = shift(&v, &0.0f32, rotate);
    assert_eq!(r, v);
}

#[test]
fn shift_keeps_magnitude() {
    let v: Vec<C> = (0..200).map(|i| Complex::new((i as f32 * 0.37).sin(), (i as f32 * 0.11).cos())).collect();
    for rate in [-0.090625f32, 0.25, 0.013] {
        let r = shift(&v, &rate, rotate);
        assert_eq!(r.len(), v.len());
        for n in 0..v.len() {
            assert!(close(r[n].norm(), v[n].norm()));
        }
    }
}

#[test]
fn shift_quarter_rate_rotates() {
    let v = vec![Complex::new(1.0f32, 0.0); 3];
    let r = shift(&v, &0.25f32, rotate);
    assert!(close(r[1].re, 0.0) && close(r[1].im, 1.0));
    assert!(close(r[2].re, -1.0) && close(r[2].im, 0.0));
}

#[test]
fn discriminate_lengths() {
    for n in 0..10usize {
        let v = vec![Complex::new(1.0f32, 0.0); n];
        let r = discriminate(&v, step);
        assert_eq!(r.len(), if n > 0 { n - 1 } else { 0 });
    }
}

#[test]
fn identical_samples_give_zeros() {
    let v = vec![Complex::new(0.3f32, -0.7); 17];
    let r = discriminate(&v, step);
    assert_eq!(r.len(), 16);
    assert!(r.iter().all(|x| *x == 0.0));
}

#[test]
fn fixed_phase_step_gives_constant() {
    let theta = 0.4f32;
    let v: Vec<C> = (0..30).map(|i| Complex::from_polar(0.8, theta * i as f32)).collect();
    let r = discriminate(&v, step);
    assert_eq!(r.len(), 29);
    for x in r {
        assert!(close(x, theta / PI));
    }
}

#[test]
fn decode_drops_odd_byte() {
    let r = decode_pairs(&[255u8, 0, 128, 127, 9], decode);
    assert_eq!(r.len(), 2);
    assert_eq!(r[0], Complex::new(1.0, -1.0));
    assert_eq!(r[1], Complex::new(0.5 / 127.5, -0.5 / 127.5));
}

#[test]
fn header_matches_container_table() {
    let h = prepare_output();
    assert_eq!(
        h,
        vec![
            0x2e, 0x73, 0x6e, 0x64, 0, 0, 0, 24, 0xff, 0xff, 0xff, 0xff, 0, 0, 0, 6, 0, 0, 0xbb, 0x80, 0,
            0, 0, 1
        ]
    );
    assert_eq!(be_bytes(0x01020304), vec![1, 2, 3, 4]);
}

#[test]
fn mid_scale_input_gives_zero_stream() {
    let mut p: Pipeline<f32> = Pipeline::new("in".to_string(), "out".to_string());
    p.add_node(Stage::Shifter(0.0));
    p.add_node(Stage::Decimator(5));
    p.add_node(Stage::Discriminator);
    p.add_node(Stage::Decimator(8));
    for pairs in [0usize, 1, 7, 400, 1001] {
        let bytes = vec![128u8; 2 * pairs];
        let out = p.run_chunk(&bytes, decode, &kernels()).unwrap();
        let after = (pairs + 4) / 5;
        let disc = if after > 0 { after - 1 } else { 0 };
        assert_eq!(out.len(), (disc + 7) / 8);
        assert!(out.iter().all(|x| *x == 0.0));
    }
    assert_eq!(prepare_output().len(), 24);
}

#[test]
fn discriminator_refuses_real_buffer() {
    let k = kernels();
    let r = Stage::<f32>::Discriminator.process(SampleBuffer::Real(vec![1.0f32, 2.0]), &k);
    assert_eq!(
        r.unwrap_err(),
        StageError::WrongVariant { expected: SampleKind::Complex, found: SampleKind::Real }
    );
    let r = Stage::Shifter(0.1f32).process(SampleBuffer::<C, f32>::Real(vec![1.0]), &k);
    assert!(r.is_err());
    let r = Stage::<f32>::Decimator(2).process(SampleBuffer::<C, f32>::Real(vec![1.0, 3.0]), &k).unwrap();
    assert_eq!(r.kind(), SampleKind::Real);
    assert_eq!(r.len(), 1);
}

#[test]
fn misordered_chain_is_refused() {
    let mut p: Pipeline<f32> = Pipeline::new("in".to_string(), "out".to_string());
    p.add_node(Stage::Discriminator);
    p.add_node(Stage::Discriminator);
    let r = p.run_chunk(&[1u8, 2, 3, 4, 5, 6], decode, &kernels());
    assert_eq!(
        r.unwrap_err(),
        ChunkError::Rejected {
            stage: 1,
            error: StageError::WrongVariant { expected: SampleKind::Complex, found: SampleKind::Real }
        }
    );
}

#[test]
fn chain_ending_complex_is_refused() {
    let mut p: Pipeline<f32> = Pipeline::new("in".to_string(), "out".to_string());
    p.add_node(Stage::Shifter(0.2));
    assert_eq!(p.run_chunk(&[1u8, 2], decode, &kernels()).unwrap_err(), ChunkError::NotReal);
}

#[test]
fn run_states_follow_events() {
    let mut run = Run::new();
    assert_eq!(run.step(Event::Written), Action::Nothing);
    assert_eq!(run.step(Event::Begin), Action::WriteHeader);
    assert_eq!(run.state, RunState::Running);
    assert_eq!(run.step(Event::Written), Action::ReadChunk);
    assert_eq!(run.step(Event::Interrupted), Action::ReadChunk);
    assert_eq!(run.step(Event::Processed { bytes: 10, accepted: true }), Action::WriteSamples);
    assert_eq!(run.step(Event::Written), Action::ReadChunk);
    assert_eq!(run.step(Event::Processed { bytes: 6, accepted: true }), Action::WriteSamples);
    assert_eq!(run.bytes_read, 16);
    assert_eq!(run.step(Event::EndOfStream), Action::Report);
    assert_eq!(run.state, RunState::Drained);
    assert_eq!(run.step(Event::Written), Action::Nothing);
}

#[test]
fn refused_chunk_aborts_run() {
    let mut run = Run::new();
    run.step(Event::Begin);
    run.step(Event::Written);
    assert_eq!(run.step(Event::Processed { bytes: 10, accepted: false }), Action::Abort);
    assert_eq!(run.state, RunState::Failed);
    assert_eq!(run.bytes_read, 0);
    assert_eq!(run.step(Event::Processed { bytes: 10, accepted: true }), Action::Nothing);
    assert_eq!(run.state, RunState::Failed);
}

#[test]
fn io_failure_aborts_run() {
    let mut run = Run::new();
    run.step(Event::Begin);
    assert_eq!(run.step(Event::IoFailed), Action::Abort);
    assert_eq!(run.state, RunState::Failed);
}

#[test]
fn byte_count_saturates() {
    let mut run = Run::new();
    run.step(Event::Begin);
    run.step(Event::Processed { bytes: u64::MAX - 1, accepted: true });
    run.step(Event::Processed { bytes: 5, accepted: true });
    assert_eq!(run.bytes_read, u64::MAX);
}
