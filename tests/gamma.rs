use gamma_randr::{
    base_ramp_value, fill_base_ramp, negotiate_version, CrtcGamma, DummyMethod, GammaRamp,
    RandrError, RandrState, Step,
};

/// A transport stand-in that records every set-gamma request and fails the
/// one at a chosen position.
struct FakePort {
    calls: Vec<(u32, Vec<u16>, Vec<u16>, Vec<u16>)>,
    fail_at: Option<usize>,
}

impl FakePort {
    fn new(fail_at: Option<usize>) -> FakePort {
        FakePort { calls: Vec::new(), fail_at }
    }

    fn set_gamma(&mut self, id: u32, ramp: &GammaRamp) -> Result<(), RandrError> {
        let index = self.calls.len();
        self.calls.push((id, ramp.red.clone(), ramp.green.clone(), ramp.blue.clone()));
        if self.fail_at == Some(index) {
            Err(RandrError::Generic(8))
        } else {
            Ok(())
        }
    }
}

fn reply(crtc: u32, size: u16, seed: u16) -> CrtcGamma {
    let n = size as usize;
    CrtcGamma {
        crtc,
        size,
        red: (0..n).map(|i| seed + i as u16).collect(),
        green: (0..n).map(|i| seed + 2 * i as u16).collect(),
        blue: (0..n).map(|i| seed + 3 * i as u16).collect(),
    }
}

fn started(sizes: &[u16]) -> RandrState {
    let mut state = RandrState::new(0, 77);
    let replies = sizes
        .iter()
        .enumerate()
        .map(|(k, &size)| reply(100 + k as u32, size, 10 * k as u16 + 1))
        .collect();
    assert_eq!(state.start(replies), Ok(()));
    state
}

fn apply_temperature(
    state: &mut RandrState,
    transform: &dyn Fn(&mut [u16], &mut [u16], &mut [u16]),
    port: &mut FakePort,
) -> Result<(), RandrError> {
    let mut step = state.first_step();
    loop {
        match step {
            Step::Send(k) => {
                state.load_base_ramp(k);
                {
                    let (r, g, b) = state.scratch_channels_mut(k);
                    transform(r, g, b);
                }
                let (id, ramp) = state.gamma_request(k);
                let outcome = port.set_gamma(id, ramp);
                step = state.next_step(k, outcome);
            }
            Step::Done => return Ok(()),
            Step::Failed(e) => return Err(e),
        }
    }
}

fn restore(state: &RandrState, port: &mut FakePort) -> Result<(), RandrError> {
    let mut step = state.first_step();
    loop {
        match step {
            Step::Send(k) => {
                let (id, ramp) = state.restore_request(k);
                let outcome = port.set_gamma(id, ramp);
                step = state.next_step(k, outcome);
            }
            Step::Done => return Ok(()),
            Step::Failed(e) => return Err(e),
        }
    }
}

fn identity(_: &mut [u16], _: &mut [u16], _: &mut [u16]) {}

fn halve(r: &mut [u16], g: &mut [u16], b: &mut [u16]) {
    for v in r.iter_mut().chain(g.iter_mut()).chain(b.iter_mut()) {
        *v /= 2;
    }
}

#[test]
fn version_below_minimum_minor_is_refused() {
    assert_eq!(negotiate_version(1, 2), Err(RandrError::UnsupportedVersion(1, 2)));
}

#[test]
fn version_at_or_above_minimum_is_accepted() {
    assert_eq!(negotiate_version(1, 3), Ok(()));
    assert_eq!(negotiate_version(1, 4), Ok(()));
}

#[test]
fn version_with_other_major_is_refused() {
    assert_eq!(negotiate_version(2, 0), Err(RandrError::UnsupportedVersion(2, 0)));
    assert_eq!(negotiate_version(2, 9), Err(RandrError::UnsupportedVersion(2, 9)));
    assert_eq!(negotiate_version(0, 5), Err(RandrError::UnsupportedVersion(0, 5)));
}

#[test]
fn base_ramp_of_four_entries() {
    let values: Vec<u16> = (0..4).map(|i| base_ramp_value(i, 4)).collect();
    assert_eq!(values, vec![0, 16384, 32768, 49152]);
}

#[test]
fn base_ramp_rounds_to_nearest() {
    assert_eq!(base_ramp_value(1, 3), 21845);
    assert_eq!(base_ramp_value(2, 3), 43691);
    assert_eq!(base_ramp_value(0, 1), 0);
    assert_eq!(base_ramp_value(65534, 65535), 65535);
    assert_eq!(base_ramp_value(255, 256), 65280);
}

#[test]
fn fill_base_ramp_writes_all_channels() {
    let mut ramp = GammaRamp { red: vec![9; 4], green: vec![8; 4], blue: vec![7; 4] };
    fill_base_ramp(&mut ramp, 4);
    assert_eq!(ramp.red, vec![0, 16384, 32768, 49152]);
    assert_eq!(ramp.green, ramp.red);
    assert_eq!(ramp.blue, ramp.red);
}

#[test]
fn start_snapshots_every_controller() {
    let state = started(&[4, 8, 3]);
    assert_eq!(state.crtc_count(), 3);
    for k in 0..3 {
        let c = state.crtc(k);
        let expected = reply(100 + k as u32, c.ramp_size, 10 * k as u16 + 1);
        assert_eq!(c.id, 100 + k as u32);
        assert_eq!(c.saved.red, expected.red);
        assert_eq!(c.saved.green, expected.green);
        assert_eq!(c.saved.blue, expected.blue);
        assert_eq!(c.scratch, c.saved);
        assert_eq!(c.saved.red.len(), c.ramp_size as usize);
    }
    assert_eq!(state.crtc(1).ramp_size, 8);
    assert_eq!(state.screen_num(), 0);
    assert_eq!(state.window_dummy(), 77);
}

#[test]
fn start_refuses_empty_table() {
    let mut state = started(&[4]);
    let replies = vec![reply(5, 2, 0), reply(6, 0, 0), reply(7, 0, 0)];
    assert_eq!(state.start(replies), Err(RandrError::MalformedGamma(6)));
    assert_eq!(state.crtc_count(), 1);
    assert_eq!(state.crtc(0).id, 100);
}

#[test]
fn start_refuses_channel_of_wrong_length() {
    let mut state = RandrState::new(1, 2);
    let mut bad = reply(9, 4, 0);
    bad.blue.pop();
    assert_eq!(state.start(vec![reply(8, 4, 0), bad]), Err(RandrError::MalformedGamma(9)));
    assert_eq!(state.crtc_count(), 0);
}

#[test]
fn start_again_replaces_the_set() {
    let mut state = started(&[4, 4]);
    assert_eq!(state.start(vec![reply(42, 2, 3)]), Ok(()));
    assert_eq!(state.crtc_count(), 1);
    assert_eq!(state.crtc(0).id, 42);
}

#[test]
fn set_temperature_before_start_sends_nothing() {
    let mut state = RandrState::new(0, 1);
    let mut port = FakePort::new(None);
    assert_eq!(apply_temperature(&mut state, &identity, &mut port), Ok(()));
    assert!(port.calls.is_empty());
}

#[test]
fn identity_transform_pushes_base_ramp() {
    let mut state = started(&[4, 3]);
    let mut port = FakePort::new(None);
    assert_eq!(apply_temperature(&mut state, &identity, &mut port), Ok(()));
    assert_eq!(port.calls.len(), 2);
    assert_eq!(port.calls[0].0, 100);
    assert_eq!(port.calls[0].1, vec![0, 16384, 32768, 49152]);
    assert_eq!(port.calls[0].2, vec![0, 16384, 32768, 49152]);
    assert_eq!(port.calls[0].3, vec![0, 16384, 32768, 49152]);
    assert_ne!(port.calls[0].1, state.crtc(0).saved.red);
    assert_eq!(port.calls[1].0, 101);
    assert_eq!(port.calls[1].1, vec![0, 21845, 43691]);
}

#[test]
fn transform_keeps_table_sizes() {
    let mut state = started(&[4, 8, 3]);
    let mut port = FakePort::new(None);
    for _ in 0..3 {
        assert_eq!(apply_temperature(&mut state, &halve, &mut port), Ok(()));
    }
    for k in 0..3 {
        let c = state.crtc(k);
        let n = c.ramp_size as usize;
        assert_eq!(c.scratch.red.len(), n);
        assert_eq!(c.scratch.green.len(), n);
        assert_eq!(c.scratch.blue.len(), n);
        assert_eq!(c.saved.red.len(), n);
    }
    assert_eq!(port.calls[0].1, vec![0, 8192, 16384, 24576]);
}

#[test]
fn restore_twice_sends_identical_requests() {
    let mut state = started(&[4, 8]);
    let mut port = FakePort::new(None);
    assert_eq!(restore(&state, &mut port), Ok(()));
    assert_eq!(apply_temperature(&mut state, &halve, &mut port), Ok(()));
    assert_eq!(restore(&state, &mut port), Ok(()));
    assert_eq!(port.calls.len(), 6);
    assert_eq!(port.calls[0], port.calls[4]);
    assert_eq!(port.calls[1], port.calls[5]);
    assert_eq!(port.calls[0].1, state.crtc(0).saved.red);
    assert_eq!(port.calls[1].0, 101);
}

#[test]
fn second_failure_stops_the_batch() {
    let mut state = started(&[4, 4, 4]);
    let mut port = FakePort::new(Some(1));
    assert_eq!(
        apply_temperature(&mut state, &identity, &mut port),
        Err(RandrError::Generic(8))
    );
    assert_eq!(port.calls.len(), 2);
    assert_eq!(port.calls[0].0, 100);
    assert_eq!(port.calls[0].1, vec![0, 16384, 32768, 49152]);
    assert_eq!(port.calls[1].0, 101);
}

#[test]
fn restore_stops_at_first_failure() {
    let state = started(&[2, 2, 2]);
    let mut port = FakePort::new(Some(0));
    assert_eq!(restore(&state, &mut port), Err(RandrError::Generic(8)));
    assert_eq!(port.calls.len(), 1);
}

#[test]
fn next_step_walks_then_stops() {
    let state = started(&[2, 2, 2]);
    assert_eq!(state.first_step(), Step::Send(0));
    assert_eq!(state.next_step(0, Ok(())), Step::Send(1));
    assert_eq!(state.next_step(2, Ok(())), Step::Done);
    assert_eq!(
        state.next_step(1, Err(RandrError::UnsupportedVersion(1, 0))),
        Step::Failed(RandrError::UnsupportedVersion(1, 0))
    );
}

#[test]
fn dummy_method_never_fails() {
    let mut dummy = DummyMethod::init();
    let port = FakePort::new(None);
    assert_eq!(dummy.start(), Ok(()));
    for temp in [1000, 6500, 25000, -1] {
        assert_eq!(dummy.set_temperature(temp), Ok(()));
    }
    assert_eq!(dummy.restore(), Ok(()));
    assert_eq!(port.calls.len(), 0);
}
