use blinkstick::{
    BlinkStick, BlinkStickError, OpenAction, OpenProgress, PulseFrame, PulsePhase, PulseProgress,
    RgbColor,
};

fn open_session() -> BlinkStick {
    match BlinkStick::open(Some((OpenAction::ClaimInterface { interface: 0 }, Ok(false)))) {
        OpenProgress::Opened(session) => session,
        other => panic!("no session: {:?}", other),
    }
}

fn frame(phase: PulsePhase, step: u32, steps: u32, color: RgbColor, delay_ms: u64) -> PulseFrame {
    PulseFrame { phase, step, steps, color, delay_ms }
}

#[test]
fn pulse_of_no_steps_is_refused() {
    let stick = open_session();
    let color = RgbColor::new(255, 0, 0);
    assert_eq!(
        stick.pulse(&color, 1000, 0, None),
        PulseProgress::Failed(BlinkStickError::InvalidEffectParameters)
    );
    let shown = frame(PulsePhase::FadeIn, 0, 0, color, 0);
    assert_eq!(
        stick.pulse(&color, 1000, 0, Some((shown, Ok(())))),
        PulseProgress::Failed(BlinkStickError::InvalidEffectParameters)
    );
    assert_eq!(
        stick.pulse(&color, 0, 0, None),
        PulseProgress::Failed(BlinkStickError::InvalidEffectParameters)
    );
}

#[test]
fn pulse_fades_in_and_then_out() {
    let stick = open_session();
    let color = RgbColor::new(200, 100, 50);
    let mut shown = Vec::new();
    let mut done = None;
    loop {
        match stick.pulse(&color, 1000, 3, done) {
            PulseProgress::Frame(next) => {
                shown.push(next);
                done = Some((next, Ok(())));
            }
            PulseProgress::Finished => break,
            PulseProgress::Failed(error) => panic!("failed: {:?}", error),
        }
    }
    assert_eq!(
        shown,
        vec![
            frame(PulsePhase::FadeIn, 0, 3, color, 333),
            frame(PulsePhase::FadeIn, 1, 3, color, 333),
            frame(PulsePhase::FadeIn, 2, 3, color, 333),
            frame(PulsePhase::FadeOut, 0, 3, color, 333),
            frame(PulsePhase::FadeOut, 1, 3, color, 333),
            frame(PulsePhase::FadeOut, 2, 3, color, 333),
        ]
    );
}

#[test]
fn pulse_delay_is_the_whole_quotient() {
    let stick = open_session();
    let color = RgbColor::new(1, 2, 3);
    for (duration, steps, delay) in
        [(1000u32, 20u32, 50u64), (1000, 3, 333), (5, 10, 0), (0, 4, 0), (u32::MAX, 1, 4294967295)]
    {
        match stick.pulse(&color, duration, steps, None) {
            PulseProgress::Frame(first) => {
                assert_eq!(first, frame(PulsePhase::FadeIn, 0, steps, color, delay))
            }
            other => panic!("no frame: {:?}", other),
        }
    }
}

#[test]
fn pulse_of_one_step_has_two_frames() {
    let stick = open_session();
    let color = RgbColor::new(9, 9, 9);
    let first = frame(PulsePhase::FadeIn, 0, 1, color, 70);
    let second = frame(PulsePhase::FadeOut, 0, 1, color, 70);
    assert_eq!(stick.pulse(&color, 70, 1, None), PulseProgress::Frame(first));
    assert_eq!(stick.pulse(&color, 70, 1, Some((first, Ok(())))), PulseProgress::Frame(second));
    assert_eq!(stick.pulse(&color, 70, 1, Some((second, Ok(())))), PulseProgress::Finished);
}

#[test]
fn pulse_ends_with_the_first_failure() {
    let stick = open_session();
    let color = RgbColor::new(9, 9, 9);
    let shown = frame(PulsePhase::FadeIn, 1, 5, color, 10);
    assert_eq!(
        stick.pulse(&color, 50, 5, Some((shown, Err(BlinkStickError::ControlTransferError)))),
        PulseProgress::Failed(BlinkStickError::ControlTransferError)
    );
    let late = frame(PulsePhase::FadeOut, 4, 5, color, 10);
    assert_eq!(
        stick.pulse(&color, 50, 5, Some((late, Err(BlinkStickError::ControlTransferError)))),
        PulseProgress::Failed(BlinkStickError::ControlTransferError)
    );
}

#[test]
fn pulse_counts_up_to_the_largest_step() {
    let stick = open_session();
    let color = RgbColor::new(9, 9, 9);
    let steps = u32::MAX;
    let last_in = frame(PulsePhase::FadeIn, steps - 1, steps, color, 0);
    assert_eq!(
        stick.pulse(&color, 10, steps, Some((last_in, Ok(())))),
        PulseProgress::Frame(frame(PulsePhase::FadeOut, 0, steps, color, 0))
    );
    let before = frame(PulsePhase::FadeOut, steps - 2, steps, color, 0);
    assert_eq!(
        stick.pulse(&color, 10, steps, Some((before, Ok(())))),
        PulseProgress::Frame(frame(PulsePhase::FadeOut, steps - 1, steps, color, 0))
    );
}
