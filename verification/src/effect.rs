//! The pulse: a fade-in followed by a fade-out, frame by frame.

use vstd::prelude::*;
use crate::color::RgbColor;
use crate::error::BlinkStickError;
use crate::session::BlinkStick;

verus! {

/// The two halves of a pulse.
#[derive(Clone, Copy, Debug, PartialEq, Eq, Structural)]
pub enum PulsePhase {
    /// The color grows from dark: step `i` of `n` shows `i / n` of it.
    FadeIn,
    /// The color falls back from full: step `i` of `n` shows `1 - i / n` of
    /// it.
    FadeOut,
}

/// One frame of a pulse: the first LED is set to `color` scaled as the
/// phase says for `step` of `steps`, and then nothing happens for
/// `delay_ms` milliseconds.
#[derive(Clone, Copy, Debug, PartialEq, Eq, Structural)]
pub struct PulseFrame {
    pub phase: PulsePhase,
    pub step: u32,
    pub steps: u32,
    pub color: RgbColor,
    pub delay_ms: u64,
}

/// How far a pulse has come.
#[derive(Clone, Copy, Debug, PartialEq, Eq, Structural)]
pub enum PulseProgress {
    /// The frame to show next.
    Frame(PulseFrame),
    /// Every frame has been shown.
    Finished,
    /// The pulse has failed and is over.
    Failed(BlinkStickError),
}

/// The pause after each frame of a pulse that takes `steps` steps for each
/// half, where `duration_ms` is the time that one half is meant to take.
pub open spec fn pulse_delay(duration_ms: u32, steps: u32) -> u64
    recommends
        steps > 0,
{
    (duration_ms as int / steps as int) as u64
}

/// Frame number `number` of a pulse, counted from zero: the fade-in comes
/// first and has `steps` frames, and so has the fade-out.
pub open spec fn pulse_frame(color: RgbColor, duration_ms: u32, steps: u32, number: nat) -> PulseFrame
    recommends
        steps > 0,
        number < 2 * steps,
{
    PulseFrame {
        phase: if number < steps {
            PulsePhase::FadeIn
        } else {
            PulsePhase::FadeOut
        },
        step: if number < steps {
            number as u32
        } else {
            (number - steps) as u32
        },
        steps,
        color,
        delay_ms: pulse_delay(duration_ms, steps),
    }
}

/// How a pulse goes on. `done` is the frame that was shown last, with the
/// failure if it could not be shown, or nothing before the first frame.
/// A pulse of no steps cannot run. The first frame that fails ends the
/// pulse with its failure.
pub open spec fn pulse_progress(
    color: RgbColor,
    duration_ms: u32,
    steps: u32,
    done: Option<(PulseFrame, Result<(), BlinkStickError>)>,
) -> PulseProgress {
    if steps == 0 {
        PulseProgress::Failed(BlinkStickError::InvalidEffectParameters)
    } else {
        match done {
            None => PulseProgress::Frame(pulse_frame(color, duration_ms, steps, 0)),
            Some((_, Err(error))) => PulseProgress::Failed(error),
            Some((frame, Ok(_))) => if frame.step + 1 < steps {
                PulseProgress::Frame(
                    PulseFrame {
                        phase: frame.phase,
                        step: (frame.step + 1) as u32,
                        steps,
                        color,
                        delay_ms: pulse_delay(duration_ms, steps),
                    },
                )
            } else {
                match frame.phase {
                    PulsePhase::FadeIn => PulseProgress::Frame(
                        pulse_frame(color, duration_ms, steps, steps as nat),
                    ),
                    PulsePhase::FadeOut => PulseProgress::Finished,
                }
            },
        }
    }
}

impl BlinkStick {
    /// The next frame of a pulse of `color`, which fades in over `steps`
    /// frames and out over as many, with `duration_ms / steps` milliseconds
    /// after each.
    pub fn pulse(
        &self,
        color: &RgbColor,
        duration_ms: u32,
        steps: u32,
        done: Option<(PulseFrame, Result<(), BlinkStickError>)>,
    ) -> (progress: PulseProgress)
        ensures
            progress == pulse_progress(*color, duration_ms, steps, done),
            steps == 0 ==> progress == PulseProgress::Failed(
                BlinkStickError::InvalidEffectParameters,
            ),
    {
        if steps == 0 {
            return PulseProgress::Failed(BlinkStickError::InvalidEffectParameters);
        }
        let delay_ms = (duration_ms / steps) as u64;
        let (phase, step) = match done {
            None => (PulsePhase::FadeIn, 0),
            Some((_, Err(error))) => {
                return PulseProgress::Failed(error);
            },
            Some((frame, Ok(_))) => {
                if frame.step < steps - 1 {
                    (frame.phase, frame.step + 1)
                } else {
                    match frame.phase {
                        PulsePhase::FadeIn => (PulsePhase::FadeOut, 0),
                        PulsePhase::FadeOut => {
                            return PulseProgress::Finished;
                        },
                    }
                }
            },
        };
        PulseProgress::Frame(PulseFrame { phase, step, steps, color: *color, delay_ms })
    }
}

/// A pulse whose frames are all shown runs through the `steps` frames of the
/// fade-in, then through the `steps` frames of the fade-out, and is then
/// finished.
pub proof fn lemma_pulse_schedule(color: RgbColor, duration_ms: u32, steps: u32, number: nat)
    requires
        steps > 0,
        number < 2 * steps,
    ensures
        pulse_progress(color, duration_ms, steps, None) == PulseProgress::Frame(
            pulse_frame(color, duration_ms, steps, 0),
        ),
        number + 1 < 2 * steps ==> pulse_progress(
            color,
            duration_ms,
            steps,
            Some((pulse_frame(color, duration_ms, steps, number), Ok(()))),
        ) == PulseProgress::Frame(pulse_frame(color, duration_ms, steps, number + 1)),
        number + 1 == 2 * steps ==> pulse_progress(
            color,
            duration_ms,
            steps,
            Some((pulse_frame(color, duration_ms, steps, number), Ok(()))),
        ) == PulseProgress::Finished,
{
}

} // verus!
