//! Detection of the attached motor board.
//!
//! The actuation handler itself — the bus probing, the drive math, the PWM
//! writes — is an external collaborator and stays with the driver. What
//! stands here is its one decision: which board a pair of bus probe outcomes
//! identifies.

use vstd::prelude::*;

verus! {

/// Which motor board, if any, answered on the control bus.
#[derive(Clone, Copy, PartialEq, Eq, Structural, Debug)]
pub enum MotorType {
    Adafruit,
    Sparkfun,
    NotDetected,
}

/// The board identified by probing the two known bus addresses, the Sparkfun
/// one first: a board that answers later wins, so an answering Adafruit
/// board shadows a Sparkfun answer.
pub fn detect_motor_type(sparkfun_answered: bool, adafruit_answered: bool) -> (t: MotorType)
    ensures
        adafruit_answered ==> t == MotorType::Adafruit,
        !adafruit_answered && sparkfun_answered ==> t == MotorType::Sparkfun,
        !adafruit_answered && !sparkfun_answered ==> t == MotorType::NotDetected,
{
    if adafruit_answered {
        MotorType::Adafruit
    } else if sparkfun_answered {
        MotorType::Sparkfun
    } else {
        MotorType::NotDetected
    }
}

} // verus!
