//! Stages of the ADSR envelope and how gate edges move between them.

use vstd::prelude::*;

verus! {

#[derive(Clone, Copy, Debug, PartialEq, Eq, Structural)]
pub enum EnvStage {
    Idle,
    Attack,
    Decay,
    Sustain,
    Release,
}

impl Default for EnvStage {
    fn default() -> (r: EnvStage)
        ensures
            r == EnvStage::Idle,
    {
        EnvStage::Idle
    }
}

impl EnvStage {
    /// Gate rising edge: restart the attack from the current level.
    pub fn gate_on(self) -> (r: EnvStage)
        ensures
            r == EnvStage::Attack,
    {
        EnvStage::Attack
    }

    /// Gate falling edge: release, unless already idle.
    pub fn gate_off(self) -> (r: EnvStage)
        ensures
            r == (if self == EnvStage::Idle {
                EnvStage::Idle
            } else {
                EnvStage::Release
            }),
    {
        match self {
            EnvStage::Idle => EnvStage::Idle,
            _ => EnvStage::Release,
        }
    }

    /// Stage after one sample: attack hands over to decay once the level
    /// reached full scale, decay to sustain once it settled, release to idle
    /// once it fell below the floor; other stages stay.
    pub fn after_tick(self, reached_top: bool, settled: bool, below_floor: bool) -> (r: EnvStage)
        ensures
            r == (match self {
                EnvStage::Attack => if reached_top {
                    EnvStage::Decay
                } else {
                    EnvStage::Attack
                },
                EnvStage::Decay => if settled {
                    EnvStage::Sustain
                } else {
                    EnvStage::Decay
                },
                EnvStage::Release => if below_floor {
                    EnvStage::Idle
                } else {
                    EnvStage::Release
                },
                other => other,
            }),
    {
        match self {
            EnvStage::Attack => if reached_top {
                EnvStage::Decay
            } else {
                EnvStage::Attack
            },
            EnvStage::Decay => if settled {
                EnvStage::Sustain
            } else {
                EnvStage::Decay
            },
            EnvStage::Release => if below_floor {
                EnvStage::Idle
            } else {
                EnvStage::Release
            },
            other => other,
        }
    }
}

} // verus!
