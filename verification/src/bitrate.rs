//! The bit rates that an adapter can be set to.

use vstd::prelude::*;

use crate::ascii::DIGIT_0;

verus! {

/// A CAN bit rate that the protocol can name.
#[derive(Debug, Clone, Copy, PartialEq, Eq, Structural)]
pub enum Bitrate {
    Br10Kbps,
    Br20Kbps,
    Br50Kbps,
    Br100Kbps,
    Br125Kbps,
    Br250Kbps,
    Br500Kbps,
    Br800Kbps,
    Br1000Kbps,
}

impl Bitrate {
    /// The rate in kbit/s.
    pub open spec fn kbps(self) -> nat {
        match self {
            Bitrate::Br10Kbps => 10,
            Bitrate::Br20Kbps => 20,
            Bitrate::Br50Kbps => 50,
            Bitrate::Br100Kbps => 100,
            Bitrate::Br125Kbps => 125,
            Bitrate::Br250Kbps => 250,
            Bitrate::Br500Kbps => 500,
            Bitrate::Br800Kbps => 800,
            Bitrate::Br1000Kbps => 1000,
        }
    }

    /// The number by which the protocol names this rate: 0 for 10 kbit/s up
    /// to 8 for 1000 kbit/s.
    pub open spec fn number(self) -> nat {
        match self {
            Bitrate::Br10Kbps => 0,
            Bitrate::Br20Kbps => 1,
            Bitrate::Br50Kbps => 2,
            Bitrate::Br100Kbps => 3,
            Bitrate::Br125Kbps => 4,
            Bitrate::Br250Kbps => 5,
            Bitrate::Br500Kbps => 6,
            Bitrate::Br800Kbps => 7,
            Bitrate::Br1000Kbps => 8,
        }
    }

    /// The ASCII digit that writes the number of this rate.
    pub open spec fn digit(self) -> u8 {
        (DIGIT_0 + self.number()) as u8
    }

    /// Looks up the protocol digit of this rate.
    pub fn code(self) -> (c: u8)
        ensures
            c == self.digit(),
    {
        match self {
            Bitrate::Br10Kbps => DIGIT_0,
            Bitrate::Br20Kbps => DIGIT_0 + 1,
            Bitrate::Br50Kbps => DIGIT_0 + 2,
            Bitrate::Br100Kbps => DIGIT_0 + 3,
            Bitrate::Br125Kbps => DIGIT_0 + 4,
            Bitrate::Br250Kbps => DIGIT_0 + 5,
            Bitrate::Br500Kbps => DIGIT_0 + 6,
            Bitrate::Br800Kbps => DIGIT_0 + 7,
            Bitrate::Br1000Kbps => DIGIT_0 + 8,
        }
    }
}

/// The digits run from `0` to `8` in the order of the rates, and no two
/// rates share one.
pub proof fn lemma_digit_follows_rate(a: Bitrate, b: Bitrate)
    ensures
        DIGIT_0 <= a.digit() <= DIGIT_0 + 8,
        a.kbps() < b.kbps() <==> a.digit() < b.digit(),
        a.digit() == b.digit() <==> a == b,
{
}

} // verus!
