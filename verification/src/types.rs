//! The shared wire types: quantized geometry, raw float bits, tagged
//! enumerations, conditional records, and the length-prefixed UTF-16
//! string.
//!
//! Floating-point fields travel as their raw IEEE-754 bit patterns
//! ([`FloatBits`], [`DoubleBits`]): the codec moves the bits byte-exactly
//! and leaves their numeric reading to the consumer.

use vstd::prelude::*;

use crate::error::{DecodeError, EncodeError};
use crate::wire::{
    counted_ok_u8, dec_counted_u8, dec_utf16_units, dec_varint, decode_counted_u8,
    decode_string_len, encode_counted_u8, encode_varint, lemma_be2_of,
    lemma_dec_wire_counted_u8, lemma_dec_wire_varint, lemma_subrange_split,
    lemma_wire_utf16_index, lemma_wire_utf16_push, utf16_ok, valid_utf16, wire_counted_u8,
    wire_utf16, wire_varint, Codec,
};

verus! {

/// What a map ping points out.
#[derive(Debug, Clone, Copy, PartialEq, Eq, Hash, Default)]
pub enum PingType {
    MoveHere,
    GoingHere,
    Danger,
    #[default]
    Unknown,
}

impl PingType {
    /// The wire value of this tag.
    pub open spec fn spec_repr(self) -> i32 {
        match self {
            PingType::MoveHere => 0,
            PingType::GoingHere => 1,
            PingType::Danger => 2,
            PingType::Unknown => 3,
        }
    }

    /// The tag a wire value denotes, if any.
    pub open spec fn spec_from_repr(v: i32) -> Option<PingType> {
        if v == 0 {
            Some(PingType::MoveHere)
        } else if v == 1 {
            Some(PingType::GoingHere)
        } else if v == 2 {
            Some(PingType::Danger)
        } else if v == 3 {
            Some(PingType::Unknown)
        } else {
            None
        }
    }

    /// The wire value of this tag.
    pub fn repr(self) -> (r: i32)
        ensures
            r == self.spec_repr(),
    {
        match self {
            PingType::MoveHere => 0,
            PingType::GoingHere => 1,
            PingType::Danger => 2,
            PingType::Unknown => 3,
        }
    }

    /// The tag a wire value denotes, if any.
    pub fn from_repr(v: i32) -> (r: Option<PingType>)
        ensures
            r == PingType::spec_from_repr(v),
    {
        if v == 0 {
            Some(PingType::MoveHere)
        } else if v == 1 {
            Some(PingType::GoingHere)
        } else if v == 2 {
            Some(PingType::Danger)
        } else if v == 3 {
            Some(PingType::Unknown)
        } else {
            None
        }
    }

    /// Reading back this tag's wire value gives this tag.
    proof fn lemma_repr_round(self)
        ensures
            PingType::spec_from_repr(self.spec_repr()) == Some(self),
    {
        match self {
            PingType::MoveHere => {
                assert(PingType::spec_from_repr(0) == Some(PingType::MoveHere));
            },
            PingType::GoingHere => {
                assert(PingType::spec_from_repr(1) == Some(PingType::GoingHere));
            },
            PingType::Danger => {
                assert(PingType::spec_from_repr(2) == Some(PingType::Danger));
            },
            PingType::Unknown => {
                assert(PingType::spec_from_repr(3) == Some(PingType::Unknown));
            },
        }
    }
}

impl DeepView for PingType {
    type V = PingType;

    open spec fn deep_view(&self) -> PingType {
        *self
    }
}

impl Codec for PingType {
    open spec fn enc_ok(v: PingType) -> bool {
        true
    }

    open spec fn wire(v: PingType) -> Seq<u8> {
        i32::wire(v.spec_repr())
    }

    open spec fn dec(b: Seq<u8>, pos: int) -> Result<(PingType, int), DecodeError> {
        match i32::dec(b, pos) {
            Ok((raw, end)) => match PingType::spec_from_repr(raw) {
                Some(t) => Ok((t, end)),
                None => Err(DecodeError::InvalidEnumValue),
            },
            Err(e) => Err(e),
        }
    }

    proof fn lemma_dec_wire(v: PingType, b: Seq<u8>, pos: int) {
        i32::lemma_dec_wire(v.spec_repr(), b, pos);
        v.lemma_repr_round();
    }

    fn decode(b: &[u8], pos: usize) -> (r: Result<(PingType, usize), DecodeError>) {
        match i32::decode(b, pos) {
            Ok((raw, end)) => match PingType::from_repr(raw) {
                Some(t) => Ok((t, end)),
                None => Err(DecodeError::InvalidEnumValue),
            },
            Err(e) => Err(e),
        }
    }

    fn encode(&self, out: &mut Vec<u8>) -> (r: Result<(), EncodeError>) {
        self.repr().encode(out)
    }
}

/// The functional category of an item; the gaps in the numbering are
/// part of the external enumeration and are meaningful.
#[derive(Debug, Clone, Copy, PartialEq, Eq, Hash, Default)]
pub enum ItemCategory {
    #[default]
    NotAFunctionalItem,
    Wheel,
    Hover,
    Wing,
    Rudder,
    Thruster,
    InsectLeg,
    MechLeg,
    Ski,
    TankTrack,
    Rotor,
    SprinterLeg,
    Propeller,
    Laser,
    Plasma,
    Mortar,
    Rail,
    Nano,
    Tesla,
    Aeroflak,
    Ion,
    Seeker,
    Chaingun,
    ShieldModule,
    GhostModule,
    BlinkModule,
    EmpModule,
    WindowmakerModule,
    EnergyModule,
}

impl ItemCategory {
    /// The wire value of this tag.
    pub open spec fn spec_repr(self) -> i16 {
        match self {
            ItemCategory::NotAFunctionalItem => 0,
            ItemCategory::Wheel => 1,
            ItemCategory::Hover => 2,
            ItemCategory::Wing => 3,
            ItemCategory::Rudder => 4,
            ItemCategory::Thruster => 5,
            ItemCategory::InsectLeg => 6,
            ItemCategory::MechLeg => 7,
            ItemCategory::Ski => 8,
            ItemCategory::TankTrack => 9,
            ItemCategory::Rotor => 10,
            ItemCategory::SprinterLeg => 11,
            ItemCategory::Propeller => 12,
            ItemCategory::Laser => 100,
            ItemCategory::Plasma => 200,
            ItemCategory::Mortar => 250,
            ItemCategory::Rail => 300,
            ItemCategory::Nano => 400,
            ItemCategory::Tesla => 500,
            ItemCategory::Aeroflak => 600,
            ItemCategory::Ion => 650,
            ItemCategory::Seeker => 701,
            ItemCategory::Chaingun => 750,
            ItemCategory::ShieldModule => 800,
            ItemCategory::GhostModule => 801,
            ItemCategory::BlinkModule => 802,
            ItemCategory::EmpModule => 803,
            ItemCategory::WindowmakerModule => 804,
            ItemCategory::EnergyModule => 900,
        }
    }

    /// The tag a wire value denotes, if any.
    pub open spec fn spec_from_repr(v: i16) -> Option<ItemCategory> {
        if v == 0 {
            Some(ItemCategory::NotAFunctionalItem)
        } else if v == 1 {
            Some(ItemCategory::Wheel)
        } else if v == 2 {
            Some(ItemCategory::Hover)
        } else if v == 3 {
            Some(ItemCategory::Wing)
        } else if v == 4 {
            Some(ItemCategory::Rudder)
        } else if v == 5 {
            Some(ItemCategory::Thruster)
        } else if v == 6 {
            Some(ItemCategory::InsectLeg)
        } else if v == 7 {
            Some(ItemCategory::MechLeg)
        } else if v == 8 {
            Some(ItemCategory::Ski)
        } else if v == 9 {
            Some(ItemCategory::TankTrack)
        } else if v == 10 {
            Some(ItemCategory::Rotor)
        } else if v == 11 {
            Some(ItemCategory::SprinterLeg)
        } else if v == 12 {
            Some(ItemCategory::Propeller)
        } else if v == 100 {
            Some(ItemCategory::Laser)
        } else if v == 200 {
            Some(ItemCategory::Plasma)
        } else if v == 250 {
            Some(ItemCategory::Mortar)
        } else if v == 300 {
            Some(ItemCategory::Rail)
        } else if v == 400 {
            Some(ItemCategory::Nano)
        } else if v == 500 {
            Some(ItemCategory::Tesla)
        } else if v == 600 {
            Some(ItemCategory::Aeroflak)
        } else if v == 650 {
            Some(ItemCategory::Ion)
        } else if v == 701 {
            Some(ItemCategory::Seeker)
        } else if v == 750 {
            Some(ItemCategory::Chaingun)
        } else if v == 800 {
            Some(ItemCategory::ShieldModule)
        } else if v == 801 {
            Some(ItemCategory::GhostModule)
        } else if v == 802 {
            Some(ItemCategory::BlinkModule)
        } else if v == 803 {
            Some(ItemCategory::EmpModule)
        } else if v == 804 {
            Some(ItemCategory::WindowmakerModule)
        } else if v == 900 {
            Some(ItemCategory::EnergyModule)
        } else {
            None
        }
    }

    /// The wire value of this tag.
    pub fn repr(self) -> (r: i16)
        ensures
            r == self.spec_repr(),
    {
        match self {
            ItemCategory::NotAFunctionalItem => 0,
            ItemCategory::Wheel => 1,
            ItemCategory::Hover => 2,
            ItemCategory::Wing => 3,
            ItemCategory::Rudder => 4,
            ItemCategory::Thruster => 5,
            ItemCategory::InsectLeg => 6,
            ItemCategory::MechLeg => 7,
            ItemCategory::Ski => 8,
            ItemCategory::TankTrack => 9,
            ItemCategory::Rotor => 10,
            ItemCategory::SprinterLeg => 11,
            ItemCategory::Propeller => 12,
            ItemCategory::Laser => 100,
            ItemCategory::Plasma => 200,
            ItemCategory::Mortar => 250,
            ItemCategory::Rail => 300,
            ItemCategory::Nano => 400,
            ItemCategory::Tesla => 500,
            ItemCategory::Aeroflak => 600,
            ItemCategory::Ion => 650,
            ItemCategory::Seeker => 701,
            ItemCategory::Chaingun => 750,
            ItemCategory::ShieldModule => 800,
            ItemCategory::GhostModule => 801,
            ItemCategory::BlinkModule => 802,
            ItemCategory::EmpModule => 803,
            ItemCategory::WindowmakerModule => 804,
            ItemCategory::EnergyModule => 900,
        }
    }

    /// The tag a wire value denotes, if any.
    pub fn from_repr(v: i16) -> (r: Option<ItemCategory>)
        ensures
            r == ItemCategory::spec_from_repr(v),
    {
        if v == 0 {
            Some(ItemCategory::NotAFunctionalItem)
        } else if v == 1 {
            Some(ItemCategory::Wheel)
        } else if v == 2 {
            Some(ItemCategory::Hover)
        } else if v == 3 {
            Some(ItemCategory::Wing)
        } else if v == 4 {
            Some(ItemCategory::Rudder)
        } else if v == 5 {
            Some(ItemCategory::Thruster)
        } else if v == 6 {
            Some(ItemCategory::InsectLeg)
        } else if v == 7 {
            Some(ItemCategory::MechLeg)
        } else if v == 8 {
            Some(ItemCategory::Ski)
        } else if v == 9 {
            Some(ItemCategory::TankTrack)
        } else if v == 10 {
            Some(ItemCategory::Rotor)
        } else if v == 11 {
            Some(ItemCategory::SprinterLeg)
        } else if v == 12 {
            Some(ItemCategory::Propeller)
        } else if v == 100 {
            Some(ItemCategory::Laser)
        } else if v == 200 {
            Some(ItemCategory::Plasma)
        } else if v == 250 {
            Some(ItemCategory::Mortar)
        } else if v == 300 {
            Some(ItemCategory::Rail)
        } else if v == 400 {
            Some(ItemCategory::Nano)
        } else if v == 500 {
            Some(ItemCategory::Tesla)
        } else if v == 600 {
            Some(ItemCategory::Aeroflak)
        } else if v == 650 {
            Some(ItemCategory::Ion)
        } else if v == 701 {
            Some(ItemCategory::Seeker)
        } else if v == 750 {
            Some(ItemCategory::Chaingun)
        } else if v == 800 {
            Some(ItemCategory::ShieldModule)
        } else if v == 801 {
            Some(ItemCategory::GhostModule)
        } else if v == 802 {
            Some(ItemCategory::BlinkModule)
        } else if v == 803 {
            Some(ItemCategory::EmpModule)
        } else if v == 804 {
            Some(ItemCategory::WindowmakerModule)
        } else if v == 900 {
            Some(ItemCategory::EnergyModule)
        } else {
            None
        }
    }

    /// Reading back this tag's wire value gives this tag.
    proof fn lemma_repr_round(self)
        ensures
            ItemCategory::spec_from_repr(self.spec_repr()) == Some(self),
    {
        match self {
            ItemCategory::NotAFunctionalItem => {
                assert(ItemCategory::spec_from_repr(0) == Some(ItemCategory::NotAFunctionalItem));
            },
            ItemCategory::Wheel => {
                assert(ItemCategory::spec_from_repr(1) == Some(ItemCategory::Wheel));
            },
            ItemCategory::Hover => {
                assert(ItemCategory::spec_from_repr(2) == Some(ItemCategory::Hover));
            },
            ItemCategory::Wing => {
                assert(ItemCategory::spec_from_repr(3) == Some(ItemCategory::Wing));
            },
            ItemCategory::Rudder => {
                assert(ItemCategory::spec_from_repr(4) == Some(ItemCategory::Rudder));
            },
            ItemCategory::Thruster => {
                assert(ItemCategory::spec_from_repr(5) == Some(ItemCategory::Thruster));
            },
            ItemCategory::InsectLeg => {
                assert(ItemCategory::spec_from_repr(6) == Some(ItemCategory::InsectLeg));
            },
            ItemCategory::MechLeg => {
                assert(ItemCategory::spec_from_repr(7) == Some(ItemCategory::MechLeg));
            },
            ItemCategory::Ski => {
                assert(ItemCategory::spec_from_repr(8) == Some(ItemCategory::Ski));
            },
            ItemCategory::TankTrack => {
                assert(ItemCategory::spec_from_repr(9) == Some(ItemCategory::TankTrack));
            },
            ItemCategory::Rotor => {
                assert(ItemCategory::spec_from_repr(10) == Some(ItemCategory::Rotor));
            },
            ItemCategory::SprinterLeg => {
                assert(ItemCategory::spec_from_repr(11) == Some(ItemCategory::SprinterLeg));
            },
            ItemCategory::Propeller => {
                assert(ItemCategory::spec_from_repr(12) == Some(ItemCategory::Propeller));
            },
            ItemCategory::Laser => {
                assert(ItemCategory::spec_from_repr(100) == Some(ItemCategory::Laser));
            },
            ItemCategory::Plasma => {
                assert(ItemCategory::spec_from_repr(200) == Some(ItemCategory::Plasma));
            },
            ItemCategory::Mortar => {
                assert(ItemCategory::spec_from_repr(250) == Some(ItemCategory::Mortar));
            },
            ItemCategory::Rail => {
                assert(ItemCategory::spec_from_repr(300) == Some(ItemCategory::Rail));
            },
            ItemCategory::Nano => {
                assert(ItemCategory::spec_from_repr(400) == Some(ItemCategory::Nano));
            },
            ItemCategory::Tesla => {
                assert(ItemCategory::spec_from_repr(500) == Some(ItemCategory::Tesla));
            },
            ItemCategory::Aeroflak => {
                assert(ItemCategory::spec_from_repr(600) == Some(ItemCategory::Aeroflak));
            },
            ItemCategory::Ion => {
                assert(ItemCategory::spec_from_repr(650) == Some(ItemCategory::Ion));
            },
            ItemCategory::Seeker => {
                assert(ItemCategory::spec_from_repr(701) == Some(ItemCategory::Seeker));
            },
            ItemCategory::Chaingun => {
                assert(ItemCategory::spec_from_repr(750) == Some(ItemCategory::Chaingun));
            },
            ItemCategory::ShieldModule => {
                assert(ItemCategory::spec_from_repr(800) == Some(ItemCategory::ShieldModule));
            },
            ItemCategory::GhostModule => {
                assert(ItemCategory::spec_from_repr(801) == Some(ItemCategory::GhostModule));
            },
            ItemCategory::BlinkModule => {
                assert(ItemCategory::spec_from_repr(802) == Some(ItemCategory::BlinkModule));
            },
            ItemCategory::EmpModule => {
                assert(ItemCategory::spec_from_repr(803) == Some(ItemCategory::EmpModule));
            },
            ItemCategory::WindowmakerModule => {
                assert(ItemCategory::spec_from_repr(804) == Some(ItemCategory::WindowmakerModule));
            },
            ItemCategory::EnergyModule => {
                assert(ItemCategory::spec_from_repr(900) == Some(ItemCategory::EnergyModule));
            },
        }
    }
}

impl DeepView for ItemCategory {
    type V = ItemCategory;

    open spec fn deep_view(&self) -> ItemCategory {
        *self
    }
}

impl Codec for ItemCategory {
    open spec fn enc_ok(v: ItemCategory) -> bool {
        true
    }

    open spec fn wire(v: ItemCategory) -> Seq<u8> {
        i16::wire(v.spec_repr())
    }

    open spec fn dec(b: Seq<u8>, pos: int) -> Result<(ItemCategory, int), DecodeError> {
        match i16::dec(b, pos) {
            Ok((raw, end)) => match ItemCategory::spec_from_repr(raw) {
                Some(t) => Ok((t, end)),
                None => Err(DecodeError::InvalidEnumValue),
            },
            Err(e) => Err(e),
        }
    }

    proof fn lemma_dec_wire(v: ItemCategory, b: Seq<u8>, pos: int) {
        i16::lemma_dec_wire(v.spec_repr(), b, pos);
        v.lemma_repr_round();
    }

    fn decode(b: &[u8], pos: usize) -> (r: Result<(ItemCategory, usize), DecodeError>) {
        match i16::decode(b, pos) {
            Ok((raw, end)) => match ItemCategory::from_repr(raw) {
                Some(t) => Ok((t, end)),
                None => Err(DecodeError::InvalidEnumValue),
            },
            Err(e) => Err(e),
        }
    }

    fn encode(&self, out: &mut Vec<u8>) -> (r: Result<(), EncodeError>) {
        self.repr().encode(out)
    }
}

/// Why a game ended.
#[derive(Debug, Clone, Copy, PartialEq, Eq, Hash, Default)]
pub enum GameEndReason {
    #[default]
    TimeOut,
    NoPlayersRemaining,
    OneTeamRemaining,
    BaseCaptured,
    BaseDestroyed,
    PitMaxKillsAchieved,
    TeamDeathMatchMaxKillsAchieved,
    TeamDeathMatchTimeExpiredSuddenDeath,
    TeamDeathMatchTimeExpiredMostKills,
    Surrendered,
}

impl GameEndReason {
    /// The wire value of this tag.
    pub open spec fn spec_repr(self) -> u8 {
        match self {
            GameEndReason::TimeOut => 0,
            GameEndReason::NoPlayersRemaining => 1,
            GameEndReason::OneTeamRemaining => 2,
            GameEndReason::BaseCaptured => 3,
            GameEndReason::BaseDestroyed => 4,
            GameEndReason::PitMaxKillsAchieved => 5,
            GameEndReason::TeamDeathMatchMaxKillsAchieved => 6,
            GameEndReason::TeamDeathMatchTimeExpiredSuddenDeath => 7,
            GameEndReason::TeamDeathMatchTimeExpiredMostKills => 8,
            GameEndReason::Surrendered => 9,
        }
    }

    /// The tag a wire value denotes, if any.
    pub open spec fn spec_from_repr(v: u8) -> Option<GameEndReason> {
        if v == 0 {
            Some(GameEndReason::TimeOut)
        } else if v == 1 {
            Some(GameEndReason::NoPlayersRemaining)
        } else if v == 2 {
            Some(GameEndReason::OneTeamRemaining)
        } else if v == 3 {
            Some(GameEndReason::BaseCaptured)
        } else if v == 4 {
            Some(GameEndReason::BaseDestroyed)
        } else if v == 5 {
            Some(GameEndReason::PitMaxKillsAchieved)
        } else if v == 6 {
            Some(GameEndReason::TeamDeathMatchMaxKillsAchieved)
        } else if v == 7 {
            Some(GameEndReason::TeamDeathMatchTimeExpiredSuddenDeath)
        } else if v == 8 {
            Some(GameEndReason::TeamDeathMatchTimeExpiredMostKills)
        } else if v == 9 {
            Some(GameEndReason::Surrendered)
        } else {
            None
        }
    }

    /// The wire value of this tag.
    pub fn repr(self) -> (r: u8)
        ensures
            r == self.spec_repr(),
    {
        match self {
            GameEndReason::TimeOut => 0,
            GameEndReason::NoPlayersRemaining => 1,
            GameEndReason::OneTeamRemaining => 2,
            GameEndReason::BaseCaptured => 3,
            GameEndReason::BaseDestroyed => 4,
            GameEndReason::PitMaxKillsAchieved => 5,
            GameEndReason::TeamDeathMatchMaxKillsAchieved => 6,
            GameEndReason::TeamDeathMatchTimeExpiredSuddenDeath => 7,
            GameEndReason::TeamDeathMatchTimeExpiredMostKills => 8,
            GameEndReason::Surrendered => 9,
        }
    }

    /// The tag a wire value denotes, if any.
    pub fn from_repr(v: u8) -> (r: Option<GameEndReason>)
        ensures
            r == GameEndReason::spec_from_repr(v),
    {
        if v == 0 {
            Some(GameEndReason::TimeOut)
        } else if v == 1 {
            Some(GameEndReason::NoPlayersRemaining)
        } else if v == 2 {
            Some(GameEndReason::OneTeamRemaining)
        } else if v == 3 {
            Some(GameEndReason::BaseCaptured)
        } else if v == 4 {
            Some(GameEndReason::BaseDestroyed)
        } else if v == 5 {
            Some(GameEndReason::PitMaxKillsAchieved)
        } else if v == 6 {
            Some(GameEndReason::TeamDeathMatchMaxKillsAchieved)
        } else if v == 7 {
            Some(GameEndReason::TeamDeathMatchTimeExpiredSuddenDeath)
        } else if v == 8 {
            Some(GameEndReason::TeamDeathMatchTimeExpiredMostKills)
        } else if v == 9 {
            Some(GameEndReason::Surrendered)
        } else {
            None
        }
    }

    /// Reading back this tag's wire value gives this tag.
    proof fn lemma_repr_round(self)
        ensures
            GameEndReason::spec_from_repr(self.spec_repr()) == Some(self),
    {
        match self {
            GameEndReason::TimeOut => {
                assert(GameEndReason::spec_from_repr(0) == Some(GameEndReason::TimeOut));
            },
            GameEndReason::NoPlayersRemaining => {
                assert(GameEndReason::spec_from_repr(1) == Some(GameEndReason::NoPlayersRemaining));
            },
            GameEndReason::OneTeamRemaining => {
                assert(GameEndReason::spec_from_repr(2) == Some(GameEndReason::OneTeamRemaining));
            },
            GameEndReason::BaseCaptured => {
                assert(GameEndReason::spec_from_repr(3) == Some(GameEndReason::BaseCaptured));
            },
            GameEndReason::BaseDestroyed => {
                assert(GameEndReason::spec_from_repr(4) == Some(GameEndReason::BaseDestroyed));
            },
            GameEndReason::PitMaxKillsAchieved => {
                assert(GameEndReason::spec_from_repr(5) == Some(GameEndReason::PitMaxKillsAchieved));
            },
            GameEndReason::TeamDeathMatchMaxKillsAchieved => {
                assert(GameEndReason::spec_from_repr(6) == Some(GameEndReason::TeamDeathMatchMaxKillsAchieved));
            },
            GameEndReason::TeamDeathMatchTimeExpiredSuddenDeath => {
                assert(GameEndReason::spec_from_repr(7) == Some(GameEndReason::TeamDeathMatchTimeExpiredSuddenDeath));
            },
            GameEndReason::TeamDeathMatchTimeExpiredMostKills => {
                assert(GameEndReason::spec_from_repr(8) == Some(GameEndReason::TeamDeathMatchTimeExpiredMostKills));
            },
            GameEndReason::Surrendered => {
                assert(GameEndReason::spec_from_repr(9) == Some(GameEndReason::Surrendered));
            },
        }
    }
}

impl DeepView for GameEndReason {
    type V = GameEndReason;

    open spec fn deep_view(&self) -> GameEndReason {
        *self
    }
}

impl Codec for GameEndReason {
    open spec fn enc_ok(v: GameEndReason) -> bool {
        true
    }

    open spec fn wire(v: GameEndReason) -> Seq<u8> {
        u8::wire(v.spec_repr())
    }

    open spec fn dec(b: Seq<u8>, pos: int) -> Result<(GameEndReason, int), DecodeError> {
        match u8::dec(b, pos) {
            Ok((raw, end)) => match GameEndReason::spec_from_repr(raw) {
                Some(t) => Ok((t, end)),
                None => Err(DecodeError::InvalidEnumValue),
            },
            Err(e) => Err(e),
        }
    }

    proof fn lemma_dec_wire(v: GameEndReason, b: Seq<u8>, pos: int) {
        u8::lemma_dec_wire(v.spec_repr(), b, pos);
        v.lemma_repr_round();
    }

    fn decode(b: &[u8], pos: usize) -> (r: Result<(GameEndReason, usize), DecodeError>) {
        match u8::decode(b, pos) {
            Ok((raw, end)) => match GameEndReason::from_repr(raw) {
                Some(t) => Ok((t, end)),
                None => Err(DecodeError::InvalidEnumValue),
            },
            Err(e) => Err(e),
        }
    }

    fn encode(&self, out: &mut Vec<u8>) -> (r: Result<(), EncodeError>) {
        self.repr().encode(out)
    }
}

/// The tier of a weapon item; non-contiguous by design.
#[derive(Debug, Clone, Copy, PartialEq, Eq, Hash, Default)]
pub enum ItemSize {
    #[default]
    NotAWeapon,
    T0,
    T1,
    T2,
    T3,
    T4,
    T5,
}

impl ItemSize {
    /// The wire value of this tag.
    pub open spec fn spec_repr(self) -> i16 {
        match self {
            ItemSize::NotAWeapon => 0,
            ItemSize::T0 => 100,
            ItemSize::T1 => 200,
            ItemSize::T2 => 300,
            ItemSize::T3 => 400,
            ItemSize::T4 => 500,
            ItemSize::T5 => 600,
        }
    }

    /// The tag a wire value denotes, if any.
    pub open spec fn spec_from_repr(v: i16) -> Option<ItemSize> {
        if v == 0 {
            Some(ItemSize::NotAWeapon)
        } else if v == 100 {
            Some(ItemSize::T0)
        } else if v == 200 {
            Some(ItemSize::T1)
        } else if v == 300 {
            Some(ItemSize::T2)
        } else if v == 400 {
            Some(ItemSize::T3)
        } else if v == 500 {
            Some(ItemSize::T4)
        } else if v == 600 {
            Some(ItemSize::T5)
        } else {
            None
        }
    }

    /// The wire value of this tag.
    pub fn repr(self) -> (r: i16)
        ensures
            r == self.spec_repr(),
    {
        match self {
            ItemSize::NotAWeapon => 0,
            ItemSize::T0 => 100,
            ItemSize::T1 => 200,
            ItemSize::T2 => 300,
            ItemSize::T3 => 400,
            ItemSize::T4 => 500,
            ItemSize::T5 => 600,
        }
    }

    /// The tag a wire value denotes, if any.
    pub fn from_repr(v: i16) -> (r: Option<ItemSize>)
        ensures
            r == ItemSize::spec_from_repr(v),
    {
        if v == 0 {
            Some(ItemSize::NotAWeapon)
        } else if v == 100 {
            Some(ItemSize::T0)
        } else if v == 200 {
            Some(ItemSize::T1)
        } else if v == 300 {
            Some(ItemSize::T2)
        } else if v == 400 {
            Some(ItemSize::T3)
        } else if v == 500 {
            Some(ItemSize::T4)
        } else if v == 600 {
            Some(ItemSize::T5)
        } else {
            None
        }
    }

    /// Reading back this tag's wire value gives this tag.
    proof fn lemma_repr_round(self)
        ensures
            ItemSize::spec_from_repr(self.spec_repr()) == Some(self),
    {
        match self {
            ItemSize::NotAWeapon => {
                assert(ItemSize::spec_from_repr(0) == Some(ItemSize::NotAWeapon));
            },
            ItemSize::T0 => {
                assert(ItemSize::spec_from_repr(100) == Some(ItemSize::T0));
            },
            ItemSize::T1 => {
                assert(ItemSize::spec_from_repr(200) == Some(ItemSize::T1));
            },
            ItemSize::T2 => {
                assert(ItemSize::spec_from_repr(300) == Some(ItemSize::T2));
            },
            ItemSize::T3 => {
                assert(ItemSize::spec_from_repr(400) == Some(ItemSize::T3));
            },
            ItemSize::T4 => {
                assert(ItemSize::spec_from_repr(500) == Some(ItemSize::T4));
            },
            ItemSize::T5 => {
                assert(ItemSize::spec_from_repr(600) == Some(ItemSize::T5));
            },
        }
    }
}

impl DeepView for ItemSize {
    type V = ItemSize;

    open spec fn deep_view(&self) -> ItemSize {
        *self
    }
}

impl Codec for ItemSize {
    open spec fn enc_ok(v: ItemSize) -> bool {
        true
    }

    open spec fn wire(v: ItemSize) -> Seq<u8> {
        i16::wire(v.spec_repr())
    }

    open spec fn dec(b: Seq<u8>, pos: int) -> Result<(ItemSize, int), DecodeError> {
        match i16::dec(b, pos) {
            Ok((raw, end)) => match ItemSize::spec_from_repr(raw) {
                Some(t) => Ok((t, end)),
                None => Err(DecodeError::InvalidEnumValue),
            },
            Err(e) => Err(e),
        }
    }

    proof fn lemma_dec_wire(v: ItemSize, b: Seq<u8>, pos: int) {
        i16::lemma_dec_wire(v.spec_repr(), b, pos);
        v.lemma_repr_round();
    }

    fn decode(b: &[u8], pos: usize) -> (r: Result<(ItemSize, usize), DecodeError>) {
        match i16::decode(b, pos) {
            Ok((raw, end)) => match ItemSize::from_repr(raw) {
                Some(t) => Ok((t, end)),
                None => Err(DecodeError::InvalidEnumValue),
            },
            Err(e) => Err(e),
        }
    }

    fn encode(&self, out: &mut Vec<u8>) -> (r: Result<(), EncodeError>) {
        self.repr().encode(out)
    }
}

/// What an after-battle vote is for.
#[derive(Debug, Clone, Copy, PartialEq, Eq, Hash, Default)]
pub enum VoteType {
    #[default]
    BestPlayed,
    BestLooking,
}

impl VoteType {
    /// The wire value of this tag.
    pub open spec fn spec_repr(self) -> u32 {
        match self {
            VoteType::BestPlayed => 0,
            VoteType::BestLooking => 1,
        }
    }

    /// The tag a wire value denotes, if any.
    pub open spec fn spec_from_repr(v: u32) -> Option<VoteType> {
        if v == 0 {
            Some(VoteType::BestPlayed)
        } else if v == 1 {
            Some(VoteType::BestLooking)
        } else {
            None
        }
    }

    /// The wire value of this tag.
    pub fn repr(self) -> (r: u32)
        ensures
            r == self.spec_repr(),
    {
        match self {
            VoteType::BestPlayed => 0,
            VoteType::BestLooking => 1,
        }
    }

    /// The tag a wire value denotes, if any.
    pub fn from_repr(v: u32) -> (r: Option<VoteType>)
        ensures
            r == VoteType::spec_from_repr(v),
    {
        if v == 0 {
            Some(VoteType::BestPlayed)
        } else if v == 1 {
            Some(VoteType::BestLooking)
        } else {
            None
        }
    }

    /// Reading back this tag's wire value gives this tag.
    proof fn lemma_repr_round(self)
        ensures
            VoteType::spec_from_repr(self.spec_repr()) == Some(self),
    {
        match self {
            VoteType::BestPlayed => {
                assert(VoteType::spec_from_repr(0) == Some(VoteType::BestPlayed));
            },
            VoteType::BestLooking => {
                assert(VoteType::spec_from_repr(1) == Some(VoteType::BestLooking));
            },
        }
    }
}

impl DeepView for VoteType {
    type V = VoteType;

    open spec fn deep_view(&self) -> VoteType {
        *self
    }
}

impl Codec for VoteType {
    open spec fn enc_ok(v: VoteType) -> bool {
        true
    }

    open spec fn wire(v: VoteType) -> Seq<u8> {
        u32::wire(v.spec_repr())
    }

    open spec fn dec(b: Seq<u8>, pos: int) -> Result<(VoteType, int), DecodeError> {
        match u32::dec(b, pos) {
            Ok((raw, end)) => match VoteType::spec_from_repr(raw) {
                Some(t) => Ok((t, end)),
                None => Err(DecodeError::InvalidEnumValue),
            },
            Err(e) => Err(e),
        }
    }

    proof fn lemma_dec_wire(v: VoteType, b: Seq<u8>, pos: int) {
        u32::lemma_dec_wire(v.spec_repr(), b, pos);
        v.lemma_repr_round();
    }

    fn decode(b: &[u8], pos: usize) -> (r: Result<(VoteType, usize), DecodeError>) {
        match u32::decode(b, pos) {
            Ok((raw, end)) => match VoteType::from_repr(raw) {
                Some(t) => Ok((t, end)),
                None => Err(DecodeError::InvalidEnumValue),
            },
            Err(e) => Err(e),
        }
    }

    fn encode(&self, out: &mut Vec<u8>) -> (r: Result<(), EncodeError>) {
        self.repr().encode(out)
    }
}

/// The tag on one cube history record.
#[derive(Debug, Clone, Copy, PartialEq, Eq, Hash, Default)]
pub enum CubeHistoryEventType {
    Destroy,
    #[default]
    Heal,
}

impl CubeHistoryEventType {
    /// The wire value of this tag.
    pub open spec fn spec_repr(self) -> u8 {
        match self {
            CubeHistoryEventType::Destroy => 1,
            CubeHistoryEventType::Heal => 2,
        }
    }

    /// The tag a wire value denotes, if any.
    pub open spec fn spec_from_repr(v: u8) -> Option<CubeHistoryEventType> {
        if v == 1 {
            Some(CubeHistoryEventType::Destroy)
        } else if v == 2 {
            Some(CubeHistoryEventType::Heal)
        } else {
            None
        }
    }

    /// The wire value of this tag.
    pub fn repr(self) -> (r: u8)
        ensures
            r == self.spec_repr(),
    {
        match self {
            CubeHistoryEventType::Destroy => 1,
            CubeHistoryEventType::Heal => 2,
        }
    }

    /// The tag a wire value denotes, if any.
    pub fn from_repr(v: u8) -> (r: Option<CubeHistoryEventType>)
        ensures
            r == CubeHistoryEventType::spec_from_repr(v),
    {
        if v == 1 {
            Some(CubeHistoryEventType::Destroy)
        } else if v == 2 {
            Some(CubeHistoryEventType::Heal)
        } else {
            None
        }
    }

    /// Reading back this tag's wire value gives this tag.
    proof fn lemma_repr_round(self)
        ensures
            CubeHistoryEventType::spec_from_repr(self.spec_repr()) == Some(self),
    {
        match self {
            CubeHistoryEventType::Destroy => {
                assert(CubeHistoryEventType::spec_from_repr(1) == Some(CubeHistoryEventType::Destroy));
            },
            CubeHistoryEventType::Heal => {
                assert(CubeHistoryEventType::spec_from_repr(2) == Some(CubeHistoryEventType::Heal));
            },
        }
    }
}

impl DeepView for CubeHistoryEventType {
    type V = CubeHistoryEventType;

    open spec fn deep_view(&self) -> CubeHistoryEventType {
        *self
    }
}

impl Codec for CubeHistoryEventType {
    open spec fn enc_ok(v: CubeHistoryEventType) -> bool {
        true
    }

    open spec fn wire(v: CubeHistoryEventType) -> Seq<u8> {
        u8::wire(v.spec_repr())
    }

    open spec fn dec(b: Seq<u8>, pos: int) -> Result<(CubeHistoryEventType, int), DecodeError> {
        match u8::dec(b, pos) {
            Ok((raw, end)) => match CubeHistoryEventType::spec_from_repr(raw) {
                Some(t) => Ok((t, end)),
                None => Err(DecodeError::InvalidEnumValue),
            },
            Err(e) => Err(e),
        }
    }

    proof fn lemma_dec_wire(v: CubeHistoryEventType, b: Seq<u8>, pos: int) {
        u8::lemma_dec_wire(v.spec_repr(), b, pos);
        v.lemma_repr_round();
    }

    fn decode(b: &[u8], pos: usize) -> (r: Result<(CubeHistoryEventType, usize), DecodeError>) {
        match u8::decode(b, pos) {
            Ok((raw, end)) => match CubeHistoryEventType::from_repr(raw) {
                Some(t) => Ok((t, end)),
                None => Err(DecodeError::InvalidEnumValue),
            },
            Err(e) => Err(e),
        }
    }

    fn encode(&self, out: &mut Vec<u8>) -> (r: Result<(), EncodeError>) {
        self.repr().encode(out)
    }
}

/// Server warning codes; the gaps belong to retired codes and must not
/// be reused.
#[derive(Debug, Clone, Copy, PartialEq, Eq, Hash, Default)]
pub enum GameServerErrorCodes {
    StrErrHaxSpeed,
    StrErrHaxException,
    StrErrHaxTeleport,
    StrErrHaxEacViolation,
    StrErrHaxAfk,
    StrErrHaxFirerange,
    StrErrHaxFiredamage,
    StrErrHaxFirerate,
    StrErrHaxFireposition,
    StrErrIncorrectGameGuid,
    StrErrCustomString,
    StrErrTimedOut,
    #[default]
    StrErrGameEnded,
}

impl GameServerErrorCodes {
    /// The wire value of this tag.
    pub open spec fn spec_repr(self) -> i32 {
        match self {
            GameServerErrorCodes::StrErrHaxSpeed => 0,
            GameServerErrorCodes::StrErrHaxException => 1,
            GameServerErrorCodes::StrErrHaxTeleport => 2,
            GameServerErrorCodes::StrErrHaxEacViolation => 6,
            GameServerErrorCodes::StrErrHaxAfk => 7,
            GameServerErrorCodes::StrErrHaxFirerange => 8,
            GameServerErrorCodes::StrErrHaxFiredamage => 9,
            GameServerErrorCodes::StrErrHaxFirerate => 10,
            GameServerErrorCodes::StrErrHaxFireposition => 11,
            GameServerErrorCodes::StrErrIncorrectGameGuid => 12,
            GameServerErrorCodes::StrErrCustomString => 13,
            GameServerErrorCodes::StrErrTimedOut => 14,
            GameServerErrorCodes::StrErrGameEnded => 15,
        }
    }

    /// The tag a wire value denotes, if any.
    pub open spec fn spec_from_repr(v: i32) -> Option<GameServerErrorCodes> {
        if v == 0 {
            Some(GameServerErrorCodes::StrErrHaxSpeed)
        } else if v == 1 {
            Some(GameServerErrorCodes::StrErrHaxException)
        } else if v == 2 {
            Some(GameServerErrorCodes::StrErrHaxTeleport)
        } else if v == 6 {
            Some(GameServerErrorCodes::StrErrHaxEacViolation)
        } else if v == 7 {
            Some(GameServerErrorCodes::StrErrHaxAfk)
        } else if v == 8 {
            Some(GameServerErrorCodes::StrErrHaxFirerange)
        } else if v == 9 {
            Some(GameServerErrorCodes::StrErrHaxFiredamage)
        } else if v == 10 {
            Some(GameServerErrorCodes::StrErrHaxFirerate)
        } else if v == 11 {
            Some(GameServerErrorCodes::StrErrHaxFireposition)
        } else if v == 12 {
            Some(GameServerErrorCodes::StrErrIncorrectGameGuid)
        } else if v == 13 {
            Some(GameServerErrorCodes::StrErrCustomString)
        } else if v == 14 {
            Some(GameServerErrorCodes::StrErrTimedOut)
        } else if v == 15 {
            Some(GameServerErrorCodes::StrErrGameEnded)
        } else {
            None
        }
    }

    /// The wire value of this tag.
    pub fn repr(self) -> (r: i32)
        ensures
            r == self.spec_repr(),
    {
        match self {
            GameServerErrorCodes::StrErrHaxSpeed => 0,
            GameServerErrorCodes::StrErrHaxException => 1,
            GameServerErrorCodes::StrErrHaxTeleport => 2,
            GameServerErrorCodes::StrErrHaxEacViolation => 6,
            GameServerErrorCodes::StrErrHaxAfk => 7,
            GameServerErrorCodes::StrErrHaxFirerange => 8,
            GameServerErrorCodes::StrErrHaxFiredamage => 9,
            GameServerErrorCodes::StrErrHaxFirerate => 10,
            GameServerErrorCodes::StrErrHaxFireposition => 11,
            GameServerErrorCodes::StrErrIncorrectGameGuid => 12,
            GameServerErrorCodes::StrErrCustomString => 13,
            GameServerErrorCodes::StrErrTimedOut => 14,
            GameServerErrorCodes::StrErrGameEnded => 15,
        }
    }

    /// The tag a wire value denotes, if any.
    pub fn from_repr(v: i32) -> (r: Option<GameServerErrorCodes>)
        ensures
            r == GameServerErrorCodes::spec_from_repr(v),
    {
        if v == 0 {
            Some(GameServerErrorCodes::StrErrHaxSpeed)
        } else if v == 1 {
            Some(GameServerErrorCodes::StrErrHaxException)
        } else if v == 2 {
            Some(GameServerErrorCodes::StrErrHaxTeleport)
        } else if v == 6 {
            Some(GameServerErrorCodes::StrErrHaxEacViolation)
        } else if v == 7 {
            Some(GameServerErrorCodes::StrErrHaxAfk)
        } else if v == 8 {
            Some(GameServerErrorCodes::StrErrHaxFirerange)
        } else if v == 9 {
            Some(GameServerErrorCodes::StrErrHaxFiredamage)
        } else if v == 10 {
            Some(GameServerErrorCodes::StrErrHaxFirerate)
        } else if v == 11 {
            Some(GameServerErrorCodes::StrErrHaxFireposition)
        } else if v == 12 {
            Some(GameServerErrorCodes::StrErrIncorrectGameGuid)
        } else if v == 13 {
            Some(GameServerErrorCodes::StrErrCustomString)
        } else if v == 14 {
            Some(GameServerErrorCodes::StrErrTimedOut)
        } else if v == 15 {
            Some(GameServerErrorCodes::StrErrGameEnded)
        } else {
            None
        }
    }

    /// Reading back this tag's wire value gives this tag.
    proof fn lemma_repr_round(self)
        ensures
            GameServerErrorCodes::spec_from_repr(self.spec_repr()) == Some(self),
    {
        match self {
            GameServerErrorCodes::StrErrHaxSpeed => {
                assert(GameServerErrorCodes::spec_from_repr(0) == Some(GameServerErrorCodes::StrErrHaxSpeed));
            },
            GameServerErrorCodes::StrErrHaxException => {
                assert(GameServerErrorCodes::spec_from_repr(1) == Some(GameServerErrorCodes::StrErrHaxException));
            },
            GameServerErrorCodes::StrErrHaxTeleport => {
                assert(GameServerErrorCodes::spec_from_repr(2) == Some(GameServerErrorCodes::StrErrHaxTeleport));
            },
            GameServerErrorCodes::StrErrHaxEacViolation => {
                assert(GameServerErrorCodes::spec_from_repr(6) == Some(GameServerErrorCodes::StrErrHaxEacViolation));
            },
            GameServerErrorCodes::StrErrHaxAfk => {
                assert(GameServerErrorCodes::spec_from_repr(7) == Some(GameServerErrorCodes::StrErrHaxAfk));
            },
            GameServerErrorCodes::StrErrHaxFirerange => {
                assert(GameServerErrorCodes::spec_from_repr(8) == Some(GameServerErrorCodes::StrErrHaxFirerange));
            },
            GameServerErrorCodes::StrErrHaxFiredamage => {
                assert(GameServerErrorCodes::spec_from_repr(9) == Some(GameServerErrorCodes::StrErrHaxFiredamage));
            },
            GameServerErrorCodes::StrErrHaxFirerate => {
                assert(GameServerErrorCodes::spec_from_repr(10) == Some(GameServerErrorCodes::StrErrHaxFirerate));
            },
            GameServerErrorCodes::StrErrHaxFireposition => {
                assert(GameServerErrorCodes::spec_from_repr(11) == Some(GameServerErrorCodes::StrErrHaxFireposition));
            },
            GameServerErrorCodes::StrErrIncorrectGameGuid => {
                assert(GameServerErrorCodes::spec_from_repr(12) == Some(GameServerErrorCodes::StrErrIncorrectGameGuid));
            },
            GameServerErrorCodes::StrErrCustomString => {
                assert(GameServerErrorCodes::spec_from_repr(13) == Some(GameServerErrorCodes::StrErrCustomString));
            },
            GameServerErrorCodes::StrErrTimedOut => {
                assert(GameServerErrorCodes::spec_from_repr(14) == Some(GameServerErrorCodes::StrErrTimedOut));
            },
            GameServerErrorCodes::StrErrGameEnded => {
                assert(GameServerErrorCodes::spec_from_repr(15) == Some(GameServerErrorCodes::StrErrGameEnded));
            },
        }
    }
}

impl DeepView for GameServerErrorCodes {
    type V = GameServerErrorCodes;

    open spec fn deep_view(&self) -> GameServerErrorCodes {
        *self
    }
}

impl Codec for GameServerErrorCodes {
    open spec fn enc_ok(v: GameServerErrorCodes) -> bool {
        true
    }

    open spec fn wire(v: GameServerErrorCodes) -> Seq<u8> {
        i32::wire(v.spec_repr())
    }

    open spec fn dec(b: Seq<u8>, pos: int) -> Result<(GameServerErrorCodes, int), DecodeError> {
        match i32::dec(b, pos) {
            Ok((raw, end)) => match GameServerErrorCodes::spec_from_repr(raw) {
                Some(t) => Ok((t, end)),
                None => Err(DecodeError::InvalidEnumValue),
            },
            Err(e) => Err(e),
        }
    }

    proof fn lemma_dec_wire(v: GameServerErrorCodes, b: Seq<u8>, pos: int) {
        i32::lemma_dec_wire(v.spec_repr(), b, pos);
        v.lemma_repr_round();
    }

    fn decode(b: &[u8], pos: usize) -> (r: Result<(GameServerErrorCodes, usize), DecodeError>) {
        match i32::decode(b, pos) {
            Ok((raw, end)) => match GameServerErrorCodes::from_repr(raw) {
                Some(t) => Ok((t, end)),
                None => Err(DecodeError::InvalidEnumValue),
            },
            Err(e) => Err(e),
        }
    }

    fn encode(&self, out: &mut Vec<u8>) -> (r: Result<(), EncodeError>) {
        self.repr().encode(out)
    }
}

/// What kind of thing a shot hit or healed.
#[derive(Debug, Clone, Copy, PartialEq, Eq, Hash, Default)]
pub enum TargetType {
    Player,
    #[default]
    Environment,
    TeamBase,
    FusionShield,
    EqualizerCrystal,
    CapturePoint,
}

impl TargetType {
    /// The wire value of this tag.
    pub open spec fn spec_repr(self) -> u8 {
        match self {
            TargetType::Player => 0,
            TargetType::Environment => 1,
            TargetType::TeamBase => 2,
            TargetType::FusionShield => 3,
            TargetType::EqualizerCrystal => 4,
            TargetType::CapturePoint => 5,
        }
    }

    /// The tag a wire value denotes, if any.
    pub open spec fn spec_from_repr(v: u8) -> Option<TargetType> {
        if v == 0 {
            Some(TargetType::Player)
        } else if v == 1 {
            Some(TargetType::Environment)
        } else if v == 2 {
            Some(TargetType::TeamBase)
        } else if v == 3 {
            Some(TargetType::FusionShield)
        } else if v == 4 {
            Some(TargetType::EqualizerCrystal)
        } else if v == 5 {
            Some(TargetType::CapturePoint)
        } else {
            None
        }
    }

    /// The wire value of this tag.
    pub fn repr(self) -> (r: u8)
        ensures
            r == self.spec_repr(),
    {
        match self {
            TargetType::Player => 0,
            TargetType::Environment => 1,
            TargetType::TeamBase => 2,
            TargetType::FusionShield => 3,
            TargetType::EqualizerCrystal => 4,
            TargetType::CapturePoint => 5,
        }
    }

    /// The tag a wire value denotes, if any.
    pub fn from_repr(v: u8) -> (r: Option<TargetType>)
        ensures
            r == TargetType::spec_from_repr(v),
    {
        if v == 0 {
            Some(TargetType::Player)
        } else if v == 1 {
            Some(TargetType::Environment)
        } else if v == 2 {
            Some(TargetType::TeamBase)
        } else if v == 3 {
            Some(TargetType::FusionShield)
        } else if v == 4 {
            Some(TargetType::EqualizerCrystal)
        } else if v == 5 {
            Some(TargetType::CapturePoint)
        } else {
            None
        }
    }

    /// Reading back this tag's wire value gives this tag.
    proof fn lemma_repr_round(self)
        ensures
            TargetType::spec_from_repr(self.spec_repr()) == Some(self),
    {
        match self {
            TargetType::Player => {
                assert(TargetType::spec_from_repr(0) == Some(TargetType::Player));
            },
            TargetType::Environment => {
                assert(TargetType::spec_from_repr(1) == Some(TargetType::Environment));
            },
            TargetType::TeamBase => {
                assert(TargetType::spec_from_repr(2) == Some(TargetType::TeamBase));
            },
            TargetType::FusionShield => {
                assert(TargetType::spec_from_repr(3) == Some(TargetType::FusionShield));
            },
            TargetType::EqualizerCrystal => {
                assert(TargetType::spec_from_repr(4) == Some(TargetType::EqualizerCrystal));
            },
            TargetType::CapturePoint => {
                assert(TargetType::spec_from_repr(5) == Some(TargetType::CapturePoint));
            },
        }
    }
}

impl DeepView for TargetType {
    type V = TargetType;

    open spec fn deep_view(&self) -> TargetType {
        *self
    }
}

impl Codec for TargetType {
    open spec fn enc_ok(v: TargetType) -> bool {
        true
    }

    open spec fn wire(v: TargetType) -> Seq<u8> {
        u8::wire(v.spec_repr())
    }

    open spec fn dec(b: Seq<u8>, pos: int) -> Result<(TargetType, int), DecodeError> {
        match u8::dec(b, pos) {
            Ok((raw, end)) => match TargetType::spec_from_repr(raw) {
                Some(t) => Ok((t, end)),
                None => Err(DecodeError::InvalidEnumValue),
            },
            Err(e) => Err(e),
        }
    }

    proof fn lemma_dec_wire(v: TargetType, b: Seq<u8>, pos: int) {
        u8::lemma_dec_wire(v.spec_repr(), b, pos);
        v.lemma_repr_round();
    }

    fn decode(b: &[u8], pos: usize) -> (r: Result<(TargetType, usize), DecodeError>) {
        match u8::decode(b, pos) {
            Ok((raw, end)) => match TargetType::from_repr(raw) {
                Some(t) => Ok((t, end)),
                None => Err(DecodeError::InvalidEnumValue),
            },
            Err(e) => Err(e),
        }
    }

    fn encode(&self, out: &mut Vec<u8>) -> (r: Result<(), EncodeError>) {
        self.repr().encode(out)
    }
}

/// Phase of an equalizer encounter.
#[derive(Debug, Clone, Copy, PartialEq, Eq, Hash, Default)]
pub enum EqualizerState {
    Start,
    #[default]
    Lost,
    Defended,
    Destroyed,
}

impl EqualizerState {
    /// The wire value of this tag.
    pub open spec fn spec_repr(self) -> u8 {
        match self {
            EqualizerState::Start => 1,
            EqualizerState::Lost => 2,
            EqualizerState::Defended => 3,
            EqualizerState::Destroyed => 4,
        }
    }

    /// The tag a wire value denotes, if any.
    pub open spec fn spec_from_repr(v: u8) -> Option<EqualizerState> {
        if v == 1 {
            Some(EqualizerState::Start)
        } else if v == 2 {
            Some(EqualizerState::Lost)
        } else if v == 3 {
            Some(EqualizerState::Defended)
        } else if v == 4 {
            Some(EqualizerState::Destroyed)
        } else {
            None
        }
    }

    /// The wire value of this tag.
    pub fn repr(self) -> (r: u8)
        ensures
            r == self.spec_repr(),
    {
        match self {
            EqualizerState::Start => 1,
            EqualizerState::Lost => 2,
            EqualizerState::Defended => 3,
            EqualizerState::Destroyed => 4,
        }
    }

    /// The tag a wire value denotes, if any.
    pub fn from_repr(v: u8) -> (r: Option<EqualizerState>)
        ensures
            r == EqualizerState::spec_from_repr(v),
    {
        if v == 1 {
            Some(EqualizerState::Start)
        } else if v == 2 {
            Some(EqualizerState::Lost)
        } else if v == 3 {
            Some(EqualizerState::Defended)
        } else if v == 4 {
            Some(EqualizerState::Destroyed)
        } else {
            None
        }
    }

    /// Reading back this tag's wire value gives this tag.
    proof fn lemma_repr_round(self)
        ensures
            EqualizerState::spec_from_repr(self.spec_repr()) == Some(self),
    {
        match self {
            EqualizerState::Start => {
                assert(EqualizerState::spec_from_repr(1) == Some(EqualizerState::Start));
            },
            EqualizerState::Lost => {
                assert(EqualizerState::spec_from_repr(2) == Some(EqualizerState::Lost));
            },
            EqualizerState::Defended => {
                assert(EqualizerState::spec_from_repr(3) == Some(EqualizerState::Defended));
            },
            EqualizerState::Destroyed => {
                assert(EqualizerState::spec_from_repr(4) == Some(EqualizerState::Destroyed));
            },
        }
    }
}

impl DeepView for EqualizerState {
    type V = EqualizerState;

    open spec fn deep_view(&self) -> EqualizerState {
        *self
    }
}

impl Codec for EqualizerState {
    open spec fn enc_ok(v: EqualizerState) -> bool {
        true
    }

    open spec fn wire(v: EqualizerState) -> Seq<u8> {
        u8::wire(v.spec_repr())
    }

    open spec fn dec(b: Seq<u8>, pos: int) -> Result<(EqualizerState, int), DecodeError> {
        match u8::dec(b, pos) {
            Ok((raw, end)) => match EqualizerState::spec_from_repr(raw) {
                Some(t) => Ok((t, end)),
                None => Err(DecodeError::InvalidEnumValue),
            },
            Err(e) => Err(e),
        }
    }

    proof fn lemma_dec_wire(v: EqualizerState, b: Seq<u8>, pos: int) {
        u8::lemma_dec_wire(v.spec_repr(), b, pos);
        v.lemma_repr_round();
    }

    fn decode(b: &[u8], pos: usize) -> (r: Result<(EqualizerState, usize), DecodeError>) {
        match u8::decode(b, pos) {
            Ok((raw, end)) => match EqualizerState::from_repr(raw) {
                Some(t) => Ok((t, end)),
                None => Err(DecodeError::InvalidEnumValue),
            },
            Err(e) => Err(e),
        }
    }

    fn encode(&self, out: &mut Vec<u8>) -> (r: Result<(), EncodeError>) {
        self.repr().encode(out)
    }
}

/// Which in-game statistic a stat entry updates.
#[derive(Debug, Clone, Copy, PartialEq, Eq, Hash, Default)]
pub enum IngameStatId {
    #[default]
    NoStat,
    DestroyedCubes,
    DestroyedCubesInProtection,
    DestroyedCubesDefendingTheBase,
    Kill,
    KillAssist,
    HealCubes,
    HealAssist,
    DestroyedProtoniumCubes,
    BaseCaptureClassicMode,
    RobotDestroyed,
    Score,
    HealthPercentageBonusClassicMode,
    Points,
    CurrentKillStreak,
    BestKillStreak,
    CapturePointBattleArenaMode,
    EqualiserDestroyedBattleArenaMode,
    BattleArenaObjectives,
}

impl IngameStatId {
    /// The wire value of this tag.
    pub open spec fn spec_repr(self) -> u8 {
        match self {
            IngameStatId::NoStat => 0,
            IngameStatId::DestroyedCubes => 1,
            IngameStatId::DestroyedCubesInProtection => 2,
            IngameStatId::DestroyedCubesDefendingTheBase => 3,
            IngameStatId::Kill => 4,
            IngameStatId::KillAssist => 5,
            IngameStatId::HealCubes => 6,
            IngameStatId::HealAssist => 7,
            IngameStatId::DestroyedProtoniumCubes => 8,
            IngameStatId::BaseCaptureClassicMode => 9,
            IngameStatId::RobotDestroyed => 10,
            IngameStatId::Score => 11,
            IngameStatId::HealthPercentageBonusClassicMode => 12,
            IngameStatId::Points => 13,
            IngameStatId::CurrentKillStreak => 14,
            IngameStatId::BestKillStreak => 15,
            IngameStatId::CapturePointBattleArenaMode => 16,
            IngameStatId::EqualiserDestroyedBattleArenaMode => 17,
            IngameStatId::BattleArenaObjectives => 18,
        }
    }

    /// The tag a wire value denotes, if any.
    pub open spec fn spec_from_repr(v: u8) -> Option<IngameStatId> {
        if v == 0 {
            Some(IngameStatId::NoStat)
        } else if v == 1 {
            Some(IngameStatId::DestroyedCubes)
        } else if v == 2 {
            Some(IngameStatId::DestroyedCubesInProtection)
        } else if v == 3 {
            Some(IngameStatId::DestroyedCubesDefendingTheBase)
        } else if v == 4 {
            Some(IngameStatId::Kill)
        } else if v == 5 {
            Some(IngameStatId::KillAssist)
        } else if v == 6 {
            Some(IngameStatId::HealCubes)
        } else if v == 7 {
            Some(IngameStatId::HealAssist)
        } else if v == 8 {
            Some(IngameStatId::DestroyedProtoniumCubes)
        } else if v == 9 {
            Some(IngameStatId::BaseCaptureClassicMode)
        } else if v == 10 {
            Some(IngameStatId::RobotDestroyed)
        } else if v == 11 {
            Some(IngameStatId::Score)
        } else if v == 12 {
            Some(IngameStatId::HealthPercentageBonusClassicMode)
        } else if v == 13 {
            Some(IngameStatId::Points)
        } else if v == 14 {
            Some(IngameStatId::CurrentKillStreak)
        } else if v == 15 {
            Some(IngameStatId::BestKillStreak)
        } else if v == 16 {
            Some(IngameStatId::CapturePointBattleArenaMode)
        } else if v == 17 {
            Some(IngameStatId::EqualiserDestroyedBattleArenaMode)
        } else if v == 18 {
            Some(IngameStatId::BattleArenaObjectives)
        } else {
            None
        }
    }

    /// The wire value of this tag.
    pub fn repr(self) -> (r: u8)
        ensures
            r == self.spec_repr(),
    {
        match self {
            IngameStatId::NoStat => 0,
            IngameStatId::DestroyedCubes => 1,
            IngameStatId::DestroyedCubesInProtection => 2,
            IngameStatId::DestroyedCubesDefendingTheBase => 3,
            IngameStatId::Kill => 4,
            IngameStatId::KillAssist => 5,
            IngameStatId::HealCubes => 6,
            IngameStatId::HealAssist => 7,
            IngameStatId::DestroyedProtoniumCubes => 8,
            IngameStatId::BaseCaptureClassicMode => 9,
            IngameStatId::RobotDestroyed => 10,
            IngameStatId::Score => 11,
            IngameStatId::HealthPercentageBonusClassicMode => 12,
            IngameStatId::Points => 13,
            IngameStatId::CurrentKillStreak => 14,
            IngameStatId::BestKillStreak => 15,
            IngameStatId::CapturePointBattleArenaMode => 16,
            IngameStatId::EqualiserDestroyedBattleArenaMode => 17,
            IngameStatId::BattleArenaObjectives => 18,
        }
    }

    /// The tag a wire value denotes, if any.
    pub fn from_repr(v: u8) -> (r: Option<IngameStatId>)
        ensures
            r == IngameStatId::spec_from_repr(v),
    {
        if v == 0 {
            Some(IngameStatId::NoStat)
        } else if v == 1 {
            Some(IngameStatId::DestroyedCubes)
        } else if v == 2 {
            Some(IngameStatId::DestroyedCubesInProtection)
        } else if v == 3 {
            Some(IngameStatId::DestroyedCubesDefendingTheBase)
        } else if v == 4 {
            Some(IngameStatId::Kill)
        } else if v == 5 {
            Some(IngameStatId::KillAssist)
        } else if v == 6 {
            Some(IngameStatId::HealCubes)
        } else if v == 7 {
            Some(IngameStatId::HealAssist)
        } else if v == 8 {
            Some(IngameStatId::DestroyedProtoniumCubes)
        } else if v == 9 {
            Some(IngameStatId::BaseCaptureClassicMode)
        } else if v == 10 {
            Some(IngameStatId::RobotDestroyed)
        } else if v == 11 {
            Some(IngameStatId::Score)
        } else if v == 12 {
            Some(IngameStatId::HealthPercentageBonusClassicMode)
        } else if v == 13 {
            Some(IngameStatId::Points)
        } else if v == 14 {
            Some(IngameStatId::CurrentKillStreak)
        } else if v == 15 {
            Some(IngameStatId::BestKillStreak)
        } else if v == 16 {
            Some(IngameStatId::CapturePointBattleArenaMode)
        } else if v == 17 {
            Some(IngameStatId::EqualiserDestroyedBattleArenaMode)
        } else if v == 18 {
            Some(IngameStatId::BattleArenaObjectives)
        } else {
            None
        }
    }

    /// Reading back this tag's wire value gives this tag.
    proof fn lemma_repr_round(self)
        ensures
            IngameStatId::spec_from_repr(self.spec_repr()) == Some(self),
    {
        match self {
            IngameStatId::NoStat => {
                assert(IngameStatId::spec_from_repr(0) == Some(IngameStatId::NoStat));
            },
            IngameStatId::DestroyedCubes => {
                assert(IngameStatId::spec_from_repr(1) == Some(IngameStatId::DestroyedCubes));
            },
            IngameStatId::DestroyedCubesInProtection => {
                assert(IngameStatId::spec_from_repr(2) == Some(IngameStatId::DestroyedCubesInProtection));
            },
            IngameStatId::DestroyedCubesDefendingTheBase => {
                assert(IngameStatId::spec_from_repr(3) == Some(IngameStatId::DestroyedCubesDefendingTheBase));
            },
            IngameStatId::Kill => {
                assert(IngameStatId::spec_from_repr(4) == Some(IngameStatId::Kill));
            },
            IngameStatId::KillAssist => {
                assert(IngameStatId::spec_from_repr(5) == Some(IngameStatId::KillAssist));
            },
            IngameStatId::HealCubes => {
                assert(IngameStatId::spec_from_repr(6) == Some(IngameStatId::HealCubes));
            },
            IngameStatId::HealAssist => {
                assert(IngameStatId::spec_from_repr(7) == Some(IngameStatId::HealAssist));
            },
            IngameStatId::DestroyedProtoniumCubes => {
                assert(IngameStatId::spec_from_repr(8) == Some(IngameStatId::DestroyedProtoniumCubes));
            },
            IngameStatId::BaseCaptureClassicMode => {
                assert(IngameStatId::spec_from_repr(9) == Some(IngameStatId::BaseCaptureClassicMode));
            },
            IngameStatId::RobotDestroyed => {
                assert(IngameStatId::spec_from_repr(10) == Some(IngameStatId::RobotDestroyed));
            },
            IngameStatId::Score => {
                assert(IngameStatId::spec_from_repr(11) == Some(IngameStatId::Score));
            },
            IngameStatId::HealthPercentageBonusClassicMode => {
                assert(IngameStatId::spec_from_repr(12) == Some(IngameStatId::HealthPercentageBonusClassicMode));
            },
            IngameStatId::Points => {
                assert(IngameStatId::spec_from_repr(13) == Some(IngameStatId::Points));
            },
            IngameStatId::CurrentKillStreak => {
                assert(IngameStatId::spec_from_repr(14) == Some(IngameStatId::CurrentKillStreak));
            },
            IngameStatId::BestKillStreak => {
                assert(IngameStatId::spec_from_repr(15) == Some(IngameStatId::BestKillStreak));
            },
            IngameStatId::CapturePointBattleArenaMode => {
                assert(IngameStatId::spec_from_repr(16) == Some(IngameStatId::CapturePointBattleArenaMode));
            },
            IngameStatId::EqualiserDestroyedBattleArenaMode => {
                assert(IngameStatId::spec_from_repr(17) == Some(IngameStatId::EqualiserDestroyedBattleArenaMode));
            },
            IngameStatId::BattleArenaObjectives => {
                assert(IngameStatId::spec_from_repr(18) == Some(IngameStatId::BattleArenaObjectives));
            },
        }
    }
}

impl DeepView for IngameStatId {
    type V = IngameStatId;

    open spec fn deep_view(&self) -> IngameStatId {
        *self
    }
}

impl Codec for IngameStatId {
    open spec fn enc_ok(v: IngameStatId) -> bool {
        true
    }

    open spec fn wire(v: IngameStatId) -> Seq<u8> {
        u8::wire(v.spec_repr())
    }

    open spec fn dec(b: Seq<u8>, pos: int) -> Result<(IngameStatId, int), DecodeError> {
        match u8::dec(b, pos) {
            Ok((raw, end)) => match IngameStatId::spec_from_repr(raw) {
                Some(t) => Ok((t, end)),
                None => Err(DecodeError::InvalidEnumValue),
            },
            Err(e) => Err(e),
        }
    }

    proof fn lemma_dec_wire(v: IngameStatId, b: Seq<u8>, pos: int) {
        u8::lemma_dec_wire(v.spec_repr(), b, pos);
        v.lemma_repr_round();
    }

    fn decode(b: &[u8], pos: usize) -> (r: Result<(IngameStatId, usize), DecodeError>) {
        match u8::decode(b, pos) {
            Ok((raw, end)) => match IngameStatId::from_repr(raw) {
                Some(t) => Ok((t, end)),
                None => Err(DecodeError::InvalidEnumValue),
            },
            Err(e) => Err(e),
        }
    }

    fn encode(&self, out: &mut Vec<u8>) -> (r: Result<(), EncodeError>) {
        self.repr().encode(out)
    }
}

/// A 32-bit IEEE-754 value carried as its raw bit pattern, four bytes
/// little-endian on the wire.
#[derive(Debug, Default, Clone, Copy, PartialEq)]
#[verifier::ext_equal]
pub struct FloatBits(pub u32);

impl DeepView for FloatBits {
    type V = FloatBits;

    open spec fn deep_view(&self) -> FloatBits {
        *self
    }
}

impl Codec for FloatBits {
    open spec fn enc_ok(v: FloatBits) -> bool {
        true
    }

    open spec fn wire(v: FloatBits) -> Seq<u8> {
        u32::wire(v.0)
    }

    open spec fn dec(b: Seq<u8>, pos: int) -> Result<(FloatBits, int), DecodeError> {
        match u32::dec(b, pos) {
            Ok((f0, p1)) => {
            Ok((FloatBits(f0), p1))
            },
            Err(e) => Err(e),
        }
    }

    proof fn lemma_dec_wire(v: FloatBits, b: Seq<u8>, pos: int) {
        let w0 = u32::wire(v.0);
        let p0 = pos;
        u32::lemma_dec_wire(v.0, b, p0);
        assert(FloatBits(v.0) =~= v);
    }

    fn decode(b: &[u8], pos: usize) -> (r: Result<(FloatBits, usize), DecodeError>) {
        let (f0, at1) = match u32::decode(b, pos) {
            Ok(x) => x,
            Err(e) => return Err(e),
        };
        Ok((FloatBits(f0), at1))
    }

    fn encode(&self, out: &mut Vec<u8>) -> (r: Result<(), EncodeError>) {
        match self.0.encode(out) {
            Ok(()) => (),
            Err(e) => return Err(e),
        };
        proof {
            assert(out@ =~= old(out)@ + Self::wire(self.deep_view()));
        }
        Ok(())
    }
}

/// A 64-bit IEEE-754 value carried as its raw bit pattern, eight bytes
/// little-endian on the wire.
#[derive(Debug, Default, Clone, Copy, PartialEq)]
#[verifier::ext_equal]
pub struct DoubleBits(pub u64);

impl DeepView for DoubleBits {
    type V = DoubleBits;

    open spec fn deep_view(&self) -> DoubleBits {
        *self
    }
}

impl Codec for DoubleBits {
    open spec fn enc_ok(v: DoubleBits) -> bool {
        true
    }

    open spec fn wire(v: DoubleBits) -> Seq<u8> {
        u64::wire(v.0)
    }

    open spec fn dec(b: Seq<u8>, pos: int) -> Result<(DoubleBits, int), DecodeError> {
        match u64::dec(b, pos) {
            Ok((f0, p1)) => {
            Ok((DoubleBits(f0), p1))
            },
            Err(e) => Err(e),
        }
    }

    proof fn lemma_dec_wire(v: DoubleBits, b: Seq<u8>, pos: int) {
        let w0 = u64::wire(v.0);
        let p0 = pos;
        u64::lemma_dec_wire(v.0, b, p0);
        assert(DoubleBits(v.0) =~= v);
    }

    fn decode(b: &[u8], pos: usize) -> (r: Result<(DoubleBits, usize), DecodeError>) {
        let (f0, at1) = match u64::decode(b, pos) {
            Ok(x) => x,
            Err(e) => return Err(e),
        };
        Ok((DoubleBits(f0), at1))
    }

    fn encode(&self, out: &mut Vec<u8>) -> (r: Result<(), EncodeError>) {
        match self.0.encode(out) {
            Ok(()) => (),
            Err(e) => return Err(e),
        };
        proof {
            assert(out@ =~= old(out)@ + Self::wire(self.deep_view()));
        }
        Ok(())
    }
}

/// A grid coordinate packed into three bytes.
#[derive(Debug, Default, Clone, Copy, PartialEq)]
#[verifier::ext_equal]
pub struct Byte3 {
    pub x: u8,
    pub y: u8,
    pub z: u8,
}

impl DeepView for Byte3 {
    type V = Byte3;

    open spec fn deep_view(&self) -> Byte3 {
        *self
    }
}

impl Codec for Byte3 {
    open spec fn enc_ok(v: Byte3) -> bool {
        true
    }

    open spec fn wire(v: Byte3) -> Seq<u8> {
        u8::wire(v.x) + u8::wire(v.y) + u8::wire(v.z)
    }

    open spec fn dec(b: Seq<u8>, pos: int) -> Result<(Byte3, int), DecodeError> {
        match u8::dec(b, pos) {
            Ok((x, p1)) => {
            match u8::dec(b, p1) {
                Ok((y, p2)) => {
                match u8::dec(b, p2) {
                    Ok((z, p3)) => {
                    Ok((Byte3 { x, y, z }, p3))
                    },
                    Err(e) => Err(e),
                }
                },
                Err(e) => Err(e),
            }
            },
            Err(e) => Err(e),
        }
    }

    proof fn lemma_dec_wire(v: Byte3, b: Seq<u8>, pos: int) {
        let w0 = u8::wire(v.x);
        let w1 = u8::wire(v.y);
        let w2 = u8::wire(v.z);
        assert(Self::wire(v) =~= w0 + (w1 + (w2)));
        let p0 = pos;
        lemma_subrange_split(b, p0, w0, w1 + (w2));
        u8::lemma_dec_wire(v.x, b, p0);
        let p1 = p0 + w0.len();
        lemma_subrange_split(b, p1, w1, w2);
        u8::lemma_dec_wire(v.y, b, p1);
        let p2 = p1 + w1.len();
        u8::lemma_dec_wire(v.z, b, p2);
        assert((Byte3 { x: v.x, y: v.y, z: v.z }) =~= v);
    }

    fn decode(b: &[u8], pos: usize) -> (r: Result<(Byte3, usize), DecodeError>) {
        let (x, at1) = match u8::decode(b, pos) {
            Ok(x) => x,
            Err(e) => return Err(e),
        };
        let (y, at2) = match u8::decode(b, at1) {
            Ok(x) => x,
            Err(e) => return Err(e),
        };
        let (z, at3) = match u8::decode(b, at2) {
            Ok(x) => x,
            Err(e) => return Err(e),
        };
        Ok((Byte3 { x, y, z }, at3))
    }

    fn encode(&self, out: &mut Vec<u8>) -> (r: Result<(), EncodeError>) {
        match self.x.encode(out) {
            Ok(()) => (),
            Err(e) => return Err(e),
        };
        match self.y.encode(out) {
            Ok(()) => (),
            Err(e) => return Err(e),
        };
        match self.z.encode(out) {
            Ok(()) => (),
            Err(e) => return Err(e),
        };
        proof {
            assert(out@ =~= old(out)@ + Self::wire(self.deep_view()));
        }
        Ok(())
    }
}

/// A fixed-point quantized vector: three signed 16-bit components, each
/// standing for `component * FACTOR / 32767` of the unquantized value.
/// The factor is part of the field's type, never of the wire bytes.
#[derive(Debug, Default, Clone, Copy, PartialEq)]
#[verifier::ext_equal]
pub struct CompressedVec3<const FACTOR: u32> {
    pub x: i16,
    pub y: i16,
    pub z: i16,
}

impl<const FACTOR: u32> DeepView for CompressedVec3<FACTOR> {
    type V = CompressedVec3<FACTOR>;

    open spec fn deep_view(&self) -> CompressedVec3<FACTOR> {
        *self
    }
}

impl<const FACTOR: u32> Codec for CompressedVec3<FACTOR> {
    open spec fn enc_ok(v: CompressedVec3<FACTOR>) -> bool {
        true
    }

    open spec fn wire(v: CompressedVec3<FACTOR>) -> Seq<u8> {
        i16::wire(v.x) + i16::wire(v.y) + i16::wire(v.z)
    }

    open spec fn dec(b: Seq<u8>, pos: int) -> Result<(CompressedVec3<FACTOR>, int), DecodeError> {
        match i16::dec(b, pos) {
            Ok((x, p1)) => {
            match i16::dec(b, p1) {
                Ok((y, p2)) => {
                match i16::dec(b, p2) {
                    Ok((z, p3)) => {
                    Ok((CompressedVec3 { x, y, z }, p3))
                    },
                    Err(e) => Err(e),
                }
                },
                Err(e) => Err(e),
            }
            },
            Err(e) => Err(e),
        }
    }

    proof fn lemma_dec_wire(v: CompressedVec3<FACTOR>, b: Seq<u8>, pos: int) {
        let w0 = i16::wire(v.x);
        let w1 = i16::wire(v.y);
        let w2 = i16::wire(v.z);
        assert(Self::wire(v) =~= w0 + (w1 + (w2)));
        let p0 = pos;
        lemma_subrange_split(b, p0, w0, w1 + (w2));
        i16::lemma_dec_wire(v.x, b, p0);
        let p1 = p0 + w0.len();
        lemma_subrange_split(b, p1, w1, w2);
        i16::lemma_dec_wire(v.y, b, p1);
        let p2 = p1 + w1.len();
        i16::lemma_dec_wire(v.z, b, p2);
        assert((CompressedVec3 { x: v.x, y: v.y, z: v.z }) =~= v);
    }

    fn decode(b: &[u8], pos: usize) -> (r: Result<(CompressedVec3<FACTOR>, usize), DecodeError>) {
        let (x, at1) = match i16::decode(b, pos) {
            Ok(x) => x,
            Err(e) => return Err(e),
        };
        let (y, at2) = match i16::decode(b, at1) {
            Ok(x) => x,
            Err(e) => return Err(e),
        };
        let (z, at3) = match i16::decode(b, at2) {
            Ok(x) => x,
            Err(e) => return Err(e),
        };
        Ok((CompressedVec3 { x, y, z }, at3))
    }

    fn encode(&self, out: &mut Vec<u8>) -> (r: Result<(), EncodeError>) {
        match self.x.encode(out) {
            Ok(()) => (),
            Err(e) => return Err(e),
        };
        match self.y.encode(out) {
            Ok(()) => (),
            Err(e) => return Err(e),
        };
        match self.z.encode(out) {
            Ok(()) => (),
            Err(e) => return Err(e),
        };
        proof {
            assert(out@ =~= old(out)@ + Self::wire(self.deep_view()));
        }
        Ok(())
    }
}

/// A fixed-point quantized quaternion: three stored components scaled by
/// FACTOR, the fourth reconstructed by the consumer.
#[derive(Debug, Default, Clone, Copy, PartialEq)]
#[verifier::ext_equal]
pub struct CompressedQuat<const FACTOR: u32> {
    pub x: i16,
    pub y: i16,
    pub z: i16,
}

impl<const FACTOR: u32> DeepView for CompressedQuat<FACTOR> {
    type V = CompressedQuat<FACTOR>;

    open spec fn deep_view(&self) -> CompressedQuat<FACTOR> {
        *self
    }
}

impl<const FACTOR: u32> Codec for CompressedQuat<FACTOR> {
    open spec fn enc_ok(v: CompressedQuat<FACTOR>) -> bool {
        true
    }

    open spec fn wire(v: CompressedQuat<FACTOR>) -> Seq<u8> {
        i16::wire(v.x) + i16::wire(v.y) + i16::wire(v.z)
    }

    open spec fn dec(b: Seq<u8>, pos: int) -> Result<(CompressedQuat<FACTOR>, int), DecodeError> {
        match i16::dec(b, pos) {
            Ok((x, p1)) => {
            match i16::dec(b, p1) {
                Ok((y, p2)) => {
                match i16::dec(b, p2) {
                    Ok((z, p3)) => {
                    Ok((CompressedQuat { x, y, z }, p3))
                    },
                    Err(e) => Err(e),
                }
                },
                Err(e) => Err(e),
            }
            },
            Err(e) => Err(e),
        }
    }

    proof fn lemma_dec_wire(v: CompressedQuat<FACTOR>, b: Seq<u8>, pos: int) {
        let w0 = i16::wire(v.x);
        let w1 = i16::wire(v.y);
        let w2 = i16::wire(v.z);
        assert(Self::wire(v) =~= w0 + (w1 + (w2)));
        let p0 = pos;
        lemma_subrange_split(b, p0, w0, w1 + (w2));
        i16::lemma_dec_wire(v.x, b, p0);
        let p1 = p0 + w0.len();
        lemma_subrange_split(b, p1, w1, w2);
        i16::lemma_dec_wire(v.y, b, p1);
        let p2 = p1 + w1.len();
        i16::lemma_dec_wire(v.z, b, p2);
        assert((CompressedQuat { x: v.x, y: v.y, z: v.z }) =~= v);
    }

    fn decode(b: &[u8], pos: usize) -> (r: Result<(CompressedQuat<FACTOR>, usize), DecodeError>) {
        let (x, at1) = match i16::decode(b, pos) {
            Ok(x) => x,
            Err(e) => return Err(e),
        };
        let (y, at2) = match i16::decode(b, at1) {
            Ok(x) => x,
            Err(e) => return Err(e),
        };
        let (z, at3) = match i16::decode(b, at2) {
            Ok(x) => x,
            Err(e) => return Err(e),
        };
        Ok((CompressedQuat { x, y, z }, at3))
    }

    fn encode(&self, out: &mut Vec<u8>) -> (r: Result<(), EncodeError>) {
        match self.x.encode(out) {
            Ok(()) => (),
            Err(e) => return Err(e),
        };
        match self.y.encode(out) {
            Ok(()) => (),
            Err(e) => return Err(e),
        };
        match self.z.encode(out) {
            Ok(()) => (),
            Err(e) => return Err(e),
        };
        proof {
            assert(out@ =~= old(out)@ + Self::wire(self.deep_view()));
        }
        Ok(())
    }
}

/// A position and orientation, both quantized.
#[derive(Debug, Default, Clone, Copy, PartialEq)]
#[verifier::ext_equal]
pub struct PosQuatPair {
    pub pos: CompressedVec3<768>,
    pub rot: CompressedQuat<4>,
}

impl DeepView for PosQuatPair {
    type V = PosQuatPair;

    open spec fn deep_view(&self) -> PosQuatPair {
        *self
    }
}

impl Codec for PosQuatPair {
    open spec fn enc_ok(v: PosQuatPair) -> bool {
        true
    }

    open spec fn wire(v: PosQuatPair) -> Seq<u8> {
        CompressedVec3::<768>::wire(v.pos) + CompressedQuat::<4>::wire(v.rot)
    }

    open spec fn dec(b: Seq<u8>, pos: int) -> Result<(PosQuatPair, int), DecodeError> {
        match CompressedVec3::<768>::dec(b, pos) {
            Ok((pos, p1)) => {
            match CompressedQuat::<4>::dec(b, p1) {
                Ok((rot, p2)) => {
                Ok((PosQuatPair { pos, rot }, p2))
                },
                Err(e) => Err(e),
            }
            },
            Err(e) => Err(e),
        }
    }

    proof fn lemma_dec_wire(v: PosQuatPair, b: Seq<u8>, pos: int) {
        let w0 = CompressedVec3::<768>::wire(v.pos);
        let w1 = CompressedQuat::<4>::wire(v.rot);
        assert(Self::wire(v) =~= w0 + (w1));
        let p0 = pos;
        lemma_subrange_split(b, p0, w0, w1);
        CompressedVec3::<768>::lemma_dec_wire(v.pos, b, p0);
        let p1 = p0 + w0.len();
        CompressedQuat::<4>::lemma_dec_wire(v.rot, b, p1);
        assert((PosQuatPair { pos: v.pos, rot: v.rot }) =~= v);
    }

    fn decode(b: &[u8], pos: usize) -> (r: Result<(PosQuatPair, usize), DecodeError>) {
        let (pos, at1) = match CompressedVec3::<768>::decode(b, pos) {
            Ok(x) => x,
            Err(e) => return Err(e),
        };
        let (rot, at2) = match CompressedQuat::<4>::decode(b, at1) {
            Ok(x) => x,
            Err(e) => return Err(e),
        };
        Ok((PosQuatPair { pos, rot }, at2))
    }

    fn encode(&self, out: &mut Vec<u8>) -> (r: Result<(), EncodeError>) {
        match self.pos.encode(out) {
            Ok(()) => (),
            Err(e) => return Err(e),
        };
        match self.rot.encode(out) {
            Ok(()) => (),
            Err(e) => return Err(e),
        };
        proof {
            assert(out@ =~= old(out)@ + Self::wire(self.deep_view()));
        }
        Ok(())
    }
}

/// A single-precision vector, carried bit-for-bit.
#[derive(Debug, Default, Clone, Copy, PartialEq)]
#[verifier::ext_equal]
pub struct SVec3 {
    pub x: FloatBits,
    pub y: FloatBits,
    pub z: FloatBits,
}

impl DeepView for SVec3 {
    type V = SVec3;

    open spec fn deep_view(&self) -> SVec3 {
        *self
    }
}

impl Codec for SVec3 {
    open spec fn enc_ok(v: SVec3) -> bool {
        true
    }

    open spec fn wire(v: SVec3) -> Seq<u8> {
        FloatBits::wire(v.x) + FloatBits::wire(v.y) + FloatBits::wire(v.z)
    }

    open spec fn dec(b: Seq<u8>, pos: int) -> Result<(SVec3, int), DecodeError> {
        match FloatBits::dec(b, pos) {
            Ok((x, p1)) => {
            match FloatBits::dec(b, p1) {
                Ok((y, p2)) => {
                match FloatBits::dec(b, p2) {
                    Ok((z, p3)) => {
                    Ok((SVec3 { x, y, z }, p3))
                    },
                    Err(e) => Err(e),
                }
                },
                Err(e) => Err(e),
            }
            },
            Err(e) => Err(e),
        }
    }

    proof fn lemma_dec_wire(v: SVec3, b: Seq<u8>, pos: int) {
        let w0 = FloatBits::wire(v.x);
        let w1 = FloatBits::wire(v.y);
        let w2 = FloatBits::wire(v.z);
        assert(Self::wire(v) =~= w0 + (w1 + (w2)));
        let p0 = pos;
        lemma_subrange_split(b, p0, w0, w1 + (w2));
        FloatBits::lemma_dec_wire(v.x, b, p0);
        let p1 = p0 + w0.len();
        lemma_subrange_split(b, p1, w1, w2);
        FloatBits::lemma_dec_wire(v.y, b, p1);
        let p2 = p1 + w1.len();
        FloatBits::lemma_dec_wire(v.z, b, p2);
        assert((SVec3 { x: v.x, y: v.y, z: v.z }) =~= v);
    }

    fn decode(b: &[u8], pos: usize) -> (r: Result<(SVec3, usize), DecodeError>) {
        let (x, at1) = match FloatBits::decode(b, pos) {
            Ok(x) => x,
            Err(e) => return Err(e),
        };
        let (y, at2) = match FloatBits::decode(b, at1) {
            Ok(x) => x,
            Err(e) => return Err(e),
        };
        let (z, at3) = match FloatBits::decode(b, at2) {
            Ok(x) => x,
            Err(e) => return Err(e),
        };
        Ok((SVec3 { x, y, z }, at3))
    }

    fn encode(&self, out: &mut Vec<u8>) -> (r: Result<(), EncodeError>) {
        match self.x.encode(out) {
            Ok(()) => (),
            Err(e) => return Err(e),
        };
        match self.y.encode(out) {
            Ok(()) => (),
            Err(e) => return Err(e),
        };
        match self.z.encode(out) {
            Ok(()) => (),
            Err(e) => return Err(e),
        };
        proof {
            assert(out@ =~= old(out)@ + Self::wire(self.deep_view()));
        }
        Ok(())
    }
}

/// A double-precision vector, carried bit-for-bit.
#[derive(Debug, Default, Clone, Copy, PartialEq)]
#[verifier::ext_equal]
pub struct DVec3 {
    pub x: DoubleBits,
    pub y: DoubleBits,
    pub z: DoubleBits,
}

impl DeepView for DVec3 {
    type V = DVec3;

    open spec fn deep_view(&self) -> DVec3 {
        *self
    }
}

impl Codec for DVec3 {
    open spec fn enc_ok(v: DVec3) -> bool {
        true
    }

    open spec fn wire(v: DVec3) -> Seq<u8> {
        DoubleBits::wire(v.x) + DoubleBits::wire(v.y) + DoubleBits::wire(v.z)
    }

    open spec fn dec(b: Seq<u8>, pos: int) -> Result<(DVec3, int), DecodeError> {
        match DoubleBits::dec(b, pos) {
            Ok((x, p1)) => {
            match DoubleBits::dec(b, p1) {
                Ok((y, p2)) => {
                match DoubleBits::dec(b, p2) {
                    Ok((z, p3)) => {
                    Ok((DVec3 { x, y, z }, p3))
                    },
                    Err(e) => Err(e),
                }
                },
                Err(e) => Err(e),
            }
            },
            Err(e) => Err(e),
        }
    }

    proof fn lemma_dec_wire(v: DVec3, b: Seq<u8>, pos: int) {
        let w0 = DoubleBits::wire(v.x);
        let w1 = DoubleBits::wire(v.y);
        let w2 = DoubleBits::wire(v.z);
        assert(Self::wire(v) =~= w0 + (w1 + (w2)));
        let p0 = pos;
        lemma_subrange_split(b, p0, w0, w1 + (w2));
        DoubleBits::lemma_dec_wire(v.x, b, p0);
        let p1 = p0 + w0.len();
        lemma_subrange_split(b, p1, w1, w2);
        DoubleBits::lemma_dec_wire(v.y, b, p1);
        let p2 = p1 + w1.len();
        DoubleBits::lemma_dec_wire(v.z, b, p2);
        assert((DVec3 { x: v.x, y: v.y, z: v.z }) =~= v);
    }

    fn decode(b: &[u8], pos: usize) -> (r: Result<(DVec3, usize), DecodeError>) {
        let (x, at1) = match DoubleBits::decode(b, pos) {
            Ok(x) => x,
            Err(e) => return Err(e),
        };
        let (y, at2) = match DoubleBits::decode(b, at1) {
            Ok(x) => x,
            Err(e) => return Err(e),
        };
        let (z, at3) = match DoubleBits::decode(b, at2) {
            Ok(x) => x,
            Err(e) => return Err(e),
        };
        Ok((DVec3 { x, y, z }, at3))
    }

    fn encode(&self, out: &mut Vec<u8>) -> (r: Result<(), EncodeError>) {
        match self.x.encode(out) {
            Ok(()) => (),
            Err(e) => return Err(e),
        };
        match self.y.encode(out) {
            Ok(()) => (),
            Err(e) => return Err(e),
        };
        match self.z.encode(out) {
            Ok(()) => (),
            Err(e) => return Err(e),
        };
        proof {
            assert(out@ =~= old(out)@ + Self::wire(self.deep_view()));
        }
        Ok(())
    }
}

/// A single-precision quaternion, carried bit-for-bit.
#[derive(Debug, Default, Clone, Copy, PartialEq)]
#[verifier::ext_equal]
pub struct SQuat {
    pub x: FloatBits,
    pub y: FloatBits,
    pub z: FloatBits,
    pub w: FloatBits,
}

impl DeepView for SQuat {
    type V = SQuat;

    open spec fn deep_view(&self) -> SQuat {
        *self
    }
}

impl Codec for SQuat {
    open spec fn enc_ok(v: SQuat) -> bool {
        true
    }

    open spec fn wire(v: SQuat) -> Seq<u8> {
        FloatBits::wire(v.x) + FloatBits::wire(v.y) + FloatBits::wire(v.z) + FloatBits::wire(v.w)
    }

    open spec fn dec(b: Seq<u8>, pos: int) -> Result<(SQuat, int), DecodeError> {
        match FloatBits::dec(b, pos) {
            Ok((x, p1)) => {
            match FloatBits::dec(b, p1) {
                Ok((y, p2)) => {
                match FloatBits::dec(b, p2) {
                    Ok((z, p3)) => {
                    match FloatBits::dec(b, p3) {
                        Ok((w, p4)) => {
                        Ok((SQuat { x, y, z, w }, p4))
                        },
                        Err(e) => Err(e),
                    }
                    },
                    Err(e) => Err(e),
                }
                },
                Err(e) => Err(e),
            }
            },
            Err(e) => Err(e),
        }
    }

    proof fn lemma_dec_wire(v: SQuat, b: Seq<u8>, pos: int) {
        let w0 = FloatBits::wire(v.x);
        let w1 = FloatBits::wire(v.y);
        let w2 = FloatBits::wire(v.z);
        let w3 = FloatBits::wire(v.w);
        assert(Self::wire(v) =~= w0 + (w1 + (w2 + (w3))));
        let p0 = pos;
        lemma_subrange_split(b, p0, w0, w1 + (w2 + (w3)));
        FloatBits::lemma_dec_wire(v.x, b, p0);
        let p1 = p0 + w0.len();
        lemma_subrange_split(b, p1, w1, w2 + (w3));
        FloatBits::lemma_dec_wire(v.y, b, p1);
        let p2 = p1 + w1.len();
        lemma_subrange_split(b, p2, w2, w3);
        FloatBits::lemma_dec_wire(v.z, b, p2);
        let p3 = p2 + w2.len();
        FloatBits::lemma_dec_wire(v.w, b, p3);
        assert((SQuat { x: v.x, y: v.y, z: v.z, w: v.w }) =~= v);
    }

    fn decode(b: &[u8], pos: usize) -> (r: Result<(SQuat, usize), DecodeError>) {
        let (x, at1) = match FloatBits::decode(b, pos) {
            Ok(x) => x,
            Err(e) => return Err(e),
        };
        let (y, at2) = match FloatBits::decode(b, at1) {
            Ok(x) => x,
            Err(e) => return Err(e),
        };
        let (z, at3) = match FloatBits::decode(b, at2) {
            Ok(x) => x,
            Err(e) => return Err(e),
        };
        let (w, at4) = match FloatBits::decode(b, at3) {
            Ok(x) => x,
            Err(e) => return Err(e),
        };
        Ok((SQuat { x, y, z, w }, at4))
    }

    fn encode(&self, out: &mut Vec<u8>) -> (r: Result<(), EncodeError>) {
        match self.x.encode(out) {
            Ok(()) => (),
            Err(e) => return Err(e),
        };
        match self.y.encode(out) {
            Ok(()) => (),
            Err(e) => return Err(e),
        };
        match self.z.encode(out) {
            Ok(()) => (),
            Err(e) => return Err(e),
        };
        match self.w.encode(out) {
            Ok(()) => (),
            Err(e) => return Err(e),
        };
        proof {
            assert(out@ =~= old(out)@ + Self::wire(self.deep_view()));
        }
        Ok(())
    }
}

/// A byte-scaled fraction: one raw byte standing for
/// `raw * FACTOR / 255` of the unquantized value.
#[derive(Debug, Default, Clone, Copy, PartialEq)]
#[verifier::ext_equal]
pub struct ByteFloat<const FACTOR: u16>(pub u8);

impl<const FACTOR: u16> DeepView for ByteFloat<FACTOR> {
    type V = ByteFloat<FACTOR>;

    open spec fn deep_view(&self) -> ByteFloat<FACTOR> {
        *self
    }
}

impl<const FACTOR: u16> Codec for ByteFloat<FACTOR> {
    open spec fn enc_ok(v: ByteFloat<FACTOR>) -> bool {
        true
    }

    open spec fn wire(v: ByteFloat<FACTOR>) -> Seq<u8> {
        u8::wire(v.0)
    }

    open spec fn dec(b: Seq<u8>, pos: int) -> Result<(ByteFloat<FACTOR>, int), DecodeError> {
        match u8::dec(b, pos) {
            Ok((f0, p1)) => {
            Ok((ByteFloat(f0), p1))
            },
            Err(e) => Err(e),
        }
    }

    proof fn lemma_dec_wire(v: ByteFloat<FACTOR>, b: Seq<u8>, pos: int) {
        let w0 = u8::wire(v.0);
        let p0 = pos;
        u8::lemma_dec_wire(v.0, b, p0);
        assert(ByteFloat(v.0) =~= v);
    }

    fn decode(b: &[u8], pos: usize) -> (r: Result<(ByteFloat<FACTOR>, usize), DecodeError>) {
        let (f0, at1) = match u8::decode(b, pos) {
            Ok(x) => x,
            Err(e) => return Err(e),
        };
        Ok((ByteFloat(f0), at1))
    }

    fn encode(&self, out: &mut Vec<u8>) -> (r: Result<(), EncodeError>) {
        match self.0.encode(out) {
            Ok(()) => (),
            Err(e) => return Err(e),
        };
        proof {
            assert(out@ =~= old(out)@ + Self::wire(self.deep_view()));
        }
        Ok(())
    }
}

/// A byte-scaled fraction standing for `raw * FACTOR / 32767` of the
/// unquantized value.
#[derive(Debug, Default, Clone, Copy, PartialEq)]
#[verifier::ext_equal]
pub struct ShortFloat<const FACTOR: u16>(pub u8);

impl<const FACTOR: u16> DeepView for ShortFloat<FACTOR> {
    type V = ShortFloat<FACTOR>;

    open spec fn deep_view(&self) -> ShortFloat<FACTOR> {
        *self
    }
}

impl<const FACTOR: u16> Codec for ShortFloat<FACTOR> {
    open spec fn enc_ok(v: ShortFloat<FACTOR>) -> bool {
        true
    }

    open spec fn wire(v: ShortFloat<FACTOR>) -> Seq<u8> {
        u8::wire(v.0)
    }

    open spec fn dec(b: Seq<u8>, pos: int) -> Result<(ShortFloat<FACTOR>, int), DecodeError> {
        match u8::dec(b, pos) {
            Ok((f0, p1)) => {
            Ok((ShortFloat(f0), p1))
            },
            Err(e) => Err(e),
        }
    }

    proof fn lemma_dec_wire(v: ShortFloat<FACTOR>, b: Seq<u8>, pos: int) {
        let w0 = u8::wire(v.0);
        let p0 = pos;
        u8::lemma_dec_wire(v.0, b, p0);
        assert(ShortFloat(v.0) =~= v);
    }

    fn decode(b: &[u8], pos: usize) -> (r: Result<(ShortFloat<FACTOR>, usize), DecodeError>) {
        let (f0, at1) = match u8::decode(b, pos) {
            Ok(x) => x,
            Err(e) => return Err(e),
        };
        Ok((ShortFloat(f0), at1))
    }

    fn encode(&self, out: &mut Vec<u8>) -> (r: Result<(), EncodeError>) {
        match self.0.encode(out) {
            Ok(()) => (),
            Err(e) => return Err(e),
        };
        proof {
            assert(out@ =~= old(out)@ + Self::wire(self.deep_view()));
        }
        Ok(())
    }
}

/// One capture point: its placement, owning team and progress.
#[derive(Debug, Default, Clone, Copy, PartialEq)]
#[verifier::ext_equal]
pub struct CapturePoint {
    pub pos: PosQuatPair,
    pub team: i8,
    pub progress: ByteFloat<4>,
    pub max_progress: ByteFloat<4>,
}

impl DeepView for CapturePoint {
    type V = CapturePoint;

    open spec fn deep_view(&self) -> CapturePoint {
        *self
    }
}

impl Codec for CapturePoint {
    open spec fn enc_ok(v: CapturePoint) -> bool {
        true
    }

    open spec fn wire(v: CapturePoint) -> Seq<u8> {
        PosQuatPair::wire(v.pos) + i8::wire(v.team) + ByteFloat::<4>::wire(v.progress) + ByteFloat::<4>::wire(v.max_progress)
    }

    open spec fn dec(b: Seq<u8>, pos: int) -> Result<(CapturePoint, int), DecodeError> {
        match PosQuatPair::dec(b, pos) {
            Ok((pos, p1)) => {
            match i8::dec(b, p1) {
                Ok((team, p2)) => {
                match ByteFloat::<4>::dec(b, p2) {
                    Ok((progress, p3)) => {
                    match ByteFloat::<4>::dec(b, p3) {
                        Ok((max_progress, p4)) => {
                        Ok((CapturePoint { pos, team, progress, max_progress }, p4))
                        },
                        Err(e) => Err(e),
                    }
                    },
                    Err(e) => Err(e),
                }
                },
                Err(e) => Err(e),
            }
            },
            Err(e) => Err(e),
        }
    }

    proof fn lemma_dec_wire(v: CapturePoint, b: Seq<u8>, pos: int) {
        let w0 = PosQuatPair::wire(v.pos);
        let w1 = i8::wire(v.team);
        let w2 = ByteFloat::<4>::wire(v.progress);
        let w3 = ByteFloat::<4>::wire(v.max_progress);
        assert(Self::wire(v) =~= w0 + (w1 + (w2 + (w3))));
        let p0 = pos;
        lemma_subrange_split(b, p0, w0, w1 + (w2 + (w3)));
        PosQuatPair::lemma_dec_wire(v.pos, b, p0);
        let p1 = p0 + w0.len();
        lemma_subrange_split(b, p1, w1, w2 + (w3));
        i8::lemma_dec_wire(v.team, b, p1);
        let p2 = p1 + w1.len();
        lemma_subrange_split(b, p2, w2, w3);
        ByteFloat::<4>::lemma_dec_wire(v.progress, b, p2);
        let p3 = p2 + w2.len();
        ByteFloat::<4>::lemma_dec_wire(v.max_progress, b, p3);
        assert((CapturePoint { pos: v.pos, team: v.team, progress: v.progress, max_progress: v.max_progress }) =~= v);
    }

    fn decode(b: &[u8], pos: usize) -> (r: Result<(CapturePoint, usize), DecodeError>) {
        let (pos, at1) = match PosQuatPair::decode(b, pos) {
            Ok(x) => x,
            Err(e) => return Err(e),
        };
        let (team, at2) = match i8::decode(b, at1) {
            Ok(x) => x,
            Err(e) => return Err(e),
        };
        let (progress, at3) = match ByteFloat::<4>::decode(b, at2) {
            Ok(x) => x,
            Err(e) => return Err(e),
        };
        let (max_progress, at4) = match ByteFloat::<4>::decode(b, at3) {
            Ok(x) => x,
            Err(e) => return Err(e),
        };
        Ok((CapturePoint { pos, team, progress, max_progress }, at4))
    }

    fn encode(&self, out: &mut Vec<u8>) -> (r: Result<(), EncodeError>) {
        match self.pos.encode(out) {
            Ok(()) => (),
            Err(e) => return Err(e),
        };
        match self.team.encode(out) {
            Ok(()) => (),
            Err(e) => return Err(e),
        };
        match self.progress.encode(out) {
            Ok(()) => (),
            Err(e) => return Err(e),
        };
        match self.max_progress.encode(out) {
            Ok(()) => (),
            Err(e) => return Err(e),
        };
        proof {
            assert(out@ =~= old(out)@ + Self::wire(self.deep_view()));
        }
        Ok(())
    }
}

/// One cube hit: where, and for how much.
#[derive(Debug, Default, Clone, Copy, PartialEq)]
#[verifier::ext_equal]
pub struct HitCubeInfo {
    pub pos: Byte3,
    pub damage: i32,
}

impl DeepView for HitCubeInfo {
    type V = HitCubeInfo;

    open spec fn deep_view(&self) -> HitCubeInfo {
        *self
    }
}

impl Codec for HitCubeInfo {
    open spec fn enc_ok(v: HitCubeInfo) -> bool {
        true
    }

    open spec fn wire(v: HitCubeInfo) -> Seq<u8> {
        Byte3::wire(v.pos) + i32::wire(v.damage)
    }

    open spec fn dec(b: Seq<u8>, pos: int) -> Result<(HitCubeInfo, int), DecodeError> {
        match Byte3::dec(b, pos) {
            Ok((pos, p1)) => {
            match i32::dec(b, p1) {
                Ok((damage, p2)) => {
                Ok((HitCubeInfo { pos, damage }, p2))
                },
                Err(e) => Err(e),
            }
            },
            Err(e) => Err(e),
        }
    }

    proof fn lemma_dec_wire(v: HitCubeInfo, b: Seq<u8>, pos: int) {
        let w0 = Byte3::wire(v.pos);
        let w1 = i32::wire(v.damage);
        assert(Self::wire(v) =~= w0 + (w1));
        let p0 = pos;
        lemma_subrange_split(b, p0, w0, w1);
        Byte3::lemma_dec_wire(v.pos, b, p0);
        let p1 = p0 + w0.len();
        i32::lemma_dec_wire(v.damage, b, p1);
        assert((HitCubeInfo { pos: v.pos, damage: v.damage }) =~= v);
    }

    fn decode(b: &[u8], pos: usize) -> (r: Result<(HitCubeInfo, usize), DecodeError>) {
        let (pos, at1) = match Byte3::decode(b, pos) {
            Ok(x) => x,
            Err(e) => return Err(e),
        };
        let (damage, at2) = match i32::decode(b, at1) {
            Ok(x) => x,
            Err(e) => return Err(e),
        };
        Ok((HitCubeInfo { pos, damage }, at2))
    }

    fn encode(&self, out: &mut Vec<u8>) -> (r: Result<(), EncodeError>) {
        match self.pos.encode(out) {
            Ok(()) => (),
            Err(e) => return Err(e),
        };
        match self.damage.encode(out) {
            Ok(()) => (),
            Err(e) => return Err(e),
        };
        proof {
            assert(out@ =~= old(out)@ + Self::wire(self.deep_view()));
        }
        Ok(())
    }
}

/// One statistic entry: which stat, its amount, and the score it gave.
#[derive(Debug, Default, Clone, Copy, PartialEq)]
#[verifier::ext_equal]
pub struct IngameStat {
    pub id: IngameStatId,
    pub amount: u32,
    pub score: u32,
}

impl DeepView for IngameStat {
    type V = IngameStat;

    open spec fn deep_view(&self) -> IngameStat {
        *self
    }
}

impl Codec for IngameStat {
    open spec fn enc_ok(v: IngameStat) -> bool {
        true
    }

    open spec fn wire(v: IngameStat) -> Seq<u8> {
        IngameStatId::wire(v.id) + u32::wire(v.amount) + u32::wire(v.score)
    }

    open spec fn dec(b: Seq<u8>, pos: int) -> Result<(IngameStat, int), DecodeError> {
        match IngameStatId::dec(b, pos) {
            Ok((id, p1)) => {
            match u32::dec(b, p1) {
                Ok((amount, p2)) => {
                match u32::dec(b, p2) {
                    Ok((score, p3)) => {
                    Ok((IngameStat { id, amount, score }, p3))
                    },
                    Err(e) => Err(e),
                }
                },
                Err(e) => Err(e),
            }
            },
            Err(e) => Err(e),
        }
    }

    proof fn lemma_dec_wire(v: IngameStat, b: Seq<u8>, pos: int) {
        let w0 = IngameStatId::wire(v.id);
        let w1 = u32::wire(v.amount);
        let w2 = u32::wire(v.score);
        assert(Self::wire(v) =~= w0 + (w1 + (w2)));
        let p0 = pos;
        lemma_subrange_split(b, p0, w0, w1 + (w2));
        IngameStatId::lemma_dec_wire(v.id, b, p0);
        let p1 = p0 + w0.len();
        lemma_subrange_split(b, p1, w1, w2);
        u32::lemma_dec_wire(v.amount, b, p1);
        let p2 = p1 + w1.len();
        u32::lemma_dec_wire(v.score, b, p2);
        assert((IngameStat { id: v.id, amount: v.amount, score: v.score }) =~= v);
    }

    fn decode(b: &[u8], pos: usize) -> (r: Result<(IngameStat, usize), DecodeError>) {
        let (id, at1) = match IngameStatId::decode(b, pos) {
            Ok(x) => x,
            Err(e) => return Err(e),
        };
        let (amount, at2) = match u32::decode(b, at1) {
            Ok(x) => x,
            Err(e) => return Err(e),
        };
        let (score, at3) = match u32::decode(b, at2) {
            Ok(x) => x,
            Err(e) => return Err(e),
        };
        Ok((IngameStat { id, amount, score }, at3))
    }

    fn encode(&self, out: &mut Vec<u8>) -> (r: Result<(), EncodeError>) {
        match self.id.encode(out) {
            Ok(()) => (),
            Err(e) => return Err(e),
        };
        match self.amount.encode(out) {
            Ok(()) => (),
            Err(e) => return Err(e),
        };
        match self.score.encode(out) {
            Ok(()) => (),
            Err(e) => return Err(e),
        };
        proof {
            assert(out@ =~= old(out)@ + Self::wire(self.deep_view()));
        }
        Ok(())
    }
}

/// An item named by category and tier.
#[derive(Debug, Default, Clone, Copy, PartialEq)]
#[verifier::ext_equal]
pub struct ItemDescriptor {
    pub category: ItemCategory,
    pub size: ItemSize,
}

impl DeepView for ItemDescriptor {
    type V = ItemDescriptor;

    open spec fn deep_view(&self) -> ItemDescriptor {
        *self
    }
}

impl Codec for ItemDescriptor {
    open spec fn enc_ok(v: ItemDescriptor) -> bool {
        true
    }

    open spec fn wire(v: ItemDescriptor) -> Seq<u8> {
        ItemCategory::wire(v.category) + ItemSize::wire(v.size)
    }

    open spec fn dec(b: Seq<u8>, pos: int) -> Result<(ItemDescriptor, int), DecodeError> {
        match ItemCategory::dec(b, pos) {
            Ok((category, p1)) => {
            match ItemSize::dec(b, p1) {
                Ok((size, p2)) => {
                Ok((ItemDescriptor { category, size }, p2))
                },
                Err(e) => Err(e),
            }
            },
            Err(e) => Err(e),
        }
    }

    proof fn lemma_dec_wire(v: ItemDescriptor, b: Seq<u8>, pos: int) {
        let w0 = ItemCategory::wire(v.category);
        let w1 = ItemSize::wire(v.size);
        assert(Self::wire(v) =~= w0 + (w1));
        let p0 = pos;
        lemma_subrange_split(b, p0, w0, w1);
        ItemCategory::lemma_dec_wire(v.category, b, p0);
        let p1 = p0 + w0.len();
        ItemSize::lemma_dec_wire(v.size, b, p1);
        assert((ItemDescriptor { category: v.category, size: v.size }) =~= v);
    }

    fn decode(b: &[u8], pos: usize) -> (r: Result<(ItemDescriptor, usize), DecodeError>) {
        let (category, at1) = match ItemCategory::decode(b, pos) {
            Ok(x) => x,
            Err(e) => return Err(e),
        };
        let (size, at2) = match ItemSize::decode(b, at1) {
            Ok(x) => x,
            Err(e) => return Err(e),
        };
        Ok((ItemDescriptor { category, size }, at2))
    }

    fn encode(&self, out: &mut Vec<u8>) -> (r: Result<(), EncodeError>) {
        match self.category.encode(out) {
            Ok(()) => (),
            Err(e) => return Err(e),
        };
        match self.size.encode(out) {
            Ok(()) => (),
            Err(e) => return Err(e),
        };
        proof {
            assert(out@ =~= old(out)@ + Self::wire(self.deep_view()));
        }
        Ok(())
    }
}

/// Rule settings a mode runs under.
#[derive(Debug, Default, Clone, Copy, PartialEq)]
#[verifier::ext_equal]
pub struct GameModeSettings {
    pub game_time_minutes: i32,
    pub kill_limit: i32,
    pub respawn_heal_duration: FloatBits,
    pub respawn_full_heal_duration: FloatBits,
}

impl DeepView for GameModeSettings {
    type V = GameModeSettings;

    open spec fn deep_view(&self) -> GameModeSettings {
        *self
    }
}

impl Codec for GameModeSettings {
    open spec fn enc_ok(v: GameModeSettings) -> bool {
        true
    }

    open spec fn wire(v: GameModeSettings) -> Seq<u8> {
        i32::wire(v.game_time_minutes) + i32::wire(v.kill_limit) + FloatBits::wire(v.respawn_heal_duration) + FloatBits::wire(v.respawn_full_heal_duration)
    }

    open spec fn dec(b: Seq<u8>, pos: int) -> Result<(GameModeSettings, int), DecodeError> {
        match i32::dec(b, pos) {
            Ok((game_time_minutes, p1)) => {
            match i32::dec(b, p1) {
                Ok((kill_limit, p2)) => {
                match FloatBits::dec(b, p2) {
                    Ok((respawn_heal_duration, p3)) => {
                    match FloatBits::dec(b, p3) {
                        Ok((respawn_full_heal_duration, p4)) => {
                        Ok((GameModeSettings { game_time_minutes, kill_limit, respawn_heal_duration, respawn_full_heal_duration }, p4))
                        },
                        Err(e) => Err(e),
                    }
                    },
                    Err(e) => Err(e),
                }
                },
                Err(e) => Err(e),
            }
            },
            Err(e) => Err(e),
        }
    }

    proof fn lemma_dec_wire(v: GameModeSettings, b: Seq<u8>, pos: int) {
        let w0 = i32::wire(v.game_time_minutes);
        let w1 = i32::wire(v.kill_limit);
        let w2 = FloatBits::wire(v.respawn_heal_duration);
        let w3 = FloatBits::wire(v.respawn_full_heal_duration);
        assert(Self::wire(v) =~= w0 + (w1 + (w2 + (w3))));
        let p0 = pos;
        lemma_subrange_split(b, p0, w0, w1 + (w2 + (w3)));
        i32::lemma_dec_wire(v.game_time_minutes, b, p0);
        let p1 = p0 + w0.len();
        lemma_subrange_split(b, p1, w1, w2 + (w3));
        i32::lemma_dec_wire(v.kill_limit, b, p1);
        let p2 = p1 + w1.len();
        lemma_subrange_split(b, p2, w2, w3);
        FloatBits::lemma_dec_wire(v.respawn_heal_duration, b, p2);
        let p3 = p2 + w2.len();
        FloatBits::lemma_dec_wire(v.respawn_full_heal_duration, b, p3);
        assert((GameModeSettings { game_time_minutes: v.game_time_minutes, kill_limit: v.kill_limit, respawn_heal_duration: v.respawn_heal_duration, respawn_full_heal_duration: v.respawn_full_heal_duration }) =~= v);
    }

    fn decode(b: &[u8], pos: usize) -> (r: Result<(GameModeSettings, usize), DecodeError>) {
        let (game_time_minutes, at1) = match i32::decode(b, pos) {
            Ok(x) => x,
            Err(e) => return Err(e),
        };
        let (kill_limit, at2) = match i32::decode(b, at1) {
            Ok(x) => x,
            Err(e) => return Err(e),
        };
        let (respawn_heal_duration, at3) = match FloatBits::decode(b, at2) {
            Ok(x) => x,
            Err(e) => return Err(e),
        };
        let (respawn_full_heal_duration, at4) = match FloatBits::decode(b, at3) {
            Ok(x) => x,
            Err(e) => return Err(e),
        };
        Ok((GameModeSettings { game_time_minutes, kill_limit, respawn_heal_duration, respawn_full_heal_duration }, at4))
    }

    fn encode(&self, out: &mut Vec<u8>) -> (r: Result<(), EncodeError>) {
        match self.game_time_minutes.encode(out) {
            Ok(()) => (),
            Err(e) => return Err(e),
        };
        match self.kill_limit.encode(out) {
            Ok(()) => (),
            Err(e) => return Err(e),
        };
        match self.respawn_heal_duration.encode(out) {
            Ok(()) => (),
            Err(e) => return Err(e),
        };
        match self.respawn_full_heal_duration.encode(out) {
            Ok(()) => (),
            Err(e) => return Err(e),
        };
        proof {
            assert(out@ =~= old(out)@ + Self::wire(self.deep_view()));
        }
        Ok(())
    }
}

/// One cube history record. A destroyed cube carries no trailing damage
/// amount; a healed cube carries one: the two shapes have genuinely
/// different wire lengths, so a record whose tag denies the amount cannot
/// hold one.
#[derive(Debug, Clone, Copy, PartialEq)]
pub enum CubeStatus {
    Destroy,
    Heal { damage: i32 },
}

impl CubeStatus {
    /// The tag this record carries on the wire.
    pub open spec fn spec_ty(self) -> CubeHistoryEventType {
        match self {
            CubeStatus::Destroy => CubeHistoryEventType::Destroy,
            CubeStatus::Heal { .. } => CubeHistoryEventType::Heal,
        }
    }

    /// The tag this record carries on the wire.
    pub fn ty(&self) -> (r: CubeHistoryEventType)
        ensures
            r == self.spec_ty(),
    {
        match self {
            CubeStatus::Destroy => CubeHistoryEventType::Destroy,
            CubeStatus::Heal { .. } => CubeHistoryEventType::Heal,
        }
    }

    /// The damage amount, present exactly on heal records.
    pub open spec fn spec_damage(self) -> Option<i32> {
        match self {
            CubeStatus::Destroy => None,
            CubeStatus::Heal { damage } => Some(damage),
        }
    }

    /// The damage amount, present exactly on heal records.
    pub fn damage(&self) -> (r: Option<i32>)
        ensures
            r == self.spec_damage(),
    {
        match self {
            CubeStatus::Destroy => None,
            CubeStatus::Heal { damage } => Some(*damage),
        }
    }
}

impl DeepView for CubeStatus {
    type V = CubeStatus;

    open spec fn deep_view(&self) -> CubeStatus {
        *self
    }
}

impl Codec for CubeStatus {
    open spec fn enc_ok(v: CubeStatus) -> bool {
        true
    }

    open spec fn wire(v: CubeStatus) -> Seq<u8> {
        CubeHistoryEventType::wire(v.spec_ty()) + match v {
            CubeStatus::Destroy => Seq::empty(),
            CubeStatus::Heal { damage } => i32::wire(damage),
        }
    }

    open spec fn dec(b: Seq<u8>, pos: int) -> Result<(CubeStatus, int), DecodeError> {
        match CubeHistoryEventType::dec(b, pos) {
            Ok((t, p)) => match t {
                CubeHistoryEventType::Destroy => Ok((CubeStatus::Destroy, p)),
                CubeHistoryEventType::Heal => match i32::dec(b, p) {
                    Ok((d, end)) => Ok((CubeStatus::Heal { damage: d }, end)),
                    Err(e) => Err(e),
                },
            },
            Err(e) => Err(e),
        }
    }

    proof fn lemma_dec_wire(v: CubeStatus, b: Seq<u8>, pos: int) {
        match v {
            CubeStatus::Destroy => {
                assert(Self::wire(v) =~= CubeHistoryEventType::wire(CubeHistoryEventType::Destroy));
                CubeHistoryEventType::lemma_dec_wire(CubeHistoryEventType::Destroy, b, pos);
            },
            CubeStatus::Heal { damage } => {
                let w0 = CubeHistoryEventType::wire(CubeHistoryEventType::Heal);
                let w1 = i32::wire(damage);
                assert(Self::wire(v) =~= w0 + w1);
                lemma_subrange_split(b, pos, w0, w1);
                CubeHistoryEventType::lemma_dec_wire(CubeHistoryEventType::Heal, b, pos);
                i32::lemma_dec_wire(damage, b, pos + w0.len());
            },
        }
    }

    fn decode(b: &[u8], pos: usize) -> (r: Result<(CubeStatus, usize), DecodeError>) {
        let (t, p) = match CubeHistoryEventType::decode(b, pos) {
            Ok(x) => x,
            Err(e) => return Err(e),
        };
        match t {
            CubeHistoryEventType::Destroy => Ok((CubeStatus::Destroy, p)),
            CubeHistoryEventType::Heal => match i32::decode(b, p) {
                Ok((d, end)) => Ok((CubeStatus::Heal { damage: d }, end)),
                Err(e) => Err(e),
            },
        }
    }

    fn encode(&self, out: &mut Vec<u8>) -> (r: Result<(), EncodeError>) {
        match self {
            CubeStatus::Destroy => {
                let r0 = self.ty().encode(out);
                proof {
                    assert(r0 is Ok);
                    assert(out@ =~= old(out)@ + Self::wire(self.deep_view()));
                }
                Ok(())
            },
            CubeStatus::Heal { damage } => {
                let r0 = self.ty().encode(out);
                proof {
                    assert(r0 is Ok);
                }
                let r1 = damage.encode(out);
                proof {
                    assert(r1 is Ok);
                    assert(out@ =~= old(out)@ + Self::wire(self.deep_view()));
                }
                Ok(())
            },
        }
    }
}

/// A destroy tag decodes alone: no trailing bytes are read, and a buffer
/// that ends right after the tag still decodes.
pub proof fn lemma_cube_status_absent(b: Seq<u8>, pos: int)
    requires
        0 <= pos < b.len(),
        b[pos] == 1,
    ensures
        CubeStatus::dec(b, pos) == Ok::<(CubeStatus, int), DecodeError>(
            (CubeStatus::Destroy, pos + 1),
        ),
{
}

/// A heal tag demands four trailing bytes: a buffer that ends before them
/// is truncated input.
pub proof fn lemma_cube_status_truncated(b: Seq<u8>, pos: int)
    requires
        0 <= pos < b.len(),
        b[pos] == 2,
        b.len() < pos + 5,
    ensures
        CubeStatus::dec(b, pos) == Err::<(CubeStatus, int), DecodeError>(
            DecodeError::TruncatedInput,
        ),
{
}

/// One cube's location and what happened to it.
#[derive(Debug, Clone, Copy, PartialEq)]
#[verifier::ext_equal]
pub struct CubeState {
    pub loc: Byte3,
    pub status: CubeStatus,
}

impl DeepView for CubeState {
    type V = CubeState;

    open spec fn deep_view(&self) -> CubeState {
        *self
    }
}

impl Codec for CubeState {
    open spec fn enc_ok(v: CubeState) -> bool {
        true
    }

    open spec fn wire(v: CubeState) -> Seq<u8> {
        Byte3::wire(v.loc) + CubeStatus::wire(v.status)
    }

    open spec fn dec(b: Seq<u8>, pos: int) -> Result<(CubeState, int), DecodeError> {
        match Byte3::dec(b, pos) {
            Ok((loc, p1)) => {
            match CubeStatus::dec(b, p1) {
                Ok((status, p2)) => {
                Ok((CubeState { loc, status }, p2))
                },
                Err(e) => Err(e),
            }
            },
            Err(e) => Err(e),
        }
    }

    proof fn lemma_dec_wire(v: CubeState, b: Seq<u8>, pos: int) {
        let w0 = Byte3::wire(v.loc);
        let w1 = CubeStatus::wire(v.status);
        assert(Self::wire(v) =~= w0 + (w1));
        let p0 = pos;
        lemma_subrange_split(b, p0, w0, w1);
        Byte3::lemma_dec_wire(v.loc, b, p0);
        let p1 = p0 + w0.len();
        CubeStatus::lemma_dec_wire(v.status, b, p1);
        assert((CubeState { loc: v.loc, status: v.status }) =~= v);
    }

    fn decode(b: &[u8], pos: usize) -> (r: Result<(CubeState, usize), DecodeError>) {
        let (loc, at1) = match Byte3::decode(b, pos) {
            Ok(x) => x,
            Err(e) => return Err(e),
        };
        let (status, at2) = match CubeStatus::decode(b, at1) {
            Ok(x) => x,
            Err(e) => return Err(e),
        };
        Ok((CubeState { loc, status }, at2))
    }

    fn encode(&self, out: &mut Vec<u8>) -> (r: Result<(), EncodeError>) {
        match self.loc.encode(out) {
            Ok(()) => (),
            Err(e) => return Err(e),
        };
        match self.status.encode(out) {
            Ok(()) => (),
            Err(e) => return Err(e),
        };
        proof {
            assert(out@ =~= old(out)@ + Self::wire(self.deep_view()));
        }
        Ok(())
    }
}

/// One player's statistics block: the player, then a count-prefixed run
/// of stat entries.
#[derive(Debug, Default, Clone, PartialEq)]
#[verifier::ext_equal]
pub struct IngamePlayerStats {
    pub player_name: u8,
    pub stats: Vec<IngameStat>,
}

/// Model of a [`IngamePlayerStats`] value: sequences stand for the vectors.
#[verifier::ext_equal]
pub struct IngamePlayerStatsV {
    pub player_name: u8,
    pub stats: Seq<IngameStat>,
}

impl DeepView for IngamePlayerStats {
    type V = IngamePlayerStatsV;

    open spec fn deep_view(&self) -> IngamePlayerStatsV {
        IngamePlayerStatsV {
            player_name: self.player_name,
            stats: self.stats.deep_view(),
        }
    }
}

impl Codec for IngamePlayerStats {
    open spec fn enc_ok(v: IngamePlayerStatsV) -> bool {
        counted_ok_u8::<IngameStat>(v.stats)
    }

    open spec fn wire(v: IngamePlayerStatsV) -> Seq<u8> {
        u8::wire(v.player_name) + wire_counted_u8::<IngameStat>(v.stats)
    }

    open spec fn dec(b: Seq<u8>, pos: int) -> Result<(IngamePlayerStatsV, int), DecodeError> {
        match u8::dec(b, pos) {
            Ok((player_name, p1)) => {
            match dec_counted_u8::<IngameStat>(b, p1) {
                Ok((stats, p2)) => {
                Ok((IngamePlayerStatsV { player_name, stats }, p2))
                },
                Err(e) => Err(e),
            }
            },
            Err(e) => Err(e),
        }
    }

    proof fn lemma_dec_wire(v: IngamePlayerStatsV, b: Seq<u8>, pos: int) {
        let w0 = u8::wire(v.player_name);
        let w1 = wire_counted_u8::<IngameStat>(v.stats);
        assert(Self::wire(v) =~= w0 + (w1));
        let p0 = pos;
        lemma_subrange_split(b, p0, w0, w1);
        u8::lemma_dec_wire(v.player_name, b, p0);
        let p1 = p0 + w0.len();
        lemma_dec_wire_counted_u8::<IngameStat>(v.stats, b, p1);
        assert((IngamePlayerStatsV { player_name: v.player_name, stats: v.stats }) =~= v);
    }

    fn decode(b: &[u8], pos: usize) -> (r: Result<(IngamePlayerStats, usize), DecodeError>) {
        let (player_name, at1) = match u8::decode(b, pos) {
            Ok(x) => x,
            Err(e) => return Err(e),
        };
        let (stats, at2) = match decode_counted_u8::<IngameStat>(b, at1) {
            Ok(x) => x,
            Err(e) => return Err(e),
        };
        Ok((IngamePlayerStats { player_name, stats }, at2))
    }

    fn encode(&self, out: &mut Vec<u8>) -> (r: Result<(), EncodeError>) {
        match self.player_name.encode(out) {
            Ok(()) => (),
            Err(e) => return Err(e),
        };
        match encode_counted_u8::<IngameStat>(&self.stats, out) {
            Ok(()) => (),
            Err(e) => return Err(e),
        };
        proof {
            assert(out@ =~= old(out)@ + Self::wire(self.deep_view()));
        }
        Ok(())
    }
}

/// A length-prefixed UTF-16 string: a 7-bit variable-length count of
/// UTF-16 code units, then that many units in big-endian order, following
/// the external binary-writer convention. The value holds the code units;
/// a unit count is what the prefix measures, so a character outside the
/// basic plane counts twice.
#[derive(Debug, Default, Clone, PartialEq)]
pub struct BinaryWriterString(pub Vec<u16>);

impl DeepView for BinaryWriterString {
    type V = Seq<u16>;

    open spec fn deep_view(&self) -> Seq<u16> {
        self.0@
    }
}

impl Codec for BinaryWriterString {
    open spec fn enc_ok(v: Seq<u16>) -> bool {
        valid_utf16(v)
    }

    open spec fn wire(v: Seq<u16>) -> Seq<u8> {
        wire_varint(v.len()) + wire_utf16(v)
    }

    open spec fn dec(b: Seq<u8>, pos: int) -> Result<(Seq<u16>, int), DecodeError> {
        match dec_varint(b, pos) {
            Ok((n, p)) => if p + 2 * n <= b.len() {
                let units = dec_utf16_units(b, p, n);
                if valid_utf16(units) {
                    Ok((units, p + 2 * n))
                } else {
                    Err(DecodeError::InvalidStringEncoding)
                }
            } else {
                Err(DecodeError::TruncatedInput)
            },
            Err(e) => Err(e),
        }
    }

    proof fn lemma_dec_wire(v: Seq<u16>, b: Seq<u8>, pos: int) {
        let wv = wire_varint(v.len() as nat);
        let wu = wire_utf16(v);
        lemma_wire_utf16_index(v);
        lemma_subrange_split(b, pos, wv, wu);
        lemma_dec_wire_varint(v.len() as nat, b, pos);
        let p = pos + wv.len();
        let units = dec_utf16_units(b, p, v.len() as nat);
        assert forall|i: int| 0 <= i < v.len() implies units[i] == v[i] by {
            assert(b.subrange(p, p + wu.len())[2 * i] == b[p + 2 * i]);
            assert(b.subrange(p, p + wu.len())[2 * i + 1] == b[p + 2 * i + 1]);
            assert(wu[2 * i] == ((v[i] >> 8) & 0xff) as u8);
            assert(wu[2 * i + 1] == (v[i] & 0xff) as u8);
            lemma_be2_of(v[i]);
        }
        assert(units =~= v);
    }

    fn decode(b: &[u8], pos: usize) -> (r: Result<(Self, usize), DecodeError>) {
        let (n, p) = match decode_string_len(b, pos) {
            Ok(x) => x,
            Err(e) => return Err(e),
        };
        let blen = b.len();
        let mut units: Vec<u16> = Vec::new();
        let mut i: usize = 0;
        while i < n
            invariant
                i <= n,
                blen == b@.len(),
                p + 2 * n <= blen,
                units@.len() == i,
                forall|j: int|
                    0 <= j < i ==> #[trigger] units@[j] == crate::wire::u16_of_be(
                        b@[p + 2 * j],
                        b@[p + 2 * j + 1],
                    ),
            decreases n - i,
        {
            let hi = b[p + 2 * i];
            let lo = b[p + 2 * i + 1];
            units.push(((hi as u16) << 8) | (lo as u16));
            i = i + 1;
        }
        proof {
            assert(units@ =~= dec_utf16_units(b@, p as int, n as nat));
        }
        if utf16_ok(&units) {
            Ok((BinaryWriterString(units), p + 2 * n))
        } else {
            Err(DecodeError::InvalidStringEncoding)
        }
    }

    fn encode(&self, out: &mut Vec<u8>) -> (r: Result<(), EncodeError>) {
        if !utf16_ok(&self.0) {
            return Err(EncodeError::InvalidStringData);
        }
        let ghost base = out@;
        let n = self.0.len();
        encode_varint(n, out);
        let mut i: usize = 0;
        proof {
            assert(self.0@.take(0) =~= Seq::<u16>::empty());
            assert(wire_utf16(Seq::<u16>::empty()) == Seq::<u8>::empty());
            assert(out@ =~= base + wire_varint(n as nat) + wire_utf16(self.0@.take(0)));
        }
        while i < n
            invariant
                i <= n,
                n == self.0@.len(),
                out@ == base + wire_varint(n as nat) + wire_utf16(self.0@.take(i as int)),
            decreases n - i,
        {
            let u = self.0[i];
            out.push(((u >> 8) & 0xff) as u8);
            out.push((u & 0xff) as u8);
            proof {
                lemma_wire_utf16_push(self.0@.take(i as int), u);
                assert(self.0@.take(i as int).push(u) =~= self.0@.take(i + 1));
                assert(out@ =~= base + wire_varint(n as nat) + wire_utf16(self.0@.take(i + 1)));
            }
            i = i + 1;
        }
        proof {
            assert(self.0@.take(n as int) =~= self.0@);
            assert(out@ =~= base + (wire_varint(n as nat) + wire_utf16(self.0@)));
        }
        Ok(())
    }
}

/// A server string code: a status tag, then a custom message exactly when
/// the tag asks for one.
#[derive(Debug, Default, Clone, PartialEq)]
pub struct StringCode {
    pub ty: GameServerErrorCodes,
    pub custom: Option<BinaryWriterString>,
}

/// Model of a [`StringCode`] value.
#[verifier::ext_equal]
pub struct StringCodeV {
    pub ty: GameServerErrorCodes,
    pub custom: Option<Seq<u16>>,
}

impl DeepView for StringCode {
    type V = StringCodeV;

    open spec fn deep_view(&self) -> StringCodeV {
        StringCodeV { ty: self.ty, custom: self.custom.deep_view() }
    }
}

impl Codec for StringCode {
    open spec fn enc_ok(v: StringCodeV) -> bool {
        match v.custom {
            Some(s) => v.ty == GameServerErrorCodes::StrErrCustomString && valid_utf16(s),
            None => v.ty != GameServerErrorCodes::StrErrCustomString,
        }
    }

    open spec fn wire(v: StringCodeV) -> Seq<u8> {
        GameServerErrorCodes::wire(v.ty) + match v.custom {
            Some(s) => BinaryWriterString::wire(s),
            None => Seq::empty(),
        }
    }

    open spec fn dec(b: Seq<u8>, pos: int) -> Result<(StringCodeV, int), DecodeError> {
        match GameServerErrorCodes::dec(b, pos) {
            Ok((ty, p)) => if ty == GameServerErrorCodes::StrErrCustomString {
                match BinaryWriterString::dec(b, p) {
                    Ok((s, end)) => Ok((StringCodeV { ty, custom: Some(s) }, end)),
                    Err(e) => Err(e),
                }
            } else {
                Ok((StringCodeV { ty, custom: None }, p))
            },
            Err(e) => Err(e),
        }
    }

    proof fn lemma_dec_wire(v: StringCodeV, b: Seq<u8>, pos: int) {
        match v.custom {
            Some(s) => {
                let w0 = GameServerErrorCodes::wire(v.ty);
                let w1 = BinaryWriterString::wire(s);
                assert(Self::wire(v) =~= w0 + w1);
                lemma_subrange_split(b, pos, w0, w1);
                GameServerErrorCodes::lemma_dec_wire(v.ty, b, pos);
                BinaryWriterString::lemma_dec_wire(s, b, pos + w0.len());
                assert((StringCodeV { ty: v.ty, custom: Some(s) }) =~= v);
            },
            None => {
                assert(Self::wire(v) =~= GameServerErrorCodes::wire(v.ty));
                GameServerErrorCodes::lemma_dec_wire(v.ty, b, pos);
                assert((StringCodeV { ty: v.ty, custom: None }) =~= v);
            },
        }
    }

    fn decode(b: &[u8], pos: usize) -> (r: Result<(StringCode, usize), DecodeError>) {
        let (ty, p) = match GameServerErrorCodes::decode(b, pos) {
            Ok(x) => x,
            Err(e) => return Err(e),
        };
        if matches!(ty, GameServerErrorCodes::StrErrCustomString) {
            match BinaryWriterString::decode(b, p) {
                Ok((s, end)) => Ok((StringCode { ty, custom: Some(s) }, end)),
                Err(e) => Err(e),
            }
        } else {
            Ok((StringCode { ty, custom: None }, p))
        }
    }

    fn encode(&self, out: &mut Vec<u8>) -> (r: Result<(), EncodeError>) {
        match &self.custom {
            Some(s) => {
                if !matches!(self.ty, GameServerErrorCodes::StrErrCustomString) {
                    return Err(EncodeError::TagMismatch);
                }
                let r0 = self.ty.encode(out);
                proof {
                    assert(r0 is Ok);
                }
                match s.encode(out) {
                    Ok(()) => {
                        proof {
                            assert(out@ =~= old(out)@ + Self::wire(self.deep_view()));
                        }
                        Ok(())
                    },
                    Err(e) => Err(e),
                }
            },
            None => {
                if matches!(self.ty, GameServerErrorCodes::StrErrCustomString) {
                    return Err(EncodeError::TagMismatch);
                }
                let r0 = self.ty.encode(out);
                proof {
                    assert(r0 is Ok);
                    assert(out@ =~= old(out)@ + Self::wire(self.deep_view()));
                }
                Ok(())
            },
        }
    }
}

/// Round trip on a quantized vector: every representable raw component
/// triple survives encode-then-decode exactly.
pub proof fn lemma_compressed_vec3_round_trip<const FACTOR: u32>(v: CompressedVec3<FACTOR>)
    ensures
        CompressedVec3::<FACTOR>::dec(CompressedVec3::<FACTOR>::wire(v), 0) == Ok::<
            (CompressedVec3<FACTOR>, int),
            DecodeError,
        >((v, CompressedVec3::<FACTOR>::wire(v).len() as int)),
{
    crate::wire::lemma_round_trip::<CompressedVec3<FACTOR>>(v);
}

/// Round trip on a quantized quaternion.
pub proof fn lemma_compressed_quat_round_trip<const FACTOR: u32>(v: CompressedQuat<FACTOR>)
    ensures
        CompressedQuat::<FACTOR>::dec(CompressedQuat::<FACTOR>::wire(v), 0) == Ok::<
            (CompressedQuat<FACTOR>, int),
            DecodeError,
        >((v, CompressedQuat::<FACTOR>::wire(v).len() as int)),
{
    crate::wire::lemma_round_trip::<CompressedQuat<FACTOR>>(v);
}

/// Round trip on a byte-scaled fraction.
pub proof fn lemma_byte_float_round_trip<const FACTOR: u16>(v: ByteFloat<FACTOR>)
    ensures
        ByteFloat::<FACTOR>::dec(ByteFloat::<FACTOR>::wire(v), 0) == Ok::<
            (ByteFloat<FACTOR>, int),
            DecodeError,
        >((v, ByteFloat::<FACTOR>::wire(v).len() as int)),
{
    crate::wire::lemma_round_trip::<ByteFloat<FACTOR>>(v);
}

/// Round trip on a short-scaled fraction.
pub proof fn lemma_short_float_round_trip<const FACTOR: u16>(v: ShortFloat<FACTOR>)
    ensures
        ShortFloat::<FACTOR>::dec(ShortFloat::<FACTOR>::wire(v), 0) == Ok::<
            (ShortFloat<FACTOR>, int),
            DecodeError,
        >((v, ShortFloat::<FACTOR>::wire(v).len() as int)),
{
    crate::wire::lemma_round_trip::<ShortFloat<FACTOR>>(v);
}


/// String round trip: a valid UTF-16 unit sequence decodes back from its
/// own encoding exactly, and the length prefix is the 7-bit
/// variable-length encoding of the unit count — two bytes of body per
/// unit, so a character beyond the basic plane counts twice.
pub proof fn lemma_string_round_trip(s: Seq<u16>)
    requires
        valid_utf16(s),
    ensures
        BinaryWriterString::wire(s) == wire_varint(s.len()) + wire_utf16(s),
        wire_utf16(s).len() == 2 * s.len(),
        BinaryWriterString::dec(BinaryWriterString::wire(s), 0) == Ok::<
            (Seq<u16>, int),
            DecodeError,
        >((s, BinaryWriterString::wire(s).len() as int)),
{
    lemma_wire_utf16_index(s);
    crate::wire::lemma_round_trip::<BinaryWriterString>(s);
}


} // verus!
