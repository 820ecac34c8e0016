//! Domain values shared by every part of the system.

use vstd::prelude::*;

verus! {

/// An IEEE 754 binary32 number, held as its bit pattern.
#[derive(Clone, Copy, Debug, PartialEq, Eq, Structural)]
pub struct Binary32 {
    /// Sign, exponent and fraction, as `to_bits` of the number gives them.
    pub bits: u32,
}

/// An IEEE 754 binary64 number, held as its bit pattern.
///
/// The library moves such numbers around without ever computing with them.
#[derive(Clone, Copy, Debug, PartialEq, Eq, Structural)]
pub struct Binary64 {
    /// Sign, exponent and fraction, as `to_bits` of the number gives them.
    pub bits: u64,
}

/// The number that eight bytes spell in little-endian order.
pub open spec fn le_value(bytes: Seq<u8>) -> int
    recommends
        bytes.len() == 8,
{
    bytes[0] + bytes[1] * 0x100 + bytes[2] * 0x1_0000 + bytes[3] * 0x100_0000 + bytes[4]
        * 0x1_0000_0000 + bytes[5] * 0x100_0000_0000 + bytes[6] * 0x1_0000_0000_0000 + bytes[7]
        * 0x100_0000_0000_0000
}

/// Eight bytes spell a number that fits 64 bits, and the little-endian bytes
/// of that number are the eight bytes again.
pub proof fn lemma_le_round_trip(bytes: Seq<u8>)
    requires
        bytes.len() == 8,
    ensures
        0 <= le_value(bytes) <= u64::MAX,
        (Binary64 { bits: le_value(bytes) as u64 }).le_bytes() == bytes,
{
    let bits = le_value(bytes) as u64;
    lemma_le_digits(
        bits,
        bytes[0] as u64,
        bytes[1] as u64,
        bytes[2] as u64,
        bytes[3] as u64,
        bytes[4] as u64,
        bytes[5] as u64,
        bytes[6] as u64,
        bytes[7] as u64,
    );
    assert((Binary64 { bits }).le_bytes() =~= bytes);
}

/// The little-endian digits of a number are the bytes it was put together from.
proof fn lemma_le_digits(
    bits: u64,
    b0: u64,
    b1: u64,
    b2: u64,
    b3: u64,
    b4: u64,
    b5: u64,
    b6: u64,
    b7: u64,
)
    by (bit_vector)
    requires
        b0 < 0x100,
        b1 < 0x100,
        b2 < 0x100,
        b3 < 0x100,
        b4 < 0x100,
        b5 < 0x100,
        b6 < 0x100,
        b7 < 0x100,
        bits == b0 + b1 * 0x100 + b2 * 0x1_0000 + b3 * 0x100_0000 + b4 * 0x1_0000_0000 + b5
            * 0x100_0000_0000 + b6 * 0x1_0000_0000_0000 + b7 * 0x100_0000_0000_0000,
    ensures
        bits % 0x100 == b0,
        bits / 0x100 % 0x100 == b1,
        bits / 0x1_0000 % 0x100 == b2,
        bits / 0x100_0000 % 0x100 == b3,
        bits / 0x1_0000_0000 % 0x100 == b4,
        bits / 0x100_0000_0000 % 0x100 == b5,
        bits / 0x1_0000_0000_0000 % 0x100 == b6,
        bits / 0x100_0000_0000_0000 % 0x100 == b7,
{
}

impl Binary64 {
    /// The eight bytes of the bit pattern, least significant first.
    pub open spec fn le_bytes(self) -> Seq<u8> {
        seq![
            (self.bits % 0x100) as u8,
            (self.bits / 0x100 % 0x100) as u8,
            (self.bits / 0x1_0000 % 0x100) as u8,
            (self.bits / 0x100_0000 % 0x100) as u8,
            (self.bits / 0x1_0000_0000 % 0x100) as u8,
            (self.bits / 0x100_0000_0000 % 0x100) as u8,
            (self.bits / 0x1_0000_0000_0000 % 0x100) as u8,
            (self.bits / 0x100_0000_0000_0000 % 0x100) as u8,
        ]
    }

    /// Reads the number stored in the eight bytes that start at `offset`;
    /// `None` where `bytes` ends before the eighth.
    pub fn from_le_bytes(bytes: &[u8], offset: usize) -> (value: Option<Binary64>)
        ensures
            value is Some <==> offset + 8 <= bytes@.len(),
            value matches Some(number) ==> number.bits == le_value(
                bytes@.subrange(offset as int, offset + 8),
            ) && number.le_bytes() == bytes@.subrange(offset as int, offset + 8),
    {
        if bytes.len() < 8 || offset > bytes.len() - 8 {
            return None;
        }
        let b0: u64 = bytes[offset] as u64;
        let b1: u64 = bytes[offset + 1] as u64;
        let b2: u64 = bytes[offset + 2] as u64;
        let b3: u64 = bytes[offset + 3] as u64;
        let b4: u64 = bytes[offset + 4] as u64;
        let b5: u64 = bytes[offset + 5] as u64;
        let b6: u64 = bytes[offset + 6] as u64;
        let b7: u64 = bytes[offset + 7] as u64;
        let bits: u64 = b0 + b1 * 0x100 + b2 * 0x1_0000 + b3 * 0x100_0000 + b4 * 0x1_0000_0000 + b5
            * 0x100_0000_0000 + b6 * 0x1_0000_0000_0000 + b7 * 0x100_0000_0000_0000;
        let number = Binary64 { bits };
        proof {
            let window = bytes@.subrange(offset as int, offset + 8);
            assert(window[0] == b0 && window[1] == b1 && window[2] == b2 && window[3] == b3);
            assert(window[4] == b4 && window[5] == b5 && window[6] == b6 && window[7] == b7);
            lemma_le_digits(bits, b0, b1, b2, b3, b4, b5, b6, b7);
            assert(number.le_bytes() =~= window);
        }
        Some(number)
    }
}

/// Where an aircraft is: latitude and longitude in degrees, altitude in feet.
#[derive(Clone, Copy, Debug, PartialEq, Eq, Structural)]
pub struct AircraftPosition {
    /// The latitude of the aircraft, in degrees.
    pub latitude: Binary64,
    /// The longitude of the aircraft, in degrees.
    pub longitude: Binary64,
    /// The altitude of the aircraft above ground, in feet.
    pub altitude: Binary64,
}

impl AircraftPosition {
    /// The 24 bytes of the position as the host lays it out: latitude,
    /// longitude, altitude, each little-endian.
    pub open spec fn le_bytes(self) -> Seq<u8> {
        self.latitude.le_bytes() + self.longitude.le_bytes() + self.altitude.le_bytes()
    }
}

/// What the client tells its consumer about the simulator.
#[derive(Clone, Copy, Debug, PartialEq, Eq, Structural)]
pub enum Notification {
    /// The simulator opened the session.
    Connected,
    /// The simulator closed the session.
    Disconnected,
    /// The simulator sent a new position of the user's aircraft.
    PositionUpdate(AircraftPosition),
}

/// The kind of engine an aircraft is equipped with.
#[derive(Clone, Copy, Debug, PartialEq, Eq, Structural)]
pub enum EngineType {
    /// No engines (a glider).
    NoEngine,
    /// Piston engines driving propellers.
    Propeller,
    /// Turbines driving propellers.
    TurboProp,
    /// Jet engines.
    Jet,
}

/// What is known of an aircraft: registration and engines.
#[derive(Clone, Debug)]
pub struct AircraftInformation {
    /// The registration of the aircraft, such as `D-GOIA`.
    pub registration: String,
    /// The kind of its engines.
    pub engine_type: EngineType,
    /// The number of its engines.
    pub engine_count: u8,
}

/// One measurement of an aircraft at a point in time.
#[derive(Clone, Copy, Debug)]
pub struct AircraftInformationRecord {
    /// The time of the measurement, in seconds since the Unix epoch.
    pub time: i64,
    /// The position of the aircraft at that time.
    pub position: AircraftPosition,
}

} // verus!
