//! The boundary to real arithmetic.
//!
//! The mappings decide which conversion a location needs and hand it, as a
//! [`PositionPlan`], to the arithmetic that the caller supplies.

use crate::proto::EnuVelocity;
use crate::schema::{Position, TrackPosition, Velocity};
use vstd::prelude::*;

verus! {

/// Unit of a latitude or a longitude.
#[derive(Clone, Copy, Debug, PartialEq, Eq, Structural)]
pub enum AngleUnit {
    Degrees,
    Radians,
}

/// Unit of an altitude.
#[derive(Clone, Copy, Debug, PartialEq, Eq, Structural)]
pub enum LengthUnit {
    Metres,
    Feet,
}

/// How a position follows from what a message says. Numbers are double
/// precision bits.
#[derive(Clone, Copy, Debug, PartialEq, Eq, Structural)]
pub enum PositionPlan {
    /// Latitude and longitude on the WGS84 ellipsoid.
    Geodetic {
        latitude: u64,
        longitude: u64,
        angle: AngleUnit,
        altitude: u64,
        length: LengthUnit,
    },
    /// Universal Transverse Mercator coordinates in metres.
    Utm { easting: u64, northing: u64, zone: u8, northern: bool, altitude: u64 },
    /// Range in metres, azimuth and elevation in degrees, as seen by a sensor.
    Relative {
        sensor: TrackPosition,
        range: u64,
        azimuth: u64,
        elevation: u64,
        range_error: u64,
    },
}

/// The numbers that a [`PositionPlan`] comes to.
#[derive(Clone, Copy, Debug, PartialEq, Eq, Structural)]
pub struct Coordinates {
    /// Degrees, double precision bits.
    pub latitude: u64,
    /// Degrees, double precision bits.
    pub longitude: u64,
    /// Metres, single precision bits.
    pub altitude: u32,
    /// Horizontal error in metres, single precision bits.
    pub error: u32,
}

/// The track position that a plan and its numbers make up. Degrees pass
/// through as they stand; only a sensor-relative position has an error
/// estimate.
pub open spec fn track_position(plan: PositionPlan, numbers: Coordinates) -> TrackPosition {
    match plan {
        PositionPlan::Geodetic { latitude, longitude, angle, .. } => TrackPosition {
            latitude: if angle == AngleUnit::Degrees { latitude } else { numbers.latitude },
            longitude: if angle == AngleUnit::Degrees { longitude } else { numbers.longitude },
            altitude: numbers.altitude,
            cep_m: 0,
            vertical_error_m: 0,
        },
        PositionPlan::Utm { .. } => TrackPosition {
            latitude: numbers.latitude,
            longitude: numbers.longitude,
            altitude: numbers.altitude,
            cep_m: 0,
            vertical_error_m: 0,
        },
        PositionPlan::Relative { .. } => TrackPosition {
            latitude: numbers.latitude,
            longitude: numbers.longitude,
            altitude: numbers.altitude,
            cep_m: numbers.error,
            vertical_error_m: 0,
        },
    }
}

/// A plain position as a plan: degrees and metres.
pub open spec fn plain_plan(position: Position) -> PositionPlan {
    PositionPlan::Geodetic {
        latitude: position.latitude,
        longitude: position.longitude,
        angle: AngleUnit::Degrees,
        altitude: position.altitude,
        length: LengthUnit::Metres,
    }
}

/// Rates of motion in metres per second, double precision bits.
#[derive(Clone, Copy, Debug, PartialEq, Eq, Structural)]
pub struct EnuRates {
    pub east: u64,
    pub north: u64,
    pub up: u64,
}

/// The number in an optional field, zero where there is none.
pub open spec fn bits_or_zero(field: Option<u64>) -> u64 {
    match field {
        Some(bits) => bits,
        None => 0,
    }
}

/// The rates that a velocity gives; a rate that is left out is zero.
pub open spec fn enu_rates(enu: EnuVelocity) -> EnuRates {
    EnuRates {
        east: bits_or_zero(enu.east_rate),
        north: bits_or_zero(enu.north_rate),
        up: bits_or_zero(enu.up_rate),
    }
}

/// Real arithmetic supplied by the caller: positions from plans, and speed and
/// bearing from rates.
pub struct Geodesy<P, V> {
    pub position: P,
    pub velocity: V,
}

impl<P: Fn(PositionPlan) -> Coordinates, V: Fn(EnuRates) -> Velocity> Geodesy<P, V> {
    /// The arithmetic takes every plan and all rates.
    pub open spec fn total(&self) -> bool {
        &&& forall|plan: PositionPlan| #[trigger] call_requires(self.position, (plan,))
        &&& forall|rates: EnuRates| #[trigger] call_requires(self.velocity, (rates,))
    }

    /// `position` is what the arithmetic makes of `plan`.
    pub open spec fn resolves(&self, plan: PositionPlan, position: TrackPosition) -> bool {
        exists|numbers: Coordinates| #[trigger]
            call_ensures(self.position, (plan,), numbers) && position == track_position(
                plan,
                numbers,
            )
    }

    /// `velocity` is what the arithmetic makes of the rates, where there are any.
    pub open spec fn moves(&self, enu: Option<EnuVelocity>, velocity: Option<Velocity>) -> bool {
        match (enu, velocity) {
            (Some(e), Some(v)) => call_ensures(self.velocity, (enu_rates(e),), v),
            (None, None) => true,
            _ => false,
        }
    }

    /// Carries out a plan.
    pub fn resolve(&self, plan: PositionPlan) -> (position: TrackPosition)
        requires
            self.total(),
        ensures
            self.resolves(plan, position),
    {
        let numbers = (self.position)(plan);
        let position = match plan {
            PositionPlan::Geodetic { latitude, longitude, angle, .. } => match angle {
                AngleUnit::Degrees => TrackPosition {
                    latitude,
                    longitude,
                    altitude: numbers.altitude,
                    cep_m: 0,
                    vertical_error_m: 0,
                },
                AngleUnit::Radians => TrackPosition {
                    latitude: numbers.latitude,
                    longitude: numbers.longitude,
                    altitude: numbers.altitude,
                    cep_m: 0,
                    vertical_error_m: 0,
                },
            },
            PositionPlan::Utm { .. } => TrackPosition {
                latitude: numbers.latitude,
                longitude: numbers.longitude,
                altitude: numbers.altitude,
                cep_m: 0,
                vertical_error_m: 0,
            },
            PositionPlan::Relative { .. } => TrackPosition {
                latitude: numbers.latitude,
                longitude: numbers.longitude,
                altitude: numbers.altitude,
                cep_m: numbers.error,
                vertical_error_m: 0,
            },
        };
        assert(position == track_position(plan, numbers));
        position
    }

    /// Speed and bearing from rates, where there are any.
    pub fn motion(&self, enu: &Option<EnuVelocity>) -> (velocity: Option<Velocity>)
        requires
            self.total(),
        ensures
            self.moves(*enu, velocity),
    {
        match enu {
            Some(e) => Some(
                (self.velocity)(
                    EnuRates {
                        east: e.east_rate.unwrap_or(0),
                        north: e.north_rate.unwrap_or(0),
                        up: e.up_rate.unwrap_or(0),
                    },
                ),
            ),
            None => None,
        }
    }

    /// A plain position with its altitude narrowed.
    pub fn narrowed(&self, position: Position) -> (track: TrackPosition)
        requires
            self.total(),
        ensures
            self.resolves(plain_plan(position), track),
    {
        self.resolve(
            PositionPlan::Geodetic {
                latitude: position.latitude,
                longitude: position.longitude,
                angle: AngleUnit::Degrees,
                altitude: position.altitude,
                length: LengthUnit::Metres,
            },
        )
    }
}

/// A latitude and longitude in degrees pass through as they stand, whatever the
/// arithmetic makes of the altitude.
pub proof fn law_degrees_pass_through<
    P: Fn(PositionPlan) -> Coordinates,
    V: Fn(EnuRates) -> Velocity,
>(geodesy: Geodesy<P, V>, plan: PositionPlan, position: TrackPosition)
    requires
        geodesy.resolves(plan, position),
        plan matches PositionPlan::Geodetic { angle, .. } && angle == AngleUnit::Degrees,
    ensures
        position.latitude == plan->Geodetic_latitude,
        position.longitude == plan->Geodetic_longitude,
{
}

/// Every position is made of the numbers that the arithmetic gives for its plan:
/// the altitude always, latitude and longitude unless they were in degrees, and
/// an error estimate only where the position is relative to a sensor.
pub proof fn law_numbers_make_the_position<
    P: Fn(PositionPlan) -> Coordinates,
    V: Fn(EnuRates) -> Velocity,
>(geodesy: Geodesy<P, V>, plan: PositionPlan, position: TrackPosition)
    requires
        geodesy.resolves(plan, position),
    ensures
        exists|numbers: Coordinates|
            {
                &&& #[trigger] call_ensures(geodesy.position, (plan,), numbers)
                &&& position.altitude == numbers.altitude
                &&& !(plan matches PositionPlan::Geodetic { angle, .. } && angle
                    == AngleUnit::Degrees) ==> position.latitude == numbers.latitude
                    && position.longitude == numbers.longitude
                &&& plan is Relative ==> position.cep_m == numbers.error
            },
        plan !is Relative ==> position.cep_m == 0,
        position.vertical_error_m == 0,
{
}

/// A velocity is what the arithmetic gives for the rates that are reported; a
/// rate that is left out counts as zero, and without rates there is no velocity.
pub proof fn law_rates_make_the_velocity<
    P: Fn(PositionPlan) -> Coordinates,
    V: Fn(EnuRates) -> Velocity,
>(geodesy: Geodesy<P, V>, enu: Option<EnuVelocity>, velocity: Option<Velocity>)
    requires
        geodesy.moves(enu, velocity),
    ensures
        velocity is Some <==> enu is Some,
        enu matches Some(e) ==> exists|rates: EnuRates|
            {
                &&& #[trigger] call_ensures(geodesy.velocity, (rates,), velocity->0)
                &&& rates.east == (if e.east_rate is Some { e.east_rate->0 } else { 0 })
                &&& rates.north == (if e.north_rate is Some { e.north_rate->0 } else { 0 })
                &&& rates.up == (if e.up_rate is Some { e.up_rate->0 } else { 0 })
            },
{
}

/// A plain position is in degrees and metres: its latitude and longitude are kept
/// as they stand when its altitude is narrowed.
pub proof fn law_plain_position_is_kept<
    P: Fn(PositionPlan) -> Coordinates,
    V: Fn(EnuRates) -> Velocity,
>(geodesy: Geodesy<P, V>, position: Position, track: TrackPosition)
    requires
        geodesy.resolves(plain_plan(position), track),
    ensures
        track.latitude == position.latitude,
        track.longitude == position.longitude,
        track.cep_m == 0 && track.vertical_error_m == 0,
        exists|numbers: Coordinates|
            {
                &&& #[trigger] call_ensures(
                    geodesy.position,
                    (PositionPlan::Geodetic {
                        latitude: position.latitude,
                        longitude: position.longitude,
                        angle: AngleUnit::Degrees,
                        altitude: position.altitude,
                        length: LengthUnit::Metres,
                    },),
                    numbers,
                )
                &&& track.altitude == numbers.altitude
            },
{
}

} // verus!
