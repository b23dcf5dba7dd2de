//! Which motion and environment sensors the device has.

use vstd::prelude::*;

verus! {

/// `Sensor.TYPE_ACCELEROMETER`.
pub const TYPE_ACCELEROMETER: i32 = 1;
/// `Sensor.TYPE_MAGNETIC_FIELD`.
pub const TYPE_MAGNETIC_FIELD: i32 = 2;
/// `Sensor.TYPE_GYROSCOPE`.
pub const TYPE_GYROSCOPE: i32 = 4;
/// `Sensor.TYPE_PRESSURE`.
pub const TYPE_PRESSURE: i32 = 6;

/// Which sensors are present.
#[derive(Copy, Clone, Debug, PartialEq, Eq)]
pub struct SensorAvailability {
    pub accelerometer: bool,
    pub gyroscope: bool,
    pub magnetometer: bool,
    pub barometer: bool,
}

impl Default for SensorAvailability {
    fn default() -> (s: Self)
        ensures
            !s.accelerometer && !s.gyroscope && !s.magnetometer && !s.barometer,
    {
        SensorAvailability { accelerometer: false, gyroscope: false, magnetometer: false, barometer: false }
    }
}

/// The sensors present, asking `has_sensor` about each sensor type; `None`
/// when the sensor manager could not be reached, in which case no sensor
/// counts as present.
pub fn available_sensors<F: Fn(i32) -> bool>(has_sensor: Option<F>) -> (r: SensorAvailability)
    requires
        has_sensor matches Some(f) ==> forall|t: i32| call_requires(f, (t,)),
    ensures
        has_sensor is None ==> !r.accelerometer && !r.gyroscope && !r.magnetometer && !r.barometer,
        has_sensor matches Some(f) ==> {
            &&& call_ensures(f, (TYPE_ACCELEROMETER,), r.accelerometer)
            &&& call_ensures(f, (TYPE_GYROSCOPE,), r.gyroscope)
            &&& call_ensures(f, (TYPE_MAGNETIC_FIELD,), r.magnetometer)
            &&& call_ensures(f, (TYPE_PRESSURE,), r.barometer)
        },
{
    match has_sensor {
        None => SensorAvailability::default(),
        Some(f) => SensorAvailability {
            accelerometer: f(TYPE_ACCELEROMETER),
            gyroscope: f(TYPE_GYROSCOPE),
            magnetometer: f(TYPE_MAGNETIC_FIELD),
            barometer: f(TYPE_PRESSURE),
        },
    }
}

} // verus!
