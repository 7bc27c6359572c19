//! Sensor readings of the cubes, as the server reports them and the panel
//! keeps them. Temperatures and humidities are the bits of `f64` values.

use vstd::prelude::*;

verus! {

/// One past reading of a cube.
#[derive(Clone, Copy, Debug, PartialEq, Eq, Structural)]
pub struct SensorHistoryEntry {
    pub timestamp: i64,
    pub temperature_bits: u64,
    pub humidity_bits: u64,
}

/// The latest reading of a cube, with its recent history.
#[derive(Clone, Debug, PartialEq, Eq)]
pub struct CubeSensorData {
    pub id: String,
    pub label: String,
    pub temperature_bits: u64,
    pub humidity_bits: u64,
    pub timestamp: i64,
    pub history: Vec<SensorHistoryEntry>,
}

/// Parameters of a `sensor.update` notification.
#[derive(Clone, Debug, PartialEq, Eq)]
pub struct SensorUpdateParams {
    pub cube_id: String,
    pub temperature_bits: u64,
    pub humidity_bits: u64,
    pub timestamp: i64,
}

/// The value of a cube's data.
pub struct CubeView {
    pub id: Seq<char>,
    pub label: Seq<char>,
    pub temperature_bits: u64,
    pub humidity_bits: u64,
    pub timestamp: i64,
    pub history: Seq<SensorHistoryEntry>,
}

impl View for CubeSensorData {
    type V = CubeView;

    open spec fn view(&self) -> CubeView {
        CubeView {
            id: self.id@,
            label: self.label@,
            temperature_bits: self.temperature_bits,
            humidity_bits: self.humidity_bits,
            timestamp: self.timestamp,
            history: self.history@,
        }
    }
}

impl CubeSensorData {
    /// A cube with no name and no reading: all zero and empty.
    pub fn empty() -> (r: CubeSensorData)
        ensures
            r@ == (CubeView {
                id: Seq::empty(),
                label: Seq::empty(),
                temperature_bits: 0,
                humidity_bits: 0,
                timestamp: 0,
                history: Seq::empty(),
            }),
    {
        CubeSensorData {
            id: String::new(),
            label: String::new(),
            temperature_bits: 0,
            humidity_bits: 0,
            timestamp: 0,
            history: Vec::new(),
        }
    }
}

/// The history entry a sensor update adds.
pub open spec fn update_entry(u: SensorUpdateParams) -> SensorHistoryEntry {
    SensorHistoryEntry {
        timestamp: u.timestamp,
        temperature_bits: u.temperature_bits,
        humidity_bits: u.humidity_bits,
    }
}

/// The parameters of the `sensor.update` notification for a reading.
pub fn update_params(data: &CubeSensorData) -> (r: SensorUpdateParams)
    ensures
        r.cube_id@ == data.id@,
        r.temperature_bits == data.temperature_bits,
        r.humidity_bits == data.humidity_bits,
        r.timestamp == data.timestamp,
{
    SensorUpdateParams {
        cube_id: data.id.clone(),
        temperature_bits: data.temperature_bits,
        humidity_bits: data.humidity_bits,
        timestamp: data.timestamp,
    }
}

} // verus!
