//! What a detector reports, and how detectors are configured.
//!
//! Values are in ticks, z-scores in thousandths, percentages in hundredths of
//! a percent, and times in milliseconds since the Unix epoch.

use crate::event::AnomalyType;
use crate::outside::{fresh_id, is_random_uuid};
use vstd::prelude::*;
use vstd::string::*;

verus! {

/// How grave an anomaly is.
#[derive(Clone, Copy, Debug, PartialEq, Eq, Structural)]
pub enum AnomalySeverity {
    Low,
    Medium,
    High,
    Critical,
}

impl AnomalySeverity {
    /// The place of a severity in the order from `Low` to `Critical`.
    pub open spec fn rank_spec(self) -> int {
        match self {
            AnomalySeverity::Low => 0,
            AnomalySeverity::Medium => 1,
            AnomalySeverity::High => 2,
            AnomalySeverity::Critical => 3,
        }
    }

    /// The place of a severity in the order from `Low` to `Critical`.
    pub fn rank(self) -> (r: u8)
        ensures
            r == self.rank_spec(),
    {
        match self {
            AnomalySeverity::Low => 0,
            AnomalySeverity::Medium => 1,
            AnomalySeverity::High => 2,
            AnomalySeverity::Critical => 3,
        }
    }

    /// The graver of two severities.
    pub open spec fn worst_spec(self, other: AnomalySeverity) -> AnomalySeverity {
        if other.rank_spec() > self.rank_spec() {
            other
        } else {
            self
        }
    }

    /// The graver of two severities.
    pub fn worst(self, other: AnomalySeverity) -> (r: AnomalySeverity)
        ensures
            r == self.worst_spec(other),
    {
        if other.rank() > self.rank() {
            other
        } else {
            self
        }
    }
}

/// The numbers behind a detection.
#[derive(Clone, Copy, Debug, PartialEq, Eq, Structural)]
pub struct AnomalyMetrics {
    pub current_value: i64,
    pub expected_value: i64,
    pub deviation: i64,
    pub z_score: Option<i64>,
    pub percentage_change: Option<i64>,
    pub historical_avg: Option<i64>,
    pub historical_std: Option<i64>,
}

/// One detected anomaly.
#[derive(Debug)]
pub struct AnomalyDetection {
    pub id: u128,
    pub timestamp: i64,
    pub symbol: String,
    pub exchange: String,
    pub anomaly_type: AnomalyType,
    pub severity: AnomalySeverity,
    pub metrics: AnomalyMetrics,
    pub description: String,
}

/// A detection as a mathematical value.
pub struct AnomalyRecord {
    pub id: u128,
    pub timestamp: i64,
    pub symbol: Seq<char>,
    pub exchange: Seq<char>,
    pub anomaly_type: AnomalyType,
    pub severity: AnomalySeverity,
    pub metrics: AnomalyMetrics,
    pub description: Seq<char>,
}

impl View for AnomalyDetection {
    type V = AnomalyRecord;

    open spec fn view(&self) -> AnomalyRecord {
        AnomalyRecord {
            id: self.id,
            timestamp: self.timestamp,
            symbol: self.symbol@,
            exchange: self.exchange@,
            anomaly_type: self.anomaly_type,
            severity: self.severity,
            metrics: self.metrics,
            description: self.description@,
        }
    }
}

impl Clone for AnomalyDetection {
    fn clone(&self) -> (r: Self)
        ensures
            r@ == self@,
    {
        AnomalyDetection {
            id: self.id,
            timestamp: self.timestamp,
            symbol: self.symbol.clone(),
            exchange: self.exchange.clone(),
            anomaly_type: self.anomaly_type,
            severity: self.severity,
            metrics: self.metrics,
            description: self.description.clone(),
        }
    }
}

impl AnomalyRecord {
    /// The same record under another identifier.
    pub open spec fn with_id(self, id: u128) -> AnomalyRecord {
        AnomalyRecord { id, ..self }
    }
}

impl AnomalyDetection {
    /// The same detection under another identifier.
    pub fn with_id(self, id: u128) -> (r: Self)
        ensures
            r@ == self@.with_id(id),
    {
        AnomalyDetection {
            id,
            timestamp: self.timestamp,
            symbol: self.symbol,
            exchange: self.exchange,
            anomaly_type: self.anomaly_type,
            severity: self.severity,
            metrics: self.metrics,
            description: self.description,
        }
    }
}

/// Whether what a detector returned is what its rule prescribes.
pub open spec fn reports(found: Option<AnomalyDetection>, due: Option<AnomalyRecord>) -> bool {
    match (found, due) {
        (Some(a), Some(e)) => a@ == e,
        (None, None) => true,
        _ => false,
    }
}

/// Whether what a detector returned is what its rule prescribes, under an
/// identifier of its own, which has the form of a random identifier.
pub open spec fn reports_under_some_id(
    found: Option<AnomalyDetection>,
    due: Option<AnomalyRecord>,
) -> bool {
    match (found, due) {
        (Some(a), Some(e)) => a@ == e.with_id(a.id) && is_random_uuid(a.id),
        (None, None) => true,
        _ => false,
    }
}

/// How the volume detector is set: the z-score that a volume must reach (in
/// thousandths), the distance from the mean that it must reach (in
/// hundredths of a percent), the window's capacity, and the number of samples
/// below which nothing is reported.
#[derive(Clone, Copy, Debug, PartialEq, Eq, Structural)]
pub struct VolumeAnomalyConfig {
    pub z_score_threshold: i64,
    pub min_percentage_change: i64,
    pub window_size: usize,
    pub min_samples: usize,
}

impl Default for VolumeAnomalyConfig {
    fn default() -> (c: Self)
        ensures
            c == (VolumeAnomalyConfig {
                z_score_threshold: 3000,
                min_percentage_change: 20000,
                window_size: 60,
                min_samples: 30,
            }),
    {
        VolumeAnomalyConfig {
            z_score_threshold: 3000,
            min_percentage_change: 20000,
            window_size: 60,
            min_samples: 30,
        }
    }
}

/// How the price detector is set: the move from one price to the next that is
/// reported (in hundredths of a percent), the z-score that is reported (in
/// thousandths), the window's capacity, and the number of samples below which
/// nothing is reported.
#[derive(Clone, Copy, Debug, PartialEq, Eq, Structural)]
pub struct PriceAnomalyConfig {
    pub percentage_threshold: i64,
    pub z_score_threshold: i64,
    pub window_size: usize,
    pub min_samples: usize,
}

impl Default for PriceAnomalyConfig {
    fn default() -> (c: Self)
        ensures
            c == (PriceAnomalyConfig {
                percentage_threshold: 500,
                z_score_threshold: 3000,
                window_size: 60,
                min_samples: 30,
            }),
    {
        PriceAnomalyConfig {
            percentage_threshold: 500,
            z_score_threshold: 3000,
            window_size: 60,
            min_samples: 30,
        }
    }
}

/// The detections of a list as mathematical values.
pub open spec fn records(found: Seq<AnomalyDetection>) -> Seq<AnomalyRecord> {
    Seq::new(found.len(), |i: int| found[i]@)
}

/// Whether the detections are the records that were due, each under an
/// identifier of its own, which has the form of a random identifier.
pub open spec fn records_under_some_ids(
    found: Seq<AnomalyDetection>,
    due: Seq<AnomalyRecord>,
) -> bool {
    &&& found.len() == due.len()
    &&& forall|i: int|
        0 <= i < found.len() ==> (#[trigger] found[i])@ == due[i].with_id(found[i].id)
            && is_random_uuid(found[i].id)
}

/// One record, or none, as a sequence.
pub open spec fn maybe(due: Option<AnomalyRecord>) -> Seq<AnomalyRecord> {
    match due {
        Some(e) => seq![e],
        None => Seq::empty(),
    }
}

/// Gives every detection of the list a new random identifier.
pub fn restamp(found: Vec<AnomalyDetection>) -> (r: Vec<AnomalyDetection>)
    ensures
        records_under_some_ids(r@, records(found@)),
{
    let mut out: Vec<AnomalyDetection> = Vec::new();
    let mut i: usize = 0;
    while i < found.len()
        invariant
            i <= found.len(),
            out.len() == i,
            forall|j: int|
                0 <= j < i ==> (#[trigger] out[j])@ == found[j]@.with_id(out[j].id)
                    && is_random_uuid(out[j].id),
        decreases found.len() - i,
    {
        let stamped = found[i].clone().with_id(fresh_id());
        out.push(stamped);
        i = i + 1;
    }
    out
}

} // verus!
