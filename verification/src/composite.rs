//! Lists of detectors that take each sample together, and the manager that
//! keeps one such list for every market.

use crate::anomaly::{
    maybe, records, records_under_some_ids, reports, restamp, AnomalyDetection, AnomalyRecord,
    PriceAnomalyConfig, VolumeAnomalyConfig,
};
use crate::detector::{
    price_after, price_detection, volume_detection, AnomalyDetector, PriceAnomalyDetector,
    VolumeAnomalyDetector,
};
use crate::pattern::{
    flash_crash_detection, pump_dump_detection, FlashCrashConfig, FlashCrashDetector,
    PumpDumpConfig, PumpDumpDetector,
};
use crate::window::{in_range, push_spec, TimeSeriesData};
use vstd::prelude::*;
use vstd::string::*;

verus! {

/// One detector of any kind.
#[derive(Debug)]
pub enum Detector {
    Volume(VolumeAnomalyDetector),
    Price(PriceAnomalyDetector),
    FlashCrash(FlashCrashDetector),
    PumpDump(PumpDumpDetector),
}

/// What a detector of any kind holds, as a mathematical value.
#[allow(inconsistent_fields)]
pub enum DetectorState {
    Volume {
        config: VolumeAnomalyConfig,
        symbol: Seq<char>,
        exchange: Seq<char>,
        window: Seq<TimeSeriesData>,
    },
    Price {
        config: PriceAnomalyConfig,
        symbol: Seq<char>,
        exchange: Seq<char>,
        window: Seq<TimeSeriesData>,
        last_price: Option<i64>,
    },
    FlashCrash {
        config: FlashCrashConfig,
        symbol: Seq<char>,
        exchange: Seq<char>,
        window: Seq<TimeSeriesData>,
    },
    PumpDump {
        config: PumpDumpConfig,
        symbol: Seq<char>,
        exchange: Seq<char>,
        window: Seq<TimeSeriesData>,
    },
}

/// What a detector holds after it took `data`.
pub open spec fn detector_step(s: DetectorState, data: TimeSeriesData) -> DetectorState {
    match s {
        DetectorState::Volume { config, symbol, exchange, window } => DetectorState::Volume {
            config,
            symbol,
            exchange,
            window: push_spec(window, config.window_size as nat, data),
        },
        DetectorState::Price {
            config,
            symbol,
            exchange,
            window,
            last_price,
        } => DetectorState::Price {
            config,
            symbol,
            exchange,
            window: push_spec(window, config.window_size as nat, data),
            last_price: price_after(last_price, data),
        },
        DetectorState::FlashCrash {
            config,
            symbol,
            exchange,
            window,
        } => DetectorState::FlashCrash {
            config,
            symbol,
            exchange,
            window: push_spec(window, config.periods as nat, data),
        },
        DetectorState::PumpDump { config, symbol, exchange, window } => DetectorState::PumpDump {
            config,
            symbol,
            exchange,
            window: push_spec(window, config.periods as nat, data),
        },
    }
}

/// What a detector that holds `s` reports for `data`.
pub open spec fn detector_report(s: DetectorState, data: TimeSeriesData, id: u128) -> Option<
    AnomalyRecord,
> {
    match s {
        DetectorState::Volume { config, symbol, exchange, window } => volume_detection(
            config,
            symbol,
            exchange,
            window,
            data,
            id,
        ),
        DetectorState::Price { config, symbol, exchange, window, last_price } => price_detection(
            config,
            symbol,
            exchange,
            window,
            last_price,
            data,
            id,
        ),
        DetectorState::FlashCrash { config, symbol, exchange, window } => if in_range(data.value) {
            flash_crash_detection(
                config,
                symbol,
                exchange,
                push_spec(window, config.periods as nat, data),
                data.timestamp,
                id,
            )
        } else {
            None
        },
        DetectorState::PumpDump { config, symbol, exchange, window } => if in_range(data.value) {
            pump_dump_detection(
                config,
                symbol,
                exchange,
                push_spec(window, config.periods as nat, data),
                data.timestamp,
                id,
            )
        } else {
            None
        },
    }
}

/// What a detector holds after it was reset.
pub open spec fn detector_cleared(s: DetectorState) -> DetectorState {
    match s {
        DetectorState::Volume { config, symbol, exchange, window } => DetectorState::Volume {
            config,
            symbol,
            exchange,
            window: Seq::empty(),
        },
        DetectorState::Price {
            config,
            symbol,
            exchange,
            window,
            last_price,
        } => DetectorState::Price {
            config,
            symbol,
            exchange,
            window: Seq::empty(),
            last_price: None,
        },
        DetectorState::FlashCrash {
            config,
            symbol,
            exchange,
            window,
        } => DetectorState::FlashCrash { config, symbol, exchange, window: Seq::empty() },
        DetectorState::PumpDump { config, symbol, exchange, window } => DetectorState::PumpDump {
            config,
            symbol,
            exchange,
            window: Seq::empty(),
        },
    }
}

impl View for Detector {
    type V = DetectorState;

    open spec fn view(&self) -> DetectorState {
        match self {
            Detector::Volume(d) => DetectorState::Volume {
                config: d.config(),
                symbol: d.symbol(),
                exchange: d.exchange(),
                window: d.window(),
            },
            Detector::Price(d) => DetectorState::Price {
                config: d.config(),
                symbol: d.symbol(),
                exchange: d.exchange(),
                window: d.window(),
                last_price: d.last_price(),
            },
            Detector::FlashCrash(d) => DetectorState::FlashCrash {
                config: d.config(),
                symbol: d.symbol(),
                exchange: d.exchange(),
                window: d.window(),
            },
            Detector::PumpDump(d) => DetectorState::PumpDump {
                config: d.config(),
                symbol: d.symbol(),
                exchange: d.exchange(),
                window: d.window(),
            },
        }
    }
}

impl Detector {
    /// The invariant of the detector inside.
    pub open spec fn valid(&self) -> bool {
        match self {
            Detector::Volume(d) => d.valid(),
            Detector::Price(d) => d.valid(),
            Detector::FlashCrash(d) => d.valid(),
            Detector::PumpDump(d) => d.valid(),
        }
    }

    /// Hands one sample to the detector inside, which reports under the
    /// identifier `id`.
    pub fn detect_with_id(&mut self, data: &TimeSeriesData, id: u128) -> (r: Option<
        AnomalyDetection,
    >)
        requires
            old(self).valid(),
        ensures
            final(self).valid(),
            final(self)@ == detector_step(old(self)@, *data),
            reports(r, detector_report(old(self)@, *data, id)),
    {
        match self {
            Detector::Volume(d) => d.detect_with_id(data, id),
            Detector::Price(d) => d.detect_with_id(data, id),
            Detector::FlashCrash(d) => d.detect_with_id(data, id),
            Detector::PumpDump(d) => d.detect_with_id(data, id),
        }
    }

    /// Resets the detector inside.
    pub fn reset(&mut self)
        requires
            old(self).valid(),
        ensures
            final(self).valid(),
            final(self)@ == detector_cleared(old(self)@),
    {
        match self {
            Detector::Volume(d) => d.reset(),
            Detector::Price(d) => d.reset(),
            Detector::FlashCrash(d) => d.reset(),
            Detector::PumpDump(d) => d.reset(),
        }
    }
}

/// What each detector of a list holds after all took `data`.
pub open spec fn composite_step(s: Seq<DetectorState>, data: TimeSeriesData) -> Seq<
    DetectorState,
> {
    Seq::new(s.len(), |i: int| detector_step(s[i], data))
}

/// What each detector of a list holds after all were reset.
pub open spec fn composite_cleared(s: Seq<DetectorState>) -> Seq<DetectorState> {
    Seq::new(s.len(), |i: int| detector_cleared(s[i]))
}

/// What the detectors of a list report for `data`, in the order of the list.
pub open spec fn composite_reports(s: Seq<DetectorState>, data: TimeSeriesData, id: u128) -> Seq<
    AnomalyRecord,
>
    decreases s.len(),
{
    if s.len() == 0 {
        Seq::empty()
    } else {
        composite_reports(s.drop_last(), data, id) + maybe(detector_report(s.last(), data, id))
    }
}

/// Whether a detector reports, and so how many reports a list of detectors
/// gives, does not depend on the identifier that the reports are given.
pub proof fn lemma_report_count(s: Seq<DetectorState>, data: TimeSeriesData, a: u128, b: u128)
    ensures
        composite_reports(s, data, a).len() == composite_reports(s, data, b).len(),
    decreases s.len(),
{
    if s.len() > 0 {
        lemma_report_count(s.drop_last(), data, a, b);
    }
}

/// A list of detectors that take each sample together.
#[derive(Debug)]
pub struct CompositeAnomalyDetector {
    detectors: Vec<Detector>,
}

impl View for CompositeAnomalyDetector {
    type V = Seq<DetectorState>;

    closed spec fn view(&self) -> Seq<DetectorState> {
        Seq::new(self.detectors@.len(), |i: int| self.detectors@[i]@)
    }
}

impl CompositeAnomalyDetector {
    /// The invariant: that of every detector in the list.
    pub closed spec fn valid(&self) -> bool {
        forall|i: int| 0 <= i < self.detectors@.len() ==> (#[trigger] self.detectors@[i]).valid()
    }

    /// An empty list.
    pub fn new() -> (c: Self)
        ensures
            c.valid(),
            c@ == Seq::<DetectorState>::empty(),
    {
        CompositeAnomalyDetector { detectors: Vec::new() }
    }

    /// Appends a detector to the list.
    pub fn add_detector(&mut self, detector: Detector)
        requires
            old(self).valid(),
            detector.valid(),
        ensures
            final(self).valid(),
            final(self)@ == old(self)@.push(detector@),
    {
        self.detectors.push(detector);
    }

    /// Hands one sample to every detector and collects what they report, in
    /// the order of the list, each report under the identifier `id`.
    pub fn detect_all_with_id(&mut self, data: &TimeSeriesData, id: u128) -> (r: Vec<
        AnomalyDetection,
    >)
        requires
            old(self).valid(),
        ensures
            final(self).valid(),
            final(self)@ == composite_step(old(self)@, *data),
            records(r@) == composite_reports(old(self)@, *data, id),
    {
        let mut out: Vec<AnomalyDetection> = Vec::new();
        let n = self.detectors.len();
        let mut i: usize = 0;
        while i < n
            invariant
                i <= n,
                n == self.detectors@.len(),
                n == old(self).detectors@.len(),
                forall|j: int| 0 <= j < n ==> (#[trigger] self.detectors@[j]).valid(),
                forall|j: int|
                    0 <= j < i ==> (#[trigger] self.detectors@[j])@ == detector_step(
                        old(self).detectors@[j]@,
                        *data,
                    ),
                forall|j: int| i <= j < n ==> self.detectors@[j] == old(self).detectors@[j],
                records(out@) == composite_reports(old(self)@.subrange(0, i as int), *data, id),
            decreases n - i,
        {
            let ghost prefix = old(self)@.subrange(0, i as int);
            let ghost next = old(self)@.subrange(0, i + 1);
            let found = self.detectors[i].detect_with_id(data, id);
            proof {
                assert(next.drop_last() =~= prefix);
            }
            if let Some(a) = found {
                out.push(a);
            }
            i = i + 1;
        }
        assert(old(self)@.subrange(0, n as int) =~= old(self)@);
        out
    }

    /// Hands one sample to every detector and collects what they report, in
    /// the order of the list, each report under a new random identifier.
    pub fn detect_all(&mut self, data: &TimeSeriesData) -> (r: Vec<AnomalyDetection>)
        requires
            old(self).valid(),
        ensures
            final(self).valid(),
            final(self)@ == composite_step(old(self)@, *data),
            records_under_some_ids(r@, composite_reports(old(self)@, *data, 0)),
    {
        let found = self.detect_all_with_id(data, 0);
        restamp(found)
    }

    /// Resets every detector of the list.
    pub fn reset_all(&mut self)
        requires
            old(self).valid(),
        ensures
            final(self).valid(),
            final(self)@ == composite_cleared(old(self)@),
    {
        let n = self.detectors.len();
        let mut i: usize = 0;
        while i < n
            invariant
                i <= n,
                n == self.detectors@.len(),
                n == old(self).detectors@.len(),
                forall|j: int| 0 <= j < n ==> (#[trigger] self.detectors@[j]).valid(),
                forall|j: int|
                    0 <= j < i ==> (#[trigger] self.detectors@[j])@ == detector_cleared(
                        old(self).detectors@[j]@,
                    ),
                forall|j: int| i <= j < n ==> self.detectors@[j] == old(self).detectors@[j],
            decreases n - i,
        {
            self.detectors[i].reset();
            i = i + 1;
        }
    }

    /// The number of detectors in the list.
    pub fn len(&self) -> (n: usize)
        ensures
            n == self@.len(),
    {
        self.detectors.len()
    }
}

} // verus!
