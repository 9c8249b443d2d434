//! The time-series record: a run of values with their unit and data type,
//! timed either by a start and a fixed interval or by one time per value.
use vstd::prelude::*;
use vstd::slice::slice_to_vec;
use crate::error::{raised, DssError, DssResult};
use crate::pathname::{path_of_text, path_text, DssPathname, PathParts};
use crate::text::{decimal_i32, decimal_int, lowercased, trim, trimmed};
use crate::time::{
    interval_of_text, quotient_toward_zero, HecTime, HecTimeGranularity, HecTimeInterval, Instant,
};
use crate::units::{DataType, DataUnit, TypeLabel, UnitLabel};

verus! {

/// Whether the times of a series follow from a start and an interval, or
/// are given one by one.
#[derive(Debug, Copy, Clone, PartialEq, Eq, Structural)]
pub enum TimeSeriesType {
    regular,
    irregular,
}

impl TimeSeriesType {
    /// The kind of a series whose interval the engine gives as `value`
    /// seconds: irregular where that is not positive.
    pub fn from_interval(value: i32) -> (kind: Self)
        ensures
            kind == if value <= 0 {
                TimeSeriesType::irregular
            } else {
                TimeSeriesType::regular
            },
    {
        if value <= 0 {
            TimeSeriesType::irregular
        } else {
            TimeSeriesType::regular
        }
    }

    /// The sign by which the engine tells the two kinds apart.
    pub fn value(&self) -> (sign: i32)
        ensures
            sign == match self {
                TimeSeriesType::irregular => -1int,
                TimeSeriesType::regular => 1int,
            },
    {
        match self {
            TimeSeriesType::irregular => -1,
            TimeSeriesType::regular => 1,
        }
    }
}

/// The mathematical content of a [`TimeSeriesContainer`]. A value is the
/// bit pattern of a single-precision number: the library stores and hands
/// on the values and never computes with them.
pub ghost struct SeriesModel {
    pub kind: TimeSeriesType,
    pub address: Option<PathParts>,
    pub values: Seq<u32>,
    pub unit: UnitLabel,
    pub data_type: TypeLabel,
    pub times: Option<Seq<Instant>>,
    pub start_time: Option<Instant>,
    pub interval: Option<HecTimeInterval>,
}

/// The time that a new irregular series has for each of its values: zero
/// minutes after the archive's epoch.
pub open spec fn zero_instant() -> Instant {
    Instant { value: 0, granularity: HecTimeGranularity::minute, base_days: 0 }
}

/// The times `start`, `start + step`, `start + 2 step`, ..., `count` of
/// them, where `step` is `step_seconds` in whole units of the granularity of
/// `start`.
pub open spec fn expanded_times(start: Instant, step_seconds: int, count: nat) -> Seq<Instant> {
    Seq::new(
        count,
        |i: int|
            Instant {
                value: start.value + i * quotient_toward_zero(
                    step_seconds,
                    start.granularity.seconds(),
                ),
                granularity: start.granularity,
                base_days: start.base_days,
            },
    )
}

impl SeriesModel {
    /// The shape that every series keeps: an irregular one has exactly one
    /// time for each value.
    pub open spec fn wf(self) -> bool {
        &&& self.values.len() <= i32::MAX
        &&& self.kind == TimeSeriesType::irregular ==> self.times is Some
            && self.times->Some_0.len() == self.values.len()
        &&& self.kind == TimeSeriesType::regular ==> self.times is None
    }

    /// Whether the times of a regular series can be written out: the
    /// interval is set, and neither its length in seconds nor any of the
    /// times leaves the range of 32 bits.
    pub open spec fn expansion_defined(self) -> bool {
        &&& self.start_time is Some
        &&& self.interval is Some
        &&& i32::MIN <= self.interval->Some_0.seconds() <= i32::MAX
        &&& forall|i: int|
            0 <= i < self.values.len() ==> i32::MIN <= (#[trigger] expanded_times(
                self.start_time->Some_0,
                self.interval->Some_0.seconds(),
                self.values.len(),
            )[i]).value <= i32::MAX
    }

    /// The times of the series. A regular one has none before its start is
    /// set; then it has the start alone, or, expanded, one time for each
    /// value, an interval apart. An irregular one has the times it stores.
    pub open spec fn times_of(self, expand_regular: bool) -> Option<Seq<Instant>> {
        if self.kind == TimeSeriesType::regular {
            match self.start_time {
                Some(start) => if expand_regular {
                    Some(
                        expanded_times(start, self.interval->Some_0.seconds(), self.values.len()),
                    )
                } else {
                    Some(seq![start])
                },
                None => None,
            }
        } else {
            self.times
        }
    }

    /// Why the times of the series cannot be handed out, if they cannot: a
    /// regular series with a start is to be expanded, and its interval is
    /// not set, or a time or the interval in seconds would leave the range
    /// of 32 bits.
    pub open spec fn expansion_defect(self, expand_regular: bool) -> Option<Seq<char>> {
        if expand_regular && self.kind == TimeSeriesType::regular && self.start_time is Some
            && !self.expansion_defined() {
            if self.interval is None {
                Some("Interval for regular TimeSeries Container not set"@)
            } else {
                Some("The times of the series do not fit in 32 bits"@)
            }
        } else {
            None
        }
    }

    /// Why the series cannot take `count` times, if it cannot: a regular
    /// series needs a first one, an irregular series one for each value.
    pub open spec fn times_defect(self, count: nat) -> Option<Seq<char>> {
        if self.kind == TimeSeriesType::regular {
            if count == 0 {
                Some("No time was given for the start of the series"@)
            } else {
                None
            }
        } else if count != self.values.len() {
            Some("The number of times is not equal to TimeSeriesContainer capacity"@)
        } else {
            None
        }
    }

    /// The series with the times given: a regular one starts at the first of
    /// them, an irregular one has them all.
    pub open spec fn with_times(self, times: Seq<Instant>) -> SeriesModel {
        if self.kind == TimeSeriesType::regular {
            SeriesModel { start_time: Some(times[0]), ..self }
        } else {
            SeriesModel { times: Some(times), ..self }
        }
    }

    /// Part E of the address of a regular series, where the address is set
    /// and the part holds more than white space.
    pub open spec fn interval_token(self) -> Option<Seq<char>> {
        match self.address {
            Some(parts) => match parts.epart {
                Some(token) => if trimmed(token).len() > 0 {
                    Some(token)
                } else {
                    None
                },
                None => None,
            },
            None => None,
        }
    }

    /// Why the interval of the series cannot be read from its address, if it
    /// cannot: a regular series needs an address, and in it a part E.
    pub open spec fn interval_token_error(self) -> Option<Seq<char>> {
        if self.kind == TimeSeriesType::regular {
            if self.address is None {
                Some("pathname must be specified"@)
            } else if self.interval_token() is None {
                Some("The E-part must specify time-series interval"@)
            } else {
                None
            }
        } else {
            None
        }
    }

    /// The series with the interval that part E of its address spells, for
    /// a regular series; an irregular one unchanged.
    pub open spec fn with_interval_from_address(self) -> SeriesModel {
        if self.kind == TimeSeriesType::regular {
            SeriesModel { interval: interval_of_text(self.interval_token()->Some_0), ..self }
        } else {
            self
        }
    }
}

/// The expanded times of a regular series begin with its start, and each
/// lies one interval, in whole units of the granularity, after the one
/// before it, on the same base date.
pub proof fn lemma_expanded_times_evenly_spaced(start: Instant, step_seconds: int, count: nat)
    ensures
        expanded_times(start, step_seconds, count).len() == count,
        count > 0 ==> expanded_times(start, step_seconds, count)[0] == start,
        forall|i: int|
            0 <= i < count - 1 ==> (#[trigger] expanded_times(start, step_seconds, count)[i
                + 1]).value - expanded_times(start, step_seconds, count)[i].value
                == quotient_toward_zero(step_seconds, start.granularity.seconds()),
        forall|i: int|
            0 <= i < count ==> (#[trigger] expanded_times(
                start,
                step_seconds,
                count,
            )[i]).granularity == start.granularity && expanded_times(
                start,
                step_seconds,
                count,
            )[i].base_days == start.base_days,
{
    let step = quotient_toward_zero(step_seconds, start.granularity.seconds());
    let all = expanded_times(start, step_seconds, count);
    if count > 0 {
        assert(0 * step == 0);
        assert(all[0] == start);
    }
    assert forall|i: int| 0 <= i < count - 1 implies (#[trigger] all[i + 1]).value - all[i].value
        == step by {
        assert((i + 1) * step == i * step + step) by (nonlinear_arith);
    }
}

/// The content of a sequence of times.
pub open spec fn instants(times: Seq<HecTime>) -> Seq<Instant> {
    times.map_values(|t: HecTime| t@)
}

/// A time series: regular or irregular.
#[derive(Debug)]
pub struct TimeSeriesContainer {
    ts_type: TimeSeriesType,
    pathname: Option<DssPathname>,
    values: Vec<u32>,
    data_unit: DataUnit,
    data_type: DataType,
    times: Option<Vec<HecTime>>,
    start_time: Option<HecTime>,
    interval: Option<HecTimeInterval>,
}

impl View for TimeSeriesContainer {
    type V = SeriesModel;

    closed spec fn view(&self) -> SeriesModel {
        SeriesModel {
            kind: self.ts_type,
            address: match self.pathname {
                Some(path) => Some(path@),
                None => None,
            },
            values: self.values@,
            unit: self.data_unit@,
            data_type: self.data_type@,
            times: match self.times {
                Some(times) => Some(instants(times@)),
                None => None,
            },
            start_time: match self.start_time {
                Some(time) => Some(time@),
                None => None,
            },
            interval: self.interval,
        }
    }
}

/// A multiple of a step lies between zero and the greatest multiple.
proof fn lemma_multiple_between(i: int, n: int, step: int)
    requires
        0 <= i <= n,
    ensures
        step >= 0 ==> 0 <= i * step <= n * step,
        step < 0 ==> n * step <= i * step <= 0,
{
    assert(step >= 0 ==> 0 <= i * step <= n * step) by (nonlinear_arith)
        requires
            0 <= i <= n,
    ;
    assert(step < 0 ==> n * step <= i * step <= 0) by (nonlinear_arith)
        requires
            0 <= i <= n,
    ;
}

/// Writes out the times of a regular series: `count` of them, from
/// `start`, each `step_seconds` after the one before.
fn expand(start: HecTime, step_seconds: i32, count: usize) -> (times: Vec<HecTime>)
    requires
        forall|i: int|
            0 <= i < count ==> i32::MIN <= (#[trigger] expanded_times(
                start@,
                step_seconds as int,
                count as nat,
            )[i]).value <= i32::MAX,
    ensures
        instants(times@) == expanded_times(start@, step_seconds as int, count as nat),
{
    let ghost all = expanded_times(start@, step_seconds as int, count as nat);
    let ghost step = quotient_toward_zero(step_seconds as int, start@.granularity.seconds());
    let mut times: Vec<HecTime> = Vec::new();
    let mut current = start;
    let mut i: usize = 0;
    while i < count
        invariant
            0 <= i <= count,
            all == expanded_times(start@, step_seconds as int, count as nat),
            step == quotient_toward_zero(step_seconds as int, start@.granularity.seconds()),
            forall|j: int| 0 <= j < count ==> i32::MIN <= (#[trigger] all[j]).value <= i32::MAX,
            times@.len() == i,
            forall|j: int| 0 <= j < i ==> (#[trigger] times@[j])@ == all[j],
            i < count ==> current@ == all[i as int],
        decreases count - i,
    {
        times.push(current);
        if i + 1 < count {
            proof {
                assert(all[i + 1].value == start@.value + (i + 1) * step);
                assert((i + 1) * step == i * step + step) by (nonlinear_arith);
            }
            current.add_seconds(step_seconds);
        }
        i = i + 1;
    }
    assert(instants(times@) =~= all);
    times
}

impl TimeSeriesContainer {
    #[verifier::type_invariant]
    spec fn well_formed(self) -> bool {
        self@.wf()
    }

    /// A series of `num_values` values, all zero, with no address, an
    /// empty label for unit and data type, and no interval. An irregular
    /// one has `num_values` times, all zero; a regular one has no start
    /// time yet.
    pub fn new(ts_type: TimeSeriesType, num_values: i32) -> (series: Self)
        requires
            num_values >= 0,
        ensures
            series@.wf(),
            series@ == (SeriesModel {
                kind: ts_type,
                address: None,
                values: Seq::new(num_values as nat, |i: int| 0u32),
                unit: UnitLabel::undefined(Seq::empty()),
                data_type: TypeLabel::undefined(Seq::empty()),
                times: if ts_type == TimeSeriesType::irregular {
                    Some(Seq::new(num_values as nat, |i: int| zero_instant()))
                } else {
                    None
                },
                start_time: None,
                interval: None,
            }),
    {
        let count: usize = num_values as usize;
        let values: Vec<u32> = vec![0u32; count];
        let times: Option<Vec<HecTime>> = match ts_type {
            TimeSeriesType::irregular => Some(vec![HecTime::new(0, None, None); count]),
            TimeSeriesType::regular => None,
        };
        let series = TimeSeriesContainer {
            ts_type: ts_type,
            pathname: None,
            values: values,
            data_unit: DataUnit::undefined(String::new()),
            data_type: DataType::undefined(String::new()),
            times: times,
            start_time: None,
            interval: None,
        };
        proof {
            assert(series@.values =~= Seq::new(num_values as nat, |i: int| 0u32));
            if ts_type == TimeSeriesType::irregular {
                assert(series@.times->Some_0 =~= Seq::new(
                    num_values as nat,
                    |i: int| zero_instant(),
                ));
            }
        }
        series
    }

    /// The number of values.
    pub fn len(&self) -> (count: usize)
        ensures
            count == self@.values.len(),
            self@.wf(),
    {
        proof {
            use_type_invariant(self);
        }
        self.values.len()
    }

    /// Sets or removes the address.
    pub fn set_pathname(&mut self, path: Option<DssPathname>)
        ensures
            final(self)@ == (SeriesModel {
                address: match path {
                    Some(p) => Some(p@),
                    None => None,
                },
                ..old(self)@
            }),
            final(self)@.wf(),
    {
        proof {
            use_type_invariant(&*self);
        }
        self.pathname = path;
    }

    /// The address, as a copy.
    pub fn pathname(&self) -> (path: Option<DssPathname>)
        ensures
            match path {
                Some(p) => Some(p@),
                None => None,
            } == self@.address,
    {
        match &self.pathname {
            Some(path) => Some(path.clone()),
            None => None,
        }
    }

    /// Replaces the values by as many others. With another number of values
    /// the call fails and leaves the series as it was.
    pub fn set_values(&mut self, values: &[u32]) -> (res: DssResult<()>)
        ensures
            final(self)@.wf(),
            values@.len() == old(self)@.values.len() ==> res is Ok && final(self)@ == (SeriesModel {
                values: values@,
                ..old(self)@
            }),
            values@.len() != old(self)@.values.len() ==> res is Err && res->Err_0@ == raised(
                "The length of the value is not equal to TimeSeriesContainer capacity"@,
            ) && final(self)@ == old(self)@,
    {
        proof {
            use_type_invariant(&*self);
        }
        if values.len() == self.values.len() {
            self.values = slice_to_vec(values);
            Ok(())
        } else {
            Err(
                DssError::raise(
                    String::from_str(
                        "The length of the value is not equal to TimeSeriesContainer capacity",
                    ),
                ),
            )
        }
    }

    /// The values.
    pub fn values(&self) -> (values: &[u32])
        ensures
            values@ == self@.values,
    {
        self.values.as_slice()
    }

    /// Sets the times. A regular series keeps the first of them as its start
    /// and ignores the others; without a first the call fails. An irregular
    /// series takes one time for each of its values; with another number of
    /// times the call fails. A call that fails leaves the series as it was.
    pub fn set_times(&mut self, times: &[HecTime]) -> (res: DssResult<()>)
        ensures
            final(self)@.wf(),
            match old(self)@.times_defect(times@.len()) {
                Some(message) => res is Err && res->Err_0@ == raised(message) && final(self)@
                    == old(self)@,
                None => res is Ok && final(self)@ == old(self)@.with_times(instants(times@)),
            },
    {
        proof {
            use_type_invariant(&*self);
        }
        match self.ts_type {
            TimeSeriesType::regular => {
                if times.len() > 0 {
                    self.start_time = Some(times[0]);
                    Ok(())
                } else {
                    Err(
                        DssError::raise(
                            String::from_str("No time was given for the start of the series"),
                        ),
                    )
                }
            },
            TimeSeriesType::irregular => {
                if times.len() == self.values.len() {
                    self.times = Some(slice_to_vec(times));
                    Ok(())
                } else {
                    Err(
                        DssError::raise(
                            String::from_str(
                                "The number of times is not equal to TimeSeriesContainer capacity",
                            ),
                        ),
                    )
                }
            },
        }
    }

    /// The times of the series. A regular one has none before its start is
    /// set; then it has the start alone or, with `expand_regular`, one time
    /// for each value, each an interval after the one before. An irregular
    /// one has the times it stores. To expand a series whose interval is not
    /// set is a violation of the contract.
    pub fn times(&self, expand_regular: bool) -> (list: Option<Vec<HecTime>>)
        requires
            expand_regular && self@.kind == TimeSeriesType::regular && self@.start_time is Some
                ==> self@.expansion_defined(),
        ensures
            match list {
                Some(t) => Some(instants(t@)),
                None => None,
            } == self@.times_of(expand_regular),
    {
        proof {
            use_type_invariant(self);
        }
        match self.ts_type {
            TimeSeriesType::regular => {
                match self.start_time {
                    Some(start) => {
                        if expand_regular {
                            let interval = self.interval.unwrap();
                            Some(expand(start, interval.value(), self.values.len()))
                        } else {
                            let times: Vec<HecTime> = vec![start];
                            assert(instants(times@) =~= seq![start@]);
                            Some(times)
                        }
                    },
                    None => None,
                }
            },
            TimeSeriesType::irregular => {
                match &self.times {
                    Some(times) => Some(slice_to_vec(times.as_slice())),
                    None => None,
                }
            },
        }
    }

    /// The times of the series, as [`TimeSeriesContainer::times`] gives
    /// them, for every series: where a regular series with a start is to be
    /// expanded and its interval is not set, or a time would leave the range
    /// of 32 bits, the call fails instead.
    pub fn checked_times(&self, expand_regular: bool) -> (res: DssResult<Option<Vec<HecTime>>>)
        ensures
            match self@.expansion_defect(expand_regular) {
                Some(message) => res is Err && res->Err_0@ == raised(message),
                None => res is Ok && self@.times_of(expand_regular) == match res->Ok_0 {
                    Some(t) => Some(instants(t@)),
                    None => None,
                },
            },
    {
        proof {
            use_type_invariant(self);
        }
        if expand_regular {
            if let TimeSeriesType::regular = self.ts_type {
                if let Some(start) = self.start_time {
                    let interval = match self.interval {
                        Some(interval) => interval,
                        None => {
                            return Err(
                                DssError::raise(
                                    String::from_str(
                                        "Interval for regular TimeSeries Container not set",
                                    ),
                                ),
                            );
                        },
                    };
                    let fits = match interval.checked_value() {
                        Some(step_seconds) => {
                            let step: i64 = (step_seconds / start.granularity().value()) as i64;
                            let count: i64 = self.values.len() as i64;
                            let ghost all = expanded_times(
                                start@,
                                interval.seconds(),
                                count as nat,
                            );
                            if count == 0 {
                                true
                            } else {
                                assert(-0x8000_0000 * 0x8000_0000 <= (count - 1) * step
                                    <= 0x8000_0000 * 0x8000_0000) by (nonlinear_arith)
                                    requires
                                        0 <= count - 1 <= 0x7fff_ffff,
                                        -0x8000_0000 <= step <= 0x7fff_ffff,
                                ;
                                let last: i64 = start.value() as i64 + (count - 1) * step;
                                let fits = -2147483648 <= last && last <= 2147483647;
                                proof {
                                    assert(all[count - 1].value == last);
                                    if fits {
                                        assert forall|i: int| 0 <= i < count implies i32::MIN
                                            <= (#[trigger] all[i]).value <= i32::MAX by {
                                            lemma_multiple_between(i, count - 1, step as int);
                                        }
                                    }
                                }
                                fits
                            }
                        },
                        None => false,
                    };
                    if !fits {
                        return Err(
                            DssError::raise(
                                String::from_str("The times of the series do not fit in 32 bits"),
                            ),
                        );
                    }
                }
            }
        }
        Ok(self.times(expand_regular))
    }

    /// Sets the unit from its label.
    pub fn set_unit(&mut self, unit: &str)
        ensures
            final(self)@ == (SeriesModel {
                unit: UnitLabel::of_label(lowercased(unit@), unit@),
                ..old(self)@
            }),
            final(self)@.wf(),
    {
        proof {
            use_type_invariant(&*self);
        }
        let unit = DataUnit::from_string(unit);
        self.data_unit = unit;
    }

    /// The unit, as a copy.
    pub fn unit(&self) -> (unit: DataUnit)
        ensures
            unit@ == self@.unit,
    {
        self.data_unit.clone()
    }

    /// Sets the data type from its label.
    pub fn set_type(&mut self, typ: &str)
        ensures
            final(self)@ == (SeriesModel {
                data_type: TypeLabel::of_label(lowercased(typ@), typ@),
                ..old(self)@
            }),
            final(self)@.wf(),
    {
        proof {
            use_type_invariant(&*self);
        }
        let dtype = DataType::from_string(typ);
        self.data_type = dtype;
    }

    /// The data type, as a copy.
    pub fn dtype(&self) -> (dtype: DataType)
        ensures
            dtype@ == self@.data_type,
    {
        self.data_type.clone()
    }

    /// Sets or removes the interval.
    pub fn set_interval(&mut self, interval: Option<HecTimeInterval>)
        ensures
            final(self)@ == (SeriesModel { interval: interval, ..old(self)@ }),
            final(self)@.wf(),
    {
        proof {
            use_type_invariant(&*self);
        }
        self.interval = interval;
    }

    /// The interval.
    pub fn interval(&self) -> (interval: Option<HecTimeInterval>)
        ensures
            interval == self@.interval,
    {
        self.interval
    }

    /// Whether the series is regular or irregular.
    pub fn ts_type(&self) -> (kind: TimeSeriesType)
        ensures
            kind == self@.kind,
    {
        self.ts_type
    }

    /// Reads the interval of a regular series from part E of its address;
    /// an irregular series is left as it is. For a regular series the
    /// address must be set and its part E must hold more than white space:
    /// to call this without is a violation of the contract.
    pub fn set_interval_from_pathname(&mut self)
        requires
            old(self)@.kind == TimeSeriesType::regular ==> old(self)@.interval_token() is Some,
        ensures
            final(self)@ == old(self)@.with_interval_from_address(),
            final(self)@.wf(),
    {
        proof {
            use_type_invariant(&*self);
        }
        match self.ts_type {
            TimeSeriesType::regular => {
                let parsed = match &self.pathname {
                    Some(path) => match path.epart() {
                        Some(token) => HecTimeInterval::from_string(token),
                        None => None,
                    },
                    None => None,
                };
                self.interval = parsed;
            },
            TimeSeriesType::irregular => {},
        }
    }

    /// Reads the interval of a regular series from part E of its address,
    /// where there is one; fails, and leaves the series as it is, where the
    /// address is not set or its part E holds nothing but white space.
    pub fn checked_set_interval_from_pathname(&mut self) -> (res: DssResult<()>)
        ensures
            final(self)@.wf(),
            match old(self)@.interval_token_error() {
                Some(message) => res is Err && res->Err_0@ == raised(message) && final(self)@
                    == old(self)@,
                None => res is Ok && final(self)@ == old(self)@.with_interval_from_address(),
            },
    {
        proof {
            use_type_invariant(&*self);
        }
        match self.ts_type {
            TimeSeriesType::regular => {
                let present = match &self.pathname {
                    Some(path) => match path.epart() {
                        Some(token) => !trim(token).is_empty(),
                        None => false,
                    },
                    None => {
                        return Err(DssError::raise(String::from_str("pathname must be specified")));
                    },
                };
                if !present {
                    return Err(
                        DssError::raise(
                            String::from_str("The E-part must specify time-series interval"),
                        ),
                    );
                }
            },
            TimeSeriesType::irregular => {},
        }
        self.set_interval_from_pathname();
        Ok(())
    }
}

/// What the engine hands back for a time series: its buffers and the
/// numbers that describe them, as plain values.
#[derive(Debug)]
pub struct RawTimeSeries {
    /// The address of the record, as text.
    pub pathname: String,
    /// The label of the unit.
    pub units: String,
    /// The label of the data type.
    pub data_type: String,
    /// The number of values of the record.
    pub number_values: i32,
    /// The values, where the engine filled its single-precision buffer.
    pub values: Option<Vec<u32>>,
    /// One time for each value, where the engine filled its time buffer.
    pub times: Option<Vec<i32>>,
    /// The interval in seconds; not positive for an irregular series.
    pub interval_seconds: i32,
    /// The length in seconds of the unit in which times are counted.
    pub granularity_seconds: i32,
    /// The julian base date of the times of an irregular series.
    pub julian_base_date: i32,
    /// The julian day on which a regular series starts.
    pub start_julian_date: i32,
    /// The second of that day at which a regular series starts.
    pub start_time_seconds: i32,
}

impl RawTimeSeries {
    /// Why no series can be made of what the engine handed back, if none
    /// can: the first of these that holds. The number of values is negative;
    /// there are not as many values as that number; the granularity is none
    /// of the four units; an irregular series has not one time for each
    /// value.
    pub open spec fn defect(self) -> Option<Seq<char>> {
        if self.number_values < 0 {
            Some("Time series has an invalid number of values"@)
        } else if self.values is Some && self.values->Some_0@.len() != self.number_values {
            Some("The length of the value is not equal to TimeSeriesContainer capacity"@)
        } else if !HecTimeGranularity::is_unit_size(self.granularity_seconds as int) {
            Some(
                "Invalid value "@ + decimal_int(self.granularity_seconds as int)
                    + " of time granularity"@,
            )
        } else if self.interval_seconds <= 0 && self.times is Some && self.times->Some_0@.len()
            != self.number_values {
            Some("The number of times is not equal to TimeSeriesContainer capacity"@)
        } else {
            None
        }
    }

    /// The series that the engine's buffers describe. It is regular where
    /// the interval is positive: then it starts at the start second, in whole
    /// units of the granularity, of the start day, and its interval is the
    /// engine's, in seconds. Else it is irregular, with the engine's times on
    /// its julian base date. Values or times that the engine did not fill are
    /// zero.
    pub open spec fn series(self) -> SeriesModel {
        let unit = HecTimeGranularity::of_seconds(self.granularity_seconds as int);
        let count = self.number_values as nat;
        let regular = self.interval_seconds > 0;
        SeriesModel {
            kind: if regular {
                TimeSeriesType::regular
            } else {
                TimeSeriesType::irregular
            },
            address: path_of_text(self.pathname@),
            values: match self.values {
                Some(values) => values@,
                None => Seq::new(count, |i: int| 0u32),
            },
            unit: UnitLabel::of_label(lowercased(self.units@), self.units@),
            data_type: TypeLabel::of_label(lowercased(self.data_type@), self.data_type@),
            times: if regular {
                None
            } else {
                match self.times {
                    Some(times) => Some(
                        Seq::new(
                            count,
                            |i: int|
                                Instant {
                                    value: times@[i] as int,
                                    granularity: unit,
                                    base_days: self.julian_base_date as int,
                                },
                        ),
                    ),
                    None => Some(Seq::new(count, |i: int| zero_instant())),
                }
            },
            start_time: if regular {
                Some(
                    Instant {
                        value: quotient_toward_zero(
                            self.start_time_seconds as int,
                            unit.seconds(),
                        ),
                        granularity: unit,
                        base_days: self.start_julian_date as int,
                    },
                )
            } else {
                None
            },
            interval: if regular {
                Some(HecTimeInterval::second(self.interval_seconds))
            } else {
                None
            },
        }
    }
}

impl TimeSeriesContainer {
    /// Builds the series that the engine's buffers describe, or fails with
    /// the reason why they describe none.
    pub fn from_raw(raw: &RawTimeSeries) -> (res: DssResult<Self>)
        ensures
            match raw.defect() {
                Some(message) => res is Err && res->Err_0@ == raised(message),
                None => res is Ok && res->Ok_0@ == raw.series() && res->Ok_0@.wf(),
            },
    {
        let interval = raw.interval_seconds;
        let ts_type = TimeSeriesType::from_interval(interval);
        let data_count = raw.number_values;
        if data_count < 0 {
            return Err(
                DssError::raise(String::from_str("Time series has an invalid number of values")),
            );
        }
        let mut tsc = TimeSeriesContainer::new(ts_type, data_count);
        tsc.set_pathname(DssPathname::from_string(raw.pathname.as_str()));
        tsc.set_type(raw.data_type.as_str());
        tsc.set_unit(raw.units.as_str());
        match &raw.values {
            Some(values) => {
                match tsc.set_values(values.as_slice()) {
                    Ok(_) => {},
                    Err(e) => {
                        return Err(e);
                    },
                }
            },
            None => {},
        }
        let granularity = match HecTimeGranularity::checked_from_value(raw.granularity_seconds) {
            Some(unit) => unit,
            None => {
                let message = String::from_str("Invalid value ").concat(
                    decimal_i32(raw.granularity_seconds).as_str(),
                ).concat(" of time granularity");
                return Err(DssError::raise(message));
            },
        };
        match ts_type {
            TimeSeriesType::irregular => {
                tsc.set_interval(None);
                match &raw.times {
                    Some(buffer) => {
                        let mut times: Vec<HecTime> = Vec::new();
                        let mut i: usize = 0;
                        while i < buffer.len()
                            invariant
                                0 <= i <= buffer.len(),
                                times@.len() == i,
                                forall|j: int|
                                    0 <= j < i ==> (#[trigger] times@[j])@ == (Instant {
                                        value: buffer@[j] as int,
                                        granularity: granularity,
                                        base_days: raw.julian_base_date as int,
                                    }),
                            decreases buffer.len() - i,
                        {
                            times.push(
                                HecTime::new(
                                    buffer[i],
                                    Some(granularity),
                                    Some(raw.julian_base_date),
                                ),
                            );
                            i = i + 1;
                        }
                        match tsc.set_times(times.as_slice()) {
                            Ok(_) => {},
                            Err(e) => {
                                return Err(e);
                            },
                        }
                        assert(tsc@.times->Some_0 =~= raw.series().times->Some_0);
                    },
                    None => {
                        assert(tsc@.times->Some_0 =~= raw.series().times->Some_0);
                    },
                }
            },
            TimeSeriesType::regular => {
                tsc.set_interval(Some(HecTimeInterval::second(interval)));
                let value: i32 = raw.start_time_seconds / granularity.value();
                let start = HecTime::new(value, Some(granularity), Some(raw.start_julian_date));
                match tsc.set_times(vec![start].as_slice()) {
                    Ok(_) => {},
                    Err(e) => {
                        return Err(e);
                    },
                }
            },
        }
        Ok(tsc)
    }
}

/// The mathematical content of a [`SeriesWrite`].
pub ghost enum WriteModel {
    Regular {
        pathname: Seq<char>,
        unit: Seq<char>,
        data_type: Seq<char>,
        values: Seq<u32>,
        start: Instant,
    },
    Irregular {
        pathname: Seq<char>,
        unit: Seq<char>,
        data_type: Seq<char>,
        values: Seq<u32>,
        times: Seq<i32>,
        granularity_seconds: int,
        base_days: int,
    },
}

/// What the engine's store call takes for a series. The start of a regular
/// series and the base date of an irregular one are still to be rendered as
/// text, which the engine does.
#[derive(Debug)]
pub enum SeriesWrite {
    Regular { pathname: String, unit: String, data_type: String, values: Vec<u32>, start: HecTime },
    Irregular {
        pathname: String,
        unit: String,
        data_type: String,
        values: Vec<u32>,
        times: Vec<i32>,
        granularity_seconds: i32,
        base_days: i32,
    },
}

impl View for SeriesWrite {
    type V = WriteModel;

    open spec fn view(&self) -> WriteModel {
        match self {
            SeriesWrite::Regular { pathname, unit, data_type, values, start } => {
                WriteModel::Regular {
                    pathname: pathname@,
                    unit: unit@,
                    data_type: data_type@,
                    values: values@,
                    start: start@,
                }
            },
            SeriesWrite::Irregular {
                pathname,
                unit,
                data_type,
                values,
                times,
                granularity_seconds,
                base_days,
            } => {
                WriteModel::Irregular {
                    pathname: pathname@,
                    unit: unit@,
                    data_type: data_type@,
                    values: values@,
                    times: times@,
                    granularity_seconds: *granularity_seconds as int,
                    base_days: *base_days as int,
                }
            },
        }
    }
}

impl SeriesModel {
    /// Why the series cannot be written, if it cannot: the first of these
    /// that holds. It has no address; it is regular and part E of its address
    /// names no interval; it is regular and has no start time; it is
    /// irregular and has no time at all.
    pub open spec fn write_defect(self) -> Option<Seq<char>> {
        if self.address is None {
            Some("Pathname not specified"@)
        } else if self.kind == TimeSeriesType::regular && self.interval_token() is None {
            Some("The E-part must specify time-series interval"@)
        } else if self.times_of(false) is None || self.times_of(false)->Some_0.len() == 0 {
            Some("Times or start_time not specified for TimeSeries Container"@)
        } else {
            None
        }
    }

    /// What is handed to the engine to write the series. The times of an
    /// irregular series are counted in the unit, and from the base date, of
    /// the first of them.
    pub open spec fn write_shape(self) -> WriteModel {
        let times = self.times_of(false)->Some_0;
        if self.kind == TimeSeriesType::regular {
            WriteModel::Regular {
                pathname: path_text(self.address->Some_0),
                unit: self.unit.text(),
                data_type: self.data_type.text(),
                values: self.values,
                start: times[0],
            }
        } else {
            WriteModel::Irregular {
                pathname: path_text(self.address->Some_0),
                unit: self.unit.text(),
                data_type: self.data_type.text(),
                values: self.values,
                times: Seq::new(times.len(), |i: int| times[i].value as i32),
                granularity_seconds: times[0].granularity.seconds(),
                base_days: times[0].base_days,
            }
        }
    }
}

/// Whether `raw` is what an engine hands back that kept a regular series
/// as it was given to it in `shape`: the same values, and the start as its
/// julian day and the second of that day, counted in the same unit.
pub open spec fn handed_back(shape: WriteModel, raw: RawTimeSeries) -> bool {
    match shape {
        WriteModel::Regular { pathname, unit, data_type, values, start } => {
            &&& raw.interval_seconds > 0
            &&& raw.number_values == values.len()
            &&& raw.values is Some
            &&& raw.values->Some_0@ == values
            &&& raw.granularity_seconds == start.granularity.seconds()
            &&& raw.start_julian_date == start.base_days
            &&& raw.start_time_seconds == start.value * start.granularity.seconds()
        },
        WriteModel::Irregular { .. } => false,
    }
}

/// A regular series that can be written, and that the engine hands back as
/// it was written, reads back as a regular series with the same values and
/// the same start.
pub proof fn lemma_written_series_reads_back(series: SeriesModel, raw: RawTimeSeries)
    requires
        series.wf(),
        series.kind == TimeSeriesType::regular,
        series.write_defect() is None,
        handed_back(series.write_shape(), raw),
    ensures
        raw.defect() is None,
        raw.series().kind == TimeSeriesType::regular,
        raw.series().values == series.values,
        raw.series().start_time == series.start_time,
{
    let start = series.start_time->Some_0;
    assert(series.times_of(false) == Some(seq![start]));
    assert(series.write_shape() matches WriteModel::Regular { start: written, .. } && written
        == start);
    let unit = start.granularity;
    assert(HecTimeGranularity::of_seconds(unit.seconds()) == unit);
    assert(quotient_toward_zero(start.value * unit.seconds(), unit.seconds()) == start.value) by {
        match unit {
            HecTimeGranularity::second => {
                assert(start.value * 1 == start.value);
            },
            HecTimeGranularity::minute => {
                assert((start.value * 60) / 60 == start.value);
                assert((-(start.value * 60)) / 60 == -start.value);
            },
            HecTimeGranularity::hour => {
                assert((start.value * 3600) / 3600 == start.value);
                assert((-(start.value * 3600)) / 3600 == -start.value);
            },
            HecTimeGranularity::day => {
                assert((start.value * 86400) / 86400 == start.value);
                assert((-(start.value * 86400)) / 86400 == -start.value);
            },
        }
    }
}

impl TimeSeriesContainer {
    /// Puts the series in the shape that the engine's store call takes, or
    /// fails with the reason why it cannot be written.
    pub fn write_shape(&self) -> (res: DssResult<SeriesWrite>)
        ensures
            match self@.write_defect() {
                Some(message) => res is Err && res->Err_0@ == raised(message),
                None => res is Ok && res->Ok_0@ == self@.write_shape(),
            },
    {
        proof {
            use_type_invariant(self);
        }
        let path = match &self.pathname {
            Some(path) => path,
            None => {
                return Err(DssError::raise(String::from_str("Pathname not specified")));
            },
        };
        if let TimeSeriesType::regular = self.ts_type {
            let present = match path.epart() {
                Some(token) => !trim(token).is_empty(),
                None => false,
            };
            if !present {
                return Err(
                    DssError::raise(
                        String::from_str("The E-part must specify time-series interval"),
                    ),
                );
            }
        }
        let times = match self.times(false) {
            Some(times) => times,
            None => Vec::new(),
        };
        if times.len() == 0 {
            return Err(
                DssError::raise(
                    String::from_str("Times or start_time not specified for TimeSeries Container"),
                ),
            );
        }
        let values = slice_to_vec(self.values.as_slice());
        match self.ts_type {
            TimeSeriesType::regular => Ok(
                SeriesWrite::Regular {
                    pathname: path.to_string(),
                    unit: self.data_unit.to_string(),
                    data_type: self.data_type.to_string(),
                    values: values,
                    start: times[0],
                },
            ),
            TimeSeriesType::irregular => {
                let mut stamps: Vec<i32> = Vec::new();
                let mut i: usize = 0;
                while i < times.len()
                    invariant
                        0 <= i <= times.len(),
                        stamps@.len() == i,
                        forall|j: int| 0 <= j < i ==> #[trigger] stamps@[j] == times@[j]@.value,
                    decreases times.len() - i,
                {
                    stamps.push(times[i].value());
                    i = i + 1;
                }
                let first = times[0];
                proof {
                    let model = self@.times_of(false)->Some_0;
                    assert(model == instants(times@));
                    assert(stamps@ =~= Seq::new(model.len(), |i: int| model[i].value as i32));
                }
                Ok(
                    SeriesWrite::Irregular {
                        pathname: path.to_string(),
                        unit: self.data_unit.to_string(),
                        data_type: self.data_type.to_string(),
                        values: values,
                        times: stamps,
                        granularity_seconds: first.granularity().value(),
                        base_days: first.basedate_days(),
                    },
                )
            },
        }
    }
}

impl Clone for TimeSeriesContainer {
    fn clone(&self) -> (copy: Self)
        ensures
            copy@ == self@,
    {
        proof {
            use_type_invariant(self);
        }
        let times = match &self.times {
            Some(times) => Some(slice_to_vec(times.as_slice())),
            None => None,
        };
        TimeSeriesContainer {
            ts_type: self.ts_type,
            pathname: self.pathname(),
            values: slice_to_vec(self.values.as_slice()),
            data_unit: self.data_unit.clone(),
            data_type: self.data_type.clone(),
            times: times,
            start_time: self.start_time,
            interval: self.interval,
        }
    }
}

/// The choices that the engine's retrieve call takes for a time series.
#[derive(Debug, Copy, Clone, PartialEq, Eq)]
pub struct RetrieveFlags {
    /// 0 to read the values as they are stored, -1 to trim missing values at
    /// both ends.
    pub retrieve_flag: i32,
    /// 1 to read double-precision values, 0 to read single-precision ones.
    pub precision: i32,
    /// Whether to read all times of the record, not a time window.
    pub all_times: bool,
}

impl RetrieveFlags {
    /// The flags for a read. Only 0 is taken over as the retrieve flag; with
    /// any other, or none, the read trims. The values are single-precision
    /// unless double precision is asked for, and all times are read unless
    /// that is declined.
    pub fn new(retflag: Option<i32>, as_double: Option<bool>, alltime: Option<bool>) -> (flags:
        Self)
        ensures
            flags.retrieve_flag == if retflag == Some(0i32) {
                0int
            } else {
                -1int
            },
            flags.precision == if as_double == Some(true) {
                1int
            } else {
                0int
            },
            flags.all_times == (alltime != Some(false)),
    {
        let retrieve_flag: i32 = match retflag {
            Some(0) => 0,
            _ => -1,
        };
        let precision: i32 = match as_double {
            Some(true) => 1,
            _ => 0,
        };
        let all_times = match alltime {
            Some(false) => false,
            _ => true,
        };
        RetrieveFlags { retrieve_flag, precision, all_times }
    }
}

/// A window of time to read of a series.
#[derive(Debug)]
pub struct TimeSeriesSlice {
    start_time: Option<HecTime>,
    end_time: Option<HecTime>,
    trim: bool,
}

/// The choices of a read of a time series.
#[derive(Debug)]
pub struct TimeSeriesOptions {
    slice: Option<TimeSeriesSlice>,
    trim_start: Option<bool>,
    trim_end: Option<bool>,
}

/// What an archive says of a record besides its data.
#[derive(Debug)]
pub struct DssMetaData {
}

} // verus!
