//! Typed, validated records of a hydrologic time-series archive: calendar
//! times and intervals, six-part record addresses, series and paired-data
//! containers, and the classification of the archive engine's error reports.
//!
//! The archive engine itself stays outside: this library takes what the
//! engine hands back as plain values and gives back the shapes that the
//! engine's calls take.
#![allow(non_camel_case_types)]
#![allow(dead_code)]

pub mod error;
pub mod paired;
pub mod pathname;
pub mod text;
pub mod time;
pub mod timeseries;
pub mod units;

pub use error::{DssError, DssErrorGroup, DssErrorKind, DssResult};
pub use paired::{
    PairedDataOptions, PairedDataRange, PairedDataSlice, PairedDataTable, RawPairedData,
};
pub use pathname::DssPathname;
pub use time::{HecTime, HecTimeGranularity, HecTimeInterval, HecTimeIntervalIreg};
pub use timeseries::{
    DssMetaData, RawTimeSeries, RetrieveFlags, SeriesWrite, TimeSeriesContainer,
    TimeSeriesOptions, TimeSeriesSlice, TimeSeriesType,
};
pub use units::{DataType, DataUnit};
