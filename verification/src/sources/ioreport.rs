//! Readings of the energy and performance-state channels.

use vstd::prelude::*;

verus! {

/// One channel reading: what the channel did within the interval.
#[derive(Debug, Clone)]
pub struct IOReportSample {
    pub group: String,
    pub subgroup: String,
    pub channel: String,
    pub value: i64,
    pub unit: String,
}

/// The mathematical content of an [`IOReportSample`].
pub ghost struct IOReportSampleView {
    pub group: Seq<char>,
    pub subgroup: Seq<char>,
    pub channel: Seq<char>,
    pub value: i64,
    pub unit: Seq<char>,
}

impl View for IOReportSample {
    type V = IOReportSampleView;

    open spec fn view(&self) -> IOReportSampleView {
        IOReportSampleView {
            group: self.group@,
            subgroup: self.subgroup@,
            channel: self.channel@,
            value: self.value,
            unit: self.unit@,
        }
    }
}

impl DeepView for IOReportSample {
    type V = IOReportSampleView;

    open spec fn deep_view(&self) -> IOReportSampleView {
        self@
    }
}

/// The text of a field that may be missing from a channel's record.
pub open spec fn text_or_empty(field: Option<String>) -> Seq<char> {
    match field {
        Some(text) => text@,
        None => Seq::<char>::empty(),
    }
}

impl IOReportSample {
    /// Builds a reading from the fields found in a channel's record.
    ///
    /// A text field that is missing reads as the empty text, a missing value as zero.
    pub fn from_fields(
        group: Option<String>,
        subgroup: Option<String>,
        channel: Option<String>,
        unit: Option<String>,
        value: Option<i64>,
    ) -> (sample: IOReportSample)
        ensures
            sample@ == (IOReportSampleView {
                group: text_or_empty(group),
                subgroup: text_or_empty(subgroup),
                channel: text_or_empty(channel),
                value: match value {
                    Some(v) => v,
                    None => 0,
                },
                unit: text_or_empty(unit),
            }),
    {
        IOReportSample {
            group: text_or_default(group),
            subgroup: text_or_default(subgroup),
            channel: text_or_default(channel),
            value: match value {
                Some(v) => v,
                None => 0,
            },
            unit: text_or_default(unit),
        }
    }
}

fn text_or_default(field: Option<String>) -> (text: String)
    ensures
        text@ == text_or_empty(field),
{
    match field {
        Some(text) => text,
        None => String::new(),
    }
}

} // verus!
