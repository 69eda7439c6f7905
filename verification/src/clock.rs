//! Wall-clock readings and the run identifier derived from them.

use vstd::prelude::*;

verus! {

/// An instant of local time, held as plain numbers: seconds and nanoseconds
/// since the Unix epoch, and the local offset from UTC in seconds.
#[derive(Clone, Copy, Debug, PartialEq, Eq, Structural)]
pub struct Timestamp {
    pub secs: i64,
    pub nanos: u32,
    pub offset_secs: i32,
}

/// The text `chrono` renders for an instant under a `strftime` pattern in
/// the zone with the given offset, or `None` where `chrono` cannot represent
/// the instant or the offset.
pub uninterp spec fn rendered_time(
    pattern: Seq<char>,
    secs: int,
    nanos: int,
    offset_secs: int,
) -> Option<Seq<char>>;

/// The pattern of a run identifier: the date and the time of day, each as
/// digits, with a dash between them.
pub open spec fn run_id_pattern() -> Seq<char> {
    "%Y%m%d-%H%M%S"@
}

/// Reads the wall clock in the local time zone.
///
/// Trusted: calls `chrono::Local::now` and copies out the instant's Unix
/// seconds, sub-second nanoseconds and UTC offset. The values depend on the
/// machine's clock and zone; what is claimed is that they can be rendered
/// again: `chrono` rebuilds every instant from its seconds and nanoseconds,
/// and the offset of a zone is always one it accepts.
#[verifier::external_body]
pub(crate) fn read_clock() -> (now: Timestamp)
    ensures
        now.run_id_spec() is Some,
{
    let at = chrono::Local::now();
    Timestamp {
        secs: at.timestamp(),
        nanos: at.timestamp_subsec_nanos(),
        offset_secs: at.offset().local_minus_utc(),
    }
}

/// Renders an instant in its own zone under the pattern of a run
/// identifier.
///
/// Trusted: rebuilds the instant with `chrono::DateTime::from_timestamp` and
/// `chrono::FixedOffset::east_opt`, and renders it with
/// `chrono::DateTime::format`. The contract only gives the result its name:
/// the rendering is a function of the pattern and the three numbers alone.
/// The pattern is held to the one of run identifiers, which `chrono`
/// accepts; it would panic on a pattern it cannot read.
#[verifier::external_body]
pub(crate) fn render_time(
    pattern: &str,
    secs: i64,
    nanos: u32,
    offset_secs: i32,
) -> (text: Option<String>)
    requires
        pattern@ == run_id_pattern(),
    ensures
        text.deep_view() == rendered_time(
            pattern@,
            secs as int,
            nanos as int,
            offset_secs as int,
        ),
{
    let zone = chrono::FixedOffset::east_opt(offset_secs)?;
    let at = chrono::DateTime::from_timestamp(secs, nanos)?.with_timezone(&zone);
    Some(at.format(pattern).to_string())
}

impl Timestamp {
    /// The run identifier this instant gives, where it has one: the instant
    /// rendered under [`run_id_pattern`].
    pub open spec fn run_id_spec(self) -> Option<Seq<char>> {
        rendered_time(
            run_id_pattern(),
            self.secs as int,
            self.nanos as int,
            self.offset_secs as int,
        )
    }

    /// The current local time. Whatever the clock says, the reading has a
    /// run identifier.
    pub fn now() -> (now: Timestamp)
        ensures
            now.run_id_spec() is Some,
    {
        read_clock()
    }

    /// The identifier of a run started at this instant: its local date and
    /// time as `YYYYMMDD-HHMMSS`. `None` where the instant lies outside what
    /// the calendar can represent.
    pub fn run_id(&self) -> (id: Option<String>)
        ensures
            id.deep_view() == self.run_id_spec(),
    {
        render_time("%Y%m%d-%H%M%S", self.secs, self.nanos, self.offset_secs)
    }
}

} // verus!
