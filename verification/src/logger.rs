//! The log of the errors.

use chrono::Local;
use vstd::prelude::*;

use crate::text::{concat3, concat5};

verus! {

/// How the name of a log file tells the time, as `chrono` understands it.
pub const FILE_TIME_FORMAT: &'static str = "%Y-%m-%d_%H:%M:%S%.3f";

/// How an entry of the log tells the time, as `chrono` understands it.
pub const ENTRY_TIME_FORMAT: &'static str = "%Y-%m-%d %H:%M:%S%.6f";

/// A date and a time of day. In a leap second the nanoseconds go on past one second.
pub struct LocalTime {
    pub year: int,
    pub month: int,
    pub day: int,
    pub hour: int,
    pub minute: int,
    pub second: int,
    pub nanosecond: int,
}

impl LocalTime {
    pub open spec fn wf(self) -> bool {
        &&& 1 <= self.month <= 12
        &&& 1 <= self.day <= 31
        &&& 0 <= self.hour < 24
        &&& 0 <= self.minute < 60
        &&& 0 <= self.second < 60
        &&& 0 <= self.nanosecond < 2_000_000_000
    }

    /// The year with at least four digits, and with a sign where it is not one of four digits.
    pub open spec fn year_text(self) -> Seq<char> {
        if 0 <= self.year <= 9999 {
            crate::text::padded(self.year as nat, 4)
        } else if self.year > 9999 {
            seq!['+'] + crate::text::padded(self.year as nat, 4)
        } else {
            seq!['-'] + crate::text::padded((-self.year) as nat, 4)
        }
    }

    /// Year, month and day.
    pub open spec fn date_text(self) -> Seq<char> {
        self.year_text() + seq!['-'] + crate::text::padded(self.month as nat, 2) + seq!['-']
            + crate::text::padded(self.day as nat, 2)
    }

    /// Hour, minute and second.
    pub open spec fn clock_text(self) -> Seq<char> {
        crate::text::padded(self.hour as nat, 2) + seq![':'] + crate::text::padded(
            self.minute as nat,
            2,
        ) + seq![':'] + crate::text::padded(
            (self.second + self.nanosecond / 1_000_000_000) as nat,
            2,
        )
    }

    /// The time in the name of a log file, to the millisecond.
    pub open spec fn file_text(self) -> Seq<char> {
        self.date_text() + seq!['_'] + self.clock_text() + seq!['.'] + crate::text::padded(
            (self.nanosecond / 1_000_000 % 1_000) as nat,
            3,
        )
    }

    /// The time in an entry of the log, to the microsecond.
    pub open spec fn entry_text(self) -> Seq<char> {
        self.date_text() + seq![' '] + self.clock_text() + seq!['.'] + crate::text::padded(
            (self.nanosecond / 1_000 % 1_000_000) as nat,
            6,
        )
    }
}

/// Whether `text` is some time in `format`.
pub open spec fn tells_time(text: Seq<char>, format: Seq<char>) -> bool {
    exists|t: LocalTime| #[trigger]
        t.wf() && (format == FILE_TIME_FORMAT@ ==> text == t.file_text()) && (format
            == ENTRY_TIME_FORMAT@ ==> text == t.entry_text())
}

/// The time of now as `chrono::Local::now` tells it, written by `chrono::DateTime::format`. Which
/// time that is, is left open, but it is a time, and the text is that time in the format that is
/// asked for. `chrono` panics where the clock of the machine stands before 1970 and where the machine
/// has no usable time zone.
#[verifier::external_body]
fn local_now_text(format: &'static str) -> (r: String)
    requires
        format@ == FILE_TIME_FORMAT@ || format@ == ENTRY_TIME_FORMAT@,
    ensures
        tells_time(r@, format@),
{
    Local::now().format(format).to_string()
}

/// The name of the log file of the given time.
pub fn log_file_name_at(datetime: &str) -> (r: String)
    ensures
        r@ == "errors_"@ + datetime@ + ".log"@,
{
    concat3("errors_", datetime, ".log")
}

/// The entry of an error in the log.
pub fn entry_at(datetime: &str, error: &str) -> (r: String)
    ensures
        r@ == "["@ + datetime@ + "] "@ + error@ + "\n"@,
{
    concat5("[", datetime, "] ", error, "\n")
}

/// Writes errors to a log.
pub struct Logger<W> {
    log_file: W,
}

impl<W> Logger<W> {
    pub closed spec fn file(&self) -> W {
        self.log_file
    }

    pub fn new(log_file: W) -> (r: Logger<W>)
        ensures
            r.file() == log_file,
    {
        Logger { log_file }
    }

    /// The name of a log file that is started now.
    pub fn log_file_name() -> (r: String)
        ensures
            exists|t: LocalTime| #[trigger]
                t.wf() && r@ == "errors_"@ + t.file_text() + ".log"@,
    {
        let datetime = local_now_text(FILE_TIME_FORMAT);
        log_file_name_at(datetime.as_str())
    }

    /// Has `write` add the entry of an error that comes in now to the log.
    pub fn log<R, F>(&mut self, error: &str, write: F) -> (r: R) where
        F: FnOnce(&mut W, String) -> R,

        requires
            forall|t: LocalTime, file: &mut W, entry: String|
                #[trigger] t.wf() && entry@ == "["@ + t.entry_text() + "] "@ + error@ + "\n"@
                    && *file == old(self).file() ==> #[trigger] call_requires(write, (file, entry)),
        ensures
            exists|t: LocalTime, file: &mut W, entry: String|
                {
                    &&& #[trigger] t.wf()
                    &&& entry@ == "["@ + t.entry_text() + "] "@ + error@ + "\n"@
                    &&& *file == old(self).file()
                    &&& *final(file) == final(self).file()
                    &&& #[trigger] call_ensures(write, (file, entry), r)
                },
    {
        let datetime = local_now_text(ENTRY_TIME_FORMAT);
        let entry = entry_at(datetime.as_str(), error);
        write(&mut self.log_file, entry)
    }
}

} // verus!
