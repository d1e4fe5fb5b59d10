//! The state behind the page: which affordance is shown, the two selected
//! dates, and what the page does when an export or a download has ended.

use vstd::prelude::*;
use vstd::string::*;
use crate::config::ExportConfig;
use crate::download::{DownloadError, error_text};
use crate::sequencer::{ExportOutcome, ExportStep, OutcomeView, begin_export, first_step_of};

verus! {

/// The routes of the application.
#[derive(Clone, Copy, Debug, PartialEq, Eq, Structural)]
pub enum Route {
    Homepage,
}

/// The pages that a route can lead to.
#[derive(Clone, Copy, Debug, PartialEq, Eq, Structural)]
pub enum Page {
    Home,
}

/// The page shown for a route.
pub fn switch(routes: Route) -> (page: Page)
    ensures
        page == Page::Home,
{
    match routes {
        Route::Homepage => Page::Home,
    }
}

/// What the home page offers.
#[derive(Clone, Copy, Debug, PartialEq, Eq, Structural)]
pub enum ViewMode {
    /// Not connected: a single link to the authorization address.
    Connect,
    /// Connected: two date pickers and the export button.
    Export,
}

/// The page is connected exactly when the authorization code is not empty.
pub open spec fn mode_of(code: Seq<char>) -> ViewMode {
    if code.len() == 0 {
        ViewMode::Connect
    } else {
        ViewMode::Export
    }
}

/// What the home page offers for an authorization code.
pub fn view_mode(code: &str) -> (mode: ViewMode)
    ensures
        mode == mode_of(code@),
{
    if code.is_empty() {
        ViewMode::Connect
    } else {
        ViewMode::Export
    }
}

/// The decimal digit for `n`, where `0 <= n <= 9`.
pub open spec fn digit(n: int) -> char {
    seq!['0', '1', '2', '3', '4', '5', '6', '7', '8', '9'][n]
}

/// `n` in two decimal digits, where `0 <= n <= 99`.
pub open spec fn two_digits(n: int) -> Seq<char> {
    seq![digit(n / 10), digit(n % 10)]
}

/// Whether `year` is a leap year of the Gregorian calendar.
pub open spec fn is_leap_year(year: int) -> bool {
    year % 4 == 0 && (year % 100 != 0 || year % 400 == 0)
}

/// The number of days in a month of the Gregorian calendar.
pub open spec fn days_in_month(year: int, month: int) -> int {
    if month == 2 {
        if is_leap_year(year) {
            29
        } else {
            28
        }
    } else if month == 4 || month == 6 || month == 9 || month == 11 {
        30
    } else {
        31
    }
}

/// Whether the three numbers name a day of the Gregorian calendar.
pub open spec fn is_calendar_day(year: int, month: int, day: int) -> bool {
    1 <= month <= 12 && 1 <= day <= days_in_month(year, month)
}

/// A day written as day, month and year with dots between them: two digits,
/// two digits, four digits. For years from 0 to 9999.
pub open spec fn day_month_year(year: int, month: int, day: int) -> Seq<char> {
    two_digits(day) + seq!['.'] + two_digits(month) + seq!['.'] + two_digits(year / 100)
        + two_digits(year % 100)
}

/// The text for a day in the years from 0 to 9999: present exactly for the
/// days of the calendar.
pub open spec fn calendar_text(year: int, month: int, day: int) -> Option<Seq<char>> {
    if is_calendar_day(year, month, day) {
        Some(day_month_year(year, month, day))
    } else {
        None
    }
}

/// What `chrono` writes for the calendar day `day`.`month`.`year` under the
/// format `%d.%m.%Y`, or `None` where `chrono` knows no such day.
pub uninterp spec fn day_month_year_text(year: int, month: int, day: int) -> Option<Seq<char>>;

/// Calls `chrono::NaiveDate::from_ymd_opt` and, on the date it gives,
/// `NaiveDate::format` with `%d.%m.%Y`. The contract names the outcome, which
/// is a function of the three numbers, and says what it is for the years
/// from 0 to 9999: `chrono` accepts exactly the days of the proleptic
/// Gregorian calendar and writes day and month in two digits and such a year
/// in four, without a sign.
#[verifier::external_body]
fn format_with_chrono(year: i32, month: u32, day: u32) -> (text: Option<String>)
    ensures
        text_view(text) == day_month_year_text(year as int, month as int, day as int),
        0 <= year <= 9999 ==> text_view(text) == calendar_text(
            year as int,
            month as int,
            day as int,
        ),
{
    match chrono::NaiveDate::from_ymd_opt(year, month, day) {
        Some(date) => Some(date.format("%d.%m.%Y").to_string()),
        None => None,
    }
}

/// An optional string by its view.
pub open spec fn text_view(text: Option<String>) -> Option<Seq<char>> {
    match text {
        Some(t) => Some(t@),
        None => None,
    }
}

/// A string that may be unset, read as text: unset reads as empty.
pub open spec fn text_or_empty(text: Option<Seq<char>>) -> Seq<char> {
    match text {
        Some(t) => t,
        None => Seq::empty(),
    }
}

/// The text that the remote service is sent for a calendar day.
pub fn format_date(year: i32, month: u32, day: u32) -> (text: Option<String>)
    ensures
        text_view(text) == day_month_year_text(year as int, month as int, day as int),
        0 <= year <= 9999 ==> text_view(text) == calendar_text(
            year as int,
            month as int,
            day as int,
        ),
{
    format_with_chrono(year, month, day)
}

/// The two selected dates, each unset until its picker reports a day.
#[derive(Clone, Debug, PartialEq, Eq)]
pub struct DateSelection {
    pub start: Option<String>,
    pub end: Option<String>,
}

/// Mathematical value of a [`DateSelection`].
pub struct DateSelectionView {
    pub start: Option<Seq<char>>,
    pub end: Option<Seq<char>>,
}

impl View for DateSelection {
    type V = DateSelectionView;

    open spec fn view(&self) -> DateSelectionView {
        DateSelectionView { start: text_view(self.start), end: text_view(self.end) }
    }
}

/// The new value of one half of the selection after its picker reported a
/// day whose text is `picked`: the text where there is one, else the old
/// value.
pub open spec fn after_pick(current: Option<Seq<char>>, picked: Option<Seq<char>>) -> Option<
    Seq<char>,
> {
    if picked is Some {
        picked
    } else {
        current
    }
}

impl DateSelection {
    /// A selection with both dates unset.
    pub fn new() -> (selection: DateSelection)
        ensures
            selection@ == (DateSelectionView { start: None, end: None }),
    {
        DateSelection { start: None, end: None }
    }

    /// Stores the text of the start date; the end date is untouched.
    pub fn set_start(&mut self, text: String)
        ensures
            final(self)@ == (DateSelectionView { start: Some(text@), end: old(self)@.end }),
    {
        self.start = Some(text);
    }

    /// Stores the text of the end date; the start date is untouched.
    pub fn set_end(&mut self, text: String)
        ensures
            final(self)@ == (DateSelectionView { start: old(self)@.start, end: Some(text@) }),
    {
        self.end = Some(text);
    }

    /// The start picker reported a day. A day that does not exist leaves the
    /// selection as it was.
    pub fn pick_start(&mut self, year: i32, month: u32, day: u32)
        ensures
            final(self)@ == (DateSelectionView {
                start: after_pick(
                    old(self)@.start,
                    day_month_year_text(year as int, month as int, day as int),
                ),
                end: old(self)@.end,
            }),
            0 <= year <= 9999 ==> final(self)@.start == after_pick(
                old(self)@.start,
                calendar_text(year as int, month as int, day as int),
            ),
    {
        match format_date(year, month, day) {
            Some(text) => self.set_start(text),
            None => {},
        }
    }

    /// The end picker reported a day. A day that does not exist leaves the
    /// selection as it was.
    pub fn pick_end(&mut self, year: i32, month: u32, day: u32)
        ensures
            final(self)@ == (DateSelectionView {
                start: old(self)@.start,
                end: after_pick(
                    old(self)@.end,
                    day_month_year_text(year as int, month as int, day as int),
                ),
            }),
            0 <= year <= 9999 ==> final(self)@.end == after_pick(
                old(self)@.end,
                calendar_text(year as int, month as int, day as int),
            ),
    {
        match format_date(year, month, day) {
            Some(text) => self.set_end(text),
            None => {},
        }
    }

    /// The `after` parameter of the report call: the start date, empty while
    /// unset.
    pub fn after_param(&self) -> (text: String)
        ensures
            text@ == text_or_empty(self@.start),
    {
        match &self.start {
            Some(t) => t.clone(),
            None => String::new(),
        }
    }

    /// The `before` parameter of the report call: the end date, empty while
    /// unset.
    pub fn before_param(&self) -> (text: String)
        ensures
            text@ == text_or_empty(self@.end),
    {
        match &self.end {
            Some(t) => t.clone(),
            None => String::new(),
        }
    }
}

/// The text of a day has ten characters, with a dot after the day and a dot
/// after the month.
pub proof fn lemma_date_text_shape(year: int, month: int, day: int)
    ensures
        day_month_year(year, month, day).len() == 10,
        day_month_year(year, month, day)[2] == '.',
        day_month_year(year, month, day)[5] == '.',
{
}

/// What the page does once an export or a download has ended.
#[derive(Clone, Debug, PartialEq, Eq)]
pub enum ShellAction {
    /// Hand `content` to the browser as a download named `filename`.
    Download { content: String, filename: String },
    /// Show `message` in a blocking notification, then go back to the
    /// initial route if `reset_view` is set.
    Notify { message: String, reset_view: bool },
}

/// Mathematical value of a [`ShellAction`].
pub enum ShellActionView {
    Download { content: Seq<char>, filename: Seq<char> },
    Notify { message: Seq<char>, reset_view: bool },
}

impl View for ShellAction {
    type V = ShellActionView;

    open spec fn view(&self) -> ShellActionView {
        match self {
            ShellAction::Download { content, filename } => ShellActionView::Download {
                content: content@,
                filename: filename@,
            },
            ShellAction::Notify { message, reset_view } => ShellActionView::Notify {
                message: message@,
                reset_view: *reset_view,
            },
        }
    }
}

/// A fetched report is downloaded as `output.csv`; a failure is shown to the
/// user.
pub open spec fn after_export_of(outcome: OutcomeView, reset_view: bool) -> ShellActionView {
    match outcome {
        OutcomeView::Success(content) => ShellActionView::Download {
            content,
            filename: "output.csv"@,
        },
        OutcomeView::Failure(message) => ShellActionView::Notify { message, reset_view },
    }
}

/// A click on the export button starts an export only where the page is
/// connected.
pub fn start_export(config: &ExportConfig, code: &str) -> (step: Option<ExportStep>)
    ensures
        mode_of(code@) == ViewMode::Connect ==> step is None,
        mode_of(code@) == ViewMode::Export ==> step is Some && step->0@ == first_step_of(
            config@,
            code@,
        ),
{
    match view_mode(code) {
        ViewMode::Connect => None,
        ViewMode::Export => Some(begin_export(config, code)),
    }
}

/// What the page does with the end of an export.
pub fn after_export(outcome: ExportOutcome, reset_view: bool) -> (action: ShellAction)
    ensures
        action@ == after_export_of(outcome@, reset_view),
{
    match outcome {
        ExportOutcome::Success(content) => ShellAction::Download {
            content,
            filename: String::from_str("output.csv"),
        },
        ExportOutcome::Failure(message) => ShellAction::Notify { message, reset_view },
    }
}

/// What the page does with the end of a download: nothing where it worked,
/// else a notification that leaves the view where it is.
pub fn after_download(result: Result<(), DownloadError>) -> (action: Option<ShellAction>)
    ensures
        result is Ok ==> action is None,
        result matches Err(e) ==> action is Some && action->0@ == (ShellActionView::Notify {
            message: error_text(e),
            reset_view: false,
        }),
{
    match result {
        Ok(_) => None,
        Err(e) => Some(ShellAction::Notify { message: e.message(), reset_view: false }),
    }
}

} // verus!
