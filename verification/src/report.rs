//! The reports on what was configured and on what each delivery channel
//! answered: one row per subject, for the session to draw as a table.

use vstd::prelude::*;
use vstd::string::*;
use crate::configuration::{Configuration, ConfigurationError};
use crate::error::NotificationError;
use crate::text::texts;

verus! {

/// The mark of a subject that is in order.
pub const MARK_OK: &'static str = "O";

/// The mark of a subject that failed or is missing.
pub const MARK_FAILED: &'static str = "X";

/// One row of a report.
#[derive(Debug)]
pub struct Report {
    /// `O` where the subject is in order, `X` where it is not.
    pub ok: String,
    /// What the row is about.
    pub desc: String,
    /// Why the subject is not in order; empty where it is.
    pub reason: String,
}

/// What a row is, as mathematical values.
pub struct ReportView {
    pub ok: Seq<char>,
    pub desc: Seq<char>,
    pub reason: Seq<char>,
}

impl View for Report {
    type V = ReportView;

    open spec fn view(&self) -> ReportView {
        ReportView { ok: self.ok@, desc: self.desc@, reason: self.reason@ }
    }
}

/// The reason a row gives for an error: the text of the error and, on a
/// second line, the text of its cause where it has one.
pub open spec fn reason_text(text: Seq<char>, cause: Option<Seq<char>>) -> Seq<char> {
    match cause {
        Some(cause) => text + "\n"@ + cause,
        None => text,
    }
}

/// The row of a subject that is in order.
pub open spec fn passed(desc: Seq<char>) -> ReportView {
    ReportView { ok: MARK_OK@, desc, reason: Seq::<char>::empty() }
}

/// The row of a subject that is not in order, with the reason.
pub open spec fn failed(desc: Seq<char>, reason: Seq<char>) -> ReportView {
    ReportView { ok: MARK_FAILED@, desc, reason }
}

/// The row for what one delivery channel answered.
pub open spec fn delivery_row(desc: Seq<char>, outcome: Result<(), NotificationError>) -> ReportView {
    match outcome {
        Ok(_) => passed(desc),
        Err(e) => failed(desc, reason_text(e.text(), e.cause())),
    }
}

/// The row for a part of the configuration that is there or is missing.
pub open spec fn presence_row(desc: Seq<char>, present: bool, missing: ConfigurationError) -> ReportView {
    if present {
        passed(desc)
    } else {
        failed(desc, reason_text(missing.text(), missing.cause()))
    }
}

/// The rows, one by one, as mathematical values.
pub open spec fn rows_of(reports: Seq<Report>) -> Seq<ReportView> {
    Seq::new(reports.len(), |i: int| reports[i]@)
}

impl Report {
    /// A row with the given mark and subject and without a reason.
    pub fn new(ok: &'static str, desc: &'static str) -> (r: Self)
        ensures
            r@ == (ReportView { ok: ok@, desc: desc@, reason: Seq::<char>::empty() }),
    {
        Report { ok: String::from_str(ok), desc: String::from_str(desc), reason: String::new() }
    }

    /// The row with its reason replaced by the text of an error and, on a
    /// second line, the text of its cause where it has one.
    pub fn update_reason(self, text: String, cause: Option<String>) -> (r: Self)
        ensures
            r@ == (ReportView {
                ok: self@.ok,
                desc: self@.desc,
                reason: reason_text(
                    text@,
                    match cause {
                        Some(c) => Some(c@),
                        None => None,
                    },
                ),
            }),
    {
        let reason = match cause {
            Some(c) => text.concat("\n").concat(c.as_str()),
            None => text,
        };
        Report { ok: self.ok, desc: self.desc, reason }
    }
}

/// The row for what one delivery channel answered.
fn delivery_report(desc: &'static str, outcome: &Result<(), NotificationError>) -> (r: Report)
    ensures
        r@ == delivery_row(desc@, *outcome),
{
    match outcome {
        Ok(_) => Report::new(MARK_OK, desc),
        Err(e) => Report::new(MARK_FAILED, desc).update_reason(e.describe(), e.source_text()),
    }
}

/// The row for a part of the configuration that is there or is missing.
fn presence_report(desc: &'static str, present: bool, missing: ConfigurationError) -> (r: Report)
    ensures
        r@ == presence_row(desc@, present, missing),
{
    if present {
        Report::new(MARK_OK, desc)
    } else {
        Report::new(MARK_FAILED, desc).update_reason(missing.describe(), missing.source_text())
    }
}

/// The report on one alert: a row for the desktop banner and one for each
/// chat channel, in this order. A channel that failed is marked and carries
/// its reason; it takes nothing from the rows of the others.
pub fn generate_notify_report(
    desktop: Result<(), NotificationError>,
    slack: Result<(), NotificationError>,
    discord: Result<(), NotificationError>,
) -> (r: Vec<Report>)
    ensures
        rows_of(r@) == seq![
            delivery_row("Desktop"@, desktop),
            delivery_row("Slack"@, slack),
            delivery_row("Discord"@, discord),
        ],
{
    let mut r: Vec<Report> = Vec::new();
    r.push(delivery_report("Desktop", &desktop));
    r.push(delivery_report("Slack", &slack));
    r.push(delivery_report("Discord", &discord));
    assert(rows_of(r@) =~= seq![
        delivery_row("Desktop"@, desktop),
        delivery_row("Slack"@, slack),
        delivery_row("Discord"@, discord),
    ]);
    r
}

/// The row on whether the configuration loaded.
pub open spec fn loading_row(err: Option<ConfigurationError>) -> ReportView {
    match err {
        Some(e) => failed("no config err"@, reason_text(e.text(), e.cause())),
        None => passed("no config err"@),
    }
}

/// The report on the configuration a session runs with: whether it loaded,
/// then the channel and the token of the first chat webhook, then the
/// address of the second.
pub fn generate_configuration_report(config: &Configuration, err: Option<ConfigurationError>) -> (r:
    Vec<Report>)
    ensures
        rows_of(r@) == seq![
            loading_row(err),
            presence_row(
                "slack_channel"@,
                config.slack_channel() is Some,
                ConfigurationError::SlackConfigNotFound,
            ),
            presence_row(
                "slack_token"@,
                config.slack_token() is Some,
                ConfigurationError::SlackConfigNotFound,
            ),
            presence_row(
                "discord_webhook_url"@,
                config.discord_webhook_url() is Some,
                ConfigurationError::DiscordConfigNotFound,
            ),
        ],
{
    let loading = match &err {
        Some(e) => Report::new(MARK_FAILED, "no config err").update_reason(
            e.describe(),
            e.source_text(),
        ),
        None => Report::new(MARK_OK, "no config err"),
    };
    let mut r: Vec<Report> = Vec::new();
    r.push(loading);
    r.push(
        presence_report(
            "slack_channel",
            config.get_slack_channel().is_some(),
            ConfigurationError::SlackConfigNotFound,
        ),
    );
    r.push(
        presence_report(
            "slack_token",
            config.get_slack_token().is_some(),
            ConfigurationError::SlackConfigNotFound,
        ),
    );
    r.push(
        presence_report(
            "discord_webhook_url",
            config.get_discord_webhook_url().is_some(),
            ConfigurationError::DiscordConfigNotFound,
        ),
    );
    assert(rows_of(r@) =~= seq![
        loading_row(err),
        presence_row(
            "slack_channel"@,
            config.slack_channel() is Some,
            ConfigurationError::SlackConfigNotFound,
        ),
        presence_row(
            "slack_token"@,
            config.slack_token() is Some,
            ConfigurationError::SlackConfigNotFound,
        ),
        presence_row(
            "discord_webhook_url"@,
            config.discord_webhook_url() is Some,
            ConfigurationError::DiscordConfigNotFound,
        ),
    ]);
    r
}

/// The cells of a table, row by row, as characters.
pub open spec fn row_texts(rows: Seq<Vec<String>>) -> Seq<Seq<Seq<char>>> {
    Seq::new(rows.len(), |i: int| texts(rows[i]@))
}

/// The drawing of a table of notifications with the given headers and rows:
/// framed, with one line below the headers and every cell centred.
pub uninterp spec fn table_text(headers: Seq<Seq<char>>, rows: Seq<Seq<Seq<char>>>) -> Seq<char>;

/// The drawing of a report: framed, with a line between any two rows.
pub uninterp spec fn report_text(rows: Seq<Seq<Seq<char>>>) -> Seq<char>;

/// Draws a table of notifications with the given headers and rows.
pub fn render_table(headers: &Vec<String>, rows: &Vec<Vec<String>>) -> (r: String)
    ensures
        r@ == table_text(texts(headers@), row_texts(rows@)),
{
    draw_table(headers, rows)
}

/// Builds a table with tabled's `Builder`, gives it the modern style with
/// the one horizontal line below the headers, centres every cell and draws
/// it. The drawing depends on the texts of the cells alone.
#[verifier::external_body]
fn draw_table(headers: &Vec<String>, rows: &Vec<Vec<String>>) -> (r: String)
    ensures
        r@ == table_text(texts(headers@), row_texts(rows@)),
{
    let mut builder = tabled::builder::Builder::from(rows.clone());
    builder.set_columns(headers.clone());
    let line = tabled::style::HorizontalLine::new(1, tabled::Style::modern().get_horizontal());
    let style = tabled::Style::modern().off_horizontal().horizontals([line]);
    let centred = tabled::Modify::new(tabled::object::Segment::all()).with(
        tabled::Alignment::center(),
    );
    builder.build().with(style).with(centred).to_string()
}

/// Builds a table with tabled's `Builder`, gives it the modern style and
/// draws it. The drawing depends on the texts of the cells alone.
#[verifier::external_body]
fn render_rows(rows: &Vec<Vec<String>>) -> (r: String)
    ensures
        r@ == report_text(row_texts(rows@)),
{
    tabled::builder::Builder::from(rows.clone()).build().with(tabled::Style::modern()).to_string()
}

/// The cells of a report: a row of headers, then a row for each subject.
pub open spec fn report_cells(subject: Seq<char>, rows: Seq<ReportView>) -> Seq<Seq<Seq<char>>> {
    seq![seq!["ok"@, subject, "reason"@]] + Seq::new(
        rows.len(),
        |i: int| seq![rows[i].ok, rows[i].desc, rows[i].reason],
    )
}

/// Draws a report as a table. `subject` is the header of the column that
/// names what each row is about.
pub fn draw_report(subject: &'static str, reports: &Vec<Report>) -> (r: String)
    ensures
        r@ == report_text(report_cells(subject@, rows_of(reports@))),
{
    let mut rows: Vec<Vec<String>> = Vec::new();
    let mut header: Vec<String> = Vec::new();
    header.push(String::from_str("ok"));
    header.push(String::from_str(subject));
    header.push(String::from_str("reason"));
    assert(texts(header@) =~= seq!["ok"@, subject@, "reason"@]);
    rows.push(header);
    let mut i: usize = 0;
    while i < reports.len()
        invariant
            0 <= i <= reports@.len(),
            rows@.len() == i + 1,
            row_texts(rows@) == report_cells(subject@, rows_of(reports@)).take(i + 1),
        decreases reports@.len() - i,
    {
        let mut row: Vec<String> = Vec::new();
        row.push(reports[i].ok.clone());
        row.push(reports[i].desc.clone());
        row.push(reports[i].reason.clone());
        assert(texts(row@) =~= seq![reports@[i as int]@.ok, reports@[i as int]@.desc, reports@[i as int]@.reason]);
        rows.push(row);
        assert(row_texts(rows@) =~= report_cells(subject@, rows_of(reports@)).take(i + 2));
        i = i + 1;
    }
    assert(report_cells(subject@, rows_of(reports@)).take(i + 1) =~= report_cells(
        subject@,
        rows_of(reports@),
    ));
    render_rows(&rows)
}

} // verus!
