//! Bulk registration of participants from a tab-separated sheet.
//!
//! The sheet is read into records, each record is either turned into a
//! participant to insert or skipped, and the skipped ones are counted.
//! Inserting is the caller's part.

use vstd::prelude::*;
use crate::models::CalendarDate;
use crate::models::CreateConfirmand;
use crate::models::CreateConfirmandView;
use crate::models::MaritalStatus;
use crate::text::same_text;

verus! {

/// The byte between two fields of the sheet: a tab.
pub const FIELD_DELIMITER: u8 = 9;

/// The notation of a birth date in the sheet: day, month, year.
pub const BIRTH_DATE_FORMAT: &'static str = "%d/%m/%Y";

/// The sheet's wording for a marriage in church.
pub const MARRIED_IN_CHURCH: &'static str = "Casado/a na Igreja";

/// Column of the full name.
pub const NAME_COLUMN: usize = 1;

/// Column of the birth date.
pub const BIRTH_DATE_COLUMN: usize = 2;

/// Column of the e-mail address.
pub const EMAIL_COLUMN: usize = 3;

/// Column of the postal address.
pub const ADDRESS_COLUMN: usize = 4;

/// Column of the phone number.
pub const PHONE_COLUMN: usize = 5;

/// Column of the marital status.
pub const MARITAL_STATUS_COLUMN: usize = 6;

/// What is to be done with a sheet: the participants to insert, in the
/// order of their rows, and the number of rows left out.
#[derive(Debug, PartialEq, Eq)]
pub struct ImportPlan {
    pub rows: Vec<CreateConfirmand>,
    pub skipped: usize,
}

/// The records of the sheet `body` after its header row, each as the list
/// of its fields; a record that cannot be read stands as `None`.
pub uninterp spec fn csv_records(body: Seq<char>, delimiter: u8) -> Seq<Option<Seq<Seq<char>>>>;

/// `text` without the white space at its two ends.
pub uninterp spec fn trimmed_text(text: Seq<char>) -> Seq<char>;

/// The day that `text` denotes in the notation `format`; `None` when it
/// denotes none.
pub uninterp spec fn date_in_format(text: Seq<char>, format: Seq<char>) -> Option<CalendarDate>;

/// The fields of the records, each by its text.
pub open spec fn record_views(records: Seq<Option<Vec<String>>>) -> Seq<Option<Seq<Seq<char>>>> {
    Seq::new(
        records.len(),
        |at: int|
            match records[at] {
                Some(fields) => Some(fields.deep_view()),
                None => None,
            },
    )
}

/// Builds a `csv::Reader` over the bytes of `body` with
/// `csv::ReaderBuilder::delimiter` set to `delimiter` and everything else
/// as the builder has it (a header row, records of equal length), and walks
/// `Reader::records`: a record comes out as the list of its fields, an
/// error as `None`. The reader sees `body` alone; the outcome is named
/// `csv_records`.
#[verifier::external_body]
fn read_records(body: &str, delimiter: u8) -> (records: Vec<Option<Vec<String>>>)
    ensures
        record_views(records@) == csv_records(body@, delimiter),
{
    let mut reader = csv::ReaderBuilder::new().delimiter(delimiter).from_reader(body.as_bytes());
    reader.records().map(
        |record| record.ok().map(|fields| fields.iter().map(str::to_owned).collect()),
    ).collect()
}

/// Calls `str::trim`, which drops leading and trailing white space as
/// Unicode defines it. The outcome is named `trimmed_text`.
#[verifier::external_body]
fn trim(text: &str) -> (kept: String)
    ensures
        kept@ == trimmed_text(text@),
{
    text.trim().to_owned()
}

/// Calls `chrono::NaiveDate::parse_from_str` with `text` and `format` and
/// takes year, month and day of the date it gives. The parser reads its two
/// arguments alone; the outcome is named `date_in_format`, an error standing
/// as `None`.
#[verifier::external_body]
fn parse_date(text: &str, format: &str) -> (date: Option<CalendarDate>)
    ensures
        date == date_in_format(text@, format@),
{
    let date = chrono::NaiveDate::parse_from_str(text, format).ok()?;
    Some(
        CalendarDate {
            year: chrono::Datelike::year(&date),
            month: chrono::Datelike::month(&date),
            day: chrono::Datelike::day(&date),
        },
    )
}

/// The field in column `column` of a record, trimmed; a record too short
/// to have the column has the empty field there.
pub open spec fn spec_field(fields: Seq<Seq<char>>, column: int) -> Seq<char> {
    if 0 <= column < fields.len() {
        trimmed_text(fields[column])
    } else {
        trimmed_text(Seq::empty())
    }
}

/// The marital status that the sheet's wording stands for: a marriage in
/// church is told apart, everyone else is entered as single.
pub open spec fn spec_marital_status(wording: Seq<char>) -> MaritalStatus {
    if wording == MARRIED_IN_CHURCH@ {
        MaritalStatus::MarriedChurch
    } else {
        MaritalStatus::Single
    }
}

/// The participant a record stands for. A record that could not be read,
/// one without an e-mail address and one without a birth date in the
/// sheet's notation stand for none.
pub open spec fn spec_row(record: Option<Seq<Seq<char>>>) -> Option<CreateConfirmandView> {
    match record {
        None => None,
        Some(fields) => {
            let email = spec_field(fields, EMAIL_COLUMN as int);
            if email.len() == 0 {
                None
            } else {
                match date_in_format(
                    spec_field(fields, BIRTH_DATE_COLUMN as int),
                    BIRTH_DATE_FORMAT@,
                ) {
                    None => None,
                    Some(birth_date) => Some(
                        CreateConfirmandView {
                            full_name: spec_field(fields, NAME_COLUMN as int),
                            birth_date,
                            address: spec_field(fields, ADDRESS_COLUMN as int),
                            phone_number: spec_field(fields, PHONE_COLUMN as int),
                            email,
                            marital_status: spec_marital_status(
                                spec_field(fields, MARITAL_STATUS_COLUMN as int),
                            ),
                            father_name: None,
                            mother_name: None,
                            baptism_church: None,
                            communion_church: None,
                        },
                    ),
                }
            }
        },
    }
}

/// The participants that a run of records stands for, in order.
pub open spec fn spec_rows(records: Seq<Option<Seq<Seq<char>>>>) -> Seq<CreateConfirmandView>
    decreases records.len(),
{
    if records.len() == 0 {
        Seq::empty()
    } else {
        match spec_row(records.last()) {
            Some(row) => spec_rows(records.drop_last()).push(row),
            None => spec_rows(records.drop_last()),
        }
    }
}

/// The number of records that stand for no participant.
pub open spec fn spec_skipped(records: Seq<Option<Seq<Seq<char>>>>) -> nat
    decreases records.len(),
{
    if records.len() == 0 {
        0
    } else {
        spec_skipped(records.drop_last()) + if spec_row(records.last()) is None {
            1nat
        } else {
            0nat
        }
    }
}

/// Every record counts once: as a participant or as skipped.
pub proof fn lemma_rows_and_skipped_add_up(records: Seq<Option<Seq<Seq<char>>>>)
    ensures
        spec_rows(records).len() + spec_skipped(records) == records.len(),
    decreases records.len(),
{
    if records.len() > 0 {
        lemma_rows_and_skipped_add_up(records.drop_last());
    }
}

/// The participants of a plan, each by its view.
pub open spec fn row_views(rows: Seq<CreateConfirmand>) -> Seq<CreateConfirmandView> {
    Seq::new(rows.len(), |at: int| rows[at]@)
}

/// The marital status that the sheet's wording stands for.
pub fn marital_status_of(wording: &str) -> (status: MaritalStatus)
    ensures
        status == spec_marital_status(wording@),
{
    if same_text(wording, MARRIED_IN_CHURCH) {
        MaritalStatus::MarriedChurch
    } else {
        MaritalStatus::Single
    }
}

/// The field in column `column` of a record, trimmed.
pub fn field(fields: &Vec<String>, column: usize) -> (text: String)
    ensures
        text@ == spec_field(fields.deep_view(), column as int),
{
    if column < fields.len() {
        trim(fields[column].as_str())
    } else {
        proof {
            reveal_strlit("");
        }
        let text = trim("");
        assert(""@ =~= Seq::<char>::empty());
        text
    }
}

/// The participant a record stands for, if it stands for one.
pub fn plan_row(record: &Option<Vec<String>>) -> (row: Option<CreateConfirmand>)
    ensures
        match row {
            Some(found) => spec_row(
                match *record {
                    Some(fields) => Some(fields.deep_view()),
                    None => None,
                },
            ) == Some(found@),
            None => spec_row(
                match *record {
                    Some(fields) => Some(fields.deep_view()),
                    None => None,
                },
            ) is None,
        },
{
    let fields = match record {
        Some(fields) => fields,
        None => { return None; },
    };
    let email = field(fields, EMAIL_COLUMN);
    if email.as_str().is_empty() {
        return None;
    }
    let birth_date = match parse_date(
        field(fields, BIRTH_DATE_COLUMN).as_str(),
        BIRTH_DATE_FORMAT,
    ) {
        Some(date) => date,
        None => { return None; },
    };
    Some(
        CreateConfirmand {
            full_name: field(fields, NAME_COLUMN),
            birth_date,
            address: field(fields, ADDRESS_COLUMN),
            phone_number: field(fields, PHONE_COLUMN),
            email,
            marital_status: marital_status_of(field(fields, MARITAL_STATUS_COLUMN).as_str()),
            father_name: None,
            mother_name: None,
            baptism_church: None,
            communion_church: None,
        },
    )
}

/// Reads a sheet and decides for each of its records whether it is to be
/// inserted.
pub fn plan_import(body: &str) -> (plan: ImportPlan)
    ensures
        row_views(plan.rows@) == spec_rows(csv_records(body@, FIELD_DELIMITER)),
        plan.skipped == spec_skipped(csv_records(body@, FIELD_DELIMITER)),
        plan.rows@.len() + plan.skipped == csv_records(body@, FIELD_DELIMITER).len(),
{
    let records = read_records(body, FIELD_DELIMITER);
    let ghost all = csv_records(body@, FIELD_DELIMITER);
    let n = records.len();
    let mut rows: Vec<CreateConfirmand> = Vec::new();
    let mut skipped: usize = 0;
    let mut at: usize = 0;
    while at < n
        invariant
            at <= n,
            n == records@.len(),
            all == record_views(records@),
            row_views(rows@) == spec_rows(all.take(at as int)),
            skipped == spec_skipped(all.take(at as int)),
            rows@.len() + skipped == at,
        decreases n - at,
    {
        assert(all.take(at + 1).drop_last() =~= all.take(at as int));
        match plan_row(&records[at]) {
            Some(row) => {
                rows.push(row);
            },
            None => {
                skipped = skipped + 1;
            },
        }
        at = at + 1;
    }
    assert(all.take(n as int) =~= all);
    ImportPlan { rows, skipped }
}

} // verus!
