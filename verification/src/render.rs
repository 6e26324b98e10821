//! What rendering an invoice needs besides the invoice: its number, its due
//! date, where the document goes, and the filling of the template.
//!
//! Reading the template, formatting quantities and producing the document are
//! left to the caller.

use vstd::prelude::*;
use vstd::string::*;
use crate::calendar::{
    DATE_FORMAT, add_days, date_after, format_date, formatted_date, parse_date, parsed_date,
};
use crate::error::LedgerError;
use crate::models::{InvoiceForPdf, InvoiceForPdfView};
use crate::text::{decimal, decimal_text, replace, replaced};

verus! {

/// The days that a client has to pay an invoice.
pub const NET_DAYS: i64 = 30;

/// The format of the folder that collects the documents of one month.
pub const MONTH_FORMAT: &'static str = "%Y-%m";

/// The format of the day that a document's file name starts with.
pub const DAY_FORMAT: &'static str = "%d";

/// What is derived from an invoice before it is rendered.
#[derive(Debug, Clone, PartialEq, Eq)]
pub struct Layout {
    /// The number that the document shows: `INV-`, the date, `-`, the id.
    pub invoice_number: String,
    /// The day on which payment is due.
    pub due_date: String,
    /// The folder of the document under the folder of all invoices: the year
    /// and the month of the invoice.
    pub year_month: String,
    /// The name of the document: the day of the invoice, its id, and the name
    /// of the client with `/` and blanks turned into `-`.
    pub file_name: String,
}

/// The view of a layout: its fields as mathematical values.
pub struct LayoutView {
    pub invoice_number: Seq<char>,
    pub due_date: Seq<char>,
    pub year_month: Seq<char>,
    pub file_name: Seq<char>,
}

impl View for Layout {
    type V = LayoutView;

    open spec fn view(&self) -> LayoutView {
        LayoutView {
            invoice_number: self.invoice_number@,
            due_date: self.due_date@,
            year_month: self.year_month@,
            file_name: self.file_name@,
        }
    }
}

/// The number of an invoice.
pub open spec fn invoice_number_of(date: Seq<char>, id: i32) -> Seq<char> {
    "INV-"@ + date + "-"@ + decimal(id as int)
}

/// The name of a client as it stands in a file name.
pub open spec fn sanitized(name: Seq<char>) -> Seq<char> {
    replaced(replaced(name, "/"@, "-"@), " "@, "-"@)
}

/// The file name of the document of an invoice.
pub open spec fn file_name_of(day: Seq<char>, id: i32, client_name: Seq<char>) -> Seq<char> {
    day + "-"@ + decimal(id as int) + "-"@ + sanitized(client_name) + ".pdf"@
}

/// The layout of an invoice, or `None` where its date is no calendar date in
/// the form year-month-day or its due date is out of range.
pub open spec fn layout_of(invoice: InvoiceForPdfView) -> Option<LayoutView> {
    match parsed_date(invoice.date, DATE_FORMAT@) {
        Some(date) => match date_after(date, NET_DAYS) {
            Some(due) => match (
                formatted_date(due, DATE_FORMAT@),
                formatted_date(date, MONTH_FORMAT@),
                formatted_date(date, DAY_FORMAT@),
            ) {
                (Some(due_date), Some(year_month), Some(day)) => Some(
                    LayoutView {
                        invoice_number: invoice_number_of(invoice.date, invoice.id),
                        due_date,
                        year_month,
                        file_name: file_name_of(day, invoice.id, invoice.client_name),
                    },
                ),
                _ => None,
            },
            None => None,
        },
        None => None,
    }
}

/// Writes the number of an invoice.
pub fn invoice_number(date: &str, id: i32) -> (number: String)
    ensures
        number@ == invoice_number_of(date@, id),
{
    let mut number = String::from_str("INV-");
    number.append(date);
    number.append("-");
    number.append(decimal_text(id as i64).as_str());
    number
}

/// Writes the file name of the document of an invoice, given the day of the
/// invoice as the name shows it.
pub fn file_name(day: &str, id: i32, client_name: &str) -> (name: String)
    ensures
        name@ == file_name_of(day@, id, client_name@),
{
    proof {
        reveal_strlit("/");
        reveal_strlit(" ");
    }
    let slashless = replace(client_name, "/", "-");
    let sanitized = replace(slashless.as_str(), " ", "-");
    let mut name = String::from_str(day);
    name.append("-");
    name.append(decimal_text(id as i64).as_str());
    name.append("-");
    name.append(sanitized.as_str());
    name.append(".pdf");
    name
}

fn undated() -> (error: LedgerError)
    ensures
        error is Storage,
{
    LedgerError::Storage("the date of the invoice is not a calendar date".to_owned())
}

/// Derives the layout of an invoice. Fails where the date of the invoice is
/// no calendar date in the form year-month-day, or the due date is out of
/// range.
pub fn plan_layout(invoice: &InvoiceForPdf) -> (layout: Result<Layout, LedgerError>)
    ensures
        match layout_of(invoice@) {
            Some(expected) => layout is Ok && layout->Ok_0@ == expected,
            None => layout is Err && layout->Err_0 is Storage,
        },
{
    let date = match parse_date(invoice.date.as_str(), DATE_FORMAT) {
        Some(date) => date,
        None => {
            return Err(undated());
        },
    };
    let due = match add_days(date, NET_DAYS) {
        Some(due) => due,
        None => {
            return Err(undated());
        },
    };
    let due_date = format_date(due, DATE_FORMAT);
    let year_month = format_date(date, MONTH_FORMAT);
    let day = format_date(date, DAY_FORMAT);
    match (due_date, year_month, day) {
        (Some(due_date), Some(year_month), Some(day)) => Ok(
            Layout {
                invoice_number: invoice_number(invoice.date.as_str(), invoice.id),
                due_date,
                year_month,
                file_name: file_name(day.as_str(), invoice.id, invoice.client_name.as_str()),
            },
        ),
        _ => Err(undated()),
    }
}

/// One row of the table of items, from the description of the item and its
/// quantities as the document shows them.
pub open spec fn item_row_of(
    description: Seq<char>,
    hours: Seq<char>,
    rate: Seq<char>,
    amount: Seq<char>,
) -> Seq<char> {
    "<tr class=\"item last\"><td>"@ + description + "</td><td style=\"text-align: left\">"@ + hours
        + "</td><td style=\"text-align: right;\">$"@ + rate
        + "</td><td style=\"text-align: right;\">$"@ + amount + "</td></tr>"@
}

/// Writes one row of the table of items.
pub fn item_row(description: &str, hours: &str, rate: &str, amount: &str) -> (row: String)
    ensures
        row@ == item_row_of(description@, hours@, rate@, amount@),
{
    let mut row = String::from_str("<tr class=\"item last\"><td>");
    row.append(description);
    row.append("</td><td style=\"text-align: left\">");
    row.append(hours);
    row.append("</td><td style=\"text-align: right;\">$");
    row.append(rate);
    row.append("</td><td style=\"text-align: right;\">$");
    row.append(amount);
    row.append("</td></tr>");
    row
}

/// The template with its placeholders replaced, one after the other: the
/// number of the invoice, the name, the email and the phone number of the
/// client, the date, the due date, the rows of the items and the total.
pub open spec fn filled_template(
    template: Seq<char>,
    invoice: InvoiceForPdfView,
    layout: LayoutView,
    items: Seq<char>,
    total: Seq<char>,
) -> Seq<char> {
    let numbered = replaced(template, "{invoice_id}"@, layout.invoice_number);
    let named = replaced(numbered, "{client_name}"@, invoice.client_name);
    let mailed = replaced(named, "{client_email}"@, invoice.client_email);
    let phoned = replaced(mailed, "{client_phone_number}"@, invoice.client_phone_number);
    let dated = replaced(phoned, "{date}"@, invoice.date);
    let due = replaced(dated, "{due_date}"@, layout.due_date);
    let itemized = replaced(due, "{items}"@, items);
    replaced(itemized, "{total}"@, total)
}

/// Fills the template of the document for an invoice. `items` holds the rows
/// of the items and `total` the sum of their amounts, as the document shows
/// them.
pub fn fill_template(
    template: &str,
    invoice: &InvoiceForPdf,
    layout: &Layout,
    items: &str,
    total: &str,
) -> (filled: String)
    ensures
        filled@ == filled_template(template@, invoice@, layout@, items@, total@),
{
    proof {
        reveal_strlit("{invoice_id}");
        reveal_strlit("{client_name}");
        reveal_strlit("{client_email}");
        reveal_strlit("{client_phone_number}");
        reveal_strlit("{date}");
        reveal_strlit("{due_date}");
        reveal_strlit("{items}");
        reveal_strlit("{total}");
    }
    let numbered = replace(template, "{invoice_id}", layout.invoice_number.as_str());
    let named = replace(numbered.as_str(), "{client_name}", invoice.client_name.as_str());
    let mailed = replace(named.as_str(), "{client_email}", invoice.client_email.as_str());
    let phoned = replace(
        mailed.as_str(),
        "{client_phone_number}",
        invoice.client_phone_number.as_str(),
    );
    let dated = replace(phoned.as_str(), "{date}", invoice.date.as_str());
    let due = replace(dated.as_str(), "{due_date}", layout.due_date.as_str());
    let itemized = replace(due.as_str(), "{items}", items);
    replace(itemized.as_str(), "{total}", total)
}

} // verus!
