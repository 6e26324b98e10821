//! The records of the ledger and their mathematical views.

use vstd::prelude::*;

verus! {

/// A quantity exactly as the store holds it: a whole number, or a
/// double-precision number kept as its IEEE 754 bit pattern. The ledger never
/// computes with quantities, it only carries them.
#[derive(Debug, Clone, Copy, PartialEq, Eq, Structural)]
pub enum Number {
    Integer(i64),
    Real(u64),
}

#[derive(Debug, Clone, PartialEq, Eq)]
pub struct Client {
    pub id: i32,
    pub name: String,
    pub email: String,
    pub phone_number: String,
}

/// The view of a client: its fields as mathematical values.
pub struct ClientView {
    pub id: i32,
    pub name: Seq<char>,
    pub email: Seq<char>,
    pub phone_number: Seq<char>,
}

impl View for Client {
    type V = ClientView;

    open spec fn view(&self) -> ClientView {
        ClientView {
            id: self.id,
            name: self.name@,
            email: self.email@,
            phone_number: self.phone_number@,
        }
    }
}

/// The views of a run of clients, in order.
pub open spec fn client_views(clients: Seq<Client>) -> Seq<ClientView> {
    clients.map_values(|client: Client| client@)
}

/// One line of an invoice. `amount` is what was stored when the line was
/// entered; it is never derived again from `hours` and `rate`.
#[derive(Debug, Clone, PartialEq, Eq)]
pub struct InvoiceItem {
    pub id: i32,
    pub description: String,
    pub hours: Number,
    pub rate: Number,
    pub amount: Number,
}

/// The view of an item: its fields as mathematical values.
pub struct InvoiceItemView {
    pub id: i32,
    pub description: Seq<char>,
    pub hours: Number,
    pub rate: Number,
    pub amount: Number,
}

impl View for InvoiceItem {
    type V = InvoiceItemView;

    open spec fn view(&self) -> InvoiceItemView {
        InvoiceItemView {
            id: self.id,
            description: self.description@,
            hours: self.hours,
            rate: self.rate,
            amount: self.amount,
        }
    }
}

/// The views of a run of items, in order.
pub open spec fn item_views(items: Seq<InvoiceItem>) -> Seq<InvoiceItemView> {
    items.map_values(|item: InvoiceItem| item@)
}

#[derive(Debug, Clone, PartialEq, Eq)]
pub struct Invoice {
    pub id: i32,
    pub client_id: i32,
    pub date: String,
    pub items: Vec<InvoiceItem>,
}

/// The view of an invoice: its fields as mathematical values.
pub struct InvoiceView {
    pub id: i32,
    pub client_id: i32,
    pub date: Seq<char>,
    pub items: Seq<InvoiceItemView>,
}

impl View for Invoice {
    type V = InvoiceView;

    open spec fn view(&self) -> InvoiceView {
        InvoiceView {
            id: self.id,
            client_id: self.client_id,
            date: self.date@,
            items: item_views(self.items@),
        }
    }
}

/// The views of a run of invoices, in order.
pub open spec fn invoice_views(invoices: Seq<Invoice>) -> Seq<InvoiceView> {
    invoices.map_values(|invoice: Invoice| invoice@)
}

/// An invoice together with the contact details of the client it belongs to,
/// flattened for rendering. It is read from the store and never written back.
#[derive(Debug, Clone, PartialEq, Eq)]
pub struct InvoiceForPdf {
    pub id: i32,
    pub client_name: String,
    pub client_email: String,
    pub client_phone_number: String,
    pub date: String,
    pub items: Vec<InvoiceItem>,
}

/// The view of an invoice for rendering: its fields as mathematical values.
pub struct InvoiceForPdfView {
    pub id: i32,
    pub client_name: Seq<char>,
    pub client_email: Seq<char>,
    pub client_phone_number: Seq<char>,
    pub date: Seq<char>,
    pub items: Seq<InvoiceItemView>,
}

impl View for InvoiceForPdf {
    type V = InvoiceForPdfView;

    open spec fn view(&self) -> InvoiceForPdfView {
        InvoiceForPdfView {
            id: self.id,
            client_name: self.client_name@,
            client_email: self.client_email@,
            client_phone_number: self.client_phone_number@,
            date: self.date@,
            items: item_views(self.items@),
        }
    }
}

} // verus!
