//! The exchange between the sale pipeline and its host. The pipeline
//! decides; the host performs one request at a time against the store, the
//! settings and the printer, and answers with a reply.

use vstd::prelude::*;
use vstd::string::StringExecFns;
use crate::layout::{LayoutDocument, LayoutDocumentView};
use crate::models::{
    CartItemWithProduct, CartItemWithProductView, Product, ProductView, Sale, SaleItem,
    SaleItemView, SaleView,
};
use crate::printing::{PrintOp, PrintOpView};

verus! {

/// What the host is asked to do next.
#[derive(Debug, PartialEq, Eq)]
pub enum Request {
    /// Open a transaction on the store.
    BeginTransaction,
    /// Insert the row of a sale.
    InsertSale(Sale),
    /// Look a product up in the catalog.
    FindProduct { product_id: u128 },
    /// Insert the row of a sale line.
    InsertSaleItem(SaleItem),
    /// Commit the open transaction.
    Commit,
    /// Roll the open transaction back.
    Rollback,
    /// Load the sale with this identifier.
    FindSale { sale_id: u128 },
    /// Load the most recent sale.
    FindLastSale,
    /// Load the lines of a sale, each joined with its product.
    FindSaleItems { sale_id: u128 },
    /// Read the stored layout from the settings.
    LoadLayout,
    /// Take exclusive hold of the printer.
    AcquirePrinter,
    /// Initialise the printer.
    InitPrinter,
    /// Perform one printer operation.
    Print(PrintOp),
}

/// Model of a [`Request`].
pub enum RequestView {
    BeginTransaction,
    InsertSale(SaleView),
    FindProduct { product_id: u128 },
    InsertSaleItem(SaleItemView),
    Commit,
    Rollback,
    FindSale { sale_id: u128 },
    FindLastSale,
    FindSaleItems { sale_id: u128 },
    LoadLayout,
    AcquirePrinter,
    InitPrinter,
    Print(PrintOpView),
}

impl View for Request {
    type V = RequestView;

    open spec fn view(&self) -> RequestView {
        match self {
            Request::BeginTransaction => RequestView::BeginTransaction,
            Request::InsertSale(sale) => RequestView::InsertSale(sale@),
            Request::FindProduct { product_id } => RequestView::FindProduct {
                product_id: *product_id,
            },
            Request::InsertSaleItem(line) => RequestView::InsertSaleItem(line@),
            Request::Commit => RequestView::Commit,
            Request::Rollback => RequestView::Rollback,
            Request::FindSale { sale_id } => RequestView::FindSale { sale_id: *sale_id },
            Request::FindLastSale => RequestView::FindLastSale,
            Request::FindSaleItems { sale_id } => RequestView::FindSaleItems { sale_id: *sale_id },
            Request::LoadLayout => RequestView::LoadLayout,
            Request::AcquirePrinter => RequestView::AcquirePrinter,
            Request::InitPrinter => RequestView::InitPrinter,
            Request::Print(op) => RequestView::Print(op@),
        }
    }
}

impl Clone for Request {
    fn clone(&self) -> (copy: Self)
        ensures
            copy@ == self@,
    {
        match self {
            Request::BeginTransaction => Request::BeginTransaction,
            Request::InsertSale(sale) => Request::InsertSale(sale.clone()),
            Request::FindProduct { product_id } => Request::FindProduct { product_id: *product_id },
            Request::InsertSaleItem(line) => Request::InsertSaleItem(line.clone()),
            Request::Commit => Request::Commit,
            Request::Rollback => Request::Rollback,
            Request::FindSale { sale_id } => Request::FindSale { sale_id: *sale_id },
            Request::FindLastSale => Request::FindLastSale,
            Request::FindSaleItems { sale_id } => Request::FindSaleItems { sale_id: *sale_id },
            Request::LoadLayout => Request::LoadLayout,
            Request::AcquirePrinter => Request::AcquirePrinter,
            Request::InitPrinter => Request::InitPrinter,
            Request::Print(op) => Request::Print(op.clone()),
        }
    }
}

/// What the host answers to a request.
#[derive(Debug, PartialEq, Eq)]
pub enum Reply {
    /// The request was carried out and there is nothing to hand back.
    Done,
    /// The product that was looked up.
    Product(Product),
    /// The sale that was looked up.
    Sale(Sale),
    /// The lines of the sale that was looked up.
    SaleItems(Vec<CartItemWithProduct>),
    /// The layout that the settings hold.
    Layout(LayoutDocument),
    /// What was asked for does not exist: no such product, no such sale, no
    /// stored layout, no printer.
    Missing,
    /// What was read cannot be decoded.
    Corrupt(String),
    /// The lock of the printer is poisoned.
    Poisoned,
    /// The request failed, for the reason given.
    Failed(String),
}

/// Model of a [`Reply`].
pub enum ReplyView {
    Done,
    Product(ProductView),
    Sale(SaleView),
    SaleItems(Seq<CartItemWithProductView>),
    Layout(LayoutDocumentView),
    Missing,
    Corrupt(Seq<char>),
    Poisoned,
    Failed(Seq<char>),
}

impl View for Reply {
    type V = ReplyView;

    open spec fn view(&self) -> ReplyView {
        match self {
            Reply::Done => ReplyView::Done,
            Reply::Product(product) => ReplyView::Product(product@),
            Reply::Sale(sale) => ReplyView::Sale(sale@),
            Reply::SaleItems(rows) => ReplyView::SaleItems(rows.deep_view()),
            Reply::Layout(document) => ReplyView::Layout(document@),
            Reply::Missing => ReplyView::Missing,
            Reply::Corrupt(detail) => ReplyView::Corrupt(detail@),
            Reply::Poisoned => ReplyView::Poisoned,
            Reply::Failed(detail) => ReplyView::Failed(detail@),
        }
    }
}

/// The detail of the failure that a reply stands for where another reply
/// was due: the reason the host gave, or that the reply was not expected.
pub open spec fn failure_text(reply: ReplyView) -> Seq<char> {
    match reply {
        ReplyView::Failed(detail) => detail,
        ReplyView::Corrupt(detail) => detail,
        _ => "unexpected reply"@,
    }
}

impl Reply {
    /// The detail of the failure that this reply stands for.
    pub fn into_failure(self) -> (detail: String)
        ensures
            detail@ == failure_text(self@),
    {
        match self {
            Reply::Failed(detail) => detail,
            Reply::Corrupt(detail) => detail,
            _ => String::from_str("unexpected reply"),
        }
    }
}

} // verus!
