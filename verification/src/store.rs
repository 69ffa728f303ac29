//! A model of the store, as far as sales are concerned: the rows it holds,
//! and what a transaction does to them. The laws of the sale transaction
//! are stated against this model.

use vstd::prelude::*;
use crate::models::{SaleItemView, SaleView};
use crate::protocol::{ReplyView, RequestView};

verus! {

/// The sale rows and the sale line rows of a store.
pub struct Rows {
    pub sales: Seq<SaleView>,
    pub sale_items: Seq<SaleItemView>,
}

impl Rows {
    /// These rows and, after them, those of one more sale.
    pub open spec fn with_sale(self, sale: SaleView, lines: Seq<SaleItemView>) -> Rows {
        Rows { sales: self.sales.push(sale), sale_items: self.sale_items + lines }
    }
}

/// A store: its rows, and, while a transaction is open, the rows it had
/// when the transaction began.
pub struct StoreView {
    pub rows: Rows,
    pub snapshot: Option<Rows>,
}

impl StoreView {
    /// A store with these rows and no open transaction.
    pub open spec fn at_rest(rows: Rows) -> StoreView {
        StoreView { rows, snapshot: None }
    }

    /// A store with these rows, in a transaction that began with `before`.
    pub open spec fn in_transaction(rows: Rows, before: Rows) -> StoreView {
        StoreView { rows, snapshot: Some(before) }
    }
}

/// The store after it has served a request with the given reply.
///
/// An insert that is answered with `Done` adds its row; one that fails adds
/// nothing. A commit that is answered with `Done` keeps the rows; a commit
/// that fails, and every rollback, bring back the rows that the store had
/// when the transaction began. Requests that only read change nothing.
pub open spec fn served(store: StoreView, request: RequestView, reply: ReplyView) -> StoreView {
    match request {
        RequestView::BeginTransaction => if reply is Done && store.snapshot is None {
            StoreView::in_transaction(store.rows, store.rows)
        } else {
            store
        },
        RequestView::InsertSale(sale) => if reply is Done {
            StoreView {
                rows: Rows { sales: store.rows.sales.push(sale), ..store.rows },
                ..store
            }
        } else {
            store
        },
        RequestView::InsertSaleItem(line) => if reply is Done {
            StoreView {
                rows: Rows { sale_items: store.rows.sale_items.push(line), ..store.rows },
                ..store
            }
        } else {
            store
        },
        RequestView::Commit => match store.snapshot {
            Some(before) => if reply is Done {
                StoreView::at_rest(store.rows)
            } else {
                StoreView::at_rest(before)
            },
            None => store,
        },
        RequestView::Rollback => match store.snapshot {
            Some(before) => StoreView::at_rest(before),
            None => store,
        },
        _ => store,
    }
}

} // verus!
