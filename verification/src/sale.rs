//! The sale transaction: a validated cart becomes one sale row and one row
//! per cart line, written in a single transaction of the store.

use vstd::prelude::*;
use vstd::string::StringExecFns;
use crate::cart::{
    cart_total, checked_cart, item_fault, lemma_first_fault, lemma_prefix_total, validate_cart,
};
use crate::errors::{CommandError, CommandErrorView, InputError};
use crate::identity::fresh_identifier;
use crate::models::{
    CartItem, CartItemView, Product, ProductView, Sale, SaleItem, SaleItemView, SaleView,
};
use crate::protocol::{failure_text, Reply, ReplyView, Request, RequestView};
use crate::stamp::{SaleTime, SaleTimeView};
use crate::store::{served, Rows, StoreView};
use crate::views::lemma_deep_view_push;

verus! {

/// A sale that the store holds, with what was written for it.
#[derive(Debug, PartialEq, Eq)]
pub struct CommittedSale {
    /// The sale row.
    pub sale: Sale,
    /// The line rows, in cart order.
    pub lines: Vec<SaleItem>,
    /// The cart lines, each with the product the catalog holds for it.
    pub items: Vec<(CartItem, Product)>,
}

/// Model of a [`CommittedSale`].
pub struct CommittedSaleView {
    pub sale: SaleView,
    pub lines: Seq<SaleItemView>,
    pub items: Seq<(CartItemView, ProductView)>,
}

impl View for CommittedSale {
    type V = CommittedSaleView;

    open spec fn view(&self) -> CommittedSaleView {
        CommittedSaleView {
            sale: self.sale@,
            lines: self.lines.deep_view(),
            items: self.items.deep_view(),
        }
    }
}

/// Which reply a transaction waits for.
#[derive(Debug, PartialEq, Eq)]
enum TxPhase {
    Opening,
    InsertingSale,
    FindingProduct,
    InsertingLine { product: Product, line: SaleItem },
    Committing,
    RollingBack(CommandError),
}

/// Model of the phase of a transaction: the request whose reply is due.
pub enum TxPhaseView {
    /// The transaction is being opened.
    Opening,
    /// The sale row is being inserted.
    InsertingSale,
    /// The product of the next cart line is being looked up.
    FindingProduct,
    /// The row of the next cart line is being inserted.
    InsertingLine { product: ProductView, line: SaleItemView },
    /// The transaction is being committed.
    Committing,
    /// The transaction is being rolled back because of the error.
    RollingBack(CommandErrorView),
}

impl View for TxPhase {
    type V = TxPhaseView;

    closed spec fn view(&self) -> TxPhaseView {
        match self {
            TxPhase::Opening => TxPhaseView::Opening,
            TxPhase::InsertingSale => TxPhaseView::InsertingSale,
            TxPhase::FindingProduct => TxPhaseView::FindingProduct,
            TxPhase::InsertingLine { product, line } => TxPhaseView::InsertingLine {
                product: product@,
                line: line@,
            },
            TxPhase::Committing => TxPhaseView::Committing,
            TxPhase::RollingBack(error) => TxPhaseView::RollingBack(error@),
        }
    }
}

/// A sale transaction in progress.
#[derive(Debug, PartialEq, Eq)]
pub struct SaleTransaction {
    cart: Vec<CartItem>,
    sale: Sale,
    lines: Vec<SaleItem>,
    items: Vec<(CartItem, Product)>,
    phase: TxPhase,
}

/// Model of a [`SaleTransaction`].
pub struct SaleTransactionView {
    /// The cart that is being sold.
    pub cart: Seq<CartItemView>,
    /// The sale row.
    pub sale: SaleView,
    /// The line rows inserted so far.
    pub lines: Seq<SaleItemView>,
    /// The cart lines handled so far, each with its product.
    pub items: Seq<(CartItemView, ProductView)>,
    /// The reply that is due.
    pub phase: TxPhaseView,
}

impl View for SaleTransaction {
    type V = SaleTransactionView;

    closed spec fn view(&self) -> SaleTransactionView {
        SaleTransactionView {
            cart: self.cart.deep_view(),
            sale: self.sale@,
            lines: self.lines.deep_view(),
            items: self.items.deep_view(),
            phase: self.phase@,
        }
    }
}

impl SaleTransactionView {
    /// As many lines are written as cart lines are handled, and the phase
    /// agrees with how far the cart has been worked through.
    pub open spec fn well_formed(self) -> bool {
        &&& self.cart.len() > 0
        &&& self.lines.len() == self.items.len()
        &&& self.items.len() <= self.cart.len()
        &&& match self.phase {
            TxPhaseView::Opening | TxPhaseView::InsertingSale => self.items.len() == 0,
            TxPhaseView::FindingProduct | TxPhaseView::InsertingLine { .. } => self.items.len()
                < self.cart.len(),
            TxPhaseView::Committing => self.items.len() == self.cart.len(),
            TxPhaseView::RollingBack(_) => true,
        }
    }

    /// The cart line that is handled next.
    pub open spec fn current(self) -> CartItemView {
        self.cart[self.items.len() as int]
    }

    /// The row of the cart line that is handled next: quantity, price and
    /// name as the cart has them.
    pub open spec fn next_line(self, line_id: u128) -> SaleItemView {
        SaleItemView {
            id: line_id,
            sale_id: self.sale.id,
            product_id: self.current().product_id,
            product_name: self.current().name,
            quantity: self.current().quantity,
            price_at_sale: self.current().price,
        }
    }

    /// The same transaction in another phase.
    pub open spec fn in_phase(self, phase: TxPhaseView) -> SaleTransactionView {
        SaleTransactionView { phase, ..self }
    }

    /// The step that gives the transaction up: a rollback, after which
    /// `error` is reported.
    pub open spec fn abandoned(self, error: CommandErrorView) -> TxStepView {
        TxStepView::Await(self.in_phase(TxPhaseView::RollingBack(error)), RequestView::Rollback)
    }
}

/// The outcome of one step of a transaction: a request to the store and the
/// state in which its reply is awaited, or the end.
#[derive(Debug, PartialEq, Eq)]
pub enum TxStep {
    Await(SaleTransaction, Request),
    Finished(Result<CommittedSale, CommandError>),
}

/// Model of a [`TxStep`].
pub enum TxStepView {
    Await(SaleTransactionView, RequestView),
    Finished(Result<CommittedSaleView, CommandErrorView>),
}

impl View for TxStep {
    type V = TxStepView;

    open spec fn view(&self) -> TxStepView {
        match self {
            TxStep::Await(state, request) => TxStepView::Await(state@, request@),
            TxStep::Finished(Ok(committed)) => TxStepView::Finished(Ok(committed@)),
            TxStep::Finished(Err(error)) => TxStepView::Finished(Err(error@)),
        }
    }
}

/// The first step of the sale of `cart` under the given identifier and
/// time. A cart that is not valid ends at once, with nothing
/// asked of the store. Else the sale row is fixed, with the total of the
/// cart, and a transaction is opened.
pub open spec fn begun(cart: Seq<CartItemView>, sale_id: u128, sale_time: SaleTimeView) -> TxStepView {
    match checked_cart(cart) {
        Err(fault) => TxStepView::Finished(Err(CommandErrorView::InvalidInput(fault))),
        Ok(total) => TxStepView::Await(
            SaleTransactionView {
                cart,
                sale: SaleView {
                    id: sale_id,
                    sale_time,
                    total_amount: total,
                    payment_method: None,
                },
                lines: Seq::empty(),
                items: Seq::empty(),
                phase: TxPhaseView::Opening,
            },
            RequestView::BeginTransaction,
        ),
    }
}

/// The step that follows a reply. `line_id` is the identifier that a line
/// row gets if one is to be inserted next.
///
/// The sale row is inserted first, then, for each cart line in cart order,
/// its product is looked up and its row inserted; then the transaction is
/// committed. A product that does not exist, and any failure of the store,
/// make the transaction roll back and end with the error.
pub open spec fn advanced(state: SaleTransactionView, reply: ReplyView, line_id: u128) -> TxStepView {
    match state.phase {
        TxPhaseView::Opening => match reply {
            ReplyView::Done => TxStepView::Await(
                state.in_phase(TxPhaseView::InsertingSale),
                RequestView::InsertSale(state.sale),
            ),
            _ => TxStepView::Finished(Err(CommandErrorView::Database(failure_text(reply)))),
        },
        TxPhaseView::InsertingSale => match reply {
            ReplyView::Done => TxStepView::Await(
                state.in_phase(TxPhaseView::FindingProduct),
                RequestView::FindProduct { product_id: state.current().product_id },
            ),
            _ => state.abandoned(CommandErrorView::Database(failure_text(reply))),
        },
        TxPhaseView::FindingProduct => match reply {
            ReplyView::Product(product) => TxStepView::Await(
                state.in_phase(
                    TxPhaseView::InsertingLine { product, line: state.next_line(line_id) },
                ),
                RequestView::InsertSaleItem(state.next_line(line_id)),
            ),
            ReplyView::Missing => state.abandoned(
                CommandErrorView::ProductNotFound { product_id: state.current().product_id },
            ),
            _ => state.abandoned(CommandErrorView::Database(failure_text(reply))),
        },
        TxPhaseView::InsertingLine { product, line } => match reply {
            ReplyView::Done => {
                let grown = SaleTransactionView {
                    lines: state.lines.push(line),
                    items: state.items.push((state.current(), product)),
                    ..state
                };
                if grown.items.len() < grown.cart.len() {
                    TxStepView::Await(
                        grown.in_phase(TxPhaseView::FindingProduct),
                        RequestView::FindProduct { product_id: grown.current().product_id },
                    )
                } else {
                    TxStepView::Await(
                        grown.in_phase(TxPhaseView::Committing),
                        RequestView::Commit,
                    )
                }
            },
            _ => state.abandoned(CommandErrorView::Database(failure_text(reply))),
        },
        TxPhaseView::Committing => match reply {
            ReplyView::Done => TxStepView::Finished(
                Ok(CommittedSaleView { sale: state.sale, lines: state.lines, items: state.items }),
            ),
            _ => TxStepView::Finished(Err(CommandErrorView::Database(failure_text(reply)))),
        },
        TxPhaseView::RollingBack(error) => TxStepView::Finished(Err(error)),
    }
}

impl SaleTransaction {
    #[verifier::type_invariant]
    spec fn consistent(self) -> bool {
        self@.well_formed()
    }

    /// The step that follows `reply`; a line row that is inserted next gets
    /// the identifier `line_id`.
    pub fn advance_as(self, reply: Reply, line_id: u128) -> (step: TxStep)
        ensures
            step@ == advanced(self@, reply@, line_id),
    {
        proof {
            use_type_invariant(&self);
        }
        let SaleTransaction { cart, sale, mut lines, mut items, phase } = self;
        let (phase, request) = match phase {
            TxPhase::Opening => match reply {
                Reply::Done => (TxPhase::InsertingSale, Request::InsertSale(sale.clone())),
                other => {
                    return TxStep::Finished(Err(CommandError::Database(other.into_failure())));
                },
            },
            TxPhase::InsertingSale => match reply {
                Reply::Done => (
                    TxPhase::FindingProduct,
                    Request::FindProduct { product_id: cart[0].product_id },
                ),
                other => (
                    TxPhase::RollingBack(CommandError::Database(other.into_failure())),
                    Request::Rollback,
                ),
            },
            TxPhase::FindingProduct => match reply {
                Reply::Product(product) => {
                    let current = &cart[items.len()];
                    let line = SaleItem {
                        id: line_id,
                        sale_id: sale.id,
                        product_id: current.product_id,
                        product_name: current.name.clone(),
                        quantity: current.quantity,
                        price_at_sale: current.price,
                    };
                    let request = Request::InsertSaleItem(line.clone());
                    (TxPhase::InsertingLine { product, line }, request)
                },
                Reply::Missing => (
                    TxPhase::RollingBack(
                        CommandError::ProductNotFound { product_id: cart[items.len()].product_id },
                    ),
                    Request::Rollback,
                ),
                other => (
                    TxPhase::RollingBack(CommandError::Database(other.into_failure())),
                    Request::Rollback,
                ),
            },
            TxPhase::InsertingLine { product, line } => match reply {
                Reply::Done => {
                    let current = cart[items.len()].clone();
                    proof {
                        lemma_deep_view_push(lines@, line);
                        lemma_deep_view_push(items@, (current, product));
                    }
                    lines.push(line);
                    items.push((current, product));
                    if items.len() < cart.len() {
                        (
                            TxPhase::FindingProduct,
                            Request::FindProduct { product_id: cart[items.len()].product_id },
                        )
                    } else {
                        (TxPhase::Committing, Request::Commit)
                    }
                },
                other => (
                    TxPhase::RollingBack(CommandError::Database(other.into_failure())),
                    Request::Rollback,
                ),
            },
            TxPhase::Committing => match reply {
                Reply::Done => {
                    return TxStep::Finished(Ok(CommittedSale { sale, lines, items }));
                },
                other => {
                    return TxStep::Finished(Err(CommandError::Database(other.into_failure())));
                },
            },
            TxPhase::RollingBack(error) => {
                return TxStep::Finished(Err(error));
            },
        };
        TxStep::Await(SaleTransaction { cart, sale, lines, items, phase }, request)
    }

    /// The step that follows `reply`. A line row that is inserted next gets
    /// a fresh identifier.
    pub fn advance(self, reply: Reply) -> (step: TxStep)
        ensures
            exists|line_id: u128| step@ == advanced(self@, reply@, line_id),
    {
        let line_id = fresh_identifier();
        self.advance_as(reply, line_id)
    }
}

/// Opens the transaction of a valid cart.
fn open_sale(cart: Vec<CartItem>, total: i64, sale_id: u128, sale_time: SaleTime) -> (step: TxStep)
    requires
        checked_cart(cart.deep_view()) == Ok::<i64, InputError>(total),
    ensures
        step@ == begun(cart.deep_view(), sale_id, sale_time@),
{
    let sale = Sale { id: sale_id, sale_time, total_amount: total, payment_method: None };
    let lines: Vec<SaleItem> = Vec::new();
    let items: Vec<(CartItem, Product)> = Vec::new();
    assert(lines.deep_view() =~= Seq::<SaleItemView>::empty());
    assert(items.deep_view() =~= Seq::<(CartItemView, ProductView)>::empty());
    TxStep::Await(
        SaleTransaction { cart, sale, lines, items, phase: TxPhase::Opening },
        Request::BeginTransaction,
    )
}

/// The message of the error for a clock that shows no valid sale time.
pub open spec fn clock_out_of_range() -> Seq<char> {
    "the clock shows no valid sale time"@
}

/// The first step of the sale of `cart` under the given identifier, for
/// what the clock showed. The cart is validated first; a valid cart is sold
/// at the time the clock showed, and fails where it showed none.
pub open spec fn begun_at(
    cart: Seq<CartItemView>,
    sale_id: u128,
    clock: Option<SaleTimeView>,
) -> TxStepView {
    match checked_cart(cart) {
        Err(fault) => TxStepView::Finished(Err(CommandErrorView::InvalidInput(fault))),
        Ok(_) => match clock {
            Some(sale_time) => begun(cart, sale_id, sale_time),
            None => TxStepView::Finished(Err(CommandErrorView::Io(clock_out_of_range()))),
        },
    }
}

/// The model of what a clock showed.
pub open spec fn clock_view(clock: Option<SaleTime>) -> Option<SaleTimeView> {
    match clock {
        Some(sale_time) => Some(sale_time@),
        None => None,
    }
}

/// Starts the sale of `cart` under the given identifier, at the time that
/// the clock showed.
pub fn commit_sale_at(cart: Vec<CartItem>, sale_id: u128, clock: Option<SaleTime>) -> (step: TxStep)
    ensures
        step@ == begun_at(cart.deep_view(), sale_id, clock_view(clock)),
{
    match validate_cart(&cart) {
        Err(fault) => TxStep::Finished(Err(CommandError::InvalidInput(fault))),
        Ok(total) => match clock {
            Some(sale_time) => open_sale(cart, total, sale_id, sale_time),
            None => TxStep::Finished(
                Err(CommandError::Io(String::from_str("the clock shows no valid sale time"))),
            ),
        },
    }
}

/// Starts the sale of `cart` under a fresh identifier, at the local time.
pub fn commit_sale(cart: Vec<CartItem>) -> (step: TxStep)
    ensures
        exists|sale_id: u128, clock: Option<SaleTimeView>|
            step@ == #[trigger] begun_at(cart.deep_view(), sale_id, clock) && (clock matches Some(
                sale_time,
            ) ==> sale_time.is_valid()),
{
    let clock = SaleTime::now();
    let sale_id = fresh_identifier();
    let step = commit_sale_at(cart, sale_id, clock);
    step
}

/// The step a transaction has reached after the replies of `inputs`, each
/// given with the identifier that the next line row gets. Replies that come
/// after the end are not looked at.
pub open spec fn tx_run(step: TxStepView, inputs: Seq<(ReplyView, u128)>) -> TxStepView
    decreases inputs.len(),
{
    if inputs.len() == 0 {
        step
    } else {
        match step {
            TxStepView::Finished(_) => step,
            TxStepView::Await(state, _) => tx_run(
                advanced(state, inputs[0].0, inputs[0].1),
                inputs.drop_first(),
            ),
        }
    }
}

/// The requests that a transaction makes while it is given the replies of
/// `inputs`, each with its reply.
pub open spec fn tx_exchange(step: TxStepView, inputs: Seq<(ReplyView, u128)>) -> Seq<
    (RequestView, ReplyView),
>
    decreases inputs.len(),
{
    if inputs.len() == 0 {
        Seq::empty()
    } else {
        match step {
            TxStepView::Finished(_) => Seq::empty(),
            TxStepView::Await(state, request) => seq![(request, inputs[0].0)] + tx_exchange(
                advanced(state, inputs[0].0, inputs[0].1),
                inputs.drop_first(),
            ),
        }
    }
}

/// The store after it has served an exchange.
pub open spec fn served_all(store: StoreView, exchange: Seq<(RequestView, ReplyView)>) -> StoreView
    decreases exchange.len(),
{
    if exchange.len() == 0 {
        store
    } else {
        served_all(served(store, exchange[0].0, exchange[0].1), exchange.drop_first())
    }
}

/// A line row that copies a cart line: product, name, quantity and price
/// are those of the cart line.
pub open spec fn copies(line: SaleItemView, sale_id: u128, item: CartItemView) -> bool {
    &&& line.sale_id == sale_id
    &&& line.product_id == item.product_id
    &&& line.product_name == item.name
    &&& line.quantity == item.quantity
    &&& line.price_at_sale == item.price
}

/// What is written so far copies the cart, line by line.
pub open spec fn faithful(
    cart: Seq<CartItemView>,
    sale_id: u128,
    lines: Seq<SaleItemView>,
    items: Seq<(CartItemView, ProductView)>,
) -> bool {
    &&& lines.len() == items.len()
    &&& items.len() <= cart.len()
    &&& forall|i: int| 0 <= i < lines.len() ==> copies(#[trigger] lines[i], sale_id, cart[i])
    &&& forall|i: int| 0 <= i < items.len() ==> (#[trigger] items[i]).0 == cart[i]
}

/// A transaction that waits for a reply is on course: its request is the
/// one of its phase, what it wrote copies the cart, and the store holds the
/// rows from before the transaction and, once inserted, those of the sale.
pub open spec fn on_course(
    state: SaleTransactionView,
    request: RequestView,
    store: StoreView,
    before: Rows,
) -> bool {
    &&& state.well_formed()
    &&& faithful(state.cart, state.sale.id, state.lines, state.items)
    &&& match state.phase {
        TxPhaseView::Opening => request == RequestView::BeginTransaction && store
            == StoreView::at_rest(before),
        TxPhaseView::InsertingSale => request == RequestView::InsertSale(state.sale) && store
            == StoreView::in_transaction(before, before),
        TxPhaseView::FindingProduct => request == (RequestView::FindProduct {
            product_id: state.current().product_id,
        }) && store == StoreView::in_transaction(
            before.with_sale(state.sale, state.lines),
            before,
        ),
        TxPhaseView::InsertingLine { product, line } => request == RequestView::InsertSaleItem(line)
            && copies(line, state.sale.id, state.current()) && store
            == StoreView::in_transaction(before.with_sale(state.sale, state.lines), before),
        TxPhaseView::Committing => request == RequestView::Commit && store
            == StoreView::in_transaction(before.with_sale(state.sale, state.lines), before),
        TxPhaseView::RollingBack(_) => request == RequestView::Rollback && store.snapshot == Some(
            before,
        ),
    }
}

/// What holds of a step of the sale of `cart` as `sale`, and of the store
/// at that step, when the store held `before` at the start: a waiting
/// transaction is on course; a committed sale is the sale with its lines
/// copied from the cart, and the store holds it after the rows from before;
/// after a failure the store holds the rows from before and no more.
pub open spec fn sound_step(
    step: TxStepView,
    store: StoreView,
    before: Rows,
    cart: Seq<CartItemView>,
    sale: SaleView,
) -> bool {
    match step {
        TxStepView::Await(state, request) => on_course(state, request, store, before) && state.cart
            == cart && state.sale == sale,
        TxStepView::Finished(Ok(committed)) => {
            &&& committed.sale == sale
            &&& committed.lines.len() == cart.len()
            &&& faithful(cart, sale.id, committed.lines, committed.items)
            &&& store == StoreView::at_rest(before.with_sale(committed.sale, committed.lines))
        },
        TxStepView::Finished(Err(_)) => store == StoreView::at_rest(before),
    }
}

/// One reply takes a sound step to a sound step.
pub proof fn lemma_step_stays_sound(
    state: SaleTransactionView,
    request: RequestView,
    store: StoreView,
    before: Rows,
    reply: ReplyView,
    line_id: u128,
)
    requires
        on_course(state, request, store, before),
    ensures
        sound_step(
            advanced(state, reply, line_id),
            served(store, request, reply),
            before,
            state.cart,
            state.sale,
        ),
{
}

/// Every reply sequence takes a sound step to a sound step.
pub proof fn lemma_run_stays_sound(
    step: TxStepView,
    store: StoreView,
    before: Rows,
    cart: Seq<CartItemView>,
    sale: SaleView,
    inputs: Seq<(ReplyView, u128)>,
)
    requires
        sound_step(step, store, before, cart, sale),
    ensures
        sound_step(
            tx_run(step, inputs),
            served_all(store, tx_exchange(step, inputs)),
            before,
            cart,
            sale,
        ),
    decreases inputs.len(),
{
    if inputs.len() > 0 {
        match step {
            TxStepView::Finished(_) => {},
            TxStepView::Await(state, request) => {
                let reply = inputs[0].0;
                let next = advanced(state, reply, inputs[0].1);
                let rest = tx_exchange(next, inputs.drop_first());
                let exchange = tx_exchange(step, inputs);
                lemma_step_stays_sound(state, request, store, before, reply, inputs[0].1);
                lemma_run_stays_sound(
                    next,
                    served(store, request, reply),
                    before,
                    cart,
                    sale,
                    inputs.drop_first(),
                );
                assert(exchange.drop_first() =~= rest);
            },
        }
    }
}

/// The sale is atomic. Whatever the store and the catalog answer, a sale
/// that ends has either been committed, and then the store holds its row
/// and all its line rows after the rows it held before; or it has failed,
/// and then the store holds exactly the rows it held before.
pub proof fn lemma_sale_is_atomic(
    cart: Seq<CartItemView>,
    sale_id: u128,
    sale_time: SaleTimeView,
    inputs: Seq<(ReplyView, u128)>,
    before: Rows,
)
    ensures
        tx_run(begun(cart, sale_id, sale_time), inputs) matches TxStepView::Finished(
            Ok(committed),
        ) ==> served_all(
            StoreView::at_rest(before),
            tx_exchange(begun(cart, sale_id, sale_time), inputs),
        ) == StoreView::at_rest(before.with_sale(committed.sale, committed.lines)),
        tx_run(begun(cart, sale_id, sale_time), inputs) matches TxStepView::Finished(Err(_))
            ==> served_all(
            StoreView::at_rest(before),
            tx_exchange(begun(cart, sale_id, sale_time), inputs),
        ) == StoreView::at_rest(before),
{
    let start = begun(cart, sale_id, sale_time);
    match start {
        TxStepView::Await(state, request) => {
            lemma_run_stays_sound(
                start,
                StoreView::at_rest(before),
                before,
                cart,
                state.sale,
                inputs,
            );
        },
        TxStepView::Finished(_) => {
            lemma_run_stays_sound(
                start,
                StoreView::at_rest(before),
                before,
                cart,
                arbitrary(),
                inputs,
            );
        },
    }
}

/// A committed sale is the sale of its cart. For every valid cart, and
/// whatever the store answers, the sale that is committed has
/// the given identifier and time and, as its total, the sum of price times
/// quantity over the cart; and its lines copy the cart, line by line.
pub proof fn lemma_committed_total(
    cart: Seq<CartItemView>,
    sale_id: u128,
    sale_time: SaleTimeView,
    inputs: Seq<(ReplyView, u128)>,
)
    ensures
        tx_run(begun(cart, sale_id, sale_time), inputs) matches TxStepView::Finished(
            Ok(committed),
        ) ==> checked_cart(cart) is Ok && committed.sale.total_amount == cart_total(cart)
            && committed.sale.id == sale_id && committed.sale.sale_time == sale_time
            && committed.sale.payment_method is None && committed.lines.len() == cart.len()
            && faithful(cart, sale_id, committed.lines, committed.items),
{
    let start = begun(cart, sale_id, sale_time);
    let before = Rows { sales: Seq::empty(), sale_items: Seq::empty() };
    match start {
        TxStepView::Await(state, request) => {
            lemma_prefix_total(cart, cart.len() as int);
            lemma_run_stays_sound(
                start,
                StoreView::at_rest(before),
                before,
                cart,
                state.sale,
                inputs,
            );
        },
        TxStepView::Finished(_) => {
            lemma_run_stays_sound(
                start,
                StoreView::at_rest(before),
                before,
                cart,
                arbitrary(),
                inputs,
            );
        },
    }
}

/// A sale that is rejected asks nothing of the store: whatever replies are
/// offered, the exchange stays empty and the rejection stands.
pub proof fn lemma_rejected_sale_writes_nothing(
    cart: Seq<CartItemView>,
    sale_id: u128,
    sale_time: SaleTimeView,
    inputs: Seq<(ReplyView, u128)>,
)
    requires
        checked_cart(cart) is Err,
    ensures
        begun(cart, sale_id, sale_time) == TxStepView::Finished(
            Err(CommandErrorView::InvalidInput(checked_cart(cart)->Err_0)),
        ),
        tx_run(begun(cart, sale_id, sale_time), inputs) == begun(cart, sale_id, sale_time),
        tx_exchange(begun(cart, sale_id, sale_time), inputs) == Seq::<
            (RequestView, ReplyView),
        >::empty(),
{
}

/// An empty cart is rejected as empty, and nothing is asked of the store.
pub proof fn lemma_empty_cart_is_rejected(
    sale_id: u128,
    sale_time: SaleTimeView,
    inputs: Seq<(ReplyView, u128)>,
)
    ensures
        tx_run(begun(Seq::empty(), sale_id, sale_time), inputs) == TxStepView::Finished(
            Err(CommandErrorView::InvalidInput(InputError::EmptyCart)),
        ),
        tx_exchange(begun(Seq::empty(), sale_id, sale_time), inputs) == Seq::<
            (RequestView, ReplyView),
        >::empty(),
{
}

/// A cart with a line whose quantity is not positive is rejected as invalid
/// input, even if lines before it are sound, and nothing is asked of the
/// store: no sale row and no line row is written.
pub proof fn lemma_bad_quantity_is_rejected(
    cart: Seq<CartItemView>,
    at: int,
    sale_id: u128,
    sale_time: SaleTimeView,
    inputs: Seq<(ReplyView, u128)>,
)
    requires
        0 <= at < cart.len(),
        cart[at].quantity <= 0,
    ensures
        tx_run(begun(cart, sale_id, sale_time), inputs) matches TxStepView::Finished(
            Err(CommandErrorView::InvalidInput(_)),
        ),
        tx_exchange(begun(cart, sale_id, sale_time), inputs) == Seq::<
            (RequestView, ReplyView),
        >::empty(),
        (forall|i: int| 0 <= i < at ==> item_fault(#[trigger] cart[i]) is None) ==> tx_run(
            begun(cart, sale_id, sale_time),
            inputs,
        ) == TxStepView::Finished(
            Err(
                CommandErrorView::InvalidInput(
                    (InputError::InvalidQuantity { product_id: cart[at].product_id }),
                ),
            ),
        ),
{
    lemma_first_fault(cart);
}

} // verus!
