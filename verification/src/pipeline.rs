//! The sale pipeline: a sale is committed first and its tickets are printed
//! after; and the reprint of a stored sale. A printer that fails leaves the
//! committed sale as it is.

use vstd::prelude::*;
use crate::cart::checked_cart;
use crate::dispatch::{
    job_advanced, lemma_job_requests, print_job, JobStep, JobStepView, PrintJob, PrintJobView,
};
use crate::errors::{CommandError, CommandErrorView, InputError};
use crate::models::{rows_to_items, split_rows, CartItem, CartItemView, Sale, SaleView};
use crate::protocol::{failure_text, Reply, ReplyView, Request, RequestView};
use crate::sale::{
    advanced, begun, begun_at, clock_view, commit_sale, commit_sale_at, copies,
    lemma_step_stays_sound, sound_step, SaleTransaction, SaleTransactionView, TxStep, TxStepView,
};
use crate::store::{served, Rows, StoreView};
use crate::stamp::{SaleTime, SaleTimeView};

verus! {

/// The failure of a sale pipeline: the error, and the identifier of the
/// sale if it was committed before the error came up.
#[derive(Debug, PartialEq, Eq)]
pub struct PipelineError {
    pub error: CommandError,
    pub committed_sale: Option<u128>,
}

/// Model of a [`PipelineError`].
pub struct PipelineErrorView {
    pub error: CommandErrorView,
    pub committed_sale: Option<u128>,
}

impl View for PipelineError {
    type V = PipelineErrorView;

    open spec fn view(&self) -> PipelineErrorView {
        PipelineErrorView { error: self.error@, committed_sale: self.committed_sale }
    }
}

/// Which part of the pipeline is at work.
#[derive(Debug, PartialEq, Eq)]
enum PipelinePhase {
    Selling(SaleTransaction),
    Printing { sale_id: u128, job: PrintJob },
}

/// A sale pipeline in progress.
#[derive(Debug, PartialEq, Eq)]
pub struct SalePipeline {
    phase: PipelinePhase,
}

/// Model of a [`SalePipeline`].
pub enum SalePipelineView {
    /// The sale is being committed.
    Selling(SaleTransactionView),
    /// The sale `sale_id` is committed and its tickets are being printed.
    Printing { sale_id: u128, job: PrintJobView },
}

impl View for SalePipeline {
    type V = SalePipelineView;

    closed spec fn view(&self) -> SalePipelineView {
        match self.phase {
            PipelinePhase::Selling(transaction) => SalePipelineView::Selling(transaction@),
            PipelinePhase::Printing { sale_id, job } => SalePipelineView::Printing {
                sale_id,
                job: job@,
            },
        }
    }
}

/// The outcome of one step of a sale pipeline: a request and the state in
/// which its reply is awaited, or the end, with the identifier of the sale.
#[derive(Debug, PartialEq, Eq)]
pub enum PipelineStep {
    Await(SalePipeline, Request),
    Finished(Result<u128, PipelineError>),
}

/// Model of a [`PipelineStep`].
pub enum PipelineStepView {
    Await(SalePipelineView, RequestView),
    Finished(Result<u128, PipelineErrorView>),
}

impl View for PipelineStep {
    type V = PipelineStepView;

    open spec fn view(&self) -> PipelineStepView {
        match self {
            PipelineStep::Await(pipeline, request) => PipelineStepView::Await(pipeline@, request@),
            PipelineStep::Finished(Ok(sale_id)) => PipelineStepView::Finished(Ok(*sale_id)),
            PipelineStep::Finished(Err(error)) => PipelineStepView::Finished(Err(error@)),
        }
    }
}

/// The pipeline step for a step of the print job of the committed sale
/// `sale_id`: the job's request is passed on; the end of the job is the end
/// of the pipeline, and a failure names the committed sale.
pub open spec fn while_printing(sale_id: u128, step: JobStepView) -> PipelineStepView {
    match step {
        JobStepView::Await(job, request) => PipelineStepView::Await(
            SalePipelineView::Printing { sale_id, job },
            request,
        ),
        JobStepView::Finished(Ok(())) => PipelineStepView::Finished(Ok(sale_id)),
        JobStepView::Finished(Err(error)) => PipelineStepView::Finished(
            Err(PipelineErrorView { error, committed_sale: Some(sale_id) }),
        ),
    }
}

/// The pipeline step for a step of the sale transaction: the transaction's
/// request is passed on; its failure ends the pipeline, with no sale
/// committed and no print attempted; its success starts the print job of
/// the committed sale.
pub open spec fn while_selling(step: TxStepView) -> PipelineStepView {
    match step {
        TxStepView::Await(transaction, request) => PipelineStepView::Await(
            SalePipelineView::Selling(transaction),
            request,
        ),
        TxStepView::Finished(Err(error)) => PipelineStepView::Finished(
            Err(PipelineErrorView { error, committed_sale: None }),
        ),
        TxStepView::Finished(Ok(committed)) => while_printing(
            committed.sale.id,
            print_job(committed.sale, committed.items),
        ),
    }
}

/// The first step of the pipeline for `cart`.
pub open spec fn sale_started(cart: Seq<CartItemView>, sale_id: u128, sale_time: SaleTimeView) -> PipelineStepView {
    while_selling(begun(cart, sale_id, sale_time))
}

/// The first step of the pipeline for `cart`, for what the clock showed.
pub open spec fn sale_started_at(
    cart: Seq<CartItemView>,
    sale_id: u128,
    clock: Option<SaleTimeView>,
) -> PipelineStepView {
    while_selling(begun_at(cart, sale_id, clock))
}

/// The pipeline step that follows a reply.
pub open spec fn pipeline_advanced(
    pipeline: SalePipelineView,
    reply: ReplyView,
    line_id: u128,
) -> PipelineStepView {
    match pipeline {
        SalePipelineView::Selling(transaction) => while_selling(
            advanced(transaction, reply, line_id),
        ),
        SalePipelineView::Printing { sale_id, job } => while_printing(
            sale_id,
            job_advanced(job, reply),
        ),
    }
}

fn lift_job(sale_id: u128, step: JobStep) -> (lifted: PipelineStep)
    ensures
        lifted@ == while_printing(sale_id, step@),
{
    match step {
        JobStep::Await(job, request) => PipelineStep::Await(
            SalePipeline { phase: PipelinePhase::Printing { sale_id, job } },
            request,
        ),
        JobStep::Finished(Ok(())) => PipelineStep::Finished(Ok(sale_id)),
        JobStep::Finished(Err(error)) => PipelineStep::Finished(
            Err(PipelineError { error, committed_sale: Some(sale_id) }),
        ),
    }
}

fn lift_sale(step: TxStep) -> (lifted: PipelineStep)
    ensures
        lifted@ == while_selling(step@),
{
    match step {
        TxStep::Await(transaction, request) => PipelineStep::Await(
            SalePipeline { phase: PipelinePhase::Selling(transaction) },
            request,
        ),
        TxStep::Finished(Err(error)) => PipelineStep::Finished(
            Err(PipelineError { error, committed_sale: None }),
        ),
        TxStep::Finished(Ok(committed)) => {
            let sale_id = committed.sale.id;
            lift_job(sale_id, PrintJob::start(committed.sale, committed.items))
        },
    }
}

/// Starts the pipeline for `cart` under the given identifier, at the time
/// that the clock showed.
pub fn process_sale_at(cart: Vec<CartItem>, sale_id: u128, clock: Option<SaleTime>) -> (step:
    PipelineStep)
    ensures
        step@ == sale_started_at(cart.deep_view(), sale_id, clock_view(clock)),
{
    lift_sale(commit_sale_at(cart, sale_id, clock))
}

/// Starts the pipeline for `cart` under a fresh identifier, at the local
/// time.
pub fn process_sale(cart: Vec<CartItem>) -> (step: PipelineStep)
    ensures
        exists|sale_id: u128, clock: Option<SaleTimeView>|
            step@ == #[trigger] sale_started_at(cart.deep_view(), sale_id, clock) && (
            clock matches Some(sale_time) ==> sale_time.is_valid()),
{
    let ghost lines = cart.deep_view();
    let started = commit_sale(cart);
    proof {
        let (sale_id, clock) = choose|sale_id: u128, clock: Option<SaleTimeView>|
            started@ == #[trigger] begun_at(lines, sale_id, clock) && (clock matches Some(
                sale_time,
            ) ==> sale_time.is_valid());
        assert(while_selling(started@) == sale_started_at(lines, sale_id, clock));
    }
    lift_sale(started)
}

impl SalePipeline {
    /// The step that follows `reply`; a line row that is inserted next gets
    /// the identifier `line_id`.
    pub fn advance_as(self, reply: Reply, line_id: u128) -> (step: PipelineStep)
        ensures
            step@ == pipeline_advanced(self@, reply@, line_id),
    {
        let SalePipeline { phase } = self;
        match phase {
            PipelinePhase::Selling(transaction) => lift_sale(
                transaction.advance_as(reply, line_id),
            ),
            PipelinePhase::Printing { sale_id, job } => lift_job(sale_id, job.advance(reply)),
        }
    }

    /// The step that follows `reply`. A line row that is inserted next gets
    /// a fresh identifier.
    pub fn advance(self, reply: Reply) -> (step: PipelineStep)
        ensures
            exists|line_id: u128| step@ == pipeline_advanced(self@, reply@, line_id),
    {
        let line_id = crate::identity::fresh_identifier();
        self.advance_as(reply, line_id)
    }
}

/// The step a pipeline has reached after the replies of `inputs`, each
/// given with the identifier that the next line row gets.
pub open spec fn pipeline_run(step: PipelineStepView, inputs: Seq<(ReplyView, u128)>) -> PipelineStepView
    decreases inputs.len(),
{
    if inputs.len() == 0 {
        step
    } else {
        match step {
            PipelineStepView::Finished(_) => step,
            PipelineStepView::Await(pipeline, _) => pipeline_run(
                pipeline_advanced(pipeline, inputs[0].0, inputs[0].1),
                inputs.drop_first(),
            ),
        }
    }
}

/// The store after it has served the requests that a pipeline makes while
/// it is given the replies of `inputs`.
pub open spec fn pipeline_effect(
    step: PipelineStepView,
    inputs: Seq<(ReplyView, u128)>,
    store: StoreView,
) -> StoreView
    decreases inputs.len(),
{
    if inputs.len() == 0 {
        store
    } else {
        match step {
            PipelineStepView::Finished(_) => store,
            PipelineStepView::Await(pipeline, request) => pipeline_effect(
                pipeline_advanced(pipeline, inputs[0].0, inputs[0].1),
                inputs.drop_first(),
                served(store, request, inputs[0].0),
            ),
        }
    }
}

/// The store is at rest and holds, after the rows from `before`, the row of
/// `sale` and one line row for every line of `cart`, copied from it.
pub open spec fn sale_recorded(
    store: StoreView,
    before: Rows,
    cart: Seq<CartItemView>,
    sale: SaleView,
) -> bool {
    &&& store.snapshot is None
    &&& store.rows.sales == before.sales.push(sale)
    &&& store.rows.sale_items.len() == before.sale_items.len() + cart.len()
    &&& store.rows.sale_items.take(before.sale_items.len() as int) == before.sale_items
    &&& forall|i: int|
        0 <= i < cart.len() ==> copies(
            store.rows.sale_items[before.sale_items.len() + i],
            sale.id,
            #[trigger] cart[i],
        )
}

/// What holds of a pipeline step and of the store at that step. While the
/// sale is being committed the transaction is on course. Whenever the
/// settings or the printer are asked for anything, and when the pipeline
/// has ended after the commit, well or not, the sale is recorded. When the
/// pipeline has ended before the commit, the store is as it was.
pub open spec fn sound_pipeline(
    step: PipelineStepView,
    store: StoreView,
    before: Rows,
    cart: Seq<CartItemView>,
    sale: SaleView,
) -> bool {
    match step {
        PipelineStepView::Await(SalePipelineView::Selling(transaction), request) => sound_step(
            TxStepView::Await(transaction, request),
            store,
            before,
            cart,
            sale,
        ),
        PipelineStepView::Await(SalePipelineView::Printing { sale_id, job }, request) => {
            &&& sale_id == sale.id
            &&& job.well_formed()
            &&& request == job.request()
            &&& sale_recorded(store, before, cart, sale)
        },
        PipelineStepView::Finished(Ok(sale_id)) => sale_id == sale.id && sale_recorded(
            store,
            before,
            cart,
            sale,
        ),
        PipelineStepView::Finished(Err(failure)) => match failure.committed_sale {
            Some(sale_id) => sale_id == sale.id && sale_recorded(store, before, cart, sale),
            None => store == StoreView::at_rest(before),
        },
    }
}

/// A sound step of the transaction is a sound step of the pipeline.
proof fn lemma_selling_is_sound(
    step: TxStepView,
    store: StoreView,
    before: Rows,
    cart: Seq<CartItemView>,
    sale: SaleView,
)
    requires
        sound_step(step, store, before, cart, sale),
    ensures
        sound_pipeline(while_selling(step), store, before, cart, sale),
{
    match step {
        TxStepView::Finished(Ok(committed)) => {
            let lines = store.rows.sale_items;
            let offset = before.sale_items.len() as int;
            assert(lines.take(offset) =~= before.sale_items);
            assert forall|i: int| 0 <= i < cart.len() implies copies(
                lines[offset + i],
                sale.id,
                #[trigger] cart[i],
            ) by {}
        },
        _ => {},
    }
}

/// One reply takes a sound pipeline step to a sound pipeline step.
proof fn lemma_pipeline_step_stays_sound(
    pipeline: SalePipelineView,
    request: RequestView,
    store: StoreView,
    before: Rows,
    cart: Seq<CartItemView>,
    sale: SaleView,
    reply: ReplyView,
    line_id: u128,
)
    requires
        sound_pipeline(PipelineStepView::Await(pipeline, request), store, before, cart, sale),
    ensures
        sound_pipeline(
            pipeline_advanced(pipeline, reply, line_id),
            served(store, request, reply),
            before,
            cart,
            sale,
        ),
{
    match pipeline {
        SalePipelineView::Selling(transaction) => {
            lemma_step_stays_sound(transaction, request, store, before, reply, line_id);
            lemma_selling_is_sound(
                advanced(transaction, reply, line_id),
                served(store, request, reply),
                before,
                cart,
                sale,
            );
        },
        SalePipelineView::Printing { sale_id, job } => {
            lemma_job_requests(job, reply);
        },
    }
}

/// Every reply sequence takes a sound pipeline step to a sound one.
proof fn lemma_pipeline_stays_sound(
    step: PipelineStepView,
    store: StoreView,
    before: Rows,
    cart: Seq<CartItemView>,
    sale: SaleView,
    inputs: Seq<(ReplyView, u128)>,
)
    requires
        sound_pipeline(step, store, before, cart, sale),
    ensures
        sound_pipeline(
            pipeline_run(step, inputs),
            pipeline_effect(step, inputs, store),
            before,
            cart,
            sale,
        ),
    decreases inputs.len(),
{
    if inputs.len() > 0 {
        match step {
            PipelineStepView::Finished(_) => {},
            PipelineStepView::Await(pipeline, request) => {
                lemma_pipeline_step_stays_sound(
                    pipeline,
                    request,
                    store,
                    before,
                    cart,
                    sale,
                    inputs[0].0,
                    inputs[0].1,
                );
                lemma_pipeline_stays_sound(
                    pipeline_advanced(pipeline, inputs[0].0, inputs[0].1),
                    served(store, request, inputs[0].0),
                    before,
                    cart,
                    sale,
                    inputs.drop_first(),
                );
            },
        }
    }
}

/// The sale that the pipeline for `cart` records.
pub open spec fn sale_of(cart: Seq<CartItemView>, sale_id: u128, sale_time: SaleTimeView) -> SaleView {
    SaleView {
        id: sale_id,
        sale_time,
        total_amount: checked_cart(cart)->Ok_0,
        payment_method: None,
    }
}

/// Printing never comes before the commit, and never undoes it. Whatever
/// store, settings and printer answer: whenever the pipeline asks anything
/// of the settings or the printer, the sale is recorded and no transaction
/// is open; a pipeline that ends well has recorded the sale it names; one
/// that fails and names a committed sale has recorded it all the same; and
/// one that fails and names none has left the store as it was.
pub proof fn lemma_printing_keeps_the_sale(
    cart: Seq<CartItemView>,
    sale_id: u128,
    sale_time: SaleTimeView,
    inputs: Seq<(ReplyView, u128)>,
    before: Rows,
)
    ensures
        ({
            let start = sale_started(cart, sale_id, sale_time);
            let store = pipeline_effect(start, inputs, StoreView::at_rest(before));
            let sale = sale_of(cart, sale_id, sale_time);
            match pipeline_run(start, inputs) {
                PipelineStepView::Await(SalePipelineView::Selling(_), _) => true,
                PipelineStepView::Await(
                    SalePipelineView::Printing { sale_id: printed, job },
                    request,
                ) => printed == sale_id && request == job.request() && sale_recorded(
                    store,
                    before,
                    cart,
                    sale,
                ),
                PipelineStepView::Finished(Ok(recorded)) => recorded == sale_id && sale_recorded(
                    store,
                    before,
                    cart,
                    sale,
                ),
                PipelineStepView::Finished(Err(failure)) => match failure.committed_sale {
                    Some(recorded) => recorded == sale_id && sale_recorded(
                        store,
                        before,
                        cart,
                        sale,
                    ),
                    None => store == StoreView::at_rest(before),
                },
            }
        }),
{
    let start = begun(cart, sale_id, sale_time);
    let sale = sale_of(cart, sale_id, sale_time);
    lemma_pipeline_stays_sound(
        while_selling(start),
        StoreView::at_rest(before),
        before,
        cart,
        sale,
        inputs,
    );
}

/// Which sale is to be printed again.
#[derive(Clone, Copy, Debug, PartialEq, Eq, Structural)]
pub enum ReprintTarget {
    /// The sale with this identifier.
    Sale(u128),
    /// The most recent sale.
    LastSale,
}

/// Which reply a reprint waits for.
#[derive(Debug, PartialEq, Eq)]
enum ReprintPhase {
    FindingSale { target: ReprintTarget },
    FindingItems { sale: Sale },
    Printing(PrintJob),
}

/// A reprint in progress.
#[derive(Debug, PartialEq, Eq)]
pub struct Reprint {
    phase: ReprintPhase,
}

/// Model of a [`Reprint`].
pub enum ReprintView {
    /// The sale is being loaded.
    FindingSale { target: ReprintTarget },
    /// The lines of the sale are being loaded.
    FindingItems { sale: SaleView },
    /// The tickets are being printed.
    Printing(PrintJobView),
}

impl View for Reprint {
    type V = ReprintView;

    closed spec fn view(&self) -> ReprintView {
        match self.phase {
            ReprintPhase::FindingSale { target } => ReprintView::FindingSale { target },
            ReprintPhase::FindingItems { sale } => ReprintView::FindingItems { sale: sale@ },
            ReprintPhase::Printing(job) => ReprintView::Printing(job@),
        }
    }
}

/// The outcome of one step of a reprint.
#[derive(Debug, PartialEq, Eq)]
pub enum ReprintStep {
    Await(Reprint, Request),
    Finished(Result<(), CommandError>),
}

/// Model of a [`ReprintStep`].
pub enum ReprintStepView {
    Await(ReprintView, RequestView),
    Finished(Result<(), CommandErrorView>),
}

impl View for ReprintStep {
    type V = ReprintStepView;

    open spec fn view(&self) -> ReprintStepView {
        match self {
            ReprintStep::Await(reprint, request) => ReprintStepView::Await(reprint@, request@),
            ReprintStep::Finished(Ok(())) => ReprintStepView::Finished(Ok(())),
            ReprintStep::Finished(Err(error)) => ReprintStepView::Finished(Err(error@)),
        }
    }
}

/// The first step of a reprint: the sale is asked for.
pub open spec fn reprint_started(target: ReprintTarget) -> ReprintStepView {
    ReprintStepView::Await(
        ReprintView::FindingSale { target },
        match target {
            ReprintTarget::Sale(sale_id) => RequestView::FindSale { sale_id },
            ReprintTarget::LastSale => RequestView::FindLastSale,
        },
    )
}

/// The reprint step for a step of its print job.
pub open spec fn while_reprinting(step: JobStepView) -> ReprintStepView {
    match step {
        JobStepView::Await(job, request) => ReprintStepView::Await(
            ReprintView::Printing(job),
            request,
        ),
        JobStepView::Finished(outcome) => ReprintStepView::Finished(outcome),
    }
}

/// The error of a reprint whose sale does not exist.
pub open spec fn no_such_sale(target: ReprintTarget) -> CommandErrorView {
    match target {
        ReprintTarget::Sale(_) => CommandErrorView::SaleNotFound,
        ReprintTarget::LastSale => CommandErrorView::InvalidInput(InputError::NoSalesRecorded),
    }
}

/// The reprint step that follows a reply: the sale is loaded, then its
/// lines with their products, then its tickets are printed as they are
/// after a sale.
pub open spec fn reprint_advanced(reprint: ReprintView, reply: ReplyView) -> ReprintStepView {
    match reprint {
        ReprintView::FindingSale { target } => match reply {
            ReplyView::Sale(sale) => ReprintStepView::Await(
                ReprintView::FindingItems { sale },
                RequestView::FindSaleItems { sale_id: sale.id },
            ),
            ReplyView::Missing => ReprintStepView::Finished(Err(no_such_sale(target))),
            _ => ReprintStepView::Finished(Err(CommandErrorView::Database(failure_text(reply)))),
        },
        ReprintView::FindingItems { sale } => match reply {
            ReplyView::SaleItems(rows) => while_reprinting(print_job(sale, split_rows(rows))),
            _ => ReprintStepView::Finished(Err(CommandErrorView::Database(failure_text(reply)))),
        },
        ReprintView::Printing(job) => while_reprinting(job_advanced(job, reply)),
    }
}

fn lift_reprint(step: JobStep) -> (lifted: ReprintStep)
    ensures
        lifted@ == while_reprinting(step@),
{
    match step {
        JobStep::Await(job, request) => ReprintStep::Await(
            Reprint { phase: ReprintPhase::Printing(job) },
            request,
        ),
        JobStep::Finished(outcome) => ReprintStep::Finished(outcome),
    }
}

/// Starts the reprint of a stored sale.
pub fn reprint_sale(target: ReprintTarget) -> (step: ReprintStep)
    ensures
        step@ == reprint_started(target),
{
    let request = match target {
        ReprintTarget::Sale(sale_id) => Request::FindSale { sale_id },
        ReprintTarget::LastSale => Request::FindLastSale,
    };
    ReprintStep::Await(Reprint { phase: ReprintPhase::FindingSale { target } }, request)
}

impl Reprint {
    /// The step that follows `reply`.
    pub fn advance(self, reply: Reply) -> (step: ReprintStep)
        ensures
            step@ == reprint_advanced(self@, reply@),
    {
        let Reprint { phase } = self;
        match phase {
            ReprintPhase::FindingSale { target } => match reply {
                Reply::Sale(sale) => {
                    let request = Request::FindSaleItems { sale_id: sale.id };
                    ReprintStep::Await(
                        Reprint { phase: ReprintPhase::FindingItems { sale } },
                        request,
                    )
                },
                Reply::Missing => ReprintStep::Finished(
                    Err(
                        match target {
                            ReprintTarget::Sale(_) => CommandError::SaleNotFound,
                            ReprintTarget::LastSale => CommandError::InvalidInput(
                                InputError::NoSalesRecorded,
                            ),
                        },
                    ),
                ),
                other => ReprintStep::Finished(Err(CommandError::Database(other.into_failure()))),
            },
            ReprintPhase::FindingItems { sale } => match reply {
                Reply::SaleItems(rows) => lift_reprint(PrintJob::start(sale, rows_to_items(rows))),
                other => ReprintStep::Finished(Err(CommandError::Database(other.into_failure()))),
            },
            ReprintPhase::Printing(job) => lift_reprint(job.advance(reply)),
        }
    }
}

} // verus!
