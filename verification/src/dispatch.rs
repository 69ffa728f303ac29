//! Printing the tickets of a sale: the layout in force is loaded, the
//! tickets are composed, the printer is taken and initialised, and the
//! operations are handed to it one by one until one fails.

use vstd::prelude::*;
use crate::errors::{CommandError, CommandErrorView};
use crate::layout::{decoded_layout, default_layout, PrintingLayout, PrintingLayoutView};
use crate::models::{CartItem, CartItemView, Product, ProductView, Sale, SaleView};
use crate::printing::{compose, composed, PrintOp, PrintOpView};
use crate::protocol::{failure_text, Reply, ReplyView, Request, RequestView};

verus! {

/// Which reply a print job waits for.
#[derive(Debug, PartialEq, Eq)]
enum JobPhase {
    LoadingLayout { sale: Sale, items: Vec<(CartItem, Product)> },
    Acquiring { ops: Vec<PrintOp> },
    Initialising { ops: Vec<PrintOp> },
    Printing { ops: Vec<PrintOp>, sent: usize },
}

/// A print job in progress.
#[derive(Debug, PartialEq, Eq)]
pub struct PrintJob {
    phase: JobPhase,
}

/// Model of a [`PrintJob`]: the request whose reply is due, with what the
/// job holds.
pub enum PrintJobView {
    /// The stored layout is being read; the sale waits to be composed.
    LoadingLayout { sale: SaleView, items: Seq<(CartItemView, ProductView)> },
    /// The printer is being taken; `ops` are the composed operations.
    Acquiring { ops: Seq<PrintOpView> },
    /// The printer is being initialised.
    Initialising { ops: Seq<PrintOpView> },
    /// The operation at `sent` is being performed.
    Printing { ops: Seq<PrintOpView>, sent: int },
}

impl View for PrintJob {
    type V = PrintJobView;

    closed spec fn view(&self) -> PrintJobView {
        match self.phase {
            JobPhase::LoadingLayout { sale, items } => PrintJobView::LoadingLayout {
                sale: sale@,
                items: items.deep_view(),
            },
            JobPhase::Acquiring { ops } => PrintJobView::Acquiring { ops: ops.deep_view() },
            JobPhase::Initialising { ops } => PrintJobView::Initialising { ops: ops.deep_view() },
            JobPhase::Printing { ops, sent } => PrintJobView::Printing {
                ops: ops.deep_view(),
                sent: sent as int,
            },
        }
    }
}

impl PrintJobView {
    /// The operation in progress is one of the composed operations.
    pub open spec fn well_formed(self) -> bool {
        self matches PrintJobView::Printing { ops, sent } ==> 0 <= sent < ops.len()
    }
}

/// The outcome of one step of a print job: a request and the state in
/// which its reply is awaited, or the end.
#[derive(Debug, PartialEq, Eq)]
pub enum JobStep {
    Await(PrintJob, Request),
    Finished(Result<(), CommandError>),
}

/// Model of a [`JobStep`].
pub enum JobStepView {
    Await(PrintJobView, RequestView),
    Finished(Result<(), CommandErrorView>),
}

impl View for JobStep {
    type V = JobStepView;

    open spec fn view(&self) -> JobStepView {
        match self {
            JobStep::Await(job, request) => JobStepView::Await(job@, request@),
            JobStep::Finished(Ok(())) => JobStepView::Finished(Ok(())),
            JobStep::Finished(Err(error)) => JobStepView::Finished(Err(error@)),
        }
    }
}

impl PrintJobView {
    /// The request whose reply the job waits for.
    pub open spec fn request(self) -> RequestView {
        match self {
            PrintJobView::LoadingLayout { .. } => RequestView::LoadLayout,
            PrintJobView::Acquiring { .. } => RequestView::AcquirePrinter,
            PrintJobView::Initialising { .. } => RequestView::InitPrinter,
            PrintJobView::Printing { ops, sent } => RequestView::Print(ops[sent]),
        }
    }
}

/// The first step of printing the tickets of a sale: the stored layout is
/// asked for.
pub open spec fn print_job(sale: SaleView, items: Seq<(CartItemView, ProductView)>) -> JobStepView {
    JobStepView::Await(PrintJobView::LoadingLayout { sale, items }, RequestView::LoadLayout)
}

/// The step that hands the operation at `at` to the printer, or ends the
/// job where no operation is left.
pub open spec fn dispatch_from(ops: Seq<PrintOpView>, at: int) -> JobStepView {
    if 0 <= at < ops.len() {
        JobStepView::Await(PrintJobView::Printing { ops, sent: at }, RequestView::Print(ops[at]))
    } else {
        JobStepView::Finished(Ok(()))
    }
}

/// The step that follows the composition of the tickets: the printer is
/// asked for.
pub open spec fn composed_job(ops: Seq<PrintOpView>) -> JobStepView {
    JobStepView::Await(PrintJobView::Acquiring { ops }, RequestView::AcquirePrinter)
}

/// The step that follows a reply.
///
/// The layout in force is the stored one, or the default where none is
/// stored; a layout that cannot be decoded ends the job. With the layout
/// the tickets are composed. The printer is then taken, which fails where
/// none is configured or its lock is poisoned, and initialised. The
/// operations are handed over in order; the first failure ends the job, and
/// no operation follows it.
pub open spec fn job_advanced(job: PrintJobView, reply: ReplyView) -> JobStepView {
    match job {
        PrintJobView::LoadingLayout { sale, items } => match reply {
            ReplyView::Layout(document) => match decoded_layout(document) {
                Ok(layout) => composed_job(composed(sale, items, layout)),
                Err(error) => JobStepView::Finished(Err(error)),
            },
            ReplyView::Missing => composed_job(composed(sale, items, default_layout())),
            ReplyView::Corrupt(detail) => JobStepView::Finished(
                Err(CommandErrorView::Serde(detail)),
            ),
            _ => JobStepView::Finished(Err(CommandErrorView::LoadSettings)),
        },
        PrintJobView::Acquiring { ops } => match reply {
            ReplyView::Done => JobStepView::Await(
                PrintJobView::Initialising { ops },
                RequestView::InitPrinter,
            ),
            ReplyView::Missing => JobStepView::Finished(
                Err(CommandErrorView::PrinterNotConfigured),
            ),
            ReplyView::Poisoned => JobStepView::Finished(Err(CommandErrorView::MutexPoison)),
            _ => JobStepView::Finished(Err(CommandErrorView::Printer(failure_text(reply)))),
        },
        PrintJobView::Initialising { ops } => match reply {
            ReplyView::Done => dispatch_from(ops, 0),
            _ => JobStepView::Finished(Err(CommandErrorView::Printer(failure_text(reply)))),
        },
        PrintJobView::Printing { ops, sent } => match reply {
            ReplyView::Done => dispatch_from(ops, sent + 1),
            _ => JobStepView::Finished(Err(CommandErrorView::Printer(failure_text(reply)))),
        },
    }
}

/// Hands the operation at `at` to the printer, or ends the job.
fn dispatch_at(ops: Vec<PrintOp>, at: usize) -> (step: JobStep)
    ensures
        step@ == dispatch_from(ops.deep_view(), at as int),
{
    if at < ops.len() {
        let request = Request::Print(ops[at].clone());
        JobStep::Await(PrintJob { phase: JobPhase::Printing { ops, sent: at } }, request)
    } else {
        JobStep::Finished(Ok(()))
    }
}

/// Dispatches composed operations to a printer that is held and
/// initialised: they are handed over in order, and the first that fails
/// ends the job.
pub fn dispatch(ops: Vec<PrintOp>) -> (step: JobStep)
    ensures
        step@ == dispatch_from(ops.deep_view(), 0),
{
    dispatch_at(ops, 0)
}

/// Composes the tickets and asks for the printer.
fn compose_job(sale: &Sale, items: &Vec<(CartItem, Product)>, layout: &PrintingLayout) -> (step:
    JobStep)
    ensures
        step@ == composed_job(composed(sale@, items.deep_view(), layout@)),
{
    let ops = compose(sale, items, layout);
    JobStep::Await(PrintJob { phase: JobPhase::Acquiring { ops } }, Request::AcquirePrinter)
}

impl PrintJob {
    #[verifier::type_invariant]
    spec fn consistent(self) -> bool {
        self@.well_formed()
    }

    /// Starts printing the tickets of a sale.
    pub fn start(sale: Sale, items: Vec<(CartItem, Product)>) -> (step: JobStep)
        ensures
            step@ == print_job(sale@, items.deep_view()),
    {
        JobStep::Await(
            PrintJob { phase: JobPhase::LoadingLayout { sale, items } },
            Request::LoadLayout,
        )
    }

    /// The step that follows `reply`.
    pub fn advance(self, reply: Reply) -> (step: JobStep)
        ensures
            step@ == job_advanced(self@, reply@),
    {
        proof {
            use_type_invariant(&self);
        }
        let PrintJob { phase } = self;
        match phase {
            JobPhase::LoadingLayout { sale, items } => match reply {
                Reply::Layout(document) => match PrintingLayout::from_document(&document) {
                    Ok(layout) => compose_job(&sale, &items, &layout),
                    Err(error) => JobStep::Finished(Err(error)),
                },
                Reply::Missing => {
                    let layout = PrintingLayout::default();
                    compose_job(&sale, &items, &layout)
                },
                Reply::Corrupt(detail) => JobStep::Finished(Err(CommandError::Serde(detail))),
                _ => JobStep::Finished(Err(CommandError::LoadSettings)),
            },
            JobPhase::Acquiring { ops } => match reply {
                Reply::Done => JobStep::Await(
                    PrintJob { phase: JobPhase::Initialising { ops } },
                    Request::InitPrinter,
                ),
                Reply::Missing => JobStep::Finished(Err(CommandError::PrinterNotConfigured)),
                Reply::Poisoned => JobStep::Finished(Err(CommandError::MutexPoison)),
                other => JobStep::Finished(Err(CommandError::Printer(other.into_failure()))),
            },
            JobPhase::Initialising { ops } => match reply {
                Reply::Done => dispatch_at(ops, 0),
                other => JobStep::Finished(Err(CommandError::Printer(other.into_failure()))),
            },
            JobPhase::Printing { ops, sent } => match reply {
                Reply::Done => {
                    assert(sent < ops.deep_view().len() == ops.len());
                    dispatch_at(ops, sent + 1)
                },
                other => JobStep::Finished(Err(CommandError::Printer(other.into_failure()))),
            },
        }
    }
}

/// A print job asks only for the layout, for the printer and for printer
/// operations: the request of every step is the one of the job's state.
pub proof fn lemma_job_requests(job: PrintJobView, reply: ReplyView)
    requires
        job.well_formed(),
    ensures
        job_advanced(job, reply) matches JobStepView::Await(next, request) ==> next.well_formed()
            && request == next.request(),
{
}

/// The step a print job has reached after `replies`. Replies that come
/// after the end are not looked at.
pub open spec fn job_run(step: JobStepView, replies: Seq<ReplyView>) -> JobStepView
    decreases replies.len(),
{
    if replies.len() == 0 {
        step
    } else {
        match step {
            JobStepView::Finished(_) => step,
            JobStepView::Await(job, _) => job_run(
                job_advanced(job, replies[0]),
                replies.drop_first(),
            ),
        }
    }
}

/// The requests that a print job makes while it is given `replies`, each
/// with its reply.
pub open spec fn job_exchange(step: JobStepView, replies: Seq<ReplyView>) -> Seq<
    (RequestView, ReplyView),
>
    decreases replies.len(),
{
    if replies.len() == 0 {
        Seq::empty()
    } else {
        match step {
            JobStepView::Finished(_) => Seq::empty(),
            JobStepView::Await(job, request) => seq![(request, replies[0])] + job_exchange(
                job_advanced(job, replies[0]),
                replies.drop_first(),
            ),
        }
    }
}

/// The printer operations that an exchange asked for, in order.
pub open spec fn attempted(exchange: Seq<(RequestView, ReplyView)>) -> Seq<PrintOpView>
    decreases exchange.len(),
{
    if exchange.len() == 0 {
        Seq::empty()
    } else {
        match exchange[0].0 {
            RequestView::Print(op) => seq![op] + attempted(exchange.drop_first()),
            _ => attempted(exchange.drop_first()),
        }
    }
}

/// The printer operations of an exchange that the printer carried out.
pub open spec fn performed(exchange: Seq<(RequestView, ReplyView)>) -> Seq<PrintOpView>
    decreases exchange.len(),
{
    if exchange.len() == 0 {
        Seq::empty()
    } else {
        match exchange[0] {
            (RequestView::Print(op), ReplyView::Done) => seq![op] + performed(
                exchange.drop_first(),
            ),
            _ => performed(exchange.drop_first()),
        }
    }
}

/// A job that has ended stays ended: further replies are not looked at
/// and nothing more is asked.
pub proof fn lemma_ended_job(step: JobStepView, replies: Seq<ReplyView>)
    requires
        step is Finished,
    ensures
        job_run(step, replies) == step,
        job_exchange(step, replies) == Seq::<(RequestView, ReplyView)>::empty(),
        attempted(job_exchange(step, replies)) == Seq::<PrintOpView>::empty(),
        performed(job_exchange(step, replies)) == Seq::<PrintOpView>::empty(),
{
}

/// The first exchange of a job that waits for a reply, and what follows
/// it: the job goes on from the step that the reply leads to.
pub proof fn lemma_job_step(job: PrintJobView, request: RequestView, replies: Seq<ReplyView>)
    requires
        replies.len() > 0,
    ensures
        ({
            let exchange = job_exchange(JobStepView::Await(job, request), replies);
            let next = job_advanced(job, replies[0]);
            let rest = job_exchange(next, replies.drop_first());
            &&& exchange == seq![(request, replies[0])] + rest
            &&& job_run(JobStepView::Await(job, request), replies) == job_run(
                next,
                replies.drop_first(),
            )
            &&& attempted(exchange) == match request {
                RequestView::Print(op) => seq![op] + attempted(rest),
                _ => attempted(rest),
            }
            &&& performed(exchange) == match (request, replies[0]) {
                (RequestView::Print(op), ReplyView::Done) => seq![op] + performed(rest),
                _ => performed(rest),
            }
        }),
{
    let exchange = job_exchange(JobStepView::Await(job, request), replies);
    let rest = job_exchange(job_advanced(job, replies[0]), replies.drop_first());
    assert(exchange.drop_first() =~= rest);
}

/// Dispatch is in order and stops at the first failure. From the operation
/// at `at` on, the printer is asked for the operations one after the other.
/// While every reply is `Done` all of them are carried out; the job ends
/// well exactly when the last one is. The first other reply ends the job
/// with a printer error that carries the reply's detail, and the operations
/// after the failed one are never asked for.
pub proof fn lemma_dispatch_in_order(ops: Seq<PrintOpView>, at: int, replies: Seq<ReplyView>)
    requires
        0 <= at <= ops.len(),
    ensures
        ({
            let exchange = job_exchange(dispatch_from(ops, at), replies);
            let end = job_run(dispatch_from(ops, at), replies);
            &&& at + exchange.len() <= ops.len()
            &&& attempted(exchange) == ops.subrange(at, at + exchange.len())
            &&& match end {
                JobStepView::Finished(Ok(())) => performed(exchange) == ops.subrange(
                    at,
                    ops.len() as int,
                ),
                JobStepView::Finished(Err(error)) => {
                    &&& exchange.len() > 0
                    &&& !(exchange.last().1 is Done)
                    &&& error == CommandErrorView::Printer(failure_text(exchange.last().1))
                    &&& performed(exchange) == ops.subrange(at, at + exchange.len() - 1)
                },
                JobStepView::Await(job, request) => {
                    &&& job == (PrintJobView::Printing { ops, sent: at + exchange.len() })
                    &&& performed(exchange) == ops.subrange(at, at + exchange.len())
                },
            }
        }),
    decreases replies.len(),
{
    let start = dispatch_from(ops, at);
    if at == ops.len() {
        lemma_ended_job(start, replies);
        assert(ops.subrange(at, at) =~= Seq::<PrintOpView>::empty());
    } else if replies.len() == 0 {
        assert(ops.subrange(at, at) =~= Seq::<PrintOpView>::empty());
    } else {
        let job = PrintJobView::Printing { ops, sent: at };
        let next = job_advanced(job, replies[0]);
        let rest = job_exchange(next, replies.drop_first());
        lemma_job_step(job, RequestView::Print(ops[at]), replies);
        if replies[0] is Done {
            lemma_dispatch_in_order(ops, at + 1, replies.drop_first());
            assert(seq![ops[at]] + ops.subrange(at + 1, at + 1 + rest.len()) =~= ops.subrange(
                at,
                at + 1 + rest.len(),
            ));
            assert(seq![ops[at]] + ops.subrange(at + 1, ops.len() as int) =~= ops.subrange(
                at,
                ops.len() as int,
            ));
            if rest.len() > 0 {
                assert(seq![ops[at]] + ops.subrange(at + 1, at + rest.len()) =~= ops.subrange(
                    at,
                    at + rest.len(),
                ));
            }
        } else {
            lemma_ended_job(next, replies.drop_first());
            assert(ops.subrange(at, at) =~= Seq::<PrintOpView>::empty());
            assert(seq![ops[at]] =~= ops.subrange(at, at + 1));
        }
    }
}

/// The layout in force for what the settings answered.
pub open spec fn layout_in_force(reply: ReplyView) -> Option<PrintingLayoutView> {
    match reply {
        ReplyView::Layout(document) => match decoded_layout(document) {
            Ok(layout) => Some(layout),
            Err(_) => None,
        },
        ReplyView::Missing => Some(default_layout()),
        _ => None,
    }
}

/// A print job prints the composed tickets and nothing else. Whatever the
/// replies, the operations asked of the printer are the first operations of
/// the tickets composed for the sale under the layout in force, in order;
/// none is asked for before the printer is held and initialised; and a job
/// that ends well has had all of them carried out.
pub proof fn lemma_job_prints_composed(
    sale: SaleView,
    items: Seq<(CartItemView, ProductView)>,
    replies: Seq<ReplyView>,
)
    requires
        replies.len() > 0,
    ensures
        ({
            let exchange = job_exchange(print_job(sale, items), replies);
            let end = job_run(print_job(sale, items), replies);
            &&& attempted(exchange).len() > 0 ==> exchange.len() > 3 && exchange[1] == (
                RequestView::AcquirePrinter,
                ReplyView::Done,
            ) && exchange[2] == (RequestView::InitPrinter, ReplyView::Done)
            &&& match layout_in_force(replies[0]) {
                Some(layout) => {
                    &&& attempted(exchange).len() <= composed(sale, items, layout).len()
                    &&& attempted(exchange) == composed(sale, items, layout).take(
                        attempted(exchange).len() as int,
                    )
                    &&& end == JobStepView::Finished(Ok(())) ==> performed(exchange) == composed(
                        sale,
                        items,
                        layout,
                    )
                },
                None => end is Finished && !(end == JobStepView::Finished(Ok(())))
                    && attempted(exchange) == Seq::<PrintOpView>::empty(),
            }
        }),
{
    let loading = PrintJobView::LoadingLayout { sale, items };
    let second = job_advanced(loading, replies[0]);
    let replies1 = replies.drop_first();
    lemma_job_step(loading, RequestView::LoadLayout, replies);
    match layout_in_force(replies[0]) {
        None => {
            lemma_ended_job(second, replies1);
        },
        Some(layout) => {
            let ops = composed(sale, items, layout);
            let acquiring = PrintJobView::Acquiring { ops };
            assert(ops.take(0) =~= Seq::<PrintOpView>::empty());
            if replies1.len() > 0 {
                let third = job_advanced(acquiring, replies1[0]);
                let replies2 = replies1.drop_first();
                lemma_job_step(acquiring, RequestView::AcquirePrinter, replies1);
                if !(replies1[0] is Done) {
                    lemma_ended_job(third, replies2);
                } else if replies2.len() > 0 {
                    let initialising = PrintJobView::Initialising { ops };
                    let fourth = job_advanced(initialising, replies2[0]);
                    let replies3 = replies2.drop_first();
                    lemma_job_step(initialising, RequestView::InitPrinter, replies2);
                    if replies2[0] is Done {
                        lemma_dispatch_in_order(ops, 0, replies3);
                        let sent = job_exchange(fourth, replies3).len() as int;
                        assert(ops.subrange(0, sent) =~= ops.take(sent));
                        assert(ops.subrange(0, ops.len() as int) =~= ops);
                    } else {
                        lemma_ended_job(fourth, replies3);
                    }
                }
            }
        },
    }
}

/// Reprinting is repeatable. Two print jobs for the same stored sale that
/// find the same layout in the settings and both end well have had the same
/// operations carried out, whatever else their hosts answered.
pub proof fn lemma_reprint_is_repeatable(
    sale: SaleView,
    items: Seq<(CartItemView, ProductView)>,
    first: Seq<ReplyView>,
    second: Seq<ReplyView>,
)
    requires
        first.len() > 0,
        second.len() > 0,
        first[0] == second[0],
        job_run(print_job(sale, items), first) == JobStepView::Finished(Ok(())),
        job_run(print_job(sale, items), second) == JobStepView::Finished(Ok(())),
    ensures
        performed(job_exchange(print_job(sale, items), first)) == performed(
            job_exchange(print_job(sale, items), second),
        ),
{
    lemma_job_prints_composed(sale, items, first);
    lemma_job_prints_composed(sale, items, second);
}

} // verus!
