use fulcitt_pos::dispatch::{dispatch, JobStep, PrintJob};
use fulcitt_pos::errors::{CommandError, InputError};
use fulcitt_pos::layout::{FontSize, HeaderLayout, Justify, LayoutDocument, PrintingLayout, SectionLayout};
use fulcitt_pos::models::{rows_to_items, CartItem, CartItemWithProduct, Product, Sale, SaleItem};
use fulcitt_pos::pipeline::{
    process_sale, process_sale_at, reprint_sale, PipelineError, PipelineStep, ReprintStep,
    ReprintTarget,
};
use fulcitt_pos::printing::{compose, PrintOp};
use fulcitt_pos::protocol::{Reply, Request};
use fulcitt_pos::sale::{commit_sale, commit_sale_at, CommittedSale, TxStep};
use fulcitt_pos::stamp::SaleTime;

/// A host that keeps everything in memory and can be told where to fail.
struct Host {
    products: Vec<Product>,
    sales: Vec<Sale>,
    lines: Vec<SaleItem>,
    snapshot: Option<(Vec<Sale>, Vec<SaleItem>)>,
    layout: Option<LayoutDocument>,
    printer: Option<Vec<PrintOp>>,
    initialised: usize,
    log: Vec<Request>,
    fail_at: Option<usize>,
    answer_at: Option<(usize, Reply)>,
}

impl Host {
    fn new() -> Host {
        Host {
            products: vec![product(1, "Birra", "Drinks"), product(2, "Panino", "Food")],
            sales: Vec::new(),
            lines: Vec::new(),
            snapshot: None,
            layout: None,
            printer: Some(Vec::new()),
            initialised: 0,
            log: Vec::new(),
            fail_at: None,
            answer_at: None,
        }
    }

    fn perform(&mut self, request: Request) -> Reply {
        let at = self.log.len();
        self.log.push(request.clone());
        if self.fail_at == Some(at) {
            if let Request::Rollback | Request::Commit = request {
                self.roll_back();
            }
            return Reply::Failed(format!("failure at request {}", at));
        }
        if let Some((when, _)) = &self.answer_at {
            if *when == at {
                return self.answer_at.take().unwrap().1;
            }
        }
        match request {
            Request::BeginTransaction => {
                self.snapshot = Some((self.sales.clone(), self.lines.clone()));
                Reply::Done
            }
            Request::InsertSale(sale) => {
                self.sales.push(sale);
                Reply::Done
            }
            Request::FindProduct { product_id } => {
                match self.products.iter().find(|p| p.id == product_id) {
                    Some(found) => Reply::Product(found.clone()),
                    None => Reply::Missing,
                }
            }
            Request::InsertSaleItem(line) => {
                self.lines.push(line);
                Reply::Done
            }
            Request::Commit => {
                self.snapshot = None;
                Reply::Done
            }
            Request::Rollback => {
                self.roll_back();
                Reply::Done
            }
            Request::FindSale { sale_id } => match self.sales.iter().find(|s| s.id == sale_id) {
                Some(found) => Reply::Sale(found.clone()),
                None => Reply::Missing,
            },
            Request::FindLastSale => match self.sales.last() {
                Some(found) => Reply::Sale(found.clone()),
                None => Reply::Missing,
            },
            Request::FindSaleItems { sale_id } => {
                let mut rows = Vec::new();
                for line in self.lines.iter().filter(|l| l.sale_id == sale_id) {
                    let found = self.products.iter().find(|p| p.id == line.product_id).unwrap();
                    rows.push(CartItemWithProduct {
                        quantity: line.quantity,
                        name_at_sale: line.product_name.clone(),
                        price_at_sale: line.price_at_sale,
                        product_id: found.id,
                        name: found.name.clone(),
                        category: found.category.clone(),
                        is_product_deleted: found.is_deleted,
                        price: found.price,
                    });
                }
                Reply::SaleItems(rows)
            }
            Request::LoadLayout => match &self.layout {
                Some(document) => Reply::Layout(document.clone()),
                None => Reply::Missing,
            },
            Request::AcquirePrinter => match self.printer {
                Some(_) => Reply::Done,
                None => Reply::Missing,
            },
            Request::InitPrinter => {
                self.initialised += 1;
                Reply::Done
            }
            Request::Print(op) => {
                self.printer.as_mut().unwrap().push(op);
                Reply::Done
            }
        }
    }

    fn roll_back(&mut self) {
        if let Some((sales, lines)) = self.snapshot.take() {
            self.sales = sales;
            self.lines = lines;
        }
    }

    fn run_sale(&mut self, mut step: TxStep) -> Result<CommittedSale, CommandError> {
        loop {
            match step {
                TxStep::Finished(outcome) => return outcome,
                TxStep::Await(transaction, request) => {
                    let reply = self.perform(request);
                    step = transaction.advance(reply);
                }
            }
        }
    }

    fn run_pipeline(&mut self, mut step: PipelineStep) -> Result<u128, PipelineError> {
        loop {
            match step {
                PipelineStep::Finished(outcome) => return outcome,
                PipelineStep::Await(pipeline, request) => {
                    let reply = self.perform(request);
                    step = pipeline.advance(reply);
                }
            }
        }
    }

    fn run_reprint(&mut self, mut step: ReprintStep) -> Result<(), CommandError> {
        loop {
            match step {
                ReprintStep::Finished(outcome) => return outcome,
                ReprintStep::Await(reprint, request) => {
                    let reply = self.perform(request);
                    step = reprint.advance(reply);
                }
            }
        }
    }

    fn run_job(&mut self, mut step: JobStep) -> Result<(), CommandError> {
        loop {
            match step {
                JobStep::Finished(outcome) => return outcome,
                JobStep::Await(job, request) => {
                    let reply = self.perform(request);
                    step = job.advance(reply);
                }
            }
        }
    }

    fn printed(&self) -> Vec<PrintOp> {
        self.printer.clone().unwrap()
    }
}

fn product(id: u128, name: &str, category: &str) -> Product {
    Product {
        id,
        name: name.to_string(),
        category: category.to_string(),
        price: 300,
        is_deleted: false,
    }
}

fn item(product_id: u128, name: &str, price: i64, quantity: i64) -> CartItem {
    CartItem { product_id, name: name.to_string(), price, quantity }
}

fn cart() -> Vec<CartItem> {
    vec![item(1, "Birra media", 450, 2), item(2, "Panino", 600, 1)]
}

fn time() -> SaleTime {
    SaleTime::new(2024, 3, 5, 7, 8, 9).unwrap()
}

fn the_sale() -> Sale {
    Sale { id: 77, sale_time: time(), total_amount: 1500, payment_method: None }
}

fn line(id: u128, product_id: u128, name: &str, quantity: i64, price: i64) -> SaleItem {
    SaleItem {
        id,
        sale_id: 77,
        product_id,
        product_name: name.to_string(),
        quantity,
        price_at_sale: price,
    }
}

fn grouped_layout() -> PrintingLayout {
    PrintingLayout {
        group_tickets_by_category: true,
        header: HeaderLayout {
            enabled: true,
            font_size: FontSize::Large,
            justify: Justify::Center,
            content: "Sagra".to_string(),
        },
        body: SectionLayout { enabled: true, font_size: FontSize::Normal, justify: Justify::Left },
        footer: SectionLayout { enabled: true, font_size: FontSize::Small, justify: Justify::Right },
    }
}

fn step_by_step(host: &mut Host, mut step: TxStep, line_ids: &[u128]) -> Result<CommittedSale, CommandError> {
    let mut next_id = 0;
    loop {
        match step {
            TxStep::Finished(outcome) => return outcome,
            TxStep::Await(transaction, request) => {
                let reply = host.perform(request);
                let line_id = line_ids[next_id % line_ids.len()];
                next_id += 1;
                step = transaction.advance_as(reply, line_id);
            }
        }
    }
}

#[test]
fn committed_sale_has_the_total_of_its_cart() {
    let mut host = Host::new();
    let committed = host.run_sale(commit_sale_at(cart(), 77, Some(time()))).unwrap();
    assert_eq!(committed.sale, the_sale());
    assert_eq!(committed.sale.total_amount, 450 * 2 + 600);
    assert_eq!(host.sales, vec![the_sale()]);
    assert!(host.snapshot.is_none());
}

#[test]
fn sale_lines_copy_the_cart() {
    let mut host = Host::new();
    let committed = step_by_step(&mut host, commit_sale_at(cart(), 77, Some(time())), &[100]).unwrap();
    let expected = vec![line(100, 1, "Birra media", 2, 450), line(100, 2, "Panino", 1, 600)];
    assert_eq!(committed.lines, expected);
    assert_eq!(host.lines, expected);
    assert_eq!(
        committed.items,
        vec![
            (item(1, "Birra media", 450, 2), product(1, "Birra", "Drinks")),
            (item(2, "Panino", 600, 1), product(2, "Panino", "Food")),
        ]
    );
}

#[test]
fn sale_asks_the_store_in_order() {
    let mut host = Host::new();
    step_by_step(&mut host, commit_sale_at(cart(), 77, Some(time())), &[100]).unwrap();
    assert_eq!(
        host.log,
        vec![
            Request::BeginTransaction,
            Request::InsertSale(the_sale()),
            Request::FindProduct { product_id: 1 },
            Request::InsertSaleItem(line(100, 1, "Birra media", 2, 450)),
            Request::FindProduct { product_id: 2 },
            Request::InsertSaleItem(line(100, 2, "Panino", 1, 600)),
            Request::Commit,
        ]
    );
}

#[test]
fn empty_cart_fails_and_writes_nothing() {
    let mut host = Host::new();
    let outcome = host.run_sale(commit_sale_at(vec![], 77, Some(time())));
    assert_eq!(outcome, Err(CommandError::InvalidInput(InputError::EmptyCart)));
    assert!(host.log.is_empty());
    assert!(host.sales.is_empty() && host.lines.is_empty());
    let outcome = host.run_sale(commit_sale(vec![]));
    assert_eq!(outcome, Err(CommandError::InvalidInput(InputError::EmptyCart)));
    assert!(host.log.is_empty());
}

#[test]
fn bad_quantity_after_sound_lines_fails_and_writes_nothing() {
    let mut host = Host::new();
    let cart = vec![item(1, "Birra media", 450, 2), item(2, "Panino", 600, 0)];
    let outcome = host.run_sale(commit_sale_at(cart, 77, Some(time())));
    assert_eq!(
        outcome,
        Err(CommandError::InvalidInput(InputError::InvalidQuantity { product_id: 2 }))
    );
    assert!(host.log.is_empty());
    assert!(host.sales.is_empty() && host.lines.is_empty());
}

#[test]
fn negative_price_fails_and_writes_nothing() {
    let mut host = Host::new();
    let cart = vec![item(1, "Birra media", -450, 2)];
    let outcome = host.run_sale(commit_sale_at(cart, 77, Some(time())));
    assert_eq!(
        outcome,
        Err(CommandError::InvalidInput(InputError::InvalidPrice { product_id: 1 }))
    );
    assert!(host.log.is_empty());
}

#[test]
fn missing_product_rolls_the_sale_back() {
    let mut host = Host::new();
    host.sales.push(Sale { id: 1, sale_time: time(), total_amount: 5, payment_method: None });
    let cart = vec![item(1, "Birra media", 450, 2), item(9, "Fantasma", 600, 1)];
    let outcome = host.run_sale(commit_sale_at(cart, 77, Some(time())));
    assert_eq!(outcome, Err(CommandError::ProductNotFound { product_id: 9 }));
    assert_eq!(host.log.last(), Some(&Request::Rollback));
    assert_eq!(host.sales.len(), 1);
    assert!(host.lines.is_empty());
    assert!(host.snapshot.is_none());
}

#[test]
fn store_failure_on_any_request_leaves_no_partial_sale() {
    for failing in 0..7 {
        let mut host = Host::new();
        host.fail_at = Some(failing);
        let outcome = host.run_sale(commit_sale_at(cart(), 77, Some(time())));
        assert_eq!(
            outcome,
            Err(CommandError::Database(format!("failure at request {}", failing))),
            "request {}",
            failing
        );
        assert!(host.sales.is_empty() && host.lines.is_empty(), "request {}", failing);
        assert!(host.snapshot.is_none(), "request {}", failing);
        if failing == 0 || failing == 6 {
            assert_eq!(host.log.len(), failing + 1);
        } else {
            assert_eq!(host.log.len(), failing + 2);
            assert_eq!(host.log.last(), Some(&Request::Rollback));
        }
    }
}

#[test]
fn failed_rollback_still_reports_the_first_error() {
    let mut host = Host::new();
    host.products.clear();
    host.fail_at = Some(3);
    let outcome = host.run_sale(commit_sale_at(cart(), 77, Some(time())));
    assert_eq!(outcome, Err(CommandError::ProductNotFound { product_id: 1 }));
}

#[test]
fn unexpected_reply_is_a_store_failure() {
    let mut host = Host::new();
    host.answer_at = Some((1, Reply::Missing));
    let outcome = host.run_sale(commit_sale_at(cart(), 77, Some(time())));
    assert_eq!(outcome, Err(CommandError::Database("unexpected reply".to_string())));
    assert!(host.sales.is_empty());
}

#[test]
fn replies_name_their_failure() {
    assert_eq!(Reply::Failed("disk full".to_string()).into_failure(), "disk full");
    assert_eq!(Reply::Corrupt("bad json".to_string()).into_failure(), "bad json");
    assert_eq!(Reply::Done.into_failure(), "unexpected reply");
    assert_eq!(Reply::Poisoned.into_failure(), "unexpected reply");
}

#[test]
fn fresh_sales_get_fresh_identifiers() {
    let mut host = Host::new();
    let first = host.run_sale(commit_sale(cart())).unwrap();
    let second = host.run_sale(commit_sale(cart())).unwrap();
    assert_ne!(first.sale.id, second.sale.id);
    assert_ne!(first.lines[0].id, first.lines[1].id);
    assert_ne!(first.lines[0].id, first.sale.id);
    assert_eq!(first.sale.total_amount, 1500);
    assert_eq!(host.sales.len(), 2);
    assert_eq!(host.lines.len(), 4);
    assert!(host.lines.iter().take(2).all(|l| l.sale_id == first.sale.id));
}

#[test]
fn pipeline_commits_then_prints() {
    let mut host = Host::new();
    let outcome = host.run_pipeline(process_sale_at(cart(), 77, Some(time())));
    assert_eq!(outcome, Ok(77));
    assert_eq!(host.sales, vec![the_sale()]);
    let items = vec![
        (item(1, "Birra media", 450, 2), product(1, "Birra", "Drinks")),
        (item(2, "Panino", 600, 1), product(2, "Panino", "Food")),
    ];
    assert_eq!(host.printed(), compose(&the_sale(), &items, &PrintingLayout::default()));
    assert_eq!(host.printed().iter().filter(|op| **op == PrintOp::Cut).count(), 3);
    let commit = host.log.iter().position(|r| *r == Request::Commit).unwrap();
    let load = host.log.iter().position(|r| *r == Request::LoadLayout).unwrap();
    let acquire = host.log.iter().position(|r| *r == Request::AcquirePrinter).unwrap();
    let init = host.log.iter().position(|r| *r == Request::InitPrinter).unwrap();
    assert!(commit < load && load < acquire && acquire < init);
    assert!(host.log[init + 1..].iter().all(|r| matches!(r, Request::Print(_))));
    assert_eq!(host.initialised, 1);
}

#[test]
fn pipeline_uses_the_stored_layout() {
    let mut host = Host::new();
    host.layout = Some(grouped_layout().to_document());
    let outcome = host.run_pipeline(process_sale_at(cart(), 77, Some(time())));
    assert_eq!(outcome, Ok(77));
    let items = vec![
        (item(1, "Birra media", 450, 2), product(1, "Birra", "Drinks")),
        (item(2, "Panino", 600, 1), product(2, "Panino", "Food")),
    ];
    assert_eq!(host.printed(), compose(&the_sale(), &items, &grouped_layout()));
    assert_eq!(host.printed().iter().filter(|op| **op == PrintOp::Cut).count(), 2);
}

#[test]
fn rejected_cart_is_never_printed() {
    let mut host = Host::new();
    let outcome = host.run_pipeline(process_sale_at(vec![], 77, Some(time())));
    assert_eq!(
        outcome,
        Err(PipelineError {
            error: CommandError::InvalidInput(InputError::EmptyCart),
            committed_sale: None,
        })
    );
    assert!(host.log.is_empty());
    assert!(host.printed().is_empty());
    let outcome = host.run_pipeline(process_sale(vec![item(1, "Birra", 100, -1)]));
    assert_eq!(
        outcome,
        Err(PipelineError {
            error: CommandError::InvalidInput(InputError::InvalidQuantity { product_id: 1 }),
            committed_sale: None,
        })
    );
    assert!(host.log.is_empty());
}

#[test]
fn failed_sale_is_never_printed() {
    let mut host = Host::new();
    host.fail_at = Some(3);
    let outcome = host.run_pipeline(process_sale_at(cart(), 77, Some(time())));
    assert_eq!(
        outcome,
        Err(PipelineError {
            error: CommandError::Database("failure at request 3".to_string()),
            committed_sale: None,
        })
    );
    assert!(host.sales.is_empty());
    assert!(host.printed().is_empty());
    assert!(!host.log.contains(&Request::LoadLayout));
}

#[test]
fn missing_printer_keeps_the_sale() {
    let mut host = Host::new();
    host.printer = None;
    let outcome = host.run_pipeline(process_sale_at(cart(), 77, Some(time())));
    assert_eq!(
        outcome,
        Err(PipelineError { error: CommandError::PrinterNotConfigured, committed_sale: Some(77) })
    );
    assert_eq!(host.sales, vec![the_sale()]);
    assert_eq!(host.lines.len(), 2);
    assert!(!host.log.contains(&Request::Rollback));
}

#[test]
fn poisoned_lock_keeps_the_sale() {
    let mut host = Host::new();
    host.answer_at = Some((8, Reply::Poisoned));
    let outcome = host.run_pipeline(process_sale_at(cart(), 77, Some(time())));
    assert_eq!(
        outcome,
        Err(PipelineError { error: CommandError::MutexPoison, committed_sale: Some(77) })
    );
    assert_eq!(host.log[8], Request::AcquirePrinter);
    assert_eq!(host.sales, vec![the_sale()]);
}

#[test]
fn printer_failure_stops_dispatch_and_keeps_the_sale() {
    let mut host = Host::new();
    host.fail_at = Some(10 + 7);
    let outcome = host.run_pipeline(process_sale_at(cart(), 77, Some(time())));
    assert_eq!(
        outcome,
        Err(PipelineError {
            error: CommandError::Printer("failure at request 17".to_string()),
            committed_sale: Some(77),
        })
    );
    assert_eq!(host.sales, vec![the_sale()]);
    assert_eq!(host.lines.len(), 2);
    let items = vec![
        (item(1, "Birra media", 450, 2), product(1, "Birra", "Drinks")),
        (item(2, "Panino", 600, 1), product(2, "Panino", "Food")),
    ];
    let all = compose(&the_sale(), &items, &PrintingLayout::default());
    assert_eq!(host.printed(), all[..7].to_vec());
    assert_eq!(host.log.len(), 18);
    assert_eq!(host.log[17], Request::Print(all[7].clone()));
}

#[test]
fn failed_initialisation_prints_nothing() {
    let mut host = Host::new();
    host.fail_at = Some(9);
    let outcome = host.run_pipeline(process_sale_at(cart(), 77, Some(time())));
    assert_eq!(
        outcome,
        Err(PipelineError {
            error: CommandError::Printer("failure at request 9".to_string()),
            committed_sale: Some(77),
        })
    );
    assert_eq!(host.log[9], Request::InitPrinter);
    assert!(host.printed().is_empty());
}

#[test]
fn corrupt_layout_is_a_decoding_error() {
    let mut host = Host::new();
    host.answer_at = Some((7, Reply::Corrupt("expected value at line 1".to_string())));
    let outcome = host.run_pipeline(process_sale_at(cart(), 77, Some(time())));
    assert_eq!(
        outcome,
        Err(PipelineError {
            error: CommandError::Serde("expected value at line 1".to_string()),
            committed_sale: Some(77),
        })
    );
    assert_eq!(host.log[7], Request::LoadLayout);
    assert_eq!(host.log.len(), 8);
}

#[test]
fn layout_with_unknown_style_is_a_decoding_error() {
    let mut host = Host::new();
    let mut document = grouped_layout().to_document();
    document.body.font_size = "Huge".to_string();
    host.answer_at = Some((7, Reply::Layout(document)));
    let outcome = host.run_pipeline(process_sale_at(cart(), 77, Some(time())));
    assert_eq!(
        outcome,
        Err(PipelineError {
            error: CommandError::Serde("unknown font size".to_string()),
            committed_sale: Some(77),
        })
    );
}

#[test]
fn unreadable_settings_are_a_settings_error() {
    let mut host = Host::new();
    host.fail_at = Some(7);
    let outcome = host.run_pipeline(process_sale_at(cart(), 77, Some(time())));
    assert_eq!(
        outcome,
        Err(PipelineError { error: CommandError::LoadSettings, committed_sale: Some(77) })
    );
}

#[test]
fn print_job_dispatches_in_order() {
    let mut host = Host::new();
    let items = vec![(item(1, "Birra media", 450, 2), product(1, "Birra", "Drinks"))];
    let outcome = host.run_job(PrintJob::start(the_sale(), items.clone()));
    assert_eq!(outcome, Ok(()));
    let all = compose(&the_sale(), &items, &PrintingLayout::default());
    let mut expected = vec![Request::LoadLayout, Request::AcquirePrinter, Request::InitPrinter];
    expected.extend(all.iter().map(|op| Request::Print(op.clone())));
    assert_eq!(host.log, expected);
}

#[test]
fn print_job_of_an_empty_sale_ends_after_initialisation() {
    let mut host = Host::new();
    let outcome = host.run_job(PrintJob::start(the_sale(), vec![]));
    assert_eq!(outcome, Ok(()));
    assert_eq!(
        host.log,
        vec![Request::LoadLayout, Request::AcquirePrinter, Request::InitPrinter]
    );
}

#[test]
fn reprint_prints_the_stored_sale_again() {
    let mut host = Host::new();
    host.run_pipeline(process_sale_at(cart(), 77, Some(time()))).unwrap();
    let first = host.printed();
    host.printer = Some(Vec::new());
    assert_eq!(host.run_reprint(reprint_sale(ReprintTarget::Sale(77))), Ok(()));
    let second = host.printed();
    host.printer = Some(Vec::new());
    assert_eq!(host.run_reprint(reprint_sale(ReprintTarget::Sale(77))), Ok(()));
    let third = host.printed();
    assert_eq!(second, third);
    assert_eq!(first, second);
    assert_eq!(host.sales.len(), 1);
    assert_eq!(host.lines.len(), 2);
}

#[test]
fn reprint_asks_for_sale_lines_layout_and_printer() {
    let mut host = Host::new();
    host.run_pipeline(process_sale_at(cart(), 77, Some(time()))).unwrap();
    host.log.clear();
    host.run_reprint(reprint_sale(ReprintTarget::Sale(77))).unwrap();
    assert_eq!(
        host.log[..5].to_vec(),
        vec![
            Request::FindSale { sale_id: 77 },
            Request::FindSaleItems { sale_id: 77 },
            Request::LoadLayout,
            Request::AcquirePrinter,
            Request::InitPrinter,
        ]
    );
}

#[test]
fn reprint_of_the_last_sale() {
    let mut host = Host::new();
    host.run_pipeline(process_sale_at(cart(), 76, Some(time()))).unwrap();
    host.run_pipeline(process_sale_at(vec![item(2, "Panino", 600, 1)], 77, Some(time()))).unwrap();
    host.printer = Some(Vec::new());
    host.log.clear();
    assert_eq!(host.run_reprint(reprint_sale(ReprintTarget::LastSale)), Ok(()));
    assert_eq!(host.log[0], Request::FindLastSale);
    assert_eq!(host.log[1], Request::FindSaleItems { sale_id: 77 });
    let sale = Sale { id: 77, sale_time: time(), total_amount: 600, payment_method: None };
    let items = vec![(item(2, "Panino", 600, 1), product(2, "Panino", "Food"))];
    assert_eq!(host.printed(), compose(&sale, &items, &PrintingLayout::default()));
}

#[test]
fn reprint_of_an_unknown_sale_fails() {
    let mut host = Host::new();
    assert_eq!(
        host.run_reprint(reprint_sale(ReprintTarget::Sale(5))),
        Err(CommandError::SaleNotFound)
    );
    assert_eq!(host.log, vec![Request::FindSale { sale_id: 5 }]);
}

#[test]
fn reprint_without_any_sale_fails() {
    let mut host = Host::new();
    assert_eq!(
        host.run_reprint(reprint_sale(ReprintTarget::LastSale)),
        Err(CommandError::InvalidInput(InputError::NoSalesRecorded))
    );
}

#[test]
fn reprint_reports_store_and_printer_failures() {
    let mut host = Host::new();
    host.run_pipeline(process_sale_at(cart(), 77, Some(time()))).unwrap();
    host.log.clear();
    host.fail_at = Some(0);
    assert_eq!(
        host.run_reprint(reprint_sale(ReprintTarget::Sale(77))),
        Err(CommandError::Database("failure at request 0".to_string()))
    );
    host.log.clear();
    host.fail_at = Some(1);
    assert_eq!(
        host.run_reprint(reprint_sale(ReprintTarget::Sale(77))),
        Err(CommandError::Database("failure at request 1".to_string()))
    );
    host.log.clear();
    host.fail_at = None;
    host.printer = None;
    assert_eq!(
        host.run_reprint(reprint_sale(ReprintTarget::Sale(77))),
        Err(CommandError::PrinterNotConfigured)
    );
}

#[test]
fn stored_lines_become_items_with_their_products() {
    let row = CartItemWithProduct {
        quantity: 2,
        name_at_sale: "Birra media".to_string(),
        price_at_sale: 450,
        product_id: 1,
        name: "Birra".to_string(),
        category: "Drinks".to_string(),
        is_product_deleted: true,
        price: 500,
    };
    let expected = (
        item(1, "Birra media", 450, 2),
        Product {
            id: 1,
            name: "Birra".to_string(),
            category: "Drinks".to_string(),
            price: 500,
            is_deleted: true,
        },
    );
    assert_eq!(<(CartItem, Product)>::from(row.clone()), expected);
    assert_eq!(rows_to_items(vec![row.clone(), row]), vec![expected.clone(), expected]);
    assert_eq!(rows_to_items(vec![]), vec![]);
}

#[test]
fn dispatch_hands_the_operations_over_in_order() {
    let mut host = Host::new();
    let ops = vec![
        PrintOp::SetFont(FontSize::Large),
        PrintOp::Write("prova".to_string()),
        PrintOp::Feed,
        PrintOp::Cut,
    ];
    assert_eq!(host.run_job(dispatch(ops.clone())), Ok(()));
    assert_eq!(host.printed(), ops);
    assert_eq!(host.log.len(), 4);
}

#[test]
fn dispatch_stops_at_the_first_failure() {
    let mut host = Host::new();
    host.fail_at = Some(1);
    let ops = vec![
        PrintOp::SetFont(FontSize::Large),
        PrintOp::Write("prova".to_string()),
        PrintOp::Feed,
        PrintOp::Cut,
    ];
    assert_eq!(
        host.run_job(dispatch(ops.clone())),
        Err(CommandError::Printer("failure at request 1".to_string()))
    );
    assert_eq!(host.printed(), ops[..1].to_vec());
    assert_eq!(host.log, vec![Request::Print(ops[0].clone()), Request::Print(ops[1].clone())]);
}

#[test]
fn dispatch_of_nothing_ends_at_once() {
    assert!(matches!(dispatch(vec![]), JobStep::Finished(Ok(()))));
}

#[test]
fn a_clock_without_valid_time_fails_the_sale_before_any_write() {
    let mut host = Host::new();
    let outcome = host.run_sale(commit_sale_at(cart(), 77, None));
    assert_eq!(
        outcome,
        Err(CommandError::Io("the clock shows no valid sale time".to_string()))
    );
    assert!(host.log.is_empty());
    let outcome = host.run_pipeline(process_sale_at(cart(), 77, None));
    assert_eq!(
        outcome,
        Err(PipelineError {
            error: CommandError::Io("the clock shows no valid sale time".to_string()),
            committed_sale: None,
        })
    );
    assert!(host.log.is_empty());
}

#[test]
fn an_invalid_cart_is_rejected_whatever_the_clock_shows() {
    let mut host = Host::new();
    let outcome = host.run_sale(commit_sale_at(vec![], 77, None));
    assert_eq!(outcome, Err(CommandError::InvalidInput(InputError::EmptyCart)));
}
