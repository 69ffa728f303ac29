//! The failures a command can report, each as a tagged kind with its detail.

use vstd::prelude::*;

verus! {

/// What is wrong with the input of a command. The caller can always fix it.
#[derive(Clone, Copy, Debug, PartialEq, Eq, Structural)]
pub enum InputError {
    /// The cart holds no item.
    EmptyCart,
    /// An item's quantity is zero or negative.
    InvalidQuantity { product_id: u128 },
    /// An item's unit price is negative.
    InvalidPrice { product_id: u128 },
    /// The total of the cart does not fit the amount type.
    TotalTooLarge,
    /// A reprint of the last sale was asked for and no sale exists.
    NoSalesRecorded,
}

impl InputError {
    /// Key of the message shown to the operator for this error.
    pub open spec fn message_key_spec(self) -> Seq<char> {
        match self {
            InputError::EmptyCart => "pos-messages-cannot-process-sale-with-no-items"@,
            InputError::InvalidQuantity { .. } => "pos-messages-invalid-quantity-for-product"@,
            InputError::InvalidPrice { .. } => "pos-messages-invalid-price-for-product"@,
            InputError::TotalTooLarge => "pos-messages-total-too-large"@,
            InputError::NoSalesRecorded => "pos-messages-no-sales-recorded"@,
        }
    }

    /// Key of the message shown to the operator for this error.
    pub fn message_key(&self) -> (key: &'static str)
        ensures
            key@ == self.message_key_spec(),
    {
        match self {
            InputError::EmptyCart => "pos-messages-cannot-process-sale-with-no-items",
            InputError::InvalidQuantity { .. } => "pos-messages-invalid-quantity-for-product",
            InputError::InvalidPrice { .. } => "pos-messages-invalid-price-for-product",
            InputError::TotalTooLarge => "pos-messages-total-too-large",
            InputError::NoSalesRecorded => "pos-messages-no-sales-recorded",
        }
    }
}

/// The error of a command.
#[derive(Debug, PartialEq, Eq)]
pub enum CommandError {
    /// The store failed; the transaction in progress was rolled back.
    Database(String),
    /// A stored document could not be decoded.
    Serde(String),
    /// An input or output operation failed.
    Io(String),
    /// The input was rejected before anything was written.
    InvalidInput(InputError),
    /// A cart item refers to a product the catalog does not hold.
    ProductNotFound { product_id: u128 },
    /// No sale with the requested identifier exists.
    SaleNotFound,
    /// No printer device is bound.
    PrinterNotConfigured,
    /// The lock that guards the printer could not be taken.
    MutexPoison,
    /// The printer failed while it was printing.
    Printer(String),
    /// The settings could not be read.
    LoadSettings,
}

/// Model of a [`CommandError`].
pub enum CommandErrorView {
    Database(Seq<char>),
    Serde(Seq<char>),
    Io(Seq<char>),
    InvalidInput(InputError),
    ProductNotFound { product_id: u128 },
    SaleNotFound,
    PrinterNotConfigured,
    MutexPoison,
    Printer(Seq<char>),
    LoadSettings,
}

impl View for CommandError {
    type V = CommandErrorView;

    open spec fn view(&self) -> CommandErrorView {
        match self {
            CommandError::Database(detail) => CommandErrorView::Database(detail@),
            CommandError::Serde(detail) => CommandErrorView::Serde(detail@),
            CommandError::Io(detail) => CommandErrorView::Io(detail@),
            CommandError::InvalidInput(fault) => CommandErrorView::InvalidInput(*fault),
            CommandError::ProductNotFound { product_id } => CommandErrorView::ProductNotFound {
                product_id: *product_id,
            },
            CommandError::SaleNotFound => CommandErrorView::SaleNotFound,
            CommandError::PrinterNotConfigured => CommandErrorView::PrinterNotConfigured,
            CommandError::MutexPoison => CommandErrorView::MutexPoison,
            CommandError::Printer(detail) => CommandErrorView::Printer(detail@),
            CommandError::LoadSettings => CommandErrorView::LoadSettings,
        }
    }
}

impl DeepView for CommandError {
    type V = CommandErrorView;

    open spec fn deep_view(&self) -> CommandErrorView {
        self@
    }
}

impl Clone for CommandError {
    fn clone(&self) -> (copy: Self)
        ensures
            copy@ == self@,
    {
        match self {
            CommandError::Database(detail) => CommandError::Database(detail.clone()),
            CommandError::Serde(detail) => CommandError::Serde(detail.clone()),
            CommandError::Io(detail) => CommandError::Io(detail.clone()),
            CommandError::InvalidInput(fault) => CommandError::InvalidInput(*fault),
            CommandError::ProductNotFound { product_id } => CommandError::ProductNotFound {
                product_id: *product_id,
            },
            CommandError::SaleNotFound => CommandError::SaleNotFound,
            CommandError::PrinterNotConfigured => CommandError::PrinterNotConfigured,
            CommandError::MutexPoison => CommandError::MutexPoison,
            CommandError::Printer(detail) => CommandError::Printer(detail.clone()),
            CommandError::LoadSettings => CommandError::LoadSettings,
        }
    }
}

/// The result of a command.
pub type CommandResult<T> = Result<T, CommandError>;

} // verus!
