//! Transactional core of a point-of-sale terminal.
//!
//! A cart becomes a recorded sale and printed tickets in two steps that must
//! stay consistent when the store or the printer fails: the sale and its
//! lines are written in one transaction, and only a committed sale is
//! printed. A printer that fails never undoes a sale.
//!
//! The library decides and its host acts. Every part that touches the store,
//! the settings or the printer is a machine that hands out one
//! [`protocol::Request`] at a time and continues with the host's
//! [`protocol::Reply`]:
//!
//! - [`cart`] validates a cart and computes its total;
//! - [`sale`] is the sale transaction, with the laws that it is atomic and
//!   that a committed sale carries the total of its cart;
//! - [`printing`] composes the printer operations of a sale's tickets from
//!   a [`layout`], one ticket per unit sold or one per category;
//! - [`dispatch`] prints a sale: layout, composition, printer, operations
//!   in order until the first failure;
//! - [`pipeline`] joins the two for a sale, and reprints a stored sale;
//! - [`store`] is the model of the store that the laws are stated against.
//!
//! Amounts are whole numbers of the smallest currency unit. Identifiers are
//! 128-bit values, written as UUIDs.

pub mod cart;
pub mod dispatch;
pub mod errors;
pub mod identity;
pub mod layout;
pub mod models;
pub mod pipeline;
pub mod printing;
pub mod protocol;
pub mod sale;
pub mod stamp;
pub mod store;
pub mod views;
