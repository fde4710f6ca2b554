//! The order record: the one entity the service handles.

use vstd::prelude::*;

verus! {

/// A purchase to be taxed and totalled.
///
/// The two currency amounts travel through the service untouched by its
/// decisions, so the library stores each as the raw IEEE-754 bit pattern of
/// the wire value and never interprets it: the arithmetic on the amounts is
/// performed outside the verified core, and only the resulting pattern is
/// carried back in through [`Order::with_total`].
pub struct Order {
    pub order_id: i32,
    pub product_id: i32,
    pub quantity: i32,
    /// Bit pattern of the pre-tax amount.
    pub subtotal_bits: u32,
    pub shipping_address: String,
    pub shipping_zip: String,
    /// Bit pattern of the computed total.  Ignored on input; meaningful only
    /// in a success response, where it has been filled in by `with_total`.
    pub total_bits: u32,
}

impl Order {
    /// The order with its total overwritten and every other field unchanged.
    pub fn with_total(self, total_bits: u32) -> (r: Order)
        ensures
            r.order_id == self.order_id,
            r.product_id == self.product_id,
            r.quantity == self.quantity,
            r.subtotal_bits == self.subtotal_bits,
            r.shipping_address == self.shipping_address,
            r.shipping_zip == self.shipping_zip,
            r.total_bits == total_bits,
    {
        Order { total_bits, ..self }
    }
}

} // verus!
