//! Fee arithmetic and the pricing curves.

pub mod calculator;
pub mod constant_price;
pub mod constant_product;
pub mod fees;
pub mod offset;
pub mod precise;
