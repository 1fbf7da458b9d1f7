//! Per-group aggregation core of a columnar query engine.
//!
//! The crate provides a compact per-group aggregation buffer ([`agg_buf::AggBuf`])
//! addressed through precomputed, opaque slot addresses ([`agg_buf::Addr`],
//! built once per plan by [`layout`]), a type-specialized dispatch that resolves
//! the update and merge strategy for a column's physical type once per plan
//! ([`max::get_partial_updater`], [`max::get_partial_buf_merger`]), a MAX
//! accumulator over every supported physical type ([`max::AggMax`]), and the
//! unscaled-value extraction of fixed-point decimals ([`unscaled`]).
//!
//! Column batches and scalars are plain values of this crate ([`column::Column`],
//! [`value::ScalarVal`]); the surrounding engine converts its own columnar
//! representation into them at the boundary.

pub mod agg_buf;
pub mod column;
pub mod fixed_bytes;
pub mod layout;
pub mod lex;
pub mod max;
pub mod model;
pub mod unscaled;
pub mod value;
