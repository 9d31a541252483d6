//! The exact core of a point-to-point RF link budget tool.
//!
//! Everything about the model that is exact is stated and proved here:
//! modulation orders and whole bits-per-symbol, which bit-error-rate curve
//! each scheme follows, code rates and coding gains as exact rationals,
//! spectral efficiency and throughput, the dB-domain algebra of the
//! energy-ratio conversions, the link-budget chain and its margins, receiver
//! sensitivity composition, EVM in the log domain, physical constants, and
//! the tool's path classification, URL construction and command-line
//! decisions.
//!
//! What is irreducibly transcendental — evaluating a BER curve, a `log10`
//! of a bandwidth or rate, the free-space loss of a geometry — is floating
//! point, which stays in the surrounding binary; those values enter the
//! verified functions as plain milli-dB terms.

pub mod ber;
pub mod budget;
pub mod cli;
pub mod coding;
pub mod constants;
pub mod energy;
pub mod evm;
pub mod file_operations;
pub mod modulation;
pub mod sensitivity;
pub mod utils;
