//! Parameter handling and model assembly of the PeTS fluid model (a truncated and
//! shifted Lennard-Jones fluid): the combining-rule engine that derives the pair
//! matrices from per-component parameters, the all-or-nothing rule for transport
//! coefficients, restriction to a subset of the components, and the choice of
//! Helmholtz-energy contributions. Everything is generic over the number type.
pub mod assembly;
pub mod mixing;
pub mod parameters;
pub mod selection;
pub mod transport;
