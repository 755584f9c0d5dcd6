//! Basic economics: the discrete decisions behind discounted-cashflow
//! analysis and consumer theory, verified with Verus.
//!
//! The numeric work itself (present values, utilities, bisection and the
//! log-barrier optimiser) runs on floating point and lives outside this
//! crate; what is here is the part of each procedure that decides which
//! steps are taken, which points are examined and which requests are refused.
pub mod bridge;
pub mod cashflow;
pub mod consumer;
