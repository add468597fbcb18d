//! Transactional core of a micro-lending protocol.
//!
//! Three cooperating ledgers carry the protocol's invariants: a credit score
//! ledger (per-borrower creditworthiness, derived credit limit, blacklist), a
//! liquidity pool (pooled deposits gated to a configured loan manager), and a
//! loan manager (origination and amortization of fixed-installment loans).
//! A token ledger and an identity registry accompany them.
//!
//! Each contract's persistent state is held as an explicit value; the hosting
//! environment's caller authentication is modelled by an explicit caller
//! principal handed to every authorized operation. Every externally invoked
//! operation is all-or-nothing: it validates first and mutates only when the
//! whole operation is known to succeed.

pub mod errors;
pub mod credit_scoring;
pub mod identity_registry;
pub mod lending_pool;
pub mod loan_manager;
pub mod mock_usdc;
