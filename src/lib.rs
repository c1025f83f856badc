//! Negotiation and execution of Discreet Log Contracts: validation of contract
//! terms, the offer / accept / sign state transitions, the flat indexing of
//! adaptor signatures across outcome spaces, and settlement of a signed
//! contract.
pub mod adaptor;
pub mod contract;
pub mod contract_input;
pub mod contract_updater;
pub mod error;
pub mod external;
pub mod lemmas;
