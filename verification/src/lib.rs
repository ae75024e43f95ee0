//! A minimal brokerage-ledger core: bearer-credential issue/verify and the
//! authorized read/write path for immutable stock transactions.
//!
//! The library is the decision kernel of the service. It owns the token
//! authority (minting and checking bearer credentials), the authorization of
//! each request from its header, and the construction and validation of
//! every record that crosses the store boundary. The store itself, the
//! clock and the HTTP surface are external collaborators: they hand this
//! library plain values and receive plain values back.

pub mod auth;
pub mod gateway;
pub mod ids;
pub mod models;
