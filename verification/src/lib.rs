//! A staking and reputation protocol for CAPTCHA providers and the client
//! applications (dapps) that consume their challenges.
//!
//! The crate is a pure state machine: every operation takes the caller's
//! identity and any value transferred with the call as explicit arguments,
//! and records the notifications it emits and the outgoing transfers it
//! requests in explicit logs on the protocol state. Moving real funds,
//! authenticating callers, and delivering notifications are the embedding
//! environment's job.

pub mod admin;
pub mod commitment;
pub mod dapp;
pub mod laws;
pub mod provider;
pub mod state;
pub mod store;
pub mod types;

pub use state::Prosopo;
pub use store::StoreMap;
pub use types::AccountId;
pub use types::Balance;
pub use types::CaptchaData;
pub use types::CaptchaSolutionCommitment;
pub use types::Dapp;
pub use types::DappCancel;
pub use types::DappFund;
pub use types::DappRegister;
pub use types::DappUpdate;
pub use types::DappUserCommit;
pub use types::Dispute;
pub use types::DisputeType;
pub use types::HashValue;
pub use types::Payee;
pub use types::ProsopoError;
pub use types::ProsopoEvent;
pub use types::Provider;
pub use types::ProviderAddDataset;
pub use types::ProviderApprove;
pub use types::ProviderDeregister;
pub use types::ProviderDisapprove;
pub use types::ProviderRegister;
pub use types::ProviderStake;
pub use types::ProviderUnstake;
pub use types::ProviderUpdate;
pub use types::Status;
pub use types::TransferOut;
pub use types::User;
