//! Connection-handling core of a local identity-broker daemon.
//!
//! The daemon listens on a local interprocess socket; each connected peer
//! issues a sequence of lookup and authentication requests.  This crate
//! holds the verified core of that server: the protocol codec that turns
//! bytes into request messages and response messages back into bytes, the
//! per-connection multi-step authentication session machine, and the
//! request-dispatch rules that decide which resolver operation runs for
//! each request.  The surrounding I/O loop, the socket, and the resolver's
//! collaborators (caches, key store, identity-provider client) live outside
//! this crate and drive it through plain values.

mod codec;
mod handler;
mod hex;
mod messages;
mod resolver;
mod session;

pub use codec::ClientCodec;
pub use codec::lemma_request_encoding_injective;
pub use codec::spec_encode_request;
pub use codec::spec_encode_response;
pub use codec::u32_be_bytes;
pub use codec::u32_from_be_bytes;
pub use codec::u32_to_be_bytes;
pub use handler::CallV;
pub use handler::FacadeCall;
pub use handler::Planned;
pub use handler::PlannedV;
pub use handler::PeerCredentials;
pub use handler::admit_connection;
pub use handler::lemma_double_init_fails_closed;
pub use handler::lemma_login_success_reached_once;
pub use handler::lemma_session_isolation;
pub use handler::lemma_session_isolation_over_steps;
pub use handler::lemma_step_outside_session_rejected;
pub use handler::plan_request;
pub use handler::plan_spec;
pub use handler::sessions_after_step;
pub use handler::sessions_after_steps;
pub use handler::settle_account_authorized;
pub use handler::settle_account_lookup;
pub use handler::settle_group_lookup;
pub use messages::AuthStepOutcome;
pub use messages::OutcomeV;
pub use messages::ReqV;
pub use messages::Request;
pub use messages::RespV;
pub use messages::Response;
pub use resolver::FacadeLockV;
pub use resolver::LockEventV;
pub use resolver::Resolver;
pub use resolver::lemma_facade_mutual_exclusion;
pub use resolver::lemma_facade_operations_serialize;
pub use resolver::lock_acquire;
pub use resolver::lock_after_event;
pub use resolver::lock_can_acquire;
pub use resolver::lock_event_enabled;
pub use resolver::lock_release;
pub use resolver::lock_trace_valid;
pub use session::AuthSession;
pub use session::CredentialState;
pub use session::SessionV;
pub use session::auth_init_next;
pub use session::auth_step_next;
pub use session::settle_auth_init;
pub use session::settle_auth_step;
