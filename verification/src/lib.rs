//! An on-chain note registry: principals identified by a 32-byte public key
//! create, update and delete personally owned textual notes. Each note lives
//! in its own ledger account whose address is derived deterministically from
//! the pair (author, title), so two notes with the same pair cannot coexist.
//!
//! The verified core covers the account-derivation and authorization
//! protocol: the note record and its invariants, the program-derived address
//! binding, the three instruction handlers with their validation order, and
//! the ledger-level guarantees (no partial mutation on failure, lamport
//! refund on closure).
use vstd::prelude::*;

pub mod codec;
pub mod error;
pub mod laws;
pub mod note;
pub mod pda;
pub mod registry;
pub mod text;

pub use codec::encode_create_note;
pub use codec::encode_delete_note;
pub use codec::encode_update_note;
pub use error::ErrorCode;
pub use error::ExecError;
pub use note::Note;
pub use note::NoteView;
pub use registry::AccountView;
pub use registry::CreateNote;
pub use registry::DeleteNote;
pub use registry::NoteAccount;
pub use registry::Registry;
pub use registry::UpdateNote;
pub use text::validate_create;
pub use text::validate_content;
pub use text::is_blank;

verus! {

} // verus!
