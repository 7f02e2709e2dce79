//! Source rewriting for prompt-driven code injection.
//!
//! - `sanitize`: deletes code-fence markers from completion output.
//! - `prompt`: frames a user's request for the completion service.
//! - `names`: which directory entries a workspace walk prunes or reads.
//! - `locate`: picks the workspace root among the manifests a walk found.
//! - `resolve`: finds the marker call with a given key among scanned files.
//! - `splice`: writes generated code over the marker's span.

pub mod text;
pub mod sanitize;
pub mod prompt;
pub mod splice;
pub mod names;
pub mod locate;
pub mod resolve;
