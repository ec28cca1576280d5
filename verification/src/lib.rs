//! Fluent assertions over the captured result of a finished subprocess: exit
//! status, exit code, and the stdout/stderr byte streams, checked through a
//! small predicate capability with renderable failure explanations.
pub mod assertion;
pub mod code_pred;
pub mod output_pred;
pub mod process_result;
pub mod render;
pub mod tree;

pub use assertion::Assert;
pub use assertion::CheckFailure;
pub use assertion::FailureKind;
pub use code_pred::EqCodePredicate;
pub use code_pred::InCodePredicate;
pub use code_pred::IntoCodePredicate;
pub use output_pred::BytesContentOutputPredicate;
pub use output_pred::IntoOutputPredicate;
pub use output_pred::StrContentOutputPredicate;
pub use output_pred::StrOutputPredicate;
pub use process_result::ProcessResult;
