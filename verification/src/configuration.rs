//! Turning a sparse map of option overrides into a complete configuration.

pub mod assembly;
pub mod builder;
pub mod laws;
pub mod number;
pub mod option_map;
pub mod preset;
pub mod resolve_config;
pub mod schema;
pub mod setting;
pub mod text;
pub mod types;

pub use builder::ConfigurationBuilder;
pub use resolve_config::resolve_config;
pub use types::BracePosition;
pub use types::Configuration;
pub use types::ConfigurationDiagnostic;
pub use types::ForceMultiLine;
pub use types::GlobalConfiguration;
pub use types::JsxMultiLineParens;
pub use types::JsxQuoteStyle;
pub use types::MemberSpacing;
pub use types::NamedTypeImportsExportsOrder;
pub use types::NewLineKind;
pub use types::NextControlFlowPosition;
pub use types::OperatorPosition;
pub use types::PreferHanging;
pub use types::QuoteProps;
pub use types::QuoteStyle;
pub use types::ResolveConfigurationResult;
pub use types::SameOrNextLinePosition;
pub use types::SemiColonOrComma;
pub use types::SemiColons;
pub use types::SortOrder;
pub use types::TrailingCommas;
pub use types::UseBraces;
pub use types::UseParentheses;
