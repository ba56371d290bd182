use vstd::prelude::*;

verus! {

/// Spec-level image of a resolution failure, used by contracts.
pub enum ConfigErrorView {
    /// The source document could not be read at all.
    ConfigNotFound,
    /// The document was read but holds no configuration section header.
    ConfigSectionNotFound,
    /// Two sources supplied conflicting values for the same key.
    MergeError,
    /// A field failed type coercion or required-field validation; the
    /// payload is the diagnostic message.
    ConfigError(Seq<char>),
}

/// The closed set of failures that configuration resolution can produce.
/// Every failure is terminal: resolution never retries and never falls
/// back to a partially resolved record.
#[derive(Debug, Clone, PartialEq, Eq)]
pub enum LeptosConfigError {
    /// The source document could not be read at all.
    ConfigNotFound,
    /// The document was read but holds no configuration section header.
    ConfigSectionNotFound,
    /// Two sources supplied conflicting values for the same key.
    MergeError,
    /// A field failed type coercion or required-field validation; the
    /// payload is the diagnostic message.
    ConfigError(String),
}

impl View for LeptosConfigError {
    type V = ConfigErrorView;

    open spec fn view(&self) -> ConfigErrorView {
        match self {
            LeptosConfigError::ConfigNotFound => ConfigErrorView::ConfigNotFound,
            LeptosConfigError::ConfigSectionNotFound => ConfigErrorView::ConfigSectionNotFound,
            LeptosConfigError::MergeError => ConfigErrorView::MergeError,
            LeptosConfigError::ConfigError(m) => ConfigErrorView::ConfigError(m@),
        }
    }
}

impl LeptosConfigError {
    /// A short human-readable description of the failure.
    pub fn message(&self) -> (r: String)
        ensures
            self@ matches ConfigErrorView::ConfigError(m) ==> r@ == m,
            self@ is ConfigNotFound ==> r@ == "configuration file could not be read"@,
            self@ is ConfigSectionNotFound ==> r@ == "configuration section not found in document"@,
            self@ is MergeError ==> r@
                == "conflicting values supplied for the same configuration key"@,
    {
        match self {
            LeptosConfigError::ConfigNotFound => String::from_str(
                "configuration file could not be read",
            ),
            LeptosConfigError::ConfigSectionNotFound => String::from_str(
                "configuration section not found in document",
            ),
            LeptosConfigError::MergeError => String::from_str(
                "conflicting values supplied for the same configuration key",
            ),
            LeptosConfigError::ConfigError(m) => m.clone(),
        }
    }
}

} // verus!
