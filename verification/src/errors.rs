//! Configuration errors: faults in the operator-supplied parameters that are
//! detected locally, before any network interaction.

use vstd::prelude::*;
use vstd::string::StringExecFns;

verus! {

/// A fault in the invocation's parameters. Every variant is raised by pure
/// validation code, so a run that gets one has performed no network call.
#[derive(Clone, Copy, Debug, PartialEq, Eq, Structural)]
pub enum ConfigError {
    /// A document id was given without the key that must accompany it.
    MissingDocumentKey,
    /// A fresh submission lacks the target language.
    MissingTargetLang,
    /// The target language is not a recognized language code.
    InvalidTargetLang,
    /// A fresh submission lacks the input file path.
    MissingFilePath,
    /// The source language is not a recognized language code.
    InvalidSourceLang,
    /// Glossary creation got neither a file nor inline entries.
    MissingGlossaryEntries,
}

impl ConfigError {
    /// The operator-visible description of this error.
    pub open spec fn spec_message(self) -> Seq<char> {
        match self {
            ConfigError::MissingDocumentKey => "missing required document key"@,
            ConfigError::MissingTargetLang => "missing required target language"@,
            ConfigError::InvalidTargetLang => "invalid target lang"@,
            ConfigError::MissingFilePath => "missing document file path"@,
            ConfigError::InvalidSourceLang => "invalid source lang"@,
            ConfigError::MissingGlossaryEntries => "missing required glossary entries"@,
        }
    }

    /// Render the operator-visible description.
    pub fn message(&self) -> (r: String)
        ensures
            r@ == self.spec_message(),
    {
        match self {
            ConfigError::MissingDocumentKey => String::from_str("missing required document key"),
            ConfigError::MissingTargetLang => String::from_str(
                "missing required target language",
            ),
            ConfigError::InvalidTargetLang => String::from_str("invalid target lang"),
            ConfigError::MissingFilePath => String::from_str("missing document file path"),
            ConfigError::InvalidSourceLang => String::from_str("invalid source lang"),
            ConfigError::MissingGlossaryEntries => String::from_str(
                "missing required glossary entries",
            ),
        }
    }
}

} // verus!
