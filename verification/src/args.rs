//! Plain data types describing one invocation of the client: the chosen
//! command and its options. The surrounding application fills these in from
//! the command line; the library validates them and drives the work.

use vstd::prelude::*;

verus! {

/// One full invocation: the command to run.
pub struct Args {
    pub cmd: Cmd,
}

/// The commands the client offers.
pub enum Cmd {
    /// Report account usage and limits.
    Usage,
    /// Translate text.
    Text(TxtOpt),
    /// Translate a document.
    Document(DocOpt),
    /// List available source and target languages.
    Languages,
    /// Create, inspect, and remove glossaries.
    Glossary(GlosSub),
}

/// Options of the text-translation command.
pub struct TxtOpt {
    /// Source language code.
    pub source: Option<String>,
    /// Target language code (required).
    pub target: String,
    /// Sentence-splitting behaviour.
    pub split_sentences: Option<String>,
    /// Text to translate; when absent, standard input is read.
    pub text: Option<String>,
    /// Show the detected source language.
    pub show_detected: bool,
    /// Preserve formatting.
    pub preserve_formatting: bool,
    /// Formality preference.
    pub formality: Option<String>,
    /// Glossary id to use for translation.
    pub glossary: Option<String>,
    /// Translate newline-separated text of variable source language.
    pub multi_lang: bool,
    /// Tag handling mode.
    pub tag_handling: Option<String>,
    /// Turn off automatic outline detection.
    pub no_outline_detection: bool,
    /// Tags which always split sentences, as a comma-separated list.
    pub splitting_tags: Option<String>,
    /// Tags which never split sentences.
    pub non_splitting_tags: Option<String>,
    /// Tags marking text not to be translated.
    pub ignore_tags: Option<String>,
}

/// Options of the document-translation command.
pub struct DocOpt {
    /// Source language code.
    pub source: Option<String>,
    /// Target language code (required for upload).
    pub target: Option<String>,
    /// Path of the input file (required for upload).
    pub file: Option<String>,
    /// Display name for the uploaded document.
    pub filename: Option<String>,
    /// Path of the output file.
    pub out_file: Option<String>,
    /// Formality preference.
    pub formality: Option<String>,
    /// Glossary id.
    pub glossary: Option<String>,
    /// Document id: skip upload and poll an existing document.
    pub doc_id: Option<String>,
    /// Document key (required if a document id is given).
    pub key: Option<String>,
}

/// The glossary subcommand.
pub struct GlosSub {
    pub cmd: Glos,
}

/// The glossary operations.
pub enum Glos {
    /// Create a new glossary.
    Create(GlosNew),
    /// List supported glossary language pairs.
    Pairs,
    /// List available glossaries.
    List,
    /// Fetch glossary metadata.
    Get(GlosGet),
    /// Retrieve the entries of a glossary.
    Entries(GlosEntry),
    /// Delete a glossary.
    Delete(GlosDel),
}

/// Options of glossary creation.
pub struct GlosNew {
    /// Name of the new glossary.
    pub name: String,
    /// Source language code.
    pub source: String,
    /// Target language code.
    pub target: String,
    /// Path of an input file holding source/target pairs, one per line.
    pub file: Option<String>,
    /// Interpret file or piped input as tab-separated rather than
    /// comma-separated.
    pub tsv: bool,
    /// Inline entries, written "SRC=TRG, SRC=TRG, ...". Ignored when a file
    /// is given. A leading dash means: read the entries from standard input.
    pub entries: Option<String>,
}

/// Selects a glossary by id.
pub struct GlosGet {
    pub id: String,
}

/// Selects a glossary by id.
pub struct GlosEntry {
    pub id: String,
}

/// Selects a glossary by id.
pub struct GlosDel {
    pub id: String,
}

} // verus!
