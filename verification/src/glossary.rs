//! Normalizing ad-hoc glossary entry input into a canonical delimited table.
//!
//! Input arrives in one of three shapes, chosen in this order: a file already
//! in delimited form; piped text already in delimited form (requested by a
//! leading dash in the inline value); or an inline list of `SRC=TRG` pairs
//! separated by commas. Inline pairs are reformatted into comma-separated
//! rows, one per line; a pair whose segment does not contain exactly one `=`
//! is malformed and is silently skipped — a deliberate leniency of this
//! convenience format, not a general policy.

use vstd::prelude::*;
use vstd::string::StrSliceExecFns;
use vstd::string::StringExecFns;

use crate::errors::ConfigError;
use crate::lang::is_language_code;
use crate::lang::language_code_recognized;
use crate::args::GlosNew;
use crate::strutil::split;
use crate::strutil::split_on;
use crate::strutil::trim;
use crate::strutil::trim_spec;

verus! {

/// One glossary entry: a source term and the term that should replace it.
pub struct GlossaryPair {
    pub source: String,
    pub target: String,
}

impl GlossaryPair {
    /// The mathematical value of this pair.
    pub open spec fn view_pair(self) -> (Seq<char>, Seq<char>) {
        (self.source@, self.target@)
    }
}

/// The mathematical value of a sequence of pairs.
pub open spec fn pairs_view(rows: Seq<GlossaryPair>) -> Seq<(Seq<char>, Seq<char>)> {
    rows.map_values(|p: GlossaryPair| p.view_pair())
}

/// The entry one comma-segment yields: its two `=`-separated fields, each
/// whitespace-trimmed — or nothing, when the segment does not have exactly
/// one `=`.
pub open spec fn segment_pair(seg: Seq<char>) -> Option<(Seq<char>, Seq<char>)> {
    let fields = split_on(seg, '=');
    if fields.len() == 2 {
        Some((trim_spec(fields[0]), trim_spec(fields[1])))
    } else {
        None
    }
}

/// The entries a sequence of comma-segments yields, malformed segments
/// skipped.
pub open spec fn rows_of_segments(segs: Seq<Seq<char>>) -> Seq<(Seq<char>, Seq<char>)>
    decreases segs.len(),
{
    if segs.len() == 0 {
        Seq::empty()
    } else {
        let rest = rows_of_segments(segs.drop_first());
        match segment_pair(segs[0]) {
            Some(p) => seq![p].add(rest),
            None => rest,
        }
    }
}

/// The entries an inline `SRC=TRG, SRC=TRG, ...` string yields.
pub open spec fn inline_rows(raw: Seq<char>) -> Seq<(Seq<char>, Seq<char>)> {
    rows_of_segments(split_on(raw, ','))
}

/// The canonical comma-separated rendering: one `source,target` row per
/// entry, each row ended by a newline.
pub open spec fn render_rows(rows: Seq<(Seq<char>, Seq<char>)>) -> Seq<char>
    decreases rows.len(),
{
    if rows.len() == 0 {
        Seq::empty()
    } else {
        rows[0].0.add(seq![',']).add(rows[0].1).add(seq!['\n']).add(
            render_rows(rows.drop_first()),
        )
    }
}

/// Appending one segment appends its entry, if it has one.
proof fn lemma_rows_of_segments_snoc(segs: Seq<Seq<char>>, seg: Seq<char>)
    ensures
        rows_of_segments(segs.push(seg)) == (match segment_pair(seg) {
            Some(p) => rows_of_segments(segs).push(p),
            None => rows_of_segments(segs),
        }),
    decreases segs.len(),
{
    let whole = segs.push(seg);
    if segs.len() == 0 {
        assert(whole.drop_first() =~= Seq::<Seq<char>>::empty());
        assert(rows_of_segments(Seq::<Seq<char>>::empty()) == Seq::<(Seq<char>, Seq<char>)>::empty());
        assert(whole[0] == seg);
        match segment_pair(seg) {
            Some(p) => {
                assert(rows_of_segments(whole) =~= rows_of_segments(segs).push(p));
            },
            None => {
                assert(rows_of_segments(whole) =~= rows_of_segments(segs));
            },
        }
    } else {
        assert(whole.drop_first() =~= segs.drop_first().push(seg));
        lemma_rows_of_segments_snoc(segs.drop_first(), seg);
        assert(whole[0] == segs[0]);
        match segment_pair(seg) {
            Some(p) => {
                assert(rows_of_segments(whole) =~= rows_of_segments(segs).push(p));
            },
            None => {
                assert(rows_of_segments(whole) =~= rows_of_segments(segs));
            },
        }
    }
}

/// Appending one entry appends its rendering.
proof fn lemma_render_rows_snoc(rows: Seq<(Seq<char>, Seq<char>)>, p: (Seq<char>, Seq<char>))
    ensures
        render_rows(rows.push(p)) == render_rows(rows).add(p.0).add(seq![',']).add(p.1).add(
            seq!['\n'],
        ),
    decreases rows.len(),
{
    let whole = rows.push(p);
    if rows.len() == 0 {
        assert(whole.drop_first() =~= Seq::<(Seq<char>, Seq<char>)>::empty());
        assert(render_rows(Seq::<(Seq<char>, Seq<char>)>::empty()) == Seq::<char>::empty());
        assert(whole[0] == p);
        assert(render_rows(whole) =~= render_rows(rows).add(p.0).add(seq![',']).add(p.1).add(
            seq!['\n'],
        ));
    } else {
        assert(whole.drop_first() =~= rows.drop_first().push(p));
        lemma_render_rows_snoc(rows.drop_first(), p);
        assert(whole[0] == rows[0]);
        assert(render_rows(whole) =~= render_rows(rows).add(p.0).add(seq![',']).add(p.1).add(
            seq!['\n'],
        ));
    }
}

/// Parse an inline `SRC=TRG, SRC=TRG, ...` string into its entries. Fields
/// are whitespace-trimmed; malformed segments yield no entry.
pub fn parse_inline_entries(raw: &str) -> (rows: Vec<GlossaryPair>)
    ensures
        pairs_view(rows@) == inline_rows(raw@),
{
    let segments = split(raw, ',');
    let mut rows: Vec<GlossaryPair> = Vec::new();
    let ghost segs = segments.deep_view();
    let mut i: usize = 0;
    proof {
        assert(segs.take(0) =~= Seq::<Seq<char>>::empty());
        assert(pairs_view(rows@) =~= rows_of_segments(segs.take(0)));
    }
    while i < segments.len()
        invariant
            i <= segments.len(),
            segs == segments.deep_view(),
            pairs_view(rows@) == rows_of_segments(segs.take(i as int)),
        decreases segments.len() - i,
    {
        let fields = split(segments[i].as_str(), '=');
        proof {
            assert(segments[i as int]@ == segs[i as int]);
            assert(segs.take(i + 1) =~= segs.take(i as int).push(segs[i as int]));
            lemma_rows_of_segments_snoc(segs.take(i as int), segs[i as int]);
        }
        if fields.len() == 2 {
            let source = trim(fields[0].as_str());
            let target = trim(fields[1].as_str());
            proof {
                assert(fields.deep_view()[0] == fields[0 as int]@);
                assert(fields.deep_view()[1] == fields[1 as int]@);
            }
            let ghost old_rows = rows@;
            rows.push(GlossaryPair { source, target });
            proof {
                assert(pairs_view(rows@) =~= pairs_view(old_rows).push(
                    rows@[rows@.len() - 1].view_pair(),
                ));
            }
        }
        i = i + 1;
    }
    proof {
        assert(segs.take(segments.len() as int) =~= segs);
    }
    rows
}

/// Render entries as the canonical comma-separated table.
pub fn render_table(rows: &Vec<GlossaryPair>) -> (r: String)
    ensures
        r@ == render_rows(pairs_view(rows@)),
{
    let mut out = String::new();
    let mut i: usize = 0;
    proof {
        assert(pairs_view(rows@).take(0) =~= Seq::<(Seq<char>, Seq<char>)>::empty());
    }
    while i < rows.len()
        invariant
            i <= rows.len(),
            out@ == render_rows(pairs_view(rows@).take(i as int)),
        decreases rows.len() - i,
    {
        proof {
            reveal_strlit(",");
            reveal_strlit("\n");
            assert(","@ =~= seq![',']);
            assert("\n"@ =~= seq!['\n']);
            assert(pairs_view(rows@).take(i + 1) =~= pairs_view(rows@).take(i as int).push(
                pairs_view(rows@)[i as int],
            ));
            lemma_render_rows_snoc(pairs_view(rows@).take(i as int), pairs_view(rows@)[i as int]);
        }
        out.append(rows[i].source.as_str());
        out.append(",");
        out.append(rows[i].target.as_str());
        out.append("\n");
        i = i + 1;
    }
    proof {
        assert(pairs_view(rows@).take(rows@.len() as int) =~= pairs_view(rows@));
    }
    out
}

/// How the table's content is delimited.
#[derive(Clone, Copy, Debug, PartialEq, Eq, Structural)]
pub enum EntriesFormat {
    /// Comma-separated rows.
    Csv,
    /// Tab-separated rows.
    Tsv,
}

/// A canonical glossary entry table: delimited content, and how it is
/// delimited.
pub struct GlossaryEntryTable {
    pub content: String,
    pub format: EntriesFormat,
}

/// Where the glossary entries come from.
pub enum EntrySource {
    /// The whole content of the file at this path, trusted to already be in
    /// canonical delimited form.
    FromFile(String),
    /// Standard input, consumed fully, trusted to already be in canonical
    /// delimited form.
    FromStdin,
    /// This inline `SRC=TRG, SRC=TRG, ...` string.
    InlinePairs(String),
}

/// Whether an inline entries value asks for standard input instead: the
/// reserved leading marker character.
pub open spec fn starts_dash(s: Seq<char>) -> bool {
    s.len() > 0 && s[0] == '-'
}

/// The source the caller's parameters select, in precedence order: file,
/// then inline entries (which a leading dash redirects to standard input) —
/// or the error when neither is given.
pub open spec fn spec_resolve(file: Option<String>, entries: Option<String>) -> Result<
    EntrySource,
    ConfigError,
> {
    match file {
        Some(p) => Ok(EntrySource::FromFile(p)),
        None => match entries {
            None => Err(ConfigError::MissingGlossaryEntries),
            Some(e) => if starts_dash(e@) {
                Ok(EntrySource::FromStdin)
            } else {
                Ok(EntrySource::InlinePairs(e))
            },
        },
    }
}

/// Select the entry source from the caller's parameters.
pub fn resolve_entry_input(file: Option<String>, entries: Option<String>) -> (r: Result<
    EntrySource,
    ConfigError,
>)
    ensures
        r == spec_resolve(file, entries),
{
    match file {
        Some(p) => Ok(EntrySource::FromFile(p)),
        None => match entries {
            None => Err(ConfigError::MissingGlossaryEntries),
            Some(e) => {
                if e.as_str().unicode_len() > 0 && e.as_str().get_char(0) == '-' {
                    Ok(EntrySource::FromStdin)
                } else {
                    Ok(EntrySource::InlinePairs(e))
                }
            },
        },
    }
}

/// Build the table from content that is already in delimited form (a file or
/// standard input). The caller may ask for the tab-separated interpretation.
pub fn normalize_preformatted(content: String, tsv: bool) -> (t: GlossaryEntryTable)
    ensures
        t.content == content,
        t.format == (if tsv {
            EntriesFormat::Tsv
        } else {
            EntriesFormat::Csv
        }),
{
    GlossaryEntryTable {
        content,
        format: if tsv {
            EntriesFormat::Tsv
        } else {
            EntriesFormat::Csv
        },
    }
}

/// Build the table from inline pairs. The result is always comma-separated:
/// inline pairs have no delimiter ambiguity for a tab-separated request to
/// resolve, so such a request is ignored.
pub fn normalize_inline(raw: &str, tsv_requested: bool) -> (t: GlossaryEntryTable)
    ensures
        t.content@ == render_rows(inline_rows(raw@)),
        t.format == EntriesFormat::Csv,
{
    let rows = parse_inline_entries(raw);
    let content = render_table(&rows);
    let _ = tsv_requested;
    GlossaryEntryTable { content, format: EntriesFormat::Csv }
}

/// A validated glossary-creation request: recognized language codes and a
/// resolved entry source.
pub struct GlossaryPlan {
    pub name: String,
    pub source: String,
    pub target: String,
    pub input: EntrySource,
    pub tsv: bool,
}

/// Validate a glossary-creation request: both language codes must be
/// recognized, and an entry source must be selectable. Raised errors come
/// before any network interaction.
pub fn plan_glossary(params: GlosNew) -> (r: Result<GlossaryPlan, ConfigError>)
    ensures
        !is_language_code(params.source@) ==> r == Err::<GlossaryPlan, _>(
            ConfigError::InvalidSourceLang,
        ),
        is_language_code(params.source@) && !is_language_code(params.target@) ==> r == Err::<
            GlossaryPlan,
            _,
        >(ConfigError::InvalidTargetLang),
        is_language_code(params.source@) && is_language_code(params.target@) ==> (match spec_resolve(
            params.file,
            params.entries,
        ) {
            Ok(input) => (r matches Ok(p) && p.name == params.name && p.source == params.source
                && p.target == params.target && p.tsv == params.tsv && p.input == input),
            Err(e) => r == Err::<GlossaryPlan, _>(e),
        }),
{
    if !language_code_recognized(params.source.as_str()) {
        return Err(ConfigError::InvalidSourceLang);
    }
    if !language_code_recognized(params.target.as_str()) {
        return Err(ConfigError::InvalidTargetLang);
    }
    let input = match resolve_entry_input(params.file, params.entries) {
        Ok(input) => input,
        Err(e) => {
            return Err(e);
        },
    };
    Ok(
        GlossaryPlan {
            name: params.name,
            source: params.source,
            target: params.target,
            input,
            tsv: params.tsv,
        },
    )
}

} // verus!
