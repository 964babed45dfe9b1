//! Text search: a regular-expression search with context lines over one
//! file's content, and the accumulation of per-file results into one
//! directory-wide answer under a coarse size budget — each matching file
//! earns one per-file budget unit, whatever it actually produced.
//! Walking the tree and reading the files is the caller's job.

use vstd::prelude::*;
use vstd::utf8::encode_utf8;
use crate::numeric::digits_val;
use crate::numeric::parse_usize;
use crate::numeric::parses_as_usize;
use crate::numeric::unsigned_body;

verus! {

/// The most output one searched file may contribute (10 MB).
pub const SINGLE_PAGE_LIMIT: usize = 10485760;

/// Why a search failed.
#[derive(Clone, Copy, Debug, PartialEq, Eq, Structural)]
pub enum SearchError {
    /// The pattern is not a valid regular expression, or a context
    /// count is not a number.
    Pattern,
    /// The produced text went over the size budget.
    SizeLimit,
    /// The search machinery failed or produced undecodable output.
    Search,
}

/// What a search hands back: the pattern, the produced text, and the
/// path it was run over.
pub struct SearchRender {
    pub search: String,
    pub content: String,
    pub file_path: String,
}

impl SearchRender {
    pub fn new(content: String, file_path: String, search: String) -> (r: SearchRender)
        ensures
            r.content == content,
            r.file_path == file_path,
            r.search == search,
    {
        SearchRender { search, content, file_path }
    }
}

/// True when the pattern compiles as a regular expression under the
/// given case sensitivity: what grep-regex's builder accepts.
pub uninterp spec fn regex_builds(pattern: Seq<char>, case_insensitive: bool) -> bool;

/// The text grep's searcher and standard printer produce for this
/// content, pattern, context line counts and case sensitivity: a
/// function of these arguments alone.
pub uninterp spec fn grep_output(
    content: Seq<u8>,
    pattern: Seq<char>,
    before: int,
    after: int,
    case_insensitive: bool,
) -> Seq<char>;

/// True when the search pipeline runs through for these arguments once
/// the pattern has compiled. Its failure modes are functions of the
/// arguments too: the matcher cannot fail, the printer writes to plain
/// memory, and the one real hazard — printed bytes that are not valid
/// UTF-8 — is decided by the content searched.
pub uninterp spec fn grep_output_ok(
    content: Seq<u8>,
    pattern: Seq<char>,
    before: int,
    after: int,
    case_insensitive: bool,
) -> bool;

/// Relies on grep: RegexMatcherBuilder::build compiles the pattern (its
/// failure is the pattern error, and it is the only source of one),
/// SearcherBuilder::build configures multi-line mode and the two context
/// counts, Searcher::search_slice runs the search, and the standard
/// no-color printer collects the output. The call succeeds exactly when
/// the pattern compiles and the pipeline runs through, both functions of
/// the arguments, named `regex_builds` and `grep_output_ok`; the text it
/// then yields is the named `grep_output`. The matcher, searcher and
/// printer never leave this call. A String never holds more bytes than
/// the machine word counts.
#[verifier::external_body]
fn grep_search_slice(
    content: &[u8],
    pattern: &str,
    before: usize,
    after: usize,
    case_insensitive: bool,
) -> (r: Result<String, SearchError>)
    ensures
        r matches Err(e) ==> e != SearchError::SizeLimit && (e == SearchError::Pattern
            <==> !regex_builds(pattern@, case_insensitive)) && (e == SearchError::Search
            ==> !grep_output_ok(content@, pattern@, before as int, after as int, case_insensitive)),
        r matches Ok(s) ==> regex_builds(pattern@, case_insensitive) && grep_output_ok(
            content@,
            pattern@,
            before as int,
            after as int,
            case_insensitive,
        ) && s@ == grep_output(
            content@,
            pattern@,
            before as int,
            after as int,
            case_insensitive,
        ) && encode_utf8(s@).len() <= usize::MAX,
{
    let mut mb = grep::regex::RegexMatcherBuilder::new();
    mb.case_insensitive(case_insensitive);
    let matcher = match mb.build(pattern) { Ok(m) => m, Err(_) => return Err(SearchError::Pattern) };
    let mut printer = grep::printer::Standard::new_no_color(Vec::new());
    let mut sb = grep::searcher::SearcherBuilder::new();
    sb.multi_line(true).before_context(before).after_context(after);
    let mut searcher = sb.build();
    if searcher.search_slice(&matcher, content, printer.sink(&matcher)).is_err() {
        return Err(SearchError::Search);
    }
    match String::from_utf8(printer.into_inner().into_inner()) {
        Ok(s) => Ok(s),
        Err(_) => Err(SearchError::Search),
    }
}

/// Searches one file's content: the context counts are parsed (a
/// non-number is a pattern error, as is a pattern that does not
/// compile), the pattern is run with those contexts, and output over
/// the per-file limit is rejected as too large. When the counts parse,
/// the pattern compiles, the pipeline runs through and the output fits
/// the limit, the search succeeds with that output.
pub fn get_search_render(
    content: &[u8],
    file_path: String,
    search: &str,
    before: &str,
    after: &str,
    case_insensitive: bool,
) -> (r: Result<SearchRender, SearchError>)
    ensures
        match r {
            Ok(sr) => {
                &&& parses_as_usize(before@) && parses_as_usize(after@)
                &&& regex_builds(search@, case_insensitive)
                &&& grep_output_ok(
                    content@,
                    search@,
                    digits_val(unsigned_body(before@)),
                    digits_val(unsigned_body(after@)),
                    case_insensitive,
                )
                &&& sr.search@ == search@
                &&& sr.file_path == file_path
                &&& sr.content@ == grep_output(
                    content@,
                    search@,
                    digits_val(unsigned_body(before@)),
                    digits_val(unsigned_body(after@)),
                    case_insensitive,
                )
                &&& encode_utf8(sr.content@).len() <= SINGLE_PAGE_LIMIT
            },
            Err(e) => match e {
                SearchError::Pattern => !parses_as_usize(before@) || !parses_as_usize(after@)
                    || !regex_builds(search@, case_insensitive),
                SearchError::SizeLimit => parses_as_usize(before@) && parses_as_usize(after@)
                    && regex_builds(search@, case_insensitive) && grep_output_ok(
                    content@,
                    search@,
                    digits_val(unsigned_body(before@)),
                    digits_val(unsigned_body(after@)),
                    case_insensitive,
                ) && encode_utf8(
                    grep_output(
                        content@,
                        search@,
                        digits_val(unsigned_body(before@)),
                        digits_val(unsigned_body(after@)),
                        case_insensitive,
                    ),
                ).len() > SINGLE_PAGE_LIMIT,
                SearchError::Search => parses_as_usize(before@) && parses_as_usize(after@)
                    && regex_builds(search@, case_insensitive) && !grep_output_ok(
                    content@,
                    search@,
                    digits_val(unsigned_body(before@)),
                    digits_val(unsigned_body(after@)),
                    case_insensitive,
                ),
            },
        },
{
    let before_num = match parse_usize(before) {
        Some(v) => v,
        None => {
            return Err(SearchError::Pattern);
        },
    };
    let after_num = match parse_usize(after) {
        Some(v) => v,
        None => {
            return Err(SearchError::Pattern);
        },
    };
    let out = match grep_search_slice(content, search, before_num, after_num, case_insensitive) {
        Ok(s) => s,
        Err(e) => {
            return Err(e);
        },
    };
    if out.as_str().len() > SINGLE_PAGE_LIMIT {
        return Err(SearchError::SizeLimit);
    }
    Ok(SearchRender::new(out, file_path, String::from_str(search)))
}

/// The header-and-content block one matching file contributes: blank
/// lines, the file's display path, a blank line, its matched text.
pub open spec fn file_block(rel_path: Seq<char>, text: Seq<char>) -> Seq<char> {
    "\r\n\r\n\r\n\r\n"@ + rel_path + "\r\n\r\n"@ + text
}

/// Accumulates the per-file results of a directory search while the
/// caller walks the tree, charging the size budget one per-file unit
/// for each file that matched.
pub struct SearchCollector {
    /// The concatenated result text so far.
    pub content: String,
    /// How many files contributed a non-empty result.
    pub matched_files: usize,
}

impl SearchCollector {
    /// An empty collection: nothing matched yet, no budget earned.
    pub fn new() -> (r: SearchCollector)
        ensures
            r.content@ == Seq::<char>::empty(),
            r.matched_files == 0,
    {
        SearchCollector { content: String::new(), matched_files: 0 }
    }

    /// Folds one file's search result in: an empty result is dropped; a
    /// non-empty one appends its block under the file's display path
    /// and earns one budget unit.
    pub fn add_file(&mut self, rel_path: &str, text: &str)
        requires
            old(self).matched_files < usize::MAX,
        ensures
            text@.len() == 0 ==> *final(self) == *old(self),
            text@.len() > 0 ==> {
                &&& final(self).content@ == old(self).content@ + file_block(rel_path@, text@)
                &&& final(self).matched_files == old(self).matched_files + 1
            },
    {
        if !text.is_empty() {
            self.content.append("\r\n\r\n\r\n\r\n");
            self.content.append(rel_path);
            self.content.append("\r\n\r\n");
            self.content.append(text);
            self.matched_files = self.matched_files + 1;
            proof {
                assert(final(self).content@ =~= old(self).content@ + file_block(
                    rel_path@,
                    text@,
                ));
            }
        }
    }

    /// Folds one file's whole search outcome in, deciding what a
    /// directory walk does with it: a success contributes its text (an
    /// empty one is dropped); a pattern error ends the entire search,
    /// since the pattern is the same for every file; any other per-file
    /// failure only skips that file, so one unreadable or oversized
    /// file does not poison the rest of the tree.
    pub fn add_result(&mut self, rel_path: &str, result: Result<SearchRender, SearchError>) -> (r:
        Result<(), SearchError>)
        requires
            old(self).matched_files < usize::MAX,
        ensures
            match result {
                Ok(sr) => {
                    &&& r is Ok
                    &&& sr.content@.len() == 0 ==> *final(self) == *old(self)
                    &&& sr.content@.len() > 0 ==> final(self).content@ == old(self).content@
                        + file_block(rel_path@, sr.content@) && final(self).matched_files == old(
                        self,
                    ).matched_files + 1
                },
                Err(e) => {
                    &&& *final(self) == *old(self)
                    &&& e == SearchError::Pattern ==> r == Err::<(), SearchError>(
                        SearchError::Pattern,
                    )
                    &&& e != SearchError::Pattern ==> r is Ok
                },
            },
    {
        match result {
            Ok(sr) => {
                self.add_file(rel_path, sr.content.as_str());
                Ok(())
            },
            Err(SearchError::Pattern) => Err(SearchError::Pattern),
            Err(_) => Ok(()),
        }
    }

    /// Ends a directory search: the accumulated text must fit the
    /// earned budget, one per-file unit for each matching file, else
    /// the whole search is rejected as too large. (A really assembled
    /// text always satisfies the stated byte-length bound: a String
    /// never holds more bytes than the machine word counts.)
    pub fn finish(self, file_path: String, search: String) -> (r: Result<
        SearchRender,
        SearchError,
    >)
        requires
            encode_utf8(self.content@).len() <= usize::MAX,
        ensures
            match r {
                Ok(sr) => {
                    &&& sr.content == self.content
                    &&& sr.file_path == file_path
                    &&& sr.search == search
                    &&& encode_utf8(self.content@).len() <= self.matched_files
                        * SINGLE_PAGE_LIMIT
                },
                Err(e) => {
                    &&& e == SearchError::SizeLimit
                    &&& encode_utf8(self.content@).len() > self.matched_files
                        * SINGLE_PAGE_LIMIT
                },
            },
    {
        let used: u128 = self.content.as_str().len() as u128;
        let budget: u128 = (self.matched_files as u128) * (SINGLE_PAGE_LIMIT as u128);
        proof {
            assert(self.matched_files as int * (SINGLE_PAGE_LIMIT as int) < u128::MAX as int)
                by (nonlinear_arith)
                requires
                    self.matched_files <= u64::MAX,
            ;
        }
        if used > budget {
            Err(SearchError::SizeLimit)
        } else {
            Ok(SearchRender::new(self.content, file_path, search))
        }
    }
}

} // verus!
