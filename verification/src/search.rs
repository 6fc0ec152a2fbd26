//! Search over the sources of all projects: from the messages of the search
//! tool to the matches with the lines around them.

use vstd::prelude::*;
use crate::edit::{trim, trim_end, trimmed, trimmed_end};
use crate::groups::holds_text;
use crate::json::{
    get_items, get_member, get_text, get_unsigned, items_of, json_document, member_in, parse_json,
    text_value, unsigned_value, JsonValue,
};
use crate::paths::{ancestors, ancestors_of, join_path, name_or, file_name_or, path_join};
use crate::seqs::{collect, lemma_collect_step, lemma_deep_vec};
use crate::split::{lines, split_lines};
use crate::text::{chars_of, lemma_chars_deep_view, same_text, string_of};

verus! {

broadcast use {lemma_deep_vec, lemma_chars_deep_view};

/// Where a match stands in its line.
#[derive(Debug, Clone, Copy, PartialEq, Eq, Structural)]
pub struct SearchMatch {
    pub start: u32,
    pub end: u32,
}

/// A line beside a match.
#[derive(Debug, Clone)]
pub struct ContextLine {
    pub line_number: u32,
    pub content: String,
}

pub struct ContextLineModel {
    pub line_number: u32,
    pub content: Seq<char>,
}

impl DeepView for ContextLine {
    type V = ContextLineModel;

    open spec fn deep_view(&self) -> ContextLineModel {
        ContextLineModel { line_number: self.line_number, content: self.content@ }
    }
}

/// A line that matches, with the lines around it.
#[derive(Debug, Clone)]
pub struct SearchResult {
    pub project_path: String,
    pub project_name: String,
    pub file_path: String,
    pub line_number: u32,
    pub line_content: String,
    pub matches: Vec<SearchMatch>,
    pub context_before: Vec<ContextLine>,
    pub context_after: Vec<ContextLine>,
}

pub struct SearchResultModel {
    pub project_path: Seq<char>,
    pub project_name: Seq<char>,
    pub file_path: Seq<char>,
    pub line_number: u32,
    pub line_content: Seq<char>,
    pub matches: Seq<SearchMatch>,
    pub context_before: Seq<ContextLineModel>,
    pub context_after: Seq<ContextLineModel>,
}

impl DeepView for SearchResult {
    type V = SearchResultModel;

    open spec fn deep_view(&self) -> SearchResultModel {
        SearchResultModel {
            project_path: self.project_path@,
            project_name: self.project_name@,
            file_path: self.file_path@,
            line_number: self.line_number,
            line_content: self.line_content@,
            matches: self.matches@,
            context_before: self.context_before.deep_view(),
            context_after: self.context_after.deep_view(),
        }
    }
}

/// The number of results that a search gives at most.
pub const MAX_RESULTS: usize = 500;

/// A query is searched for where, once the white space around it is cut, it
/// takes two bytes at least: it has two characters, or one that is not ASCII.
pub open spec fn is_searchable(query: Seq<char>) -> bool {
    let cut = trimmed(query);
    cut.len() >= 2 || (cut.len() == 1 && cut[0] as u32 >= 0x80)
}

/// Whether a query is long enough to be searched for.
pub fn query_is_searchable(query: &str) -> (r: bool)
    ensures
        r == is_searchable(query@),
{
    let cut = trim(&chars_of(query));
    cut.len() >= 2 || (cut.len() == 1 && cut[0] as u32 >= 0x80)
}

/// A number cut down to 32 bits.
pub open spec fn low_bits(n: u64) -> u32 {
    (n % 0x1_0000_0000) as u32
}

/// A number cut down to 32 bits.
pub fn low_bits_of(n: u64) -> (r: u32)
    ensures
        r == low_bits(n),
{
    (n % 0x1_0000_0000) as u32
}

/// A line that matches, as the search tool reports it.
#[derive(Debug, Clone)]
pub struct MatchLine {
    pub file_path: String,
    pub line_number: u32,
    pub line_content: String,
    pub matches: Vec<SearchMatch>,
}

pub struct MatchLineModel {
    pub file_path: Seq<char>,
    pub line_number: u32,
    pub line_content: Seq<char>,
    pub matches: Seq<SearchMatch>,
}

impl DeepView for MatchLine {
    type V = MatchLineModel;

    open spec fn deep_view(&self) -> MatchLineModel {
        MatchLineModel {
            file_path: self.file_path@,
            line_number: self.line_number,
            line_content: self.line_content@,
            matches: self.matches@,
        }
    }
}

/// A message of the search tool.
#[derive(Debug, Clone)]
pub enum SearchMessage {
    /// A line beside a match.
    Context(ContextLine),
    /// A line that matches; `None` where the message carries no data.
    Match(Option<MatchLine>),
    /// The end of a file.
    End,
    /// Anything else.
    Other,
}

pub enum SearchMessageModel {
    Context(ContextLineModel),
    Match(Option<MatchLineModel>),
    End,
    Other,
}

impl DeepView for SearchMessage {
    type V = SearchMessageModel;

    open spec fn deep_view(&self) -> SearchMessageModel {
        match self {
            SearchMessage::Context(c) => SearchMessageModel::Context(c.deep_view()),
            SearchMessage::Match(m) => SearchMessageModel::Match(m.deep_view()),
            SearchMessage::End => SearchMessageModel::End,
            SearchMessage::Other => SearchMessageModel::Other,
        }
    }
}

/// The number under a key of the data of a message, cut down to 32 bits; zero
/// where there is none.
pub open spec fn number_in(data: JsonValue, key: Seq<char>) -> u32 {
    match unsigned_value(member_in(Some(data), key)) {
        Some(n) => low_bits(n),
        None => 0,
    }
}

/// The text of the line of a message, without the white space at its end;
/// empty where there is none.
pub open spec fn line_text(data: JsonValue) -> Seq<char> {
    match text_value(member_in(member_in(Some(data), "lines"@), "text"@)) {
        Some(t) => trimmed_end(t),
        None => Seq::empty(),
    }
}

/// The path of the file of a message; empty where there is none.
pub open spec fn file_path_of(data: JsonValue) -> Seq<char> {
    match text_value(member_in(member_in(Some(data), "path"@), "text"@)) {
        Some(t) => t,
        None => Seq::empty(),
    }
}

/// Where a match stands, as an item of `submatches` says; none where it gives
/// no start or no end.
pub open spec fn submatch_of() -> spec_fn(JsonValue) -> Option<SearchMatch> {
    |m: JsonValue|
        match (
            unsigned_value(member_in(Some(m), "start"@)),
            unsigned_value(member_in(Some(m), "end"@)),
        ) {
            (Some(s), Some(e)) => Some(SearchMatch { start: low_bits(s), end: low_bits(e) }),
            _ => None,
        }
}

/// Where the matches of a line stand.
pub open spec fn submatches_of(data: JsonValue) -> Seq<SearchMatch> {
    match items_of(member_in(Some(data), "submatches"@)) {
        Some(items) => collect(items, submatch_of()),
        None => Seq::empty(),
    }
}

/// The message that a value of the tool's output is, by its `type`.
pub open spec fn message_of(doc: JsonValue) -> SearchMessageModel {
    let kind = text_value(member_in(Some(doc), "type"@));
    let data = member_in(Some(doc), "data"@);
    if kind == Some("context"@) {
        match data {
            Some(d) => SearchMessageModel::Context(
                ContextLineModel {
                    line_number: number_in(d, "line_number"@),
                    content: line_text(d),
                },
            ),
            None => SearchMessageModel::Other,
        }
    } else if kind == Some("match"@) {
        match data {
            Some(d) => SearchMessageModel::Match(
                Some(
                    MatchLineModel {
                        file_path: file_path_of(d),
                        line_number: number_in(d, "line_number"@),
                        line_content: line_text(d),
                        matches: submatches_of(d),
                    },
                ),
            ),
            None => SearchMessageModel::Match(None),
        }
    } else if kind == Some("end"@) {
        SearchMessageModel::End
    } else {
        SearchMessageModel::Other
    }
}

/// The number under a key of the data of a message.
pub fn number_at(data: &JsonValue, key: &str) -> (r: u32)
    ensures
        r == number_in(*data, key@),
{
    match get_unsigned(get_member(Some(data), key)) {
        Some(n) => low_bits_of(n),
        None => 0,
    }
}

/// The text of the line of a message.
pub fn line_text_of(data: &JsonValue) -> (r: String)
    ensures
        r@ == line_text(*data),
{
    match get_text(get_member(get_member(Some(data), "lines"), "text")) {
        Some(t) => string_of(&trim_end(&chars_of(t.as_str()))),
        None => String::new(),
    }
}

/// The path of the file of a message.
pub fn file_path_in(data: &JsonValue) -> (r: String)
    ensures
        r@ == file_path_of(*data),
{
    match get_text(get_member(get_member(Some(data), "path"), "text")) {
        Some(t) => t,
        None => String::new(),
    }
}

/// Where the matches of a line stand.
pub fn submatches_in(data: &JsonValue) -> (r: Vec<SearchMatch>)
    ensures
        r@ == submatches_of(*data),
{
    let mut out: Vec<SearchMatch> = Vec::new();
    match get_items(get_member(Some(data), "submatches")) {
        Some(items) => {
            let mut i: usize = 0;
            assert(items@.take(0) =~= Seq::<JsonValue>::empty());
            while i < items.len()
                invariant
                    i <= items.len(),
                    out@ == collect(items@.take(i as int), submatch_of()),
                decreases items.len() - i,
            {
                proof {
                    lemma_collect_step(items@, submatch_of(), i as int);
                }
                let m = &items[i];
                match (
                    get_unsigned(get_member(Some(m), "start")),
                    get_unsigned(get_member(Some(m), "end")),
                ) {
                    (Some(s), Some(e)) => {
                        out.push(SearchMatch { start: low_bits_of(s), end: low_bits_of(e) });
                    },
                    _ => {},
                }
                i += 1;
            }
            assert(items@.take(items.len() as int) =~= items@);
        },
        None => {},
    }
    out
}

/// The message that a value of the tool's output is.
pub fn search_message(doc: &JsonValue) -> (r: SearchMessage)
    ensures
        r.deep_view() == message_of(*doc),
{
    let kind = get_text(get_member(Some(doc), "type"));
    let data = get_member(Some(doc), "data");
    let word: String = match kind {
        Some(k) => k,
        None => {
            return SearchMessage::Other;
        },
    };
    if same_text(word.as_str(), "context") {
        match data {
            Some(d) => SearchMessage::Context(
                ContextLine { line_number: number_at(d, "line_number"), content: line_text_of(d) },
            ),
            None => SearchMessage::Other,
        }
    } else if same_text(word.as_str(), "match") {
        match data {
            Some(d) => SearchMessage::Match(
                Some(
                    MatchLine {
                        file_path: file_path_in(d),
                        line_number: number_at(d, "line_number"),
                        line_content: line_text_of(d),
                        matches: submatches_in(d),
                    },
                ),
            ),
            None => SearchMessage::Match(None),
        }
    } else if same_text(word.as_str(), "end") {
        SearchMessage::End
    } else {
        SearchMessage::Other
    }
}

/// The message of a line of the tool's output; none where the line is no JSON.
pub open spec fn message_in() -> spec_fn(Seq<char>) -> Option<SearchMessageModel> {
    |line: Seq<char>|
        match json_document(line) {
            Some(doc) => Some(message_of(doc)),
            None => None,
        }
}

/// The messages of the tool's output, line by line.
pub fn search_messages(output: &str) -> (r: Vec<SearchMessage>)
    ensures
        r.deep_view() == collect(lines(output@), message_in()),
{
    let all = split_lines(&chars_of(output));
    let ghost ls = lines(output@);
    let mut out: Vec<SearchMessage> = Vec::new();
    let mut i: usize = 0;
    assert(ls.take(0) =~= Seq::<Seq<char>>::empty());
    assert(out.deep_view() =~= Seq::<SearchMessageModel>::empty());
    while i < all.len()
        invariant
            i <= all.len(),
            all.deep_view() == ls,
            out.deep_view() == collect(ls.take(i as int), message_in()),
        decreases all.len() - i,
    {
        proof {
            lemma_collect_step(ls, message_in(), i as int);
            assert(ls[i as int] == all@[i as int]@);
        }
        let line = string_of(&all[i]);
        match parse_json(line.as_str()) {
            Some(doc) => {
                let ghost before = out.deep_view();
                let m = search_message(&doc);
                out.push(m);
                assert(out.deep_view() =~= before.push(m.deep_view()));
            },
            None => {},
        }
        i += 1;
    }
    assert(ls.take(all.len() as int) =~= ls);
    out
}

/// The first of the given directories whose manifest is among the existing
/// files.
pub open spec fn first_with_manifest(dirs: Seq<Seq<char>>, existing: Seq<Seq<char>>) -> Option<
    Seq<char>,
>
    decreases dirs.len(),
{
    if dirs.len() == 0 {
        None
    } else if existing.contains(path_join(dirs[0], "Cargo.toml"@)) {
        Some(dirs[0])
    } else {
        first_with_manifest(dirs.drop_first(), existing)
    }
}

/// The project of a file: the nearest directory above it that has a manifest,
/// under its own name. Where there is none, the topmost directory above the
/// file, or the file itself where nothing is above it, under no name.
pub open spec fn project_of_file(file: Seq<char>, existing: Seq<Seq<char>>) -> (
    Seq<char>,
    Seq<char>,
) {
    match first_with_manifest(ancestors(file), existing) {
        Some(dir) => (dir, name_or(dir, Seq::empty())),
        None => if ancestors(file).len() > 0 {
            (ancestors(file).last(), Seq::empty())
        } else {
            (file, Seq::empty())
        },
    }
}

/// The project of a file, given the manifests that exist above it.
pub fn locate_project(file: &str, existing: &Vec<String>) -> (r: (String, String))
    ensures
        (r.0@, r.1@) == project_of_file(file@, existing.deep_view()),
{
    let above = ancestors_of(file);
    let mut i: usize = 0;
    assert(above.deep_view().subrange(0, above.len() as int) =~= above.deep_view());
    while i < above.len()
        invariant
            i <= above.len(),
            above.deep_view() == ancestors(file@),
            first_with_manifest(ancestors(file@), existing.deep_view()) == first_with_manifest(
                above.deep_view().subrange(i as int, above.len() as int),
                existing.deep_view(),
            ),
        decreases above.len() - i,
    {
        let ghost rest = above.deep_view().subrange(i as int, above.len() as int);
        assert(rest[0] == above@[i as int]@);
        let manifest = join_path(above[i].as_str(), "Cargo.toml");
        if holds_text(existing, manifest.as_str()) {
            let name = file_name_or(above[i].as_str(), "");
            proof {
                reveal_strlit("");
                assert(""@ =~= Seq::<char>::empty());
            }
            return (above[i].clone(), name);
        }
        assert(rest.drop_first() =~= above.deep_view().subrange(i + 1, above.len() as int));
        i += 1;
    }
    if above.len() > 0 {
        assert(above.deep_view().last() == above@[above.len() - 1]@);
        (above[above.len() - 1].clone(), String::new())
    } else {
        (file.to_owned(), String::new())
    }
}

/// The lines of a list that stand before a given line.
pub open spec fn lines_before(pending: Seq<ContextLineModel>, line_number: u32) -> Seq<
    ContextLineModel,
> {
    collect(
        pending,
        |c: ContextLineModel|
            if c.line_number < line_number {
                Some(c)
            } else {
                None
            },
    )
}

/// The result that a matching line starts: the line in its project, with the
/// pending lines that stand before it.
pub open spec fn result_started(
    m: MatchLineModel,
    existing: Seq<Seq<char>>,
    pending: Seq<ContextLineModel>,
) -> SearchResultModel {
    SearchResultModel {
        project_path: project_of_file(m.file_path, existing).0,
        project_name: project_of_file(m.file_path, existing).1,
        file_path: m.file_path,
        line_number: m.line_number,
        line_content: m.line_content,
        matches: m.matches,
        context_before: lines_before(pending, m.line_number),
        context_after: Seq::empty(),
    }
}

/// How far the collection of results has come.
pub struct SearchProgress {
    /// The results that are complete.
    pub results: Seq<SearchResultModel>,
    /// The result that may still get lines after it.
    pub current: Option<SearchResultModel>,
    /// The lines that may go before the next match.
    pub pending: Seq<ContextLineModel>,
    /// Whether the largest number of results is reached.
    pub full: bool,
}

/// The progress with the current result put among the complete ones.
pub open spec fn flushed(p: SearchProgress) -> SearchProgress {
    match p.current {
        Some(m) => SearchProgress {
            results: p.results.push(m),
            current: None,
            pending: p.pending,
            full: p.results.len() + 1 >= MAX_RESULTS,
        },
        None => p,
    }
}

/// What a message makes of the progress.
///
/// A line beside a match goes behind the current result where it stands after
/// the match, and is dropped where it does not; without a current result it
/// waits for the next match. A match completes the current result and starts
/// one with the waiting lines that stand before it. The end of a file completes
/// the current result and drops the waiting lines. Once the largest number of
/// results is reached, nothing changes any more.
pub open spec fn after_message(
    p: SearchProgress,
    message: SearchMessageModel,
    existing: Seq<Seq<char>>,
) -> SearchProgress {
    if p.full {
        p
    } else {
        match message {
            SearchMessageModel::Context(c) => match p.current {
                Some(m) => if c.line_number > m.line_number {
                    SearchProgress {
                        current: Some(
                            SearchResultModel { context_after: m.context_after.push(c), ..m },
                        ),
                        ..p
                    }
                } else {
                    p
                },
                None => SearchProgress { pending: p.pending.push(c), ..p },
            },
            SearchMessageModel::Match(line) => {
                let f = flushed(p);
                if f.full {
                    f
                } else {
                    match line {
                        Some(m) => SearchProgress {
                            current: Some(result_started(m, existing, f.pending)),
                            pending: Seq::empty(),
                            ..f
                        },
                        None => f,
                    }
                }
            },
            SearchMessageModel::End => {
                let f = flushed(p);
                if f.full {
                    f
                } else {
                    SearchProgress { pending: Seq::empty(), ..f }
                }
            },
            SearchMessageModel::Other => p,
        }
    }
}

/// What a list of messages makes of the empty progress.
pub open spec fn after_messages(
    messages: Seq<SearchMessageModel>,
    existing: Seq<Seq<char>>,
) -> SearchProgress
    decreases messages.len(),
{
    if messages.len() == 0 {
        SearchProgress { results: Seq::empty(), current: None, pending: Seq::empty(), full: false }
    } else {
        after_message(after_messages(messages.drop_last(), existing), messages.last(), existing)
    }
}

/// The results of a search: the complete ones, and the current one where the
/// largest number is not reached.
pub open spec fn results_of(p: SearchProgress) -> Seq<SearchResultModel> {
    if p.full {
        p.results
    } else {
        match p.current {
            Some(m) => if p.results.len() < MAX_RESULTS {
                p.results.push(m)
            } else {
                p.results
            },
            None => p.results,
        }
    }
}

/// The results of the messages of a search.
pub open spec fn search_results(
    messages: Seq<SearchMessageModel>,
    existing: Seq<Seq<char>>,
) -> Seq<SearchResultModel> {
    results_of(after_messages(messages, existing))
}

/// The lines of a list that stand before a given line.
pub fn keep_before(pending: &Vec<ContextLine>, line_number: u32) -> (r: Vec<ContextLine>)
    ensures
        r.deep_view() == lines_before(pending.deep_view(), line_number),
{
    let ghost pick = |c: ContextLineModel|
        if c.line_number < line_number {
            Some(c)
        } else {
            None
        };
    let mut out: Vec<ContextLine> = Vec::new();
    let mut i: usize = 0;
    assert(pending.deep_view().take(0) =~= Seq::<ContextLineModel>::empty());
    assert(out.deep_view() =~= Seq::<ContextLineModel>::empty());
    while i < pending.len()
        invariant
            i <= pending.len(),
            pick == |c: ContextLineModel|
                if c.line_number < line_number {
                    Some(c)
                } else {
                    None
                },
            out.deep_view() == collect(pending.deep_view().take(i as int), pick),
        decreases pending.len() - i,
    {
        proof {
            lemma_collect_step(pending.deep_view(), pick, i as int);
            assert(pending.deep_view()[i as int] == pending@[i as int].deep_view());
        }
        if pending[i].line_number < line_number {
            let ghost before = out.deep_view();
            let c = ContextLine {
                line_number: pending[i].line_number,
                content: pending[i].content.clone(),
            };
            out.push(c);
            assert(out.deep_view() =~= before.push(c.deep_view()));
        }
        i += 1;
    }
    assert(pending.deep_view().take(pending.len() as int) =~= pending.deep_view());
    out
}

/// The result that a matching line starts.
pub fn start_result(m: MatchLine, existing: &Vec<String>, pending: &Vec<ContextLine>) -> (r:
    SearchResult)
    ensures
        r.deep_view() == result_started(m.deep_view(), existing.deep_view(), pending.deep_view()),
{
    let (project_path, project_name) = locate_project(m.file_path.as_str(), existing);
    let context_before = keep_before(pending, m.line_number);
    let r = SearchResult {
        project_path,
        project_name,
        file_path: m.file_path,
        line_number: m.line_number,
        line_content: m.line_content,
        matches: m.matches,
        context_before,
        context_after: Vec::new(),
    };
    assert(r.context_after.deep_view() =~= Seq::<ContextLineModel>::empty());
    r
}

/// The results of the messages of a search, given the manifests that exist
/// above the files of the matches.
pub fn group_search_results(messages: Vec<SearchMessage>, existing: &Vec<String>) -> (r: Vec<
    SearchResult,
>)
    ensures
        r.deep_view() == search_results(messages.deep_view(), existing.deep_view()),
        r.len() <= MAX_RESULTS,
{
    let ghost all = messages.deep_view();
    let ghost known = existing.deep_view();
    let mut results: Vec<SearchResult> = Vec::new();
    let mut current: Option<SearchResult> = None;
    let mut pending: Vec<ContextLine> = Vec::new();
    let mut full: bool = false;
    let mut queue = messages;
    let mut taken: usize = 0;
    let total = queue.len();
    proof {
        assert(all.take(0) =~= Seq::<SearchMessageModel>::empty());
        assert(results.deep_view() =~= Seq::<SearchResultModel>::empty());
        assert(pending.deep_view() =~= Seq::<ContextLineModel>::empty());
        assert(all.subrange(0, all.len() as int) =~= all);
    }
    while queue.len() > 0 && !full
        invariant
            taken <= total,
            total == all.len(),
            taken + queue.len() == total,
            queue.deep_view() == all.subrange(taken as int, total as int),
            known == existing.deep_view(),
            results.len() <= MAX_RESULTS,
            !full ==> results.len() < MAX_RESULTS,
            after_messages(all.take(taken as int), known) == (SearchProgress {
                results: results.deep_view(),
                current: current.deep_view(),
                pending: pending.deep_view(),
                full: full,
            }),
        decreases queue.len(),
    {
        let ghost here = after_messages(all.take(taken as int), known);
        let ghost rest = queue.deep_view();
        let ghost waiting = queue@;
        let message = queue.remove(0);
        proof {
            assert forall|k: int| 0 <= k < queue@.len() implies queue.deep_view()[k]
                == rest.drop_first()[k] by {
                assert(queue@[k] == waiting[k + 1]);
            }
            assert(queue.deep_view() =~= rest.drop_first());
            assert(all.take(taken + 1).drop_last() =~= all.take(taken as int));
            assert(all.take(taken + 1).last() == all[taken as int]);
            assert(rest[0] == message.deep_view());
            assert(queue.deep_view() =~= all.subrange(taken + 1, total as int));
        }
        match message {
            SearchMessage::Context(c) => {
                let holder = current;
                current = match holder {
                    Some(mut m) => {
                        if c.line_number > m.line_number {
                            let ghost before = m.context_after.deep_view();
                            m.context_after.push(c);
                            assert(m.context_after.deep_view() =~= before.push(c.deep_view()));
                        }
                        Some(m)
                    },
                    None => {
                        let ghost before = pending.deep_view();
                        pending.push(c);
                        assert(pending.deep_view() =~= before.push(c.deep_view()));
                        None
                    },
                };
            },
            SearchMessage::Match(line) => {
                let holder = current;
                current = None;
                match holder {
                    Some(m) => {
                        let ghost before = results.deep_view();
                        results.push(m);
                        assert(results.deep_view() =~= before.push(m.deep_view()));
                        if results.len() >= MAX_RESULTS {
                            full = true;
                        }
                    },
                    None => {},
                }
                if !full {
                    match line {
                        Some(m) => {
                            current = Some(start_result(m, existing, &pending));
                            pending = Vec::new();
                            assert(pending.deep_view() =~= Seq::<ContextLineModel>::empty());
                        },
                        None => {},
                    }
                }
            },
            SearchMessage::End => {
                let holder = current;
                current = None;
                match holder {
                    Some(m) => {
                        let ghost before = results.deep_view();
                        results.push(m);
                        assert(results.deep_view() =~= before.push(m.deep_view()));
                        if results.len() >= MAX_RESULTS {
                            full = true;
                        }
                    },
                    None => {},
                }
                if !full {
                    pending = Vec::new();
                    assert(pending.deep_view() =~= Seq::<ContextLineModel>::empty());
                }
            },
            SearchMessage::Other => {},
        }
        taken += 1;
    }
    proof {
        lemma_full_stays(all, known, taken as int);
    }
    if !full {
        match current {
            Some(m) => {
                if results.len() < MAX_RESULTS {
                    let ghost before = results.deep_view();
                    results.push(m);
                    assert(results.deep_view() =~= before.push(m.deep_view()));
                }
            },
            None => {},
        }
    }
    results
}

/// Once the largest number of results is reached, further messages change
/// nothing.
pub proof fn lemma_full_stays(
    messages: Seq<SearchMessageModel>,
    existing: Seq<Seq<char>>,
    n: int,
)
    requires
        0 <= n <= messages.len(),
        after_messages(messages.take(n), existing).full || n == messages.len(),
    ensures
        after_messages(messages, existing) == after_messages(messages.take(n), existing),
    decreases messages.len() - n,
{
    if n < messages.len() {
        assert(messages.take(n + 1).drop_last() =~= messages.take(n));
        lemma_full_stays(messages, existing, n + 1);
    } else {
        assert(messages.take(n) =~= messages);
    }
}

} // verus!
