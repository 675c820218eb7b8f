//! Pending changes of a repository: finding them, bounding their diff,
//! naming them offline, and committing them.

use crate::errors::{CommitError, CommitErrorView};
use crate::utils::repo::{
    commit_of, create_commit, diff_trees, diff_workdir, fault_of, find_tree, head_of, index_of,
    oid_bytes, patch_lines, signature_of, stage_matching, status_at, statuses_len, statuses_of,
    tree_of, write_index, write_tree,
};
use crate::utils::text::{
    contains_text, has_substring, join_strings, joined, lemma_lines_hold_no_line_feed,
    lemma_split_joined, line_spans, lines_of, lossy_text, lowercase_of, no_line_feed, span_texts,
    split_at_line_feeds, starts_with_text, texts_of, to_chars, utf8_lossy, Span,
};
use git2::{Diff, Repository};
use vstd::prelude::*;
use vstd::string::*;

verus! {

/// Number of lines kept from the start of a diff that is over budget.
pub const HEAD_LINES: usize = 10;

/// Number of lines kept from the end of a diff that is over budget.
pub const TAIL_LINES: usize = 10;

/// The line that stands for what was dropped.
pub const TRUNCATION_MARKER: &'static str = "... [diff truncated due to size] ...";

/// Number of lines in the head window of a diff of `count` lines: ten, or
/// all of them where there are fewer.
pub open spec fn head_count(count: nat) -> int {
    if count < HEAD_LINES {
        count as int
    } else {
        HEAD_LINES as int
    }
}

/// The lines kept of a diff that is over budget: the head window, the marker
/// and, where the diff is longer than both windows together, the tail window.
pub open spec fn truncated_lines(lines: Seq<Seq<char>>) -> Seq<Seq<char>> {
    let head = lines.take(head_count(lines.len()));
    let tail = if lines.len() > HEAD_LINES + TAIL_LINES {
        lines.skip(lines.len() - TAIL_LINES)
    } else {
        Seq::empty()
    };
    head + seq![TRUNCATION_MARKER@] + tail
}

/// A diff bounded to `max_lines` lines: itself if it has no more, else its
/// kept lines joined by line feeds.
pub open spec fn filtered_diff(diff: Seq<char>, max_lines: nat) -> Seq<char> {
    let lines = lines_of(diff);
    if lines.len() <= max_lines {
        diff
    } else {
        joined(truncated_lines(lines), "\n"@)
    }
}

/// Copies the lines that `spans[from..to]` cover in `text` to the end of
/// `kept`.
fn keep_lines(kept: &mut Vec<String>, text: &str, spans: &Vec<Span>, from: usize, to: usize)
    requires
        from <= to <= spans@.len(),
        forall|i: int| 0 <= i < spans@.len() ==> (#[trigger] spans@[i]).within(text@.len()),
    ensures
        texts_of(final(kept)@) == texts_of(old(kept)@) + span_texts(text@, spans@).subrange(
            from as int,
            to as int,
        ),
{
    let mut i: usize = from;
    while i < to
        invariant
            from <= i <= to <= spans@.len(),
            forall|k: int| 0 <= k < spans@.len() ==> (#[trigger] spans@[k]).within(text@.len()),
            texts_of(kept@) == texts_of(old(kept)@) + span_texts(text@, spans@).subrange(
                from as int,
                i as int,
            ),
        decreases to - i,
    {
        let span = spans[i];
        let line = text.substring_char(span.start, span.end).to_owned();
        proof {
            let lines = span_texts(text@, spans@);
            assert(lines.subrange(from as int, i + 1) =~= lines.subrange(from as int, i as int).push(
                line@,
            ));
            assert(texts_of(kept@.push(line)) =~= texts_of(kept@).push(line@));
        }
        kept.push(line);
        i += 1;
    }
}

/// Bounds a diff to `max_lines` lines. A diff within the budget comes back
/// unchanged. Of a longer one the first ten lines and, if it has more than
/// twenty, the last ten are kept, with one marker line in place of the rest.
pub fn filter_diff_content(diff: &str, max_lines: usize) -> (out: String)
    ensures
        out@ == filtered_diff(diff@, max_lines as nat),
        lines_of(diff@).len() <= max_lines ==> out@ == diff@,
{
    let chars = to_chars(diff);
    let spans = line_spans(&chars);
    let count = spans.len();
    if count <= max_lines {
        return diff.to_owned();
    }
    let ghost lines = lines_of(diff@);
    let head = if count < HEAD_LINES {
        count
    } else {
        HEAD_LINES
    };
    let mut kept: Vec<String> = Vec::new();
    keep_lines(&mut kept, diff, &spans, 0, head);
    kept.push(TRUNCATION_MARKER.to_owned());
    if count > HEAD_LINES + TAIL_LINES {
        keep_lines(&mut kept, diff, &spans, count - TAIL_LINES, count);
    }
    proof {
        assert(lines.subrange(0, head as int) =~= lines.take(head_count(lines.len())));
        assert(lines.subrange(count - TAIL_LINES, count as int) =~= lines.skip(count - TAIL_LINES));
        assert(texts_of(kept@) =~= truncated_lines(lines));
    }
    join_strings(kept.as_slice(), "\n")
}

/// No kept line holds a line feed.
proof fn lemma_kept_lines_hold_no_line_feed(diff: Seq<char>)
    ensures
        forall|i: int|
            0 <= i < truncated_lines(lines_of(diff)).len() ==> no_line_feed(
                #[trigger] truncated_lines(lines_of(diff))[i],
            ),
{
    let lines = lines_of(diff);
    let kept = truncated_lines(lines);
    let head = head_count(lines.len());
    reveal_strlit("... [diff truncated due to size] ...");
    lemma_lines_hold_no_line_feed(diff);
    assert forall|i: int| 0 <= i < kept.len() implies no_line_feed(#[trigger] kept[i]) by {
        if i < head {
            assert(kept[i] == lines[i]);
        } else if i > head {
            assert(kept[i] == lines[lines.len() - TAIL_LINES + (i - head - 1)]);
        }
    }
}

/// Shape of a bounded diff that was over budget. Split at its line feeds, it
/// starts with the first ten lines of the input (with all of them, if there
/// are fewer), goes on with the marker and, if the input has more than twenty
/// lines, ends with the last ten; it holds nothing else.
pub proof fn lemma_truncation_shape(diff: Seq<char>, max_lines: nat)
    requires
        lines_of(diff).len() > max_lines,
    ensures
        ({
            let lines = lines_of(diff);
            let head = head_count(lines.len());
            let out = split_at_line_feeds(filtered_diff(diff, max_lines));
            &&& out == truncated_lines(lines)
            &&& out.take(head) == lines.take(head)
            &&& out[head] == TRUNCATION_MARKER@
            &&& lines.len() <= 20 ==> out.len() == head + 1
            &&& lines.len() > 20 ==> out.len() == 21 && out.skip(11) == lines.skip(lines.len() - 10)
        }),
{
    let lines = lines_of(diff);
    let kept = truncated_lines(lines);
    let head = head_count(lines.len());
    reveal_strlit("\n");
    assert("\n"@ =~= seq!['\n']);
    lemma_kept_lines_hold_no_line_feed(diff);
    lemma_split_joined(kept);
    assert(kept.take(head) =~= lines.take(head));
    if lines.len() > 20 {
        assert(kept.skip(11) =~= lines.skip(lines.len() - 10));
    }
}

/// The marker stands once in a bounded diff that was over budget, unless a
/// kept line of the input reads like the marker.
pub proof fn lemma_one_marker(diff: Seq<char>, max_lines: nat)
    requires
        lines_of(diff).len() > max_lines,
        forall|i: int|
            0 <= i < lines_of(diff).len() && (i < 10 || (lines_of(diff).len() > 20 && i
                >= lines_of(diff).len() - 10)) ==> #[trigger] lines_of(diff)[i]
                != TRUNCATION_MARKER@,
    ensures
        ({
            let out = split_at_line_feeds(filtered_diff(diff, max_lines));
            let at = head_count(lines_of(diff).len());
            forall|i: int| 0 <= i < out.len() ==> (#[trigger] out[i] == TRUNCATION_MARKER@ <==> i == at)
        }),
{
    lemma_truncation_shape(diff, max_lines);
    let lines = lines_of(diff);
    let out = split_at_line_feeds(filtered_diff(diff, max_lines));
    let at = head_count(lines.len());
    assert forall|i: int| 0 <= i < out.len() implies (#[trigger] out[i] == TRUNCATION_MARKER@ <==> i
        == at) by {
        if i < at {
            assert(out[i] == lines[i]);
        } else if i > at {
            assert(out[i] == lines[lines.len() - TAIL_LINES + (i - at - 1)]);
        }
    }
}

/// A line that adds: it starts with `+`, but not with `+++`, which heads a
/// file.
pub open spec fn is_added_line(line: Seq<char>) -> bool {
    starts_with_text(line, seq!['+']) && !starts_with_text(line, seq!['+', '+', '+'])
}

/// A line that removes: it starts with `-`, but not with `---`, which heads a
/// file.
pub open spec fn is_removed_line(line: Seq<char>) -> bool {
    starts_with_text(line, seq!['-']) && !starts_with_text(line, seq!['-', '-', '-'])
}

/// Number of adding lines among `lines`.
pub open spec fn added_count(lines: Seq<Seq<char>>) -> nat
    decreases lines.len(),
{
    if lines.len() == 0 {
        0
    } else {
        added_count(lines.drop_last()) + if is_added_line(lines.last()) {
            1nat
        } else {
            0nat
        }
    }
}

/// Number of removing lines among `lines`.
pub open spec fn removed_count(lines: Seq<Seq<char>>) -> nat
    decreases lines.len(),
{
    if lines.len() == 0 {
        0
    } else {
        removed_count(lines.drop_last()) + if is_removed_line(lines.last()) {
            1nat
        } else {
            0nat
        }
    }
}

/// The text speaks of tests.
pub open spec fn mentions_tests(lowered: Seq<char>) -> bool {
    contains_text(lowered, "test"@) || contains_text(lowered, "spec"@)
}

/// The text speaks of documentation.
pub open spec fn mentions_docs(lowered: Seq<char>) -> bool {
    contains_text(lowered, "readme"@) || contains_text(lowered, "doc"@)
}

/// The text speaks of a defect.
pub open spec fn mentions_fix(lowered: Seq<char>) -> bool {
    contains_text(lowered, "fix"@) || contains_text(lowered, "bug"@)
}

/// The message that the offline rules give for the files `files` and the diff
/// `diff`, whose lowercase form is `lowered`. The first rule that applies
/// decides: an empty diff; a mention of tests; of documentation; of a defect;
/// more than twice as many adding lines as removing ones; the converse; none
/// of these.
pub open spec fn fallback_message(
    files: Seq<Seq<char>>,
    diff: Seq<char>,
    lowered: Seq<char>,
) -> Seq<char> {
    let names = joined(files, ", "@);
    let added = added_count(lines_of(diff));
    let removed = removed_count(lines_of(diff));
    if diff.len() == 0 {
        "Update "@ + names
    } else if mentions_tests(lowered) {
        "Add/update tests"@
    } else if mentions_docs(lowered) {
        "Update documentation"@
    } else if mentions_fix(lowered) {
        "Fix bug"@
    } else if added > 2 * removed {
        "Add new functionality to "@ + names
    } else if removed > 2 * added {
        "Remove/cleanup code from "@ + names
    } else {
        "Update "@ + names
    }
}

/// The order of the rules. An empty diff is named by its files whatever else
/// holds. Of a diff that is not empty, a mention of tests decides before one
/// of documentation, and that before one of a defect; the counts of lines
/// decide only where none is mentioned.
pub proof fn lemma_first_rule_decides(files: Seq<Seq<char>>, diff: Seq<char>, lowered: Seq<char>)
    ensures
        ({
            let message = fallback_message(files, diff, lowered);
            &&& diff.len() == 0 ==> message == "Update "@ + joined(files, ", "@)
            &&& diff.len() > 0 && mentions_tests(lowered) ==> message == "Add/update tests"@
            &&& diff.len() > 0 && !mentions_tests(lowered) && mentions_docs(lowered) ==> message
                == "Update documentation"@
            &&& diff.len() > 0 && !mentions_tests(lowered) && !mentions_docs(lowered)
                && mentions_fix(lowered) ==> message == "Fix bug"@
        }),
{
}

/// Whether the line that `span` covers in `chars` starts with `sign`, but not
/// with three of it.
fn is_signed_line(chars: &Vec<char>, span: Span, sign: char) -> (signed: bool)
    requires
        span.within(chars@.len()),
    ensures
        signed == (starts_with_text(span.of(chars@), seq![sign]) && !starts_with_text(
            span.of(chars@),
            seq![sign, sign, sign],
        )),
{
    let ghost line = span.of(chars@);
    let len = span.end - span.start;
    if len == 0 || chars[span.start] != sign {
        proof {
            if len > 0 {
                assert(line.subrange(0, 1)[0] == line[0]);
            }
        }
        return false;
    }
    assert(line.subrange(0, 1) =~= seq![sign]);
    if len >= 3 && chars[span.start + 1] == sign && chars[span.start + 2] == sign {
        assert(line.subrange(0, 3) =~= seq![sign, sign, sign]);
        return false;
    }
    assert(len >= 3 ==> line.subrange(0, 3)[1] != sign || line.subrange(0, 3)[2] != sign);
    true
}

/// `prefix` followed by `files` joined with `", "`.
fn with_files(prefix: &str, files: &[String]) -> (out: String)
    ensures
        out@ == prefix@ + joined(texts_of(files@), ", "@),
{
    let mut out = prefix.to_owned();
    let names = join_strings(files, ", ");
    out.append(names.as_str());
    out
}

/// The offline rules, on a diff and its lowercase form.
pub fn fallback_from_lowered(files: &[String], diff: &str, lowered: &str) -> (message: String)
    ensures
        message@ == fallback_message(texts_of(files@), diff@, lowered@),
{
    let chars = to_chars(diff);
    if chars.len() == 0 {
        return with_files("Update ", files);
    }
    let low = to_chars(lowered);
    if has_substring(&low, &to_chars("test")) || has_substring(&low, &to_chars("spec")) {
        return "Add/update tests".to_owned();
    }
    if has_substring(&low, &to_chars("readme")) || has_substring(&low, &to_chars("doc")) {
        return "Update documentation".to_owned();
    }
    if has_substring(&low, &to_chars("fix")) || has_substring(&low, &to_chars("bug")) {
        return "Fix bug".to_owned();
    }
    let spans = line_spans(&chars);
    let ghost lines = lines_of(diff@);
    let mut added: usize = 0;
    let mut removed: usize = 0;
    let mut i: usize = 0;
    while i < spans.len()
        invariant
            chars@ == diff@,
            lines == lines_of(diff@),
            span_texts(chars@, spans@) == lines,
            forall|k: int| 0 <= k < spans@.len() ==> (#[trigger] spans@[k]).within(chars@.len()),
            i <= spans@.len(),
            added == added_count(lines.take(i as int)),
            removed == removed_count(lines.take(i as int)),
            added <= i,
            removed <= i,
        decreases spans@.len() - i,
    {
        let span = spans[i];
        proof {
            assert(lines.take(i + 1).drop_last() =~= lines.take(i as int));
        }
        if is_signed_line(&chars, span, '+') {
            added += 1;
        }
        if is_signed_line(&chars, span, '-') {
            removed += 1;
        }
        i += 1;
    }
    assert(lines.take(spans@.len() as int) =~= lines);
    if removed <= usize::MAX / 2 && added > 2 * removed {
        with_files("Add new functionality to ", files)
    } else if added <= usize::MAX / 2 && removed > 2 * added {
        with_files("Remove/cleanup code from ", files)
    } else {
        with_files("Update ", files)
    }
}

/// A commit message from the file names and the diff alone, by fixed rules.
pub fn generate_fallback_message(files: &[String], diff: &str) -> (message: String)
    ensures
        message@ == fallback_message(texts_of(files@), diff@, lowercase_of(diff@)),
{
    let lowered = diff.to_lowercase();
    fallback_from_lowered(files, diff, lowered.as_str())
}

/// What the library keeps of a failure of the repository library.
#[derive(Debug, Clone, PartialEq, Eq)]
pub struct GitFault {
    /// HEAD names a branch that has no commit yet.
    pub unborn_branch: bool,
    /// The message that came with the failure.
    pub message: String,
}

/// The state of one path, as the status scan reports it.
#[derive(Debug, Clone, PartialEq, Eq)]
pub struct FileStatus {
    /// The path, or `None` where it is not UTF-8.
    pub path: Option<String>,
    pub index_new: bool,
    pub index_modified: bool,
    pub index_deleted: bool,
    pub wt_new: bool,
    pub wt_modified: bool,
    pub wt_deleted: bool,
}

/// The pending changes of a repository, by scope.
#[derive(Debug, Clone, PartialEq, Eq)]
pub struct GitChanges {
    pub staged_files: Vec<String>,
    pub unstaged_files: Vec<String>,
    pub staged_diff: String,
    pub unstaged_diff: String,
}

/// The mathematical content of a `GitChanges`.
pub struct GitChangesView {
    pub staged_files: Seq<Seq<char>>,
    pub unstaged_files: Seq<Seq<char>>,
    pub staged_diff: Seq<char>,
    pub unstaged_diff: Seq<char>,
}

impl View for GitChanges {
    type V = GitChangesView;

    open spec fn view(&self) -> GitChangesView {
        GitChangesView {
            staged_files: texts_of(self.staged_files@),
            unstaged_files: texts_of(self.unstaged_files@),
            staged_diff: self.staged_diff@,
            unstaged_diff: self.unstaged_diff@,
        }
    }
}

/// The id of a commit: its twenty bytes.
#[derive(Debug, Clone, PartialEq, Eq)]
pub struct CommitId {
    pub bytes: Vec<u8>,
}

impl FileStatus {
    /// The index differs from HEAD at this path.
    pub open spec fn staged(&self) -> bool {
        self.index_new || self.index_modified || self.index_deleted
    }

    /// The working tree differs from the index at this path.
    pub open spec fn unstaged(&self) -> bool {
        self.wt_new || self.wt_modified || self.wt_deleted
    }

    /// The path as text; empty where it is not UTF-8.
    pub open spec fn path_text(&self) -> Seq<char> {
        match self.path {
            Some(path) => path@,
            None => Seq::empty(),
        }
    }

    /// Whether the path counts as staged.
    pub fn is_staged(&self) -> (staged: bool)
        ensures
            staged == self.staged(),
    {
        self.index_new || self.index_modified || self.index_deleted
    }

    /// Whether the path counts as unstaged.
    pub fn is_unstaged(&self) -> (unstaged: bool)
        ensures
            unstaged == self.unstaged(),
    {
        self.wt_new || self.wt_modified || self.wt_deleted
    }

    /// The path as text; empty where it is not UTF-8.
    pub fn path_string(&self) -> (path: String)
        ensures
            path@ == self.path_text(),
    {
        match &self.path {
            Some(path) => path.clone(),
            None => String::new(),
        }
    }
}

/// The paths of the staged entries of `entries`, in order.
pub open spec fn staged_paths(entries: Seq<FileStatus>) -> Seq<Seq<char>>
    decreases entries.len(),
{
    if entries.len() == 0 {
        Seq::empty()
    } else if entries.last().staged() {
        staged_paths(entries.drop_last()).push(entries.last().path_text())
    } else {
        staged_paths(entries.drop_last())
    }
}

/// The paths of the unstaged entries of `entries`, in order.
pub open spec fn unstaged_paths(entries: Seq<FileStatus>) -> Seq<Seq<char>>
    decreases entries.len(),
{
    if entries.len() == 0 {
        Seq::empty()
    } else if entries.last().unstaged() {
        unstaged_paths(entries.drop_last()).push(entries.last().path_text())
    } else {
        unstaged_paths(entries.drop_last())
    }
}

/// Sorts the entries of a status scan into the staged and the unstaged
/// paths. An entry may count as both.
pub fn changed_files(entries: &Vec<FileStatus>) -> (files: (Vec<String>, Vec<String>))
    ensures
        texts_of(files.0@) == staged_paths(entries@),
        texts_of(files.1@) == unstaged_paths(entries@),
{
    let mut staged: Vec<String> = Vec::new();
    let mut unstaged: Vec<String> = Vec::new();
    let mut i: usize = 0;
    while i < entries.len()
        invariant
            i <= entries@.len(),
            texts_of(staged@) == staged_paths(entries@.take(i as int)),
            texts_of(unstaged@) == unstaged_paths(entries@.take(i as int)),
        decreases entries@.len() - i,
    {
        let entry = &entries[i];
        proof {
            assert(entries@.take(i + 1).drop_last() =~= entries@.take(i as int));
        }
        if entry.is_staged() {
            let path = entry.path_string();
            staged.push(path);
        }
        if entry.is_unstaged() {
            let path = entry.path_string();
            unstaged.push(path);
        }
        i += 1;
    }
    assert(entries@.take(entries@.len() as int) =~= entries@);
    (staged, unstaged)
}

/// The failure of a run that a failure of the repository library amounts
/// to: a missing HEAD commit has a variant of its own.
pub fn repository_error(fault: GitFault) -> (error: CommitError)
    ensures
        error@ == if fault.unborn_branch {
            CommitErrorView::NoHead(fault.message@)
        } else {
            CommitErrorView::GitError(fault.message@)
        },
{
    if fault.unborn_branch {
        CommitError::NoHead(fault.message)
    } else {
        CommitError::GitError(fault.message)
    }
}

/// The failure of a run that a failure to stage the working tree amounts to:
/// the working tree could not be read.
pub fn staging_error(fault: GitFault) -> (error: CommitError)
    ensures
        error@ == CommitErrorView::IoError(fault.message@),
{
    CommitError::IoError(fault.message)
}

/// One line of a patch, as the traversal of a diff hands it out.
#[derive(Debug, Clone, PartialEq, Eq)]
pub struct PatchLine {
    /// The sign of the line's origin: `+`, `-` or a space for a line that
    /// adds, removes or gives context; another character for a header.
    pub origin: char,
    /// The content of the line, without the sign.
    pub content: Vec<u8>,
}

impl PatchLine {
    /// The line is written with its sign: it adds, removes or gives context.
    pub open spec fn signed(&self) -> bool {
        self.origin == '+' || self.origin == '-' || self.origin == ' '
    }

    /// The bytes of the line in the text of a patch: the sign, where the
    /// line is written with one, and the content.
    pub open spec fn bytes(&self) -> Seq<u8> {
        if self.signed() {
            seq![self.origin as u8] + self.content@
        } else {
            self.content@
        }
    }
}

/// The bytes of a patch: those of its lines, one after another.
pub open spec fn patch_bytes(lines: Seq<PatchLine>) -> Seq<u8>
    decreases lines.len(),
{
    if lines.len() == 0 {
        Seq::empty()
    } else {
        patch_bytes(lines.drop_last()) + lines.last().bytes()
    }
}

/// The text of a patch in unified form: each line with its sign, if it has
/// one, and its content, in the order given; the whole read as UTF-8.
pub fn patch_text(lines: &Vec<PatchLine>) -> (text: String)
    ensures
        text@ == utf8_lossy(patch_bytes(lines@)),
{
    let mut bytes: Vec<u8> = Vec::new();
    let mut i: usize = 0;
    while i < lines.len()
        invariant
            i <= lines@.len(),
            bytes@ == patch_bytes(lines@.take(i as int)),
        decreases lines@.len() - i,
    {
        let line = &lines[i];
        proof {
            assert(lines@.take(i + 1).drop_last() =~= lines@.take(i as int));
        }
        if line.origin == '+' {
            bytes.push(43u8);
        } else if line.origin == '-' {
            bytes.push(45u8);
        } else if line.origin == ' ' {
            bytes.push(32u8);
        }
        bytes.extend_from_slice(line.content.as_slice());
        i += 1;
    }
    assert(lines@.take(lines@.len() as int) =~= lines@);
    lossy_text(bytes.as_slice())
}

/// All that the status list of `repo` holds, in the order of the list.
fn scan_statuses(repo: &Repository) -> (scan: Result<Vec<FileStatus>, CommitError>)
    ensures
        scan matches Ok(entries) ==> is_status_list(status_views(entries@)),
        scan matches Err(error) ==> error@ is NoHead || error@ is GitError,
{
    match statuses_of(repo) {
        Ok(statuses) => Ok(collect_statuses(&statuses)),
        Err(error) => Err(repository_error(fault_of(&error))),
    }
}

/// The mathematical content of a `FileStatus`.
pub struct FileStatusView {
    pub path: Option<Seq<char>>,
    pub index_new: bool,
    pub index_modified: bool,
    pub index_deleted: bool,
    pub wt_new: bool,
    pub wt_modified: bool,
    pub wt_deleted: bool,
}

impl View for FileStatus {
    type V = FileStatusView;

    open spec fn view(&self) -> FileStatusView {
        FileStatusView {
            path: match self.path {
                Some(path) => Some(path@),
                None => None,
            },
            index_new: self.index_new,
            index_modified: self.index_modified,
            index_deleted: self.index_deleted,
            wt_new: self.wt_new,
            wt_modified: self.wt_modified,
            wt_deleted: self.wt_deleted,
        }
    }
}

/// The contents of `entries`, in order.
pub open spec fn status_views(entries: Seq<FileStatus>) -> Seq<FileStatusView> {
    Seq::new(entries.len(), |i: int| entries[i]@)
}

/// `entries` is all that some status list holds, in its order.
pub open spec fn is_status_list(entries: Seq<FileStatusView>) -> bool {
    exists|statuses: &git2::Statuses<'static>|
        entries == #[trigger] crate::utils::repo::status_entries(statuses)
}

/// Every entry of a status list, in the order of the list.
pub fn collect_statuses(statuses: &git2::Statuses<'_>) -> (entries: Vec<FileStatus>)
    ensures
        status_views(entries@) == crate::utils::repo::status_entries(statuses),
{
    let ghost held = crate::utils::repo::status_entries(statuses);
    let count = statuses_len(statuses);
    let mut entries: Vec<FileStatus> = Vec::new();
    let mut i: usize = 0;
    while i < count
        invariant
            held == crate::utils::repo::status_entries(statuses),
            count == held.len(),
            i <= count,
            status_views(entries@) == held.take(i as int),
        decreases count - i,
    {
        match status_at(statuses, i) {
            Some(entry) => {
                assert(held.take(i + 1) =~= held.take(i as int).push(entry@));
                assert(status_views(entries@.push(entry)) =~= status_views(entries@).push(
                    entry@,
                ));
                entries.push(entry);
            },
            None => {},
        }
        i += 1;
    }
    assert(held.take(count as int) =~= held);
    entries
}

/// `text` is the text of some patch.
pub open spec fn is_patch_text(text: Seq<char>) -> bool {
    exists|lines: Seq<PatchLine>| text == utf8_lossy(#[trigger] patch_bytes(lines))
}

/// The text of `diff` as a patch.
fn diff_text(diff: &Diff<'_>) -> (text: Result<String, CommitError>)
    ensures
        text matches Ok(patch) ==> is_patch_text(patch@),
        text matches Err(error) ==> error@ is NoHead || error@ is GitError,
{
    match patch_lines(diff) {
        Ok(lines) => {
            let patch = patch_text(&lines);
            Ok(patch)
        },
        Err(error) => Err(repository_error(fault_of(&error))),
    }
}

/// The difference between the tree of HEAD and the tree of the index, as
/// patch text. Fails where HEAD leads to no commit.
fn get_staged_diff(repo: &Repository) -> (text: Result<String, CommitError>)
    ensures
        text matches Ok(patch) ==> is_patch_text(patch@),
        text matches Err(error) ==> error@ is NoHead || error@ is GitError,
{
    let head = match head_of(repo) {
        Ok(head) => head,
        Err(error) => {
            return Err(repository_error(fault_of(&error)));
        },
    };
    let head_tree = match tree_of(&head) {
        Ok(tree) => tree,
        Err(error) => {
            return Err(repository_error(fault_of(&error)));
        },
    };
    let mut index = match index_of(repo) {
        Ok(index) => index,
        Err(error) => {
            return Err(repository_error(fault_of(&error)));
        },
    };
    let index_tree_id = match write_tree(&mut index) {
        Ok(id) => id,
        Err(error) => {
            return Err(repository_error(fault_of(&error)));
        },
    };
    let index_tree = match find_tree(repo, index_tree_id) {
        Ok(tree) => tree,
        Err(error) => {
            return Err(repository_error(fault_of(&error)));
        },
    };
    match diff_trees(repo, &head_tree, &index_tree) {
        Ok(diff) => diff_text(&diff),
        Err(error) => Err(repository_error(fault_of(&error))),
    }
}

/// The difference between the index and the working tree, as patch text.
fn get_unstaged_diff(repo: &Repository) -> (text: Result<String, CommitError>)
    ensures
        text matches Ok(patch) ==> is_patch_text(patch@),
        text matches Err(error) ==> error@ is NoHead || error@ is GitError,
{
    match diff_workdir(repo) {
        Ok(diff) => diff_text(&diff),
        Err(error) => Err(repository_error(fault_of(&error))),
    }
}

/// The two lists of paths come from one status scan.
pub open spec fn from_one_scan(staged: Seq<Seq<char>>, unstaged: Seq<Seq<char>>) -> bool {
    exists|entries: Seq<FileStatus>|
        staged == #[trigger] staged_paths(entries) && unstaged == unstaged_paths(entries)
}

/// Scans the repository for pending changes: the staged and the unstaged
/// paths, both from one status scan, and the diff of each scope, each the
/// text of a patch. Nothing is asked of the repository that stages a path or
/// moves a reference. A repository without a HEAD commit gives `NoHead`; any
/// other refusal gives `GitError`.
pub fn get_git_changes(repo: &Repository) -> (scan: Result<GitChanges, CommitError>)
    ensures
        scan matches Ok(changes) ==> {
            &&& from_one_scan(changes@.staged_files, changes@.unstaged_files)
            &&& is_patch_text(changes@.staged_diff)
            &&& is_patch_text(changes@.unstaged_diff)
        },
        scan matches Err(error) ==> error@ is NoHead || error@ is GitError,
{
    let entries = match scan_statuses(repo) {
        Ok(entries) => entries,
        Err(error) => {
            return Err(error);
        },
    };
    let (staged_files, unstaged_files) = changed_files(&entries);
    let staged_diff = match get_staged_diff(repo) {
        Ok(text) => text,
        Err(error) => {
            return Err(error);
        },
    };
    let unstaged_diff = match get_unstaged_diff(repo) {
        Ok(text) => text,
        Err(error) => {
            return Err(error);
        },
    };
    let changes = GitChanges { staged_files, unstaged_files, staged_diff, unstaged_diff };
    Ok(changes)
}

/// The pathspec that matches every path of the working tree.
pub const ALL_PATHS: &'static str = ".";

/// The reference that a new commit moves.
pub const HEAD_REF: &'static str = "HEAD";

/// Stages every change of the working tree and commits the result with
/// `message`, as the one child of the commit at HEAD, signed as the
/// repository is configured. The last call creates the commit and moves
/// HEAD to it; no call before it touches a reference. A repository without
/// a HEAD commit gives `NoHead`; a working tree that cannot be staged gives
/// `IoError`; any other refusal gives `GitError`.
pub fn perform_git_commit(repo: &Repository, message: &str) -> (done: Result<CommitId, CommitError>)
    ensures
        done matches Ok(id) ==> id.bytes@.len() == 20,
        done matches Err(error) ==> error@ is NoHead || error@ is IoError || error@ is GitError,
{
    let mut index = match index_of(repo) {
        Ok(index) => index,
        Err(error) => {
            return Err(repository_error(fault_of(&error)));
        },
    };
    match stage_matching(&mut index, ALL_PATHS) {
        Ok(()) => {},
        Err(error) => {
            return Err(staging_error(fault_of(&error)));
        },
    }
    match write_index(&mut index) {
        Ok(()) => {},
        Err(error) => {
            return Err(repository_error(fault_of(&error)));
        },
    }
    let head = match head_of(repo) {
        Ok(head) => head,
        Err(error) => {
            return Err(repository_error(fault_of(&error)));
        },
    };
    let head_commit = match commit_of(&head) {
        Ok(commit) => commit,
        Err(error) => {
            return Err(repository_error(fault_of(&error)));
        },
    };
    let tree_id = match write_tree(&mut index) {
        Ok(id) => id,
        Err(error) => {
            return Err(repository_error(fault_of(&error)));
        },
    };
    let tree = match find_tree(repo, tree_id) {
        Ok(tree) => tree,
        Err(error) => {
            return Err(repository_error(fault_of(&error)));
        },
    };
    let signature = match signature_of(repo) {
        Ok(signature) => signature,
        Err(error) => {
            return Err(repository_error(fault_of(&error)));
        },
    };
    match create_commit(repo, HEAD_REF, &signature, message, &tree, &head_commit) {
        Ok(id) => Ok(CommitId { bytes: oid_bytes(&id) }),
        Err(error) => Err(repository_error(fault_of(&error))),
    }
}

} // verus!
