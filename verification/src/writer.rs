//! The artifact layout: where the code of each proposed module is written.
//! A namespaced module name maps to nested directories and a file name.
use crate::domain::models::{NewModuleProposal, NewModuleView, RefactoringProposal};
use crate::error::{Error, ErrorView};
use crate::proposer::prompt::NAMESPACE_SEPARATOR;
use crate::text::{join, join_strings};
use vstd::prelude::*;

verus! {

/// The extension of the written source files.
pub const SOURCE_EXTENSION: &'static str = ".pm";

/// What the default output directory's name starts with.
pub const OUTPUT_PREFIX: &'static str = "refactored_";

/// What separates the parts of a displayed path.
pub const PATH_SEPARATOR: &'static str = "/";

/// What stands between the failing path and the system's words in an I/O error.
pub const FAILURE_SEPARATOR: &'static str = ": ";

/// Whether the namespace separator, two colons, starts at position `i` of `s`.
pub open spec fn separator_at(s: Seq<char>, i: int) -> bool {
    0 <= i && i + 1 < s.len() && s[i] == ':' && s[i + 1] == ':'
}

/// The first position from `from` on at which a separator starts, if any.
pub open spec fn next_separator(s: Seq<char>, from: int) -> Option<int>
    decreases s.len() - from,
{
    if from < 0 || from + 1 >= s.len() {
        None
    } else if separator_at(s, from) {
        Some(from)
    } else {
        next_separator(s, from + 1)
    }
}

/// The segments of a namespaced name: the texts between its separators,
/// found from left to right. A name without separator is its only segment.
pub open spec fn segments(s: Seq<char>) -> Seq<Seq<char>>
    decreases s.len(),
{
    match next_separator(s, 0) {
        Some(i) => if 0 <= i && i + 2 <= s.len() {
            seq![s.take(i)] + segments(s.skip(i + 2))
        } else {
            seq![s]
        },
        None => seq![s],
    }
}

/// Where a separator is found, one starts, and none starts before it.
pub proof fn lemma_next_separator(s: Seq<char>, from: int)
    requires
        0 <= from,
    ensures
        match next_separator(s, from) {
            Some(i) => from <= i && separator_at(s, i) && forall|j: int|
                from <= j < i ==> !separator_at(s, j),
            None => forall|j: int| from <= j ==> !separator_at(s, j),
        },
    decreases s.len() - from,
{
    if from + 1 < s.len() && !separator_at(s, from) {
        lemma_next_separator(s, from + 1);
    }
}

/// A name has at least one segment.
pub proof fn lemma_segments_nonempty(s: Seq<char>)
    ensures
        segments(s).len() >= 1,
{
}

proof fn lemma_join_front(first: Seq<char>, rest: Seq<Seq<char>>, separator: Seq<char>)
    requires
        rest.len() >= 1,
    ensures
        join(seq![first] + rest, separator) == first + separator + join(rest, separator),
    decreases rest.len(),
{
    let all = seq![first] + rest;
    assert(all.drop_last() =~= seq![first] + rest.drop_last());
    assert(all.last() == rest.last());
    if rest.len() == 1 {
        assert(all.drop_last() =~= seq![first]);
        assert(join(all.drop_last(), separator) == first);
        assert(rest[0] == rest.last());
    } else {
        lemma_join_front(first, rest.drop_last(), separator);
        assert(join(all, separator) =~= first + separator + join(rest, separator));
    }
}

/// Joining the segments of a name with the separator gives the name back.
pub proof fn lemma_segments_join(s: Seq<char>)
    ensures
        join(segments(s), NAMESPACE_SEPARATOR@) == s,
    decreases s.len(),
{
    reveal_strlit("::");
    assert(NAMESPACE_SEPARATOR@ =~= seq![':', ':']);
    lemma_next_separator(s, 0);
    match next_separator(s, 0) {
        Some(i) => {
            let rest = s.skip(i + 2);
            lemma_segments_join(rest);
            lemma_segments_nonempty(rest);
            lemma_join_front(s.take(i), segments(rest), NAMESPACE_SEPARATOR@);
            assert(s.take(i) + NAMESPACE_SEPARATOR@ + rest =~= s);
        },
        None => {},
    }
}

/// No segment of a name holds the separator.
pub proof fn lemma_segments_hold_no_separator(s: Seq<char>)
    ensures
        forall|k: int, j: int|
            0 <= k < segments(s).len() ==> !#[trigger] separator_at(segments(s)[k], j),
    decreases s.len(),
{
    lemma_next_separator(s, 0);
    match next_separator(s, 0) {
        Some(i) => {
            let rest = s.skip(i + 2);
            lemma_segments_hold_no_separator(rest);
            assert forall|k: int, j: int| 0 <= k < segments(s).len() implies !#[trigger] separator_at(
                segments(s)[k],
                j,
            ) by {
                if k == 0 {
                    if separator_at(s.take(i), j) {
                        assert(separator_at(s, j));
                    }
                } else {
                    assert(segments(s)[k] == segments(rest)[k - 1]);
                }
            }
        },
        None => {},
    }
}

/// Splits a namespaced name into its segments.
pub fn split_module_name(name: &str) -> (r: Vec<String>)
    ensures
        r.deep_view() == segments(name@),
        r.len() >= 1,
{
    let n = name.unicode_len();
    let mut parts: Vec<String> = Vec::new();
    let mut start: usize = 0;
    let mut i: usize = 0;
    proof {
        assert(name@.skip(0) =~= name@);
        assert(parts.deep_view() =~= Seq::<Seq<char>>::empty());
    }
    while i < n && i + 1 < n
        invariant
            n == name@.len(),
            start <= i <= n,
            segments(name@) == parts.deep_view() + segments(name@.skip(start as int)),
            next_separator(name@.skip(start as int), 0) == next_separator(
                name@.skip(start as int),
                i - start,
            ),
        decreases n - i,
    {
        let ghost tail = name@.skip(start as int);
        let ghost before = parts.deep_view();
        proof {
            assert(tail[i - start] == name@[i as int]);
            assert(tail[i - start + 1] == name@[i + 1]);
        }
        if name.get_char(i) == ':' && name.get_char(i + 1) == ':' {
            proof {
                assert(separator_at(tail, i - start));
                assert(next_separator(tail, 0) == Some(i - start));
                assert(tail.take(i - start) =~= name@.subrange(start as int, i as int));
                assert(tail.skip(i - start + 2) =~= name@.skip(i + 2));
            }
            let ghost piece = name@.subrange(start as int, i as int);
            parts.push(name.substring_char(start, i).to_owned());
            start = i + 2;
            i = start;
            proof {
                assert(parts.deep_view() =~= before.push(piece));
                assert(segments(name@) =~= parts.deep_view() + segments(name@.skip(start as int)));
            }
        } else {
            i = i + 1;
        }
    }
    let ghost tail = name@.skip(start as int);
    let ghost before = parts.deep_view();
    proof {
        assert(next_separator(tail, i - start) is None);
        assert(tail =~= name@.subrange(start as int, n as int));
    }
    parts.push(name.substring_char(start, n).to_owned());
    proof {
        assert(parts.deep_view() =~= before.push(tail));
        assert(segments(name@) =~= parts.deep_view());
    }
    parts
}

/// The file that holds one proposed module: the directories below the
/// output directory, outermost first, the file's name, and its contents.
#[derive(Debug, PartialEq, Eq)]
pub struct ModuleFile {
    pub directories: Vec<String>,
    pub file_name: String,
    pub contents: String,
}

/// The mathematical value of a [`ModuleFile`].
pub struct ModuleFileView {
    pub directories: Seq<Seq<char>>,
    pub file_name: Seq<char>,
    pub contents: Seq<char>,
}

impl View for ModuleFile {
    type V = ModuleFileView;

    open spec fn view(&self) -> ModuleFileView {
        ModuleFileView {
            directories: self.directories.deep_view(),
            file_name: self.file_name@,
            contents: self.contents@,
        }
    }
}

impl DeepView for ModuleFile {
    type V = ModuleFileView;

    open spec fn deep_view(&self) -> ModuleFileView {
        self@
    }
}

/// The file for a module called `name` with the code `code`: all segments
/// of the name but the last are directories, the last segment with the
/// source extension is the file's name, and the code is written as it is.
pub open spec fn file_for(name: Seq<char>, code: Seq<char>) -> ModuleFileView {
    ModuleFileView {
        directories: segments(name).drop_last(),
        file_name: segments(name).last() + SOURCE_EXTENSION@,
        contents: code,
    }
}

/// The files for `modules`, one each, in order.
pub open spec fn files_for(modules: Seq<NewModuleView>) -> Seq<ModuleFileView> {
    Seq::new(modules.len(), |i: int| file_for(modules[i].name, modules[i].suggested_code))
}

/// The path of `file` below `base`, for display: the base, the directories
/// and the file's name, a slash between neighbours.
pub open spec fn displayed_path(base: Seq<char>, file: ModuleFileView) -> Seq<char> {
    join(seq![base] + file.directories + seq![file.file_name], PATH_SEPARATOR@)
}

/// The directory that a proposal for the module `name` is written to where
/// the caller names none.
pub open spec fn default_directory(name: Seq<char>) -> Seq<char> {
    OUTPUT_PREFIX@ + name
}

/// The directory that a proposal for the module `name` is written to where
/// the caller names none.
pub fn default_output_directory(name: &str) -> (r: String)
    ensures
        r@ == default_directory(name@),
{
    let mut out = String::from_str(OUTPUT_PREFIX);
    out.append(name);
    out
}

/// The failure to read or write `path`, with the system's own words: the
/// error names the failing path.
pub fn io_failure(path: &str, detail: &str) -> (r: Error)
    ensures
        r@ == ErrorView::IOError(path@ + FAILURE_SEPARATOR@ + detail@),
{
    let mut text = String::from_str(path);
    text.append(FAILURE_SEPARATOR);
    text.append(detail);
    Error::IOError(text)
}

/// Maps one proposed module to its file.
pub fn module_file(module: &NewModuleProposal) -> (r: ModuleFile)
    ensures
        r@ == file_for(module@.name, module@.suggested_code),
{
    let mut directories = split_module_name(module.name.as_str());
    let ghost all = directories.deep_view();
    let last = directories.pop();
    assert(directories.deep_view() =~= all.drop_last());
    let mut file_name = match last {
        Some(segment) => segment,
        None => String::new(),
    };
    file_name.append(SOURCE_EXTENSION);
    ModuleFile { directories, file_name, contents: module.suggested_code.clone() }
}

/// Maps every module of `proposal` to its file, in the order in which the
/// files are to be written.
pub fn plan_files(proposal: &RefactoringProposal) -> (r: Vec<ModuleFile>)
    ensures
        r.deep_view() == files_for(proposal@.suggested_modules),
{
    let mut files: Vec<ModuleFile> = Vec::new();
    let mut i: usize = 0;
    while i < proposal.suggested_modules.len()
        invariant
            i <= proposal.suggested_modules.len(),
            files.len() == i,
            forall|j: int|
                0 <= j < i ==> (#[trigger] files[j])@ == file_for(
                    proposal.suggested_modules[j]@.name,
                    proposal.suggested_modules[j]@.suggested_code,
                ),
        decreases proposal.suggested_modules.len() - i,
    {
        files.push(module_file(&proposal.suggested_modules[i]));
        i = i + 1;
    }
    assert(files.deep_view() =~= files_for(proposal@.suggested_modules));
    files
}

/// The path of `file` below `base`, for display.
pub fn display_path(base: &str, file: &ModuleFile) -> (r: String)
    ensures
        r@ == displayed_path(base@, file@),
{
    let mut parts: Vec<String> = Vec::new();
    parts.push(base.to_owned());
    let mut i: usize = 0;
    while i < file.directories.len()
        invariant
            i <= file.directories.len(),
            parts.len() == i + 1,
            parts[0]@ == base@,
            forall|j: int| 0 <= j < i ==> parts[j + 1]@ == file.directories[j]@,
        decreases file.directories.len() - i,
    {
        parts.push(file.directories[i].clone());
        i = i + 1;
    }
    parts.push(file.file_name.clone());
    assert(parts.deep_view() =~= seq![base@] + file@.directories + seq![file@.file_name]);
    join_strings(&parts, PATH_SEPARATOR)
}

} // verus!
