use vstd::prelude::*;

use crate::text::{before_first, ends_with, str_ends_with, str_first_index_of, first_index_of};

verus! {

/// The folders in which the editor keeps its files.
#[derive(Clone, Copy, Debug, PartialEq, Eq, Structural)]
pub enum Folder {
    SavedEffects,
    ExportedEffects,
}

impl Folder {
    /// The folder's path relative to the working directory, as a view.
    pub open spec fn path_view(self) -> Seq<char> {
        match self {
            Folder::SavedEffects => "saved_effects/"@,
            Folder::ExportedEffects => "exported_effects/"@,
        }
    }

    /// The folder's path, relative to the working directory, with a trailing slash.
    pub fn to_path(&self) -> (path: &'static str)
        ensures
            path@ == self.path_view(),
    {
        match self {
            Folder::SavedEffects => "saved_effects/",
            Folder::ExportedEffects => "exported_effects/",
        }
    }
}

/// The ending of the files in which the editor saves its projects.
pub const PROJECT_FILE_SUFFIX: &'static str = ".omagari.ron";

/// The ending of the files to which the editor exports its effects.
pub const EXPORT_FILE_SUFFIX: &'static str = ".hanabi.ron";

/// The pattern that a project's file name must match before the editor saves under it.
pub const PROJECT_FILENAME_PATTERN: &'static str = ".*\\.omagari\\.ron";

/// Whether the `regex` crate accepts `pattern`: `regex::Regex::new(pattern)` is `Ok`.
/// The answer depends on the pattern alone.
pub uninterp spec fn regex_compiles(pattern: Seq<char>) -> bool;

/// Whether a compiled `pattern` finds a match anywhere in `haystack`, that is, whether
/// `regex::Regex::captures(haystack)` is `Some`. The answer depends on the two texts alone.
pub uninterp spec fn regex_finds_match(pattern: Seq<char>, haystack: Seq<char>) -> bool;

#[verifier::external_type_specification]
#[verifier::external_body]
pub struct ExRegexError(regex::Error);

/// Compiles `pattern` with `regex::Regex::new` and searches `haystack` with
/// `regex::Regex::captures`. Trusted: the result is `Ok` exactly when the pattern compiles,
/// and then holds whether a match was found, both named above since the regex semantics
/// are not restated here.
#[verifier::external_body]
fn regex_search(pattern: &str, haystack: &str) -> (r: Result<bool, regex::Error>)
    ensures
        r is Ok <==> regex_compiles(pattern@),
        r matches Ok(found) ==> found == regex_finds_match(pattern@, haystack@),
{
    match regex::Regex::new(pattern) {
        Ok(re) => Ok(re.captures(haystack).is_some()),
        Err(e) => Err(e),
    }
}

/// Whether `filename` is acceptable as the name of a saved project: the project file name
/// pattern finds a match in it. A pattern that does not compile accepts no name.
pub fn validate_project_filename(filename: &str) -> (ok: bool)
    ensures
        ok == (regex_compiles(PROJECT_FILENAME_PATTERN@) && regex_finds_match(
            PROJECT_FILENAME_PATTERN@,
            filename@,
        )),
{
    match regex_search(PROJECT_FILENAME_PATTERN, filename) {
        Ok(found) => found,
        Err(_) => false,
    }
}

/// Whether a file name found in the saved-projects folder names a project.
pub fn is_project_file_name(name: &str) -> (r: bool)
    ensures
        r == ends_with(name@, PROJECT_FILE_SUFFIX@),
{
    str_ends_with(name, PROJECT_FILE_SUFFIX)
}

/// The names among `names` that name projects, in their order.
pub open spec fn project_files(names: Seq<Seq<char>>) -> Seq<Seq<char>>
    decreases names.len(),
{
    if names.len() == 0 {
        Seq::empty()
    } else {
        let rest = project_files(names.drop_last());
        if ends_with(names.last(), PROJECT_FILE_SUFFIX@) {
            rest.push(names.last())
        } else {
            rest
        }
    }
}

/// The views of a list of strings.
pub open spec fn views(names: Seq<String>) -> Seq<Seq<char>> {
    names.map_values(|s: String| s@)
}

/// Keeps the names of project files, in the order in which they were listed.
pub fn filter_project_files(names: Vec<String>) -> (files: Vec<String>)
    ensures
        views(files@) == project_files(views(names@)),
        views(files@) == views(names@).filter(|n: Seq<char>| ends_with(n, PROJECT_FILE_SUFFIX@)),
{
    let mut files: Vec<String> = Vec::new();
    let n = names.len();
    let mut i: usize = 0;
    while i < n
        invariant
            n == names.len(),
            i <= n,
            views(files@) == project_files(views(names@).take(i as int)),
        decreases n - i,
    {
        let name = &names[i];
        proof {
            assert(views(names@).take(i + 1).drop_last() =~= views(names@).take(i as int));
            assert(views(names@).take(i + 1).last() == name@);
        }
        if is_project_file_name(name.as_str()) {
            files.push(name.clone());
            assert(views(files@) =~= project_files(views(names@).take(i + 1)));
        } else {
            assert(views(files@) =~= project_files(views(names@).take(i + 1)));
        }
        i = i + 1;
    }
    assert(views(names@).take(n as int) =~= views(names@));
    proof {
        lemma_project_files_filter(views(names@));
    }
    files
}

/// Listing projects keeps exactly the names that end with the project ending, in the
/// order in which they were listed.
pub proof fn lemma_project_files_filter(names: Seq<Seq<char>>)
    ensures
        project_files(names) == names.filter(|n: Seq<char>| ends_with(n, PROJECT_FILE_SUFFIX@)),
    decreases names.len(),
{
    reveal(Seq::filter);
    if names.len() > 0 {
        lemma_project_files_filter(names.drop_last());
    }
}

/// Every listed project ends with the project ending, and every name that does is listed.
pub proof fn lemma_project_files_exact(names: Seq<Seq<char>>)
    ensures
        forall|k: int|
            0 <= k < project_files(names).len() ==> ends_with(
                #[trigger] project_files(names)[k],
                ".omagari.ron"@,
            ),
        forall|j: int|
            0 <= j < names.len() && ends_with(names[j], ".omagari.ron"@) ==> #[trigger] project_files(
                names,
            ).contains(names[j]),
        project_files(names).len() <= names.len(),
{
    broadcast use vstd::seq_lib::group_filter_ensures;

    lemma_project_files_filter(names);
    let pred = |n: Seq<char>| ends_with(n, PROJECT_FILE_SUFFIX@);
    assert forall|j: int| 0 <= j < names.len() && ends_with(names[j], ".omagari.ron"@) implies #[trigger] project_files(
        names,
    ).contains(names[j]) by {
        assert(pred(names[j]));
        names.lemma_filter_contains(pred, j);
    }
    assert forall|k: int| 0 <= k < project_files(names).len() implies ends_with(
        #[trigger] project_files(names)[k],
        ".omagari.ron"@,
    ) by {
        names.lemma_filter_pred(pred, k);
    }
    names.lemma_filter_len(pred);
}

/// The file names the editor uses: its folders, project and export endings, and the pattern
/// project names must match.
pub proof fn lemma_file_names()
    ensures
        Folder::SavedEffects.path_view() == "saved_effects/"@,
        Folder::ExportedEffects.path_view() == "exported_effects/"@,
        PROJECT_FILE_SUFFIX@ == ".omagari.ron"@,
        EXPORT_FILE_SUFFIX@ == ".hanabi.ron"@,
        PROJECT_FILENAME_PATTERN@ == ".*\\.omagari\\.ron"@,
{
}

/// The name of the file to which a project saved as `filename` is exported: the part
/// of `filename` before its first dot, followed by the export ending.
pub open spec fn export_file_name(filename: Seq<char>) -> Seq<char> {
    before_first(filename, '.') + EXPORT_FILE_SUFFIX@
}

/// Computes the name of the file to which the effects of `filename` are exported.
pub fn exported_file_name(filename: &str) -> (name: String)
    ensures
        name@ == export_file_name(filename@),
        ({
            let k = name@.len() - 11;
            &&& 0 <= k <= filename@.len()
            &&& name@.take(k) == filename@.take(k)
            &&& name@.skip(k) == ".hanabi.ron"@
            &&& forall|j: int| 0 <= j < k ==> filename@[j] != '.'
            &&& k < filename@.len() ==> filename@[k] == '.'
        }),
{
    let k = str_first_index_of(filename, '.');
    proof {
        crate::text::lemma_first_index_of(filename@, '.');
    }
    let stem = filename.substring_char(0, k);
    let name = String::from_str(stem);
    let name = name.concat(EXPORT_FILE_SUFFIX);
    assert(stem@ =~= before_first(filename@, '.'));
    proof {
        lemma_export_name_shape(filename@);
    }
    name
}

/// Exporting again under the name of an export gives the same name back: the export
/// name's own part before its first dot is the original stem.
pub proof fn lemma_export_name_idempotent(filename: Seq<char>)
    ensures
        export_file_name(export_file_name(filename)) == export_file_name(filename),
{
    let stem = before_first(filename, '.');
    let e = export_file_name(filename);
    crate::text::lemma_first_index_of(filename, '.');
    reveal_strlit(".hanabi.ron");
    assert(e[stem.len() as int] == '.');
    assert forall|j: int| 0 <= j < stem.len() implies e[j] != '.' by {
        assert(e[j] == filename[j]);
    }
    crate::text::lemma_first_index_of_unique(e, '.', stem.len() as int);
    assert(before_first(e, '.') =~= stem);
}

/// The part of an export name before its first dot holds no dot.
pub proof fn lemma_export_stem_has_no_dot(filename: Seq<char>)
    ensures
        forall|j: int|
            0 <= j < first_index_of(filename, '.') ==> #[trigger] export_file_name(filename)[j]
                != '.',
        ends_with(export_file_name(filename), EXPORT_FILE_SUFFIX@),
{
    crate::text::lemma_first_index_of(filename, '.');
    let e = export_file_name(filename);
    let stem = before_first(filename, '.');
    assert(e.subrange(e.len() - EXPORT_FILE_SUFFIX@.len(), e.len() as int) =~= EXPORT_FILE_SUFFIX@);
    assert forall|j: int| 0 <= j < first_index_of(filename, '.') implies e[j] != '.' by {
        assert(e[j] == stem[j]);
    }
}

/// An export name is the project name up to (not including) its first dot, or all of it
/// when it has none, followed by the export ending.
pub proof fn lemma_export_name_shape(filename: Seq<char>)
    ensures
        ({
            let e = export_file_name(filename);
            let k = e.len() - 11;
            &&& 0 <= k <= filename.len()
            &&& e.take(k) == filename.take(k)
            &&& e.skip(k) == ".hanabi.ron"@
            &&& forall|j: int| 0 <= j < k ==> filename[j] != '.'
            &&& k < filename.len() ==> filename[k] == '.'
        }),
{
    reveal_strlit(".hanabi.ron");
    crate::text::lemma_first_index_of(filename, '.');
    let e = export_file_name(filename);
    let k = first_index_of(filename, '.') as int;
    assert(e.len() - 11 == k);
    assert(e.take(k) =~= filename.take(k));
    assert(e.skip(k) =~= ".hanabi.ron"@);
}

} // verus!
