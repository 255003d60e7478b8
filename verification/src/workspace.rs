//! The directory tree that stands for a submission while the toolchain
//! works on it.
//!
//! A workspace is a fresh directory that one request owns. It holds the
//! project directory with the manifest, a directory of sources and one of
//! tests. The library names places in it; the driver knows where the
//! workspace is and turns places into paths.

use crate::code::{Code, CodeView, SourceUnit, SourceUnitView, units_view};
use crate::errors::{ApiError, ApiErrorView};
use crate::text::texts_view;
use crate::toolchain::{base_toml_file, manifest_text, PRETTIER_DEFAULT_CONFIG};
use vstd::prelude::*;
use vstd::string::*;

verus! {

/// The directories of a workspace.
#[derive(Debug, Clone, Copy, PartialEq, Eq, Structural)]
pub enum Folder {
    /// The workspace itself.
    Root,
    /// The project, directly under the root.
    Project,
    /// The sources, under the project.
    Sources,
    /// The tests, under the project.
    Tests,
}

/// The name of the project directory.
pub const PROJECT_DIR: &'static str = "temp";

/// The name of the directory of sources.
pub const SOURCES_DIR: &'static str = "sources";

/// The name of the directory of tests.
pub const TESTS_DIR: &'static str = "tests";

/// The name of the manifest.
pub const MANIFEST_FILE: &'static str = "Move.toml";

/// The name of the formatter's style configuration.
pub const STYLE_FILE: &'static str = ".prettierrc";

/// The extension of every source and test file.
pub const SOURCE_EXTENSION: &'static str = ".move";

/// The folders to create inside a fresh workspace, in this order: a folder
/// comes after the one it lies in.
pub open spec fn folders_to_create() -> Seq<Folder> {
    seq![Folder::Project, Folder::Sources, Folder::Tests]
}

impl Folder {
    /// The folders to create inside a fresh workspace, in order.
    pub fn to_create() -> (folders: Vec<Folder>)
        ensures
            folders@ == folders_to_create(),
    {
        let mut folders: Vec<Folder> = Vec::new();
        folders.push(Folder::Project);
        folders.push(Folder::Sources);
        folders.push(Folder::Tests);
        assert(folders@ =~= folders_to_create());
        folders
    }

    /// The directory names that lead from the root to this folder.
    pub open spec fn spec_segments(self) -> Seq<Seq<char>> {
        match self {
            Folder::Root => seq![],
            Folder::Project => seq![PROJECT_DIR@],
            Folder::Sources => seq![PROJECT_DIR@, SOURCES_DIR@],
            Folder::Tests => seq![PROJECT_DIR@, TESTS_DIR@],
        }
    }

    /// The directory names that lead from the root to this folder.
    pub fn segments(&self) -> (names: Vec<&'static str>)
        ensures
            names@.len() == self.spec_segments().len(),
            forall|i: int| 0 <= i < names@.len() ==> (#[trigger] names@[i])@ == self.spec_segments()[i],
    {
        let mut names: Vec<&'static str> = Vec::new();
        match self {
            Folder::Root => {},
            Folder::Project => {
                names.push(PROJECT_DIR);
            },
            Folder::Sources => {
                names.push(PROJECT_DIR);
                names.push(SOURCES_DIR);
            },
            Folder::Tests => {
                names.push(PROJECT_DIR);
                names.push(TESTS_DIR);
            },
        }
        names
    }
}

/// A file in a workspace: the folder it lies in and its name there.
#[derive(Debug, PartialEq, Eq)]
pub struct WorkspacePath {
    pub folder: Folder,
    pub file_name: String,
}

/// The model of [`WorkspacePath`]: the same value, with texts and lists as sequences.
pub struct WorkspacePathView {
    pub folder: Folder,
    pub file_name: Seq<char>,
}

impl View for WorkspacePath {
    type V = WorkspacePathView;

    open spec fn view(&self) -> WorkspacePathView {
        WorkspacePathView { folder: self.folder, file_name: self.file_name@ }
    }
}

/// A file to write into a workspace.
#[derive(Debug, PartialEq, Eq)]
pub struct WorkspaceFile {
    pub path: WorkspacePath,
    pub content: String,
}

/// The model of [`WorkspaceFile`]: the same value, with texts and lists as sequences.
pub struct WorkspaceFileView {
    pub path: WorkspacePathView,
    pub content: Seq<char>,
}

impl View for WorkspaceFile {
    type V = WorkspaceFileView;

    open spec fn view(&self) -> WorkspaceFileView {
        WorkspaceFileView { path: self.path@, content: self.content@ }
    }
}

/// A list of files, each by its view.
pub open spec fn files_view(files: Seq<WorkspaceFile>) -> Seq<WorkspaceFileView> {
    Seq::new(files.len(), |i: int| files[i]@)
}

/// A list of paths, each by its view.
pub open spec fn paths_view(paths: Seq<WorkspacePath>) -> Seq<WorkspacePathView> {
    Seq::new(paths.len(), |i: int| paths[i]@)
}

/// Where the file of a unit lies: in `folder`, under the unit's name with
/// the source extension.
pub open spec fn unit_path(folder: Folder, unit: SourceUnitView) -> WorkspacePathView {
    WorkspacePathView { folder, file_name: unit.name + SOURCE_EXTENSION@ }
}

/// Where the files of `units` lie in `folder`, in order.
pub open spec fn unit_paths(folder: Folder, units: Seq<SourceUnitView>) -> Seq<WorkspacePathView> {
    Seq::new(units.len(), |i: int| unit_path(folder, units[i]))
}

/// The files of `units` in `folder`, in order.
pub open spec fn unit_files(folder: Folder, units: Seq<SourceUnitView>) -> Seq<WorkspaceFileView> {
    Seq::new(
        units.len(),
        |i: int| WorkspaceFileView { path: unit_path(folder, units[i]), content: units[i].content },
    )
}

/// The manifest of a package called `name`.
pub open spec fn manifest_file(name: Seq<char>) -> WorkspaceFileView {
    WorkspaceFileView {
        path: WorkspacePathView { folder: Folder::Project, file_name: MANIFEST_FILE@ },
        content: manifest_text(name),
    }
}

/// Where the formatter's style configuration lies.
pub open spec fn style_path() -> WorkspacePathView {
    WorkspacePathView { folder: Folder::Root, file_name: STYLE_FILE@ }
}

/// The formatter's style configuration.
pub open spec fn style_file() -> WorkspaceFileView {
    WorkspaceFileView { path: style_path(), content: PRETTIER_DEFAULT_CONFIG@ }
}

impl CodeView {
    /// The files of the project: the manifest, then one file for each source
    /// and one for each test.
    pub open spec fn project_files(self) -> Seq<WorkspaceFileView> {
        seq![manifest_file(self.name)] + unit_files(Folder::Sources, self.sources) + unit_files(
            Folder::Tests,
            self.tests,
        )
    }

    /// The files that the formatter may have rewritten, sources before
    /// tests.
    pub open spec fn formatted_paths(self) -> Seq<WorkspacePathView> {
        unit_paths(Folder::Sources, self.sources) + unit_paths(Folder::Tests, self.tests)
    }

    /// The submission with the texts of its files replaced by `contents`,
    /// which are in the order of [`CodeView::formatted_paths`].
    pub open spec fn with_contents(self, contents: Seq<Seq<char>>) -> CodeView {
        CodeView {
            sources: Seq::new(
                self.sources.len(),
                |i: int| SourceUnitView { name: self.sources[i].name, content: contents[i] },
            ),
            tests: Seq::new(
                self.tests.len(),
                |i: int|
                    SourceUnitView {
                        name: self.tests[i].name,
                        content: contents[self.sources.len() + i],
                    },
            ),
            name: self.name,
        }
    }
}

/// The message for a read-back that does not match the submission.
pub open spec fn read_back_mismatch_message() -> Seq<char> {
    "The files read back do not match the submission"@
}

/// Adds the file of each unit, in order.
fn push_unit_files(files: &mut Vec<WorkspaceFile>, folder: Folder, units: &Vec<SourceUnit>)
    ensures
        files_view(final(files)@) == files_view(old(files)@) + unit_files(
            folder,
            units_view(units@),
        ),
{
    let ghost before = files_view(files@);
    let mut i: usize = 0;
    while i < units.len()
        invariant
            0 <= i <= units.len(),
            files_view(files@) == before + unit_files(folder, units_view(units@)).take(i as int),
        decreases units.len() - i,
    {
        let unit = &units[i];
        let mut file_name = unit.name.clone();
        file_name.append(SOURCE_EXTENSION);
        let file = WorkspaceFile {
            path: WorkspacePath { folder, file_name },
            content: unit.content.clone(),
        };
        let ghost prior = files_view(files@);
        files.push(file);
        proof {
            let all = unit_files(folder, units_view(units@));
            assert(units_view(units@)[i as int] == units@[i as int]@);
            assert(file@ == all[i as int]);
            assert(files_view(files@) =~= prior.push(file@));
            assert(all.take(i as int + 1) =~= all.take(i as int).push(all[i as int]));
        }
        i = i + 1;
    }
    proof {
        let all = unit_files(folder, units_view(units@));
        assert(all.take(i as int) =~= all);
    }
}

/// Adds the path of each unit's file, in order.
fn push_unit_paths(paths: &mut Vec<WorkspacePath>, folder: Folder, units: &Vec<SourceUnit>)
    ensures
        paths_view(final(paths)@) == paths_view(old(paths)@) + unit_paths(
            folder,
            units_view(units@),
        ),
{
    let ghost before = paths_view(paths@);
    let mut i: usize = 0;
    while i < units.len()
        invariant
            0 <= i <= units.len(),
            paths_view(paths@) == before + unit_paths(folder, units_view(units@)).take(i as int),
        decreases units.len() - i,
    {
        let mut file_name = units[i].name.clone();
        file_name.append(SOURCE_EXTENSION);
        let path = WorkspacePath { folder, file_name };
        let ghost prior = paths_view(paths@);
        paths.push(path);
        proof {
            let all = unit_paths(folder, units_view(units@));
            assert(units_view(units@)[i as int] == units@[i as int]@);
            assert(path@ == all[i as int]);
            assert(paths_view(paths@) =~= prior.push(path@));
            assert(all.take(i as int + 1) =~= all.take(i as int).push(all[i as int]));
        }
        i = i + 1;
    }
    proof {
        let all = unit_paths(folder, units_view(units@));
        assert(all.take(i as int) =~= all);
    }
}

/// Pairs the names of `units` with the texts of `contents` from position
/// `offset` on.
fn with_contents_from(units: &Vec<SourceUnit>, contents: &Vec<String>, offset: usize) -> (out: Vec<
    SourceUnit,
>)
    requires
        offset + units.len() <= contents.len(),
    ensures
        units_view(out@) == Seq::new(
            units.len() as nat,
            |i: int|
                SourceUnitView { name: units_view(units@)[i].name, content: contents@[offset + i]@ },
        ),
{
    let mut out: Vec<SourceUnit> = Vec::new();
    let mut i: usize = 0;
    while i < units.len()
        invariant
            0 <= i <= units.len(),
            offset + units.len() <= contents.len(),
            out.len() == i,
            forall|k: int|
                0 <= k < i ==> (#[trigger] out@[k])@ == (SourceUnitView {
                    name: units@[k].name@,
                    content: contents@[offset + k]@,
                }),
        decreases units.len() - i,
    {
        out.push(SourceUnit { name: units[i].name.clone(), content: contents[offset + i].clone() });
        i = i + 1;
    }
    assert(units_view(out@) =~= Seq::new(
        units.len() as nat,
        |i: int|
            SourceUnitView { name: units_view(units@)[i].name, content: contents@[offset + i]@ },
    ));
    out
}

impl Code {
    /// Lays out the project of this submission: the manifest, the sources
    /// and the tests.
    pub fn project_files(&self) -> (files: Vec<WorkspaceFile>)
        ensures
            files_view(files@) == self@.project_files(),
    {
        let mut files: Vec<WorkspaceFile> = Vec::new();
        files.push(
            WorkspaceFile {
                path: WorkspacePath {
                    folder: Folder::Project,
                    file_name: String::from_str(MANIFEST_FILE),
                },
                content: base_toml_file(self.name.as_str()),
            },
        );
        assert(files_view(files@) =~= seq![manifest_file(self@.name)]);
        push_unit_files(&mut files, Folder::Sources, &self.sources);
        push_unit_files(&mut files, Folder::Tests, &self.tests);
        files
    }

    /// Names the files to read back once the formatter has run.
    pub fn formatted_paths(&self) -> (paths: Vec<WorkspacePath>)
        ensures
            paths_view(paths@) == self@.formatted_paths(),
    {
        let mut paths: Vec<WorkspacePath> = Vec::new();
        assert(paths_view(paths@) =~= Seq::empty());
        push_unit_paths(&mut paths, Folder::Sources, &self.sources);
        push_unit_paths(&mut paths, Folder::Tests, &self.tests);
        assert(paths_view(paths@) =~= self@.formatted_paths());
        paths
    }

    /// Puts the texts read back from the workspace in place of the
    /// submitted ones. `contents` holds one text for each path of
    /// [`Code::formatted_paths`], in that order; anything else is an
    /// error.
    pub fn read_formatted_files(&self, contents: &Vec<String>) -> (res: Result<Code, ApiError>)
        ensures
            res is Ok <==> contents@.len() == self@.number_of_files(),
            res matches Ok(code) ==> code@ == self@.with_contents(texts_view(contents@)),
            res matches Err(e) ==> e@ == ApiErrorView::InternalServerError(
                read_back_mismatch_message(),
            ),
    {
        let n_sources = self.sources.len();
        if contents.len() < n_sources || contents.len() - n_sources != self.tests.len() {
            return Err(
                ApiError::InternalServerError(
                    String::from_str("The files read back do not match the submission"),
                ),
            );
        }
        let sources = with_contents_from(&self.sources, contents, 0);
        let tests = with_contents_from(&self.tests, contents, n_sources);
        let code = Code { sources, tests, name: self.name.clone() };
        proof {
            let want = self@.with_contents(texts_view(contents@));
            assert(code@.sources =~= want.sources);
            assert(code@.tests =~= want.tests);
        }
        Ok(code)
    }
}

} // verus!
