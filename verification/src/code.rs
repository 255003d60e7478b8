//! A code submission and the rules it must meet before any work is done
//! for it.

use crate::errors::{ApiError, ApiErrorView};
use crate::names::{acceptable_name, is_acceptable_name};
use vstd::prelude::*;
use vstd::string::*;

verus! {

/// One file of a submission: its name, without extension, and its text.
#[derive(Debug, PartialEq, Eq)]
pub struct SourceUnit {
    pub name: String,
    pub content: String,
}

/// A [`SourceUnit`] with its texts as sequences of characters.
pub struct SourceUnitView {
    pub name: Seq<char>,
    pub content: Seq<char>,
}

impl View for SourceUnit {
    type V = SourceUnitView;

    open spec fn view(&self) -> SourceUnitView {
        SourceUnitView { name: self.name@, content: self.content@ }
    }
}

/// The files of a list, each by its view.
pub open spec fn units_view(units: Seq<SourceUnit>) -> Seq<SourceUnitView> {
    Seq::new(units.len(), |i: int| units[i]@)
}

/// A submission: source files, test files, and the name of the package
/// they form.
///
/// Each list stands for a mapping from names to texts, so a name is meant
/// to occur once in it; see [`CodeView::unique_names`]. The order of a list
/// carries no meaning, but it is kept: files are written, read back and
/// returned in the order in which they were submitted.
#[derive(Debug, PartialEq, Eq)]
pub struct Code {
    pub sources: Vec<SourceUnit>,
    pub tests: Vec<SourceUnit>,
    pub name: String,
}

/// A [`Code`] with its texts as sequences of characters.
pub struct CodeView {
    pub sources: Seq<SourceUnitView>,
    pub tests: Seq<SourceUnitView>,
    pub name: Seq<char>,
}

impl View for Code {
    type V = CodeView;

    open spec fn view(&self) -> CodeView {
        CodeView {
            sources: units_view(self.sources@),
            tests: units_view(self.tests@),
            name: self.name@,
        }
    }
}

/// What the toolchain is asked to do with a package.
#[derive(Debug, Clone, Copy, PartialEq, Eq, Structural)]
pub enum BuildType {
    Build,
    Test,
}

/// The output of a toolchain run, as handed back to the client.
#[derive(Debug, PartialEq, Eq)]
pub struct BuildResult {
    pub stdout: String,
    pub stderr: String,
}

/// A [`BuildResult`] with its texts as sequences of characters.
pub struct BuildResultView {
    pub stdout: Seq<char>,
    pub stderr: Seq<char>,
}

impl View for BuildResult {
    type V = BuildResultView;

    open spec fn view(&self) -> BuildResultView {
        BuildResultView { stdout: self.stdout@, stderr: self.stderr@ }
    }
}

/// The message for a submission of more than one file.
pub open spec fn too_many_files_message() -> Seq<char> {
    "Only one file is supported at the moment"@
}

/// What is wrong with a file name, if anything: the message names the
/// fault and repeats the name.
pub open spec fn name_error(name: Seq<char>) -> Option<Seq<char>> {
    if name.len() == 0 {
        Some("File name is empty: "@ + name)
    } else if !acceptable_name(name) {
        Some("File name is not valid: "@ + name)
    } else {
        None
    }
}

/// The complaint about the first file from position `from` on whose name is
/// at fault.
pub open spec fn first_name_error(units: Seq<SourceUnitView>, from: int) -> Option<Seq<char>>
    decreases units.len() - from,
{
    if from < 0 || from >= units.len() {
        None
    } else if name_error(units[from].name) is Some {
        name_error(units[from].name)
    } else {
        first_name_error(units, from + 1)
    }
}

impl CodeView {
    /// How many files the submission holds.
    pub open spec fn number_of_files(self) -> nat {
        self.sources.len() + self.tests.len()
    }

    /// Why the submission is turned away, if it is: more than one file, or
    /// else the first faulty name, sources before tests.
    pub open spec fn validation_error(self) -> Option<Seq<char>> {
        if self.number_of_files() > 1 {
            Some(too_many_files_message())
        } else if first_name_error(self.sources, 0) is Some {
            first_name_error(self.sources, 0)
        } else {
            first_name_error(self.tests, 0)
        }
    }

    /// The submission may be worked on.
    pub open spec fn accepted(self) -> bool {
        self.validation_error() is None
    }

    /// No two source files share a name, and no two test files.
    pub open spec fn unique_names(self) -> bool {
        distinct_names(self.sources) && distinct_names(self.tests)
    }
}

/// Checks one file name.
fn check_name(name: &str) -> (res: Result<(), String>)
    ensures
        res is Ok <==> name_error(name@) is None,
        res matches Err(m) ==> name_error(name@) == Some(m@),
{
    if name.is_empty() {
        return Err(String::from_str("File name is empty: ").concat(name));
    }
    if !is_acceptable_name(name) {
        return Err(String::from_str("File name is not valid: ").concat(name));
    }
    Ok(())
}

/// Checks the names of a list of files, in order.
fn check_names(units: &Vec<SourceUnit>) -> (res: Result<(), String>)
    ensures
        res is Ok <==> first_name_error(units_view(units@), 0) is None,
        res matches Err(m) ==> first_name_error(units_view(units@), 0) == Some(m@),
{
    let mut i: usize = 0;
    while i < units.len()
        invariant
            0 <= i <= units.len(),
            first_name_error(units_view(units@), 0) == first_name_error(units_view(units@), i as int),
        decreases units.len() - i,
    {
        assert(units_view(units@)[i as int] == units[i as int]@);
        match check_name(units[i].name.as_str()) {
            Err(m) => {
                return Err(m);
            },
            Ok(()) => {},
        }
        i = i + 1;
    }
    Ok(())
}

/// The first position from `from` on at which a file called `name` stands,
/// or the length of the list where there is none.
pub open spec fn position_of(units: Seq<SourceUnitView>, name: Seq<char>, from: int) -> int
    decreases units.len() - from,
{
    if from < 0 || from >= units.len() {
        units.len() as int
    } else if units[from].name == name {
        from
    } else {
        position_of(units, name, from + 1)
    }
}

/// The list with `unit` entered as into a mapping: in place of the first
/// file of its name, or at the end where no file has its name.
pub open spec fn with_unit(units: Seq<SourceUnitView>, unit: SourceUnitView) -> Seq<
    SourceUnitView,
> {
    let at = position_of(units, unit.name, 0);
    if at < units.len() {
        units.update(at, unit)
    } else {
        units.push(unit)
    }
}

/// No two files of the list share a name.
pub open spec fn distinct_names(units: Seq<SourceUnitView>) -> bool {
    forall|i: int, j: int|
        0 <= i < j < units.len() ==> (#[trigger] units[i]).name != (#[trigger] units[j]).name
}

/// Where `position_of` points: at a file of that name with none before it
/// from `from` on, or past the end if there is no such file.
pub proof fn lemma_position_of(units: Seq<SourceUnitView>, name: Seq<char>, from: int)
    requires
        0 <= from <= units.len(),
    ensures
        from <= position_of(units, name, from) <= units.len(),
        position_of(units, name, from) < units.len() ==> units[position_of(units, name, from)].name
            == name,
        forall|k: int|
            from <= k < position_of(units, name, from) ==> (#[trigger] units[k]).name != name,
    decreases units.len() - from,
{
    if from < units.len() && units[from].name != name {
        lemma_position_of(units, name, from + 1);
    }
}

/// Entering a file into a list of distinct names leaves the names
/// distinct.
pub proof fn lemma_with_unit_keeps_names_distinct(units: Seq<SourceUnitView>, unit: SourceUnitView)
    requires
        distinct_names(units),
    ensures
        distinct_names(with_unit(units, unit)),
{
    lemma_position_of(units, unit.name, 0);
    let at = position_of(units, unit.name, 0);
    let after = with_unit(units, unit);
    assert forall|i: int, j: int| 0 <= i < j < after.len() implies (#[trigger] after[i]).name != (
    #[trigger] after[j]).name by {
        if at < units.len() {
            assert(after[i].name == units[i].name);
            assert(after[j].name == units[j].name);
        } else {
            if j < units.len() {
                assert(after[i] == units[i] && after[j] == units[j]);
            } else {
                assert(after[i] == units[i]);
            }
        }
    }
}

/// Enters a file into a list as into a mapping.
fn insert_unit(units: &mut Vec<SourceUnit>, name: String, content: String)
    ensures
        units_view(final(units)@) == with_unit(
            units_view(old(units)@),
            SourceUnitView { name: name@, content: content@ },
        ),
{
    let ghost before = units_view(units@);
    let mut i: usize = 0;
    while i < units.len()
        invariant
            0 <= i <= units.len(),
            units_view(units@) == before,
            before == units_view(old(units)@),
            position_of(before, name@, 0) == position_of(before, name@, i as int),
        decreases units.len() - i,
    {
        assert(before[i as int] == units@[i as int]@);
        if units[i].name == name {
            assert(position_of(before, name@, i as int) == i);
            units.set(i, SourceUnit { name, content });
            assert(units_view(units@) =~= before.update(
                i as int,
                SourceUnitView { name: name@, content: content@ },
            ));
            return ;
        }
        i = i + 1;
    }
    units.push(SourceUnit { name, content });
    assert(units_view(units@) =~= before.push(SourceUnitView { name: name@, content: content@ }));
}

impl Code {
    /// A submission without files for a package called `name`.
    pub fn new(name: String) -> (code: Code)
        ensures
            code@ == (CodeView { sources: Seq::empty(), tests: Seq::empty(), name: name@ }),
    {
        let code = Code { sources: Vec::new(), tests: Vec::new(), name };
        assert(code@.sources =~= Seq::empty());
        assert(code@.tests =~= Seq::empty());
        code
    }

    /// Enters a source file: in place of the source of that name, if there
    /// is one, else as a further source.
    pub fn insert_source(&mut self, name: String, content: String)
        ensures
            final(self)@ == (CodeView {
                sources: with_unit(
                    old(self)@.sources,
                    SourceUnitView { name: name@, content: content@ },
                ),
                ..old(self)@
            }),
    {
        insert_unit(&mut self.sources, name, content);
    }

    /// Enters a test file: in place of the test of that name, if there is
    /// one, else as a further test.
    pub fn insert_test(&mut self, name: String, content: String)
        ensures
            final(self)@ == (CodeView {
                tests: with_unit(
                    old(self)@.tests,
                    SourceUnitView { name: name@, content: content@ },
                ),
                ..old(self)@
            }),
    {
        insert_unit(&mut self.tests, name, content);
    }

    /// How many files the submission holds, sources and tests together.
    pub fn number_of_files(&self) -> (n: usize)
        requires
            self@.number_of_files() <= usize::MAX,
        ensures
            n == self@.number_of_files(),
    {
        self.sources.len() + self.tests.len()
    }

    /// Whether the submission holds more than one file.
    pub fn has_too_many_files(&self) -> (many: bool)
        ensures
            many == (self@.number_of_files() > 1),
    {
        if self.sources.len() > 1 || self.tests.len() > 1 {
            true
        } else {
            self.number_of_files() > 1
        }
    }

    /// Turns away a submission of more than one file, or with a file whose
    /// name is empty or not safe to use in a file system.
    pub fn validate_file_names(&self) -> (res: Result<(), ApiError>)
        ensures
            res is Ok <==> self@.accepted(),
            res matches Err(e) ==> self@.validation_error() matches Some(m)
                && e@ == ApiErrorView::BadRequest(m),
    {
        if self.has_too_many_files() {
            return Err(
                ApiError::BadRequest(String::from_str("Only one file is supported at the moment")),
            );
        }
        match check_names(&self.sources) {
            Err(m) => {
                return Err(ApiError::BadRequest(m));
            },
            Ok(()) => {},
        }
        match check_names(&self.tests) {
            Err(m) => Err(ApiError::BadRequest(m)),
            Ok(()) => Ok(()),
        }
    }
}

} // verus!
