//! The build of the vendored USB stack: what the external build is invoked
//! with, and what its exit means.

use crate::decimal::{decimal, lemma_decimal_injective, render_decimal};
use crate::error::BuildError;
use crate::target::{BuildTarget, TargetModel};
use crate::text::{joined, same_text, texts};
use vstd::prelude::*;
use vstd::string::StringExecFns;

verus! {

/// The directory, below the project's root, in which the external build
/// runs and leaves the archive.
pub const STACK_DIRECTORY: &'static str = "cdcglue";

/// The name under which the archive is linked.
pub const ARCHIVE_NAME: &'static str = "cdcglue";

/// One named variable handed to the external build.
#[derive(Clone, Debug, PartialEq, Eq)]
pub struct BuildVariable {
    pub name: String,
    pub value: String,
}

impl View for BuildVariable {
    type V = (Seq<char>, Seq<char>);

    open spec fn view(&self) -> (Seq<char>, Seq<char>) {
        (self.name@, self.value@)
    }
}

/// The contents of a list of build variables: name and value of each.
pub open spec fn variables(list: Seq<BuildVariable>) -> Seq<(Seq<char>, Seq<char>)> {
    list.map_values(|v: BuildVariable| v@)
}

/// The build variables for a target, in the order in which they are set,
/// each once: chip, architecture, board, the two clocks, the optimisation
/// level, the source files to compile, the stack's location, and the flags
/// that switch on the custom configuration header.
pub open spec fn build_variables_of(t: TargetModel) -> Seq<(Seq<char>, Seq<char>)> {
    seq![
        ("MCU"@, t.chip),
        ("ARCH"@, t.arch),
        ("BOARD"@, t.board),
        ("F_CPU"@, decimal(t.cpu_freq)),
        ("F_USB"@, decimal(t.usb_freq)),
        ("OPTIMIZATION"@, "s"@),
        ("SRC"@, "Descriptors.c $(LUFA_SRC_USB) $(LUFA_SRC_USBCLASS)"@),
        ("LUFA_PATH"@, "../../lufa/LUFA/"@),
        ("CC_FLAGS"@, "-DUSE_LUFA_CONFIG_HEADER -IConfig/"@),
    ]
}

/// The value that a list of variables gives to `name`: that of the last
/// entry with this name, as a later setting replaces an earlier one.
pub open spec fn variable_value(list: Seq<(Seq<char>, Seq<char>)>, name: Seq<char>) -> Option<
    Seq<char>,
>
    decreases list.len(),
{
    if list.len() == 0 {
        None
    } else if list.last().0 == name {
        Some(list.last().1)
    } else {
        variable_value(list.drop_last(), name)
    }
}

fn variable(name: &str, value: &str) -> (v: BuildVariable)
    ensures
        v@ == (name@, value@),
{
    BuildVariable { name: String::from_str(name), value: String::from_str(value) }
}

/// Computes the build variables for a target.
pub fn build_variables(target: &BuildTarget) -> (vars: Vec<BuildVariable>)
    ensures
        variables(vars@) == build_variables_of(target@),
{
    let cpu: String = render_decimal(target.cpu_freq());
    let usb: String = render_decimal(target.usb_freq());
    let mut vars: Vec<BuildVariable> = Vec::new();
    vars.push(variable("MCU", target.chip()));
    vars.push(variable("ARCH", target.arch()));
    vars.push(variable("BOARD", target.board()));
    vars.push(variable("F_CPU", cpu.as_str()));
    vars.push(variable("F_USB", usb.as_str()));
    vars.push(variable("OPTIMIZATION", "s"));
    vars.push(variable("SRC", "Descriptors.c $(LUFA_SRC_USB) $(LUFA_SRC_USBCLASS)"));
    vars.push(variable("LUFA_PATH", "../../lufa/LUFA/"));
    vars.push(variable("CC_FLAGS", "-DUSE_LUFA_CONFIG_HEADER -IConfig/"));
    assert(variables(vars@) =~= build_variables_of(target@));
    vars
}

/// Looks up the value that a list of variables gives to `name`: that of
/// the last entry with this name, or nothing where no entry has it.
pub fn lookup_variable(list: &Vec<BuildVariable>, name: &str) -> (r: Option<String>)
    ensures
        match r {
            Some(value) => variable_value(variables(list@), name@) == Some(value@),
            None => variable_value(variables(list@), name@) is None,
        },
{
    let ghost all = variables(list@);
    let mut i: usize = list.len();
    proof {
        assert(all.take(i as int) =~= all);
    }
    while i > 0
        invariant
            i <= list.len(),
            all == variables(list@),
            variable_value(all, name@) == variable_value(all.take(i as int), name@),
        decreases i,
    {
        proof {
            assert(all.take(i as int).drop_last() =~= all.take(i - 1));
            assert(all.take(i as int).last() == list[i - 1]@);
        }
        i -= 1;
        if same_text(list[i].name.as_str(), name) {
            return Some(list[i].value.clone());
        }
    }
    None
}

/// One run of the external build: the program, its arguments, the directory
/// it runs in and the variables it is given.
#[derive(Clone, Debug, PartialEq, Eq)]
pub struct BuildInvocation {
    pub program: String,
    pub arguments: Vec<String>,
    pub directory: String,
    pub variables: Vec<BuildVariable>,
}

/// The mathematical content of a `BuildInvocation`.
pub ghost struct InvocationModel {
    pub program: Seq<char>,
    pub arguments: Seq<Seq<char>>,
    pub directory: Seq<char>,
    pub variables: Seq<(Seq<char>, Seq<char>)>,
}

impl View for BuildInvocation {
    type V = InvocationModel;

    open spec fn view(&self) -> InvocationModel {
        InvocationModel {
            program: self.program@,
            arguments: texts(self.arguments@),
            directory: self.directory@,
            variables: variables(self.variables@),
        }
    }
}

/// The invocation that builds the stack for a target in `directory`: the
/// library goal of the stack's own build procedure, with the target's build
/// variables.
pub open spec fn build_invocation_of(t: TargetModel, directory: Seq<char>) -> InvocationModel {
    InvocationModel {
        program: "make"@,
        arguments: seq!["lib"@],
        directory,
        variables: build_variables_of(t),
    }
}

/// Computes the invocation that builds the stack for a target.
pub fn build_invocation(target: &BuildTarget, directory: &str) -> (inv: BuildInvocation)
    ensures
        inv@ == build_invocation_of(target@, directory@),
{
    let mut arguments: Vec<String> = Vec::new();
    arguments.push(String::from_str("lib"));
    assert(texts(arguments@) =~= seq!["lib"@]);
    BuildInvocation {
        program: String::from_str("make"),
        arguments,
        directory: String::from_str(directory),
        variables: build_variables(target),
    }
}

/// The static archive that the external build leaves behind.
#[derive(Clone, Debug, PartialEq, Eq)]
pub struct NativeArchive {
    /// The directory that holds the archive.
    pub directory: String,
    /// The name under which the archive is linked.
    pub library: String,
}

/// The mathematical content of a `NativeArchive`.
pub ghost struct ArchiveModel {
    pub directory: Seq<char>,
    pub library: Seq<char>,
}

impl View for NativeArchive {
    type V = ArchiveModel;

    open spec fn view(&self) -> ArchiveModel {
        ArchiveModel { directory: self.directory@, library: self.library@ }
    }
}

/// What the exit of the external build means: the archive in `directory`
/// where the process exited with status zero, a failed build on any other
/// status and where the process gave none.
pub open spec fn archive_of_exit(exit_code: Option<i32>, directory: Seq<char>) -> Result<
    ArchiveModel,
    BuildError,
> {
    if exit_code == Some(0i32) {
        Ok(ArchiveModel { directory, library: ARCHIVE_NAME@ })
    } else {
        Err(BuildError::NativeBuildFailed)
    }
}

/// The view of a result that holds an archive.
pub open spec fn archive_result(r: Result<NativeArchive, BuildError>) -> Result<
    ArchiveModel,
    BuildError,
> {
    match r {
        Ok(archive) => Ok(archive@),
        Err(e) => Err(e),
    }
}

/// Judges the exit of the external build. There is no partial success: only
/// status zero yields an archive.
pub fn archive_from_exit(exit_code: Option<i32>, directory: &str) -> (r: Result<
    NativeArchive,
    BuildError,
>)
    ensures
        archive_result(r) == archive_of_exit(exit_code, directory@),
{
    match exit_code {
        Some(code) => {
            if code == 0 {
                Ok(
                    NativeArchive {
                        directory: String::from_str(directory),
                        library: String::from_str(ARCHIVE_NAME),
                    },
                )
            } else {
                Err(BuildError::NativeBuildFailed)
            }
        },
        None => Err(BuildError::NativeBuildFailed),
    }
}

/// The directives that make the final binary link an archive: its directory
/// as a search location, then the archive as a static library.
pub open spec fn link_directives_of(archive: ArchiveModel) -> Seq<Seq<char>> {
    seq![
        "cargo:rustc-link-search="@ + archive.directory,
        "cargo:rustc-link-lib=static="@ + archive.library,
    ]
}

impl NativeArchive {
    /// Computes the directives that make the final binary link this archive.
    pub fn link_directives(&self) -> (lines: Vec<String>)
        ensures
            texts(lines@) == link_directives_of(self@),
    {
        let mut lines: Vec<String> = Vec::new();
        lines.push(joined("cargo:rustc-link-search=", self.directory.as_str()));
        lines.push(joined("cargo:rustc-link-lib=static=", self.library.as_str()));
        assert(texts(lines@) =~= link_directives_of(self@));
        lines
    }
}

/// The build variables are a function of the target alone: whatever two
/// invocations compute for one target is the same, entry for entry.
pub proof fn lemma_build_variables_deterministic(
    t: TargetModel,
    first: Seq<(Seq<char>, Seq<char>)>,
    second: Seq<(Seq<char>, Seq<char>)>,
)
    requires
        first == build_variables_of(t),
        second == build_variables_of(t),
    ensures
        first == second,
        first.len() == 9,
{
}

/// No build variable is set twice: the names of the build variables differ
/// from one another.
pub proof fn lemma_build_variables_named_once(t: TargetModel, i: int, j: int)
    requires
        0 <= i < j < build_variables_of(t).len(),
    ensures
        build_variables_of(t)[i].0 != build_variables_of(t)[j].0,
{
    reveal_strlit("MCU");
    reveal_strlit("ARCH");
    reveal_strlit("BOARD");
    reveal_strlit("F_CPU");
    reveal_strlit("F_USB");
    reveal_strlit("OPTIMIZATION");
    reveal_strlit("SRC");
    reveal_strlit("LUFA_PATH");
    reveal_strlit("CC_FLAGS");
    let v = build_variables_of(t);
    assert(v[0].0[0] == 'M' && v[6].0[0] == 'S');
    assert(v[2].0[0] == 'B' && v[3].0[0] == 'F' && v[4].0[0] == 'F');
    assert(v[3].0[2] == 'C' && v[4].0[2] == 'U');
    assert(v[0].0.len() == 3 && v[1].0.len() == 4 && v[2].0.len() == 5 && v[3].0.len() == 5
        && v[4].0.len() == 5 && v[5].0.len() == 12 && v[6].0.len() == 3 && v[7].0.len() == 9
        && v[8].0.len() == 8);
}

/// The build variables tell the targets apart: two targets with the same
/// variables have the same chip, architecture, board and clocks.
pub proof fn lemma_build_variables_identify_target(a: TargetModel, b: TargetModel)
    requires
        build_variables_of(a) == build_variables_of(b),
    ensures
        a.chip == b.chip,
        a.arch == b.arch,
        a.board == b.board,
        a.cpu_freq == b.cpu_freq,
        a.usb_freq == b.usb_freq,
{
    let x = build_variables_of(a);
    let y = build_variables_of(b);
    assert(x[0] == y[0]);
    assert(x[1] == y[1]);
    assert(x[2] == y[2]);
    assert(x[3] == y[3]);
    assert(x[4] == y[4]);
    lemma_decimal_injective(a.cpu_freq, b.cpu_freq);
    lemma_decimal_injective(a.usb_freq, b.usb_freq);
}

} // verus!
