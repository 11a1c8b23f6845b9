//! The scaffolding plan: the ordered filesystem and shell actions that one
//! run performs for a given project name. The plan is pure data; carrying
//! it out (and stopping at the first failure) is the caller's part.

use vstd::prelude::*;
use vstd::string::*;
use crate::text::{
    build_dir_path, fetch_cmd, include_dir_path, make_run_cmd, makefile_path, render_makefile,
    render_source, root_path, source_path, spec_build_dir_path, spec_fetch_cmd,
    spec_include_dir_path, spec_make_run_cmd, spec_makefile, spec_makefile_path, spec_root_path,
    spec_source, spec_source_path,
};

verus! {

/// One step of a scaffolding run.
#[derive(Debug, PartialEq, Eq)]
pub enum Action {
    /// Create a directory at `path`; fails if the path already exists.
    CreateDir { path: String },
    /// Write `contents` to the file at `path`, replacing any previous file.
    WriteFile { path: String, contents: String },
    /// Run `cmd` through the shell and capture its output.
    RunCmd { cmd: String },
}

/// Mathematical image of an `Action`.
pub enum ActionModel {
    CreateDir { path: Seq<char> },
    WriteFile { path: Seq<char>, contents: Seq<char> },
    RunCmd { cmd: Seq<char> },
}

impl View for Action {
    type V = ActionModel;

    open spec fn view(&self) -> ActionModel {
        match self {
            Action::CreateDir { path } => ActionModel::CreateDir { path: path@ },
            Action::WriteFile { path, contents } => ActionModel::WriteFile {
                path: path@,
                contents: contents@,
            },
            Action::RunCmd { cmd } => ActionModel::RunCmd { cmd: cmd@ },
        }
    }
}

/// The whole plan for project name `n`, in execution order: create the
/// root and its include directory, write the build recipe, create the
/// artifact directory, fetch the header, write the source file, then
/// build and run.
pub open spec fn spec_plan(n: Seq<char>) -> Seq<ActionModel> {
    seq![
        ActionModel::CreateDir { path: spec_root_path(n) },
        ActionModel::CreateDir { path: spec_include_dir_path(n) },
        ActionModel::WriteFile { path: spec_makefile_path(n), contents: spec_makefile(n) },
        ActionModel::CreateDir { path: spec_build_dir_path(n) },
        ActionModel::RunCmd { cmd: spec_fetch_cmd(n) },
        ActionModel::WriteFile { path: spec_source_path(n), contents: spec_source(n) },
        ActionModel::RunCmd { cmd: spec_make_run_cmd(n) },
    ]
}

/// The build-recipe steps: write the rendered recipe, then create the
/// directory the compiled binary goes into.
pub fn setup_makefile(name: &str) -> (acts: Vec<Action>)
    ensures
        acts@.len() == 2,
        acts@[0]@ == (ActionModel::WriteFile {
            path: spec_makefile_path(name@),
            contents: spec_makefile(name@),
        }),
        acts@[1]@ == (ActionModel::CreateDir { path: spec_build_dir_path(name@) }),
{
    let mut acts: Vec<Action> = Vec::new();
    acts.push(Action::WriteFile { path: makefile_path(name), contents: render_makefile(name) });
    acts.push(Action::CreateDir { path: build_dir_path(name) });
    acts
}

/// The header-fetch step: download the shared header into the project.
pub fn setup_header(name: &str) -> (a: Action)
    ensures
        a@ == (ActionModel::RunCmd { cmd: spec_fetch_cmd(name@) }),
{
    Action::RunCmd { cmd: fetch_cmd(name) }
}

/// The source-file step: write the rendered hello-world source.
pub fn setup_main(name: &str) -> (a: Action)
    ensures
        a@ == (ActionModel::WriteFile {
            path: spec_source_path(name@),
            contents: spec_source(name@),
        }),
{
    Action::WriteFile { path: source_path(name), contents: render_source(name) }
}

/// The final step: build the project and run the produced binary.
pub fn test_run(name: &str) -> (a: Action)
    ensures
        a@ == (ActionModel::RunCmd { cmd: spec_make_run_cmd(name@) }),
{
    Action::RunCmd { cmd: make_run_cmd(name) }
}

/// Assembles the whole ordered plan for `name`.
pub fn scaffold_plan(name: &str) -> (acts: Vec<Action>)
    ensures
        acts@.len() == 7,
        forall|i: int| 0 <= i < 7 ==> acts@[i]@ == spec_plan(name@)[i],
{
    let mut acts: Vec<Action> = Vec::new();
    acts.push(Action::CreateDir { path: root_path(name) });
    acts.push(Action::CreateDir { path: include_dir_path(name) });
    let mut recipe = setup_makefile(name);
    acts.append(&mut recipe);
    acts.push(setup_header(name));
    acts.push(setup_main(name));
    acts.push(test_run(name));
    acts
}

/// The set of directory paths a plan creates.
pub open spec fn dirs_created(p: Seq<ActionModel>) -> Set<Seq<char>> {
    Set::new(
        |path: Seq<char>|
            exists|i: int| 0 <= i < p.len() && p[i] == (ActionModel::CreateDir { path: path }),
    )
}

/// The set of file paths a plan writes.
pub open spec fn files_written(p: Seq<ActionModel>) -> Set<Seq<char>> {
    Set::new(
        |path: Seq<char>|
            exists|i: int, c: Seq<char>|
                0 <= i < p.len() && p[i] == (ActionModel::WriteFile { path: path, contents: c }),
    )
}

/// The set of shell commands a plan runs.
pub open spec fn cmds_run(p: Seq<ActionModel>) -> Set<Seq<char>> {
    Set::new(
        |cmd: Seq<char>|
            exists|i: int| 0 <= i < p.len() && p[i] == (ActionModel::RunCmd { cmd: cmd }),
    )
}

/// Law: for every project name, one run's plan creates exactly the project
/// root, its include directory and its artifact directory, writes exactly
/// the build recipe and the source file, runs exactly the header fetch and
/// the build-and-run command, and creates the project root before
/// everything else.
pub proof fn lemma_plan_file_set(n: Seq<char>)
    ensures
        dirs_created(spec_plan(n)) == set![
            spec_root_path(n),
            spec_include_dir_path(n),
            spec_build_dir_path(n),
        ],
        files_written(spec_plan(n)) == set![spec_makefile_path(n), spec_source_path(n)],
        cmds_run(spec_plan(n)) == set![spec_fetch_cmd(n), spec_make_run_cmd(n)],
        spec_plan(n)[0] == (ActionModel::CreateDir { path: spec_root_path(n) }),
{
    let p = spec_plan(n);
    assert(p[0] == (ActionModel::CreateDir { path: spec_root_path(n) }));
    assert(p[1] == (ActionModel::CreateDir { path: spec_include_dir_path(n) }));
    assert(p[3] == (ActionModel::CreateDir { path: spec_build_dir_path(n) }));
    assert(p[2] == (ActionModel::WriteFile {
        path: spec_makefile_path(n),
        contents: spec_makefile(n),
    }));
    assert(p[5] == (ActionModel::WriteFile {
        path: spec_source_path(n),
        contents: spec_source(n),
    }));
    assert(p[4] == (ActionModel::RunCmd { cmd: spec_fetch_cmd(n) }));
    assert(p[6] == (ActionModel::RunCmd { cmd: spec_make_run_cmd(n) }));
    assert(dirs_created(p) =~= set![
        spec_root_path(n),
        spec_include_dir_path(n),
        spec_build_dir_path(n),
    ]);
    assert(files_written(p) =~= set![spec_makefile_path(n), spec_source_path(n)]);
    assert(cmds_run(p) =~= set![spec_fetch_cmd(n), spec_make_run_cmd(n)]);
}

} // verus!
