use scaffold::plan::{scaffold_plan, setup_header, setup_main, setup_makefile, test_run, Action};
use scaffold::runner::run_outcome;
use scaffold::text::{fetch_cmd, make_run_cmd, render_makefile, render_source};

#[test]
fn setup_header_builds_fetch_command() {
    let a = setup_header("demo");
    assert_eq!(
        a,
        Action::RunCmd {
            cmd: "wget https://raw.githubusercontent.com/BayonetArch/essen.h/refs/heads/master/essen.h -O ./demo/include/essen.h".to_string(),
        },
    );
}

#[test]
fn setup_makefile_writes_recipe_then_creates_build_dir() {
    let acts = setup_makefile("demo");
    assert_eq!(acts.len(), 2);
    assert_eq!(
        acts[0],
        Action::WriteFile {
            path: "./demo/Makefile".to_string(),
            contents: render_makefile("demo"),
        },
    );
    assert_eq!(acts[1], Action::CreateDir { path: "./demo/build".to_string() });
}

#[test]
fn setup_main_writes_source_file() {
    let a = setup_main("demo");
    assert_eq!(
        a,
        Action::WriteFile {
            path: "./demo/demo.c".to_string(),
            contents: render_source("demo"),
        },
    );
}

#[test]
fn test_run_invokes_build_tool() {
    let a = test_run("demo");
    assert_eq!(
        a,
        Action::RunCmd { cmd: "make --no-print-directory  -C ./demo run".to_string() },
    );
}

#[test]
fn plan_is_the_seven_steps_in_order() {
    let acts = scaffold_plan("demo");
    assert_eq!(acts.len(), 7);
    assert_eq!(acts[0], Action::CreateDir { path: "demo".to_string() });
    assert_eq!(acts[1], Action::CreateDir { path: "demo/include".to_string() });
    assert_eq!(
        acts[2],
        Action::WriteFile {
            path: "./demo/Makefile".to_string(),
            contents: render_makefile("demo"),
        },
    );
    assert_eq!(acts[3], Action::CreateDir { path: "./demo/build".to_string() });
    assert_eq!(acts[4], Action::RunCmd { cmd: fetch_cmd("demo") });
    assert_eq!(
        acts[5],
        Action::WriteFile {
            path: "./demo/demo.c".to_string(),
            contents: render_source("demo"),
        },
    );
    assert_eq!(acts[6], Action::RunCmd { cmd: make_run_cmd("demo") });
}

#[test]
fn plan_creates_root_before_any_write() {
    let acts = scaffold_plan("proj");
    assert_eq!(acts[0], Action::CreateDir { path: "proj".to_string() });
    for act in &acts[1..] {
        if let Action::WriteFile { path, .. } = act {
            assert!(path.starts_with("./proj/"));
        }
    }
}

#[test]
fn run_outcome_keeps_stdout_on_success() {
    let r = run_outcome(true, "out text".to_string(), "err text".to_string());
    assert_eq!(r, Ok("out text".to_string()));
}

#[test]
fn run_outcome_keeps_stderr_on_failure() {
    let r = run_outcome(false, "out text".to_string(), "err text".to_string());
    assert_eq!(r, Err("err text".to_string()));
}
