//! The texts a run produces: derived paths, the rendered build recipe and
//! source file, the two shell commands, and the user-facing messages. Each
//! spec function pins a text exactly; each executable renderer is proved to
//! produce it.

use vstd::prelude::*;
use vstd::string::*;

verus! {

/// Path of the project root directory, as handed to directory creation.
pub open spec fn spec_root_path(n: Seq<char>) -> Seq<char> {
    n
}

/// Path of the include directory that receives the fetched header.
pub open spec fn spec_include_dir_path(n: Seq<char>) -> Seq<char> {
    n + "/include"@
}

/// Path of the generated build recipe.
pub open spec fn spec_makefile_path(n: Seq<char>) -> Seq<char> {
    "./"@ + n + "/Makefile"@
}

/// Path of the directory that holds compiled artifacts.
pub open spec fn spec_build_dir_path(n: Seq<char>) -> Seq<char> {
    "./"@ + n + "/build"@
}

/// Path of the generated C source file.
pub open spec fn spec_source_path(n: Seq<char>) -> Seq<char> {
    "./"@ + n + "/"@ + n + ".c"@
}

/// Path the fetched header is saved to.
pub open spec fn spec_header_path(n: Seq<char>) -> Seq<char> {
    "./"@ + n + "/include/essen.h"@
}

/// The full text of the generated build recipe for project name `n`.
pub open spec fn spec_makefile(n: Seq<char>) -> Seq<char> {
    "CC = gcc\nCFLAGS = -Wall -Wextra -ggdb\nSOURCE = "@ + n + ".c\nTARGET = build/"@ + n
        + "\nHEADER = include/essen.h\n\nall: $(TARGET)\n\n$(TARGET): $(SOURCE) $(HEADER)\n\t$(CC) $(CFLAGS) $< -o $@\n\nclean:\n\trm -f $(TARGET)\n\n.PHONY: run all clean\n\nrun: $(TARGET)\n\t./$(TARGET)\n"@
}

/// The full text of the generated C source file for project name `n`.
pub open spec fn spec_source(n: Seq<char>) -> Seq<char> {
    "/* "@ + n
        + ".c */\n\n#include \"include/essen.h\"\n\nint main(void) {\n    println(\"Hello,World\");\n\n    return 0;\n}"@
}

/// Renders the build recipe for `name`.
pub fn render_makefile(name: &str) -> (r: String)
    ensures
        r@ == spec_makefile(name@),
{
    let mut s = String::from_str("CC = gcc\nCFLAGS = -Wall -Wextra -ggdb\nSOURCE = ");
    s.append(name);
    s.append(".c\nTARGET = build/");
    s.append(name);
    s.append(
        "\nHEADER = include/essen.h\n\nall: $(TARGET)\n\n$(TARGET): $(SOURCE) $(HEADER)\n\t$(CC) $(CFLAGS) $< -o $@\n\nclean:\n\trm -f $(TARGET)\n\n.PHONY: run all clean\n\nrun: $(TARGET)\n\t./$(TARGET)\n",
    );
    proof {
        assert(s@ =~= spec_makefile(name@));
    }
    s
}

/// Renders the C source file for `name`.
pub fn render_source(name: &str) -> (r: String)
    ensures
        r@ == spec_source(name@),
{
    let mut s = String::from_str("/* ");
    s.append(name);
    s.append(
        ".c */\n\n#include \"include/essen.h\"\n\nint main(void) {\n    println(\"Hello,World\");\n\n    return 0;\n}",
    );
    proof {
        assert(s@ =~= spec_source(name@));
    }
    s
}

/// Builds the project-root path for `name`.
pub fn root_path(name: &str) -> (r: String)
    ensures
        r@ == spec_root_path(name@),
{
    String::from_str(name)
}

/// Builds the include-directory path for `name`.
pub fn include_dir_path(name: &str) -> (r: String)
    ensures
        r@ == spec_include_dir_path(name@),
{
    let mut s = String::from_str(name);
    s.append("/include");
    proof {
        assert(s@ =~= spec_include_dir_path(name@));
    }
    s
}

/// Builds the build-recipe path for `name`.
pub fn makefile_path(name: &str) -> (r: String)
    ensures
        r@ == spec_makefile_path(name@),
{
    let mut s = String::from_str("./");
    s.append(name);
    s.append("/Makefile");
    proof {
        assert(s@ =~= spec_makefile_path(name@));
    }
    s
}

/// Builds the artifact-directory path for `name`.
pub fn build_dir_path(name: &str) -> (r: String)
    ensures
        r@ == spec_build_dir_path(name@),
{
    let mut s = String::from_str("./");
    s.append(name);
    s.append("/build");
    proof {
        assert(s@ =~= spec_build_dir_path(name@));
    }
    s
}

/// The fixed remote location of the shared header.
pub open spec fn spec_header_url() -> Seq<char> {
    "https://raw.githubusercontent.com/BayonetArch/essen.h/refs/heads/master/essen.h"@
}

/// The shell command that downloads the header into the project.
pub open spec fn spec_fetch_cmd(n: Seq<char>) -> Seq<char> {
    "wget "@ + spec_header_url() + " -O "@ + spec_header_path(n)
}

/// The shell command that builds and runs the project.
pub open spec fn spec_make_run_cmd(n: Seq<char>) -> Seq<char> {
    "make --no-print-directory  -C ./"@ + n + " run"@
}

/// The separator line printed around captured build output.
pub open spec fn spec_separator() -> Seq<char> {
    "--------------------------------------------------"@
}

/// Captured build output, framed by a separator line above and below.
pub open spec fn spec_framed(o: Seq<char>) -> Seq<char> {
    spec_separator() + "\n"@ + o + spec_separator() + "\n"@
}

/// The message shown when the invocation is malformed.
pub open spec fn spec_usage(prog: Seq<char>) -> Seq<char> {
    "Error: No arguments provided\nUsage: "@ + prog + " <project_name>\n"@
}

/// The message shown when a subprocess fails, around its captured stderr.
pub open spec fn spec_failure_report(e: Seq<char>) -> Seq<char> {
    "Reason:\n\n"@ + e + "\n"@
}

/// Builds the header-download command for `name`.
pub fn fetch_cmd(name: &str) -> (r: String)
    ensures
        r@ == spec_fetch_cmd(name@),
{
    let mut s = String::from_str("wget ");
    s.append("https://raw.githubusercontent.com/BayonetArch/essen.h/refs/heads/master/essen.h");
    s.append(" -O ");
    s.append("./");
    s.append(name);
    s.append("/include/essen.h");
    proof {
        assert(s@ =~= spec_fetch_cmd(name@));
    }
    s
}

/// Builds the build-and-run command for `name`.
pub fn make_run_cmd(name: &str) -> (r: String)
    ensures
        r@ == spec_make_run_cmd(name@),
{
    let mut s = String::from_str("make --no-print-directory  -C ./");
    s.append(name);
    s.append(" run");
    proof {
        assert(s@ =~= spec_make_run_cmd(name@));
    }
    s
}

/// Frames captured build output between two separator lines.
pub fn framed_output(out: &str) -> (r: String)
    ensures
        r@ == spec_framed(out@),
{
    let mut s = String::from_str("--------------------------------------------------");
    s.append("\n");
    s.append(out);
    s.append("--------------------------------------------------");
    s.append("\n");
    proof {
        assert(s@ =~= spec_framed(out@));
    }
    s
}

/// Builds the usage message around the invocation name `prog`.
pub fn usage_message(prog: &str) -> (r: String)
    ensures
        r@ == spec_usage(prog@),
{
    let mut s = String::from_str("Error: No arguments provided\nUsage: ");
    s.append(prog);
    s.append(" <project_name>\n");
    proof {
        assert(s@ =~= spec_usage(prog@));
    }
    s
}

/// Builds the failure report around a subprocess's captured stderr.
pub fn failure_report(stderr: &str) -> (r: String)
    ensures
        r@ == spec_failure_report(stderr@),
{
    let mut s = String::from_str("Reason:\n\n");
    s.append(stderr);
    s.append("\n");
    proof {
        assert(s@ =~= spec_failure_report(stderr@));
    }
    s
}

/// Builds the source-file path for `name`.
pub fn source_path(name: &str) -> (r: String)
    ensures
        r@ == spec_source_path(name@),
{
    let mut s = String::from_str("./");
    s.append(name);
    s.append("/");
    s.append(name);
    s.append(".c");
    proof {
        assert(s@ =~= spec_source_path(name@));
    }
    s
}

} // verus!
