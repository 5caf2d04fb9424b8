use vstd::prelude::*;

pub mod path;
pub mod status;
pub mod zsh;

pub use path::{DirPath, DirectoryContext, RepoDir};
pub use status::{Head, RepoState};
pub use zsh::ZshOutput;

use path::{ctx_eq, lemma_path_summary_congruence, spec_short_name};
use zsh::{output_eq, render_parts};

verus! {

/// The markup of the bold blue label shown when no repository encloses the
/// working directory.
pub open spec fn spec_not_repo_render() -> Seq<char> {
    render_parts("(not repo)"@, Some("blue"@), true)
}

/// The full prompt line for a context and an optional status label: the
/// directory label (empty when it has none), a space, the rendered status
/// (the fixed not-a-repository label when there is none), and a trailing
/// space.
pub open spec fn spec_prompt_line(dir: DirectoryContext, status: Option<ZshOutput>) -> Seq<char> {
    let label = match dir.spec_path_summary() {
        Some(t) => t,
        None => Seq::<char>::empty(),
    };
    let rendered = match status {
        Some(o) => o.render(),
        None => spec_not_repo_render(),
    };
    label + " "@ + rendered + " "@
}

/// The bold blue label printed when the working directory lies in no
/// repository.
pub fn not_repo_label() -> (r: ZshOutput)
    ensures
        r.render() == spec_not_repo_render(),
{
    let mut output = ZshOutput::new("(not repo)");
    output.set_color("blue");
    output.make_bold();
    output
}

/// Builds the one line the tool prints: directory label, space, rendered
/// status markup, trailing space. `status` is the summarized repository
/// status, or `None` when no repository was found.
pub fn prompt_line(dir: &DirectoryContext, status: &Option<ZshOutput>) -> (r: String)
    ensures
        r@ == spec_prompt_line(*dir, *status),
{
    let mut line: String = match dir.path_summary() {
        Some(s) => s,
        None => String::new(),
    };
    line.append(" ");
    let rendered: String = match status {
        Some(o) => o.output(),
        None => not_repo_label().output(),
    };
    line.append(rendered.as_str());
    line.append(" ");
    proof {
        assert(line@ =~= spec_prompt_line(*dir, *status));
    }
    line
}

/// Outside any repository, the line holds just the directory's short name
/// (empty when the directory has none) and the fixed bold blue
/// not-a-repository label.
pub proof fn lemma_no_repository_line(d: DirectoryContext)
    requires
        d.repository is None,
    ensures
        spec_prompt_line(d, None) == (match spec_short_name(d.path) {
            Some(t) => t,
            None => Seq::<char>::empty(),
        }) + " "@ + spec_not_repo_render() + " "@,
{
}

/// The views of two optional status labels agree.
pub open spec fn opt_output_eq(a: Option<ZshOutput>, b: Option<ZshOutput>) -> bool {
    match (a, b) {
        (Some(x), Some(y)) => output_eq(x, y),
        (None, None) => true,
        _ => false,
    }
}

/// Running the tool twice with no repository-state change yields identical
/// output: the prompt line depends only on the observed directory context
/// and status label, so two runs that observe the same values print the
/// same bytes.
pub proof fn lemma_prompt_line_deterministic(
    d1: DirectoryContext,
    s1: Option<ZshOutput>,
    d2: DirectoryContext,
    s2: Option<ZshOutput>,
)
    requires
        ctx_eq(d1, d2),
        opt_output_eq(s1, s2),
    ensures
        spec_prompt_line(d1, s1) == spec_prompt_line(d2, s2),
{
    lemma_path_summary_congruence(d1, d2);
}

} // verus!
