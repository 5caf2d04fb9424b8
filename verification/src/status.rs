use vstd::prelude::*;
use crate::zsh::ZshOutput;

verus! {

/// The operational state a repository can be in, as its metadata reports it.
pub enum RepoState {
    Clean,
    Merge,
    Revert,
    RevertSequence,
    CherryPick,
    CherryPickSequence,
    Bisect,
    Rebase,
    RebaseInteractive,
    RebaseMerge,
    ApplyMailbox,
    ApplyMailboxOrRebase,
}

/// What the current head resolves to: nothing yet (a repository with no
/// commits), a named branch (whose short name may fail to decode as text),
/// or a detached head carrying the text of its target commit identifier.
pub enum Head {
    Unborn,
    Branch(Option<String>),
    Detached(String),
}

/// The fixed label text for a state that is not clean; `None` for the clean
/// state, which is summarized from the head and the working tree instead.
pub open spec fn state_text(s: RepoState) -> Option<Seq<char>> {
    match s {
        RepoState::Clean => None,
        RepoState::Merge => Some("(merging)"@),
        RepoState::Revert => Some("(reverting)"@),
        RepoState::RevertSequence => Some("(reverting)"@),
        RepoState::CherryPick => Some("(cherry-picking)"@),
        RepoState::CherryPickSequence => Some("(cherry-picking)"@),
        RepoState::Bisect => Some("(bisecting)"@),
        RepoState::Rebase => Some("(rebasing)"@),
        RepoState::RebaseInteractive => Some("(rebasing)"@),
        RepoState::RebaseMerge => Some("(rebasing)"@),
        RepoState::ApplyMailbox => Some("(mailbox-applying)"@),
        RepoState::ApplyMailboxOrRebase => Some("(mailbox-applying)"@),
    }
}

/// The text naming the head: the branch's short name (with a fixed fallback
/// when it is not valid text), or the detached target's identifier.
pub open spec fn branch_label(h: Head) -> Seq<char> {
    match h {
        Head::Unborn => Seq::<char>::empty(),
        Head::Branch(Some(n)) => n@,
        Head::Branch(None) => "(unknown branch)"@,
        Head::Detached(id) => id@,
    }
}

/// Whether the working tree counts as dirty: the index-to-workdir diff
/// reported at least one changed file, or the status scan found an untracked
/// file. A failed diff or scan (`None`) counts as no changes.
pub open spec fn spec_dirty(changed: Option<usize>, untracked: Option<bool>) -> bool {
    (changed matches Some(n) && n > 0) || (untracked matches Some(true))
}

/// The status label's text for a given state, head and dirtiness.
pub open spec fn spec_status_text(state: RepoState, head: Head, dirty: bool) -> Seq<char> {
    match state_text(state) {
        Some(t) => t,
        None => match head {
            Head::Unborn => "(no commits yet)"@,
            _ => if dirty {
                branch_label(head) + "*"@
            } else {
                branch_label(head)
            },
        },
    }
}

/// The status label's color for a given state, head and dirtiness.
pub open spec fn spec_status_color(state: RepoState, head: Head, dirty: bool) -> Seq<char> {
    match state_text(state) {
        Some(t) => "magenta"@,
        None => match head {
            Head::Unborn => "yellow"@,
            _ => if dirty {
                "red"@
            } else {
                "blue"@
            },
        },
    }
}

/// The views of two heads agree: the same variant, naming the same text.
pub open spec fn head_eq(a: Head, b: Head) -> bool {
    match (a, b) {
        (Head::Unborn, Head::Unborn) => true,
        (Head::Branch(x), Head::Branch(y)) => crate::path::opt_view(x) == crate::path::opt_view(y),
        (Head::Detached(x), Head::Detached(y)) => x@ == y@,
        _ => false,
    }
}

/// Two summarizations of the same observed repository state agree: the
/// status label's text and color depend only on the state, the head's view
/// and the dirtiness observations.
pub proof fn lemma_summarize_deterministic(
    state: RepoState,
    a: Head,
    b: Head,
    changed_files: Option<usize>,
    untracked_found: Option<bool>,
)
    requires
        head_eq(a, b),
    ensures
        spec_status_text(state, a, spec_dirty(changed_files, untracked_found))
            == spec_status_text(state, b, spec_dirty(changed_files, untracked_found)),
        spec_status_color(state, a, spec_dirty(changed_files, untracked_found))
            == spec_status_color(state, b, spec_dirty(changed_files, untracked_found)),
{
    assert(branch_label(a) == branch_label(b));
}

/// A state that is not clean maps to its fixed label alone: neither the
/// head nor the working tree has any effect on the status label's text or
/// color.
pub proof fn lemma_unclean_state_ignores_tree(
    state: RepoState,
    h1: Head,
    h2: Head,
    d1: bool,
    d2: bool,
)
    requires
        state_text(state) is Some,
    ensures
        spec_status_text(state, h1, d1) == spec_status_text(state, h2, d2),
        spec_status_color(state, h1, d1) == spec_status_color(state, h2, d2),
{
}

/// Whether the diff of index against working tree reported any changed file;
/// a failed diff (`None`) counts as none.
pub fn any_files_changed(changed_files: Option<usize>) -> (r: bool)
    ensures
        r == (changed_files matches Some(n) && n > 0),
{
    match changed_files {
        Some(n) => n > 0,
        None => false,
    }
}

/// Whether the status scan found an untracked file; a failed scan (`None`)
/// counts as none.
pub fn any_untracked_files(untracked_found: Option<bool>) -> (r: bool)
    ensures
        r == (untracked_found matches Some(true)),
{
    match untracked_found {
        Some(b) => b,
        None => false,
    }
}

/// The fixed, magenta, non-bold label for a state that is not clean; `None`
/// exactly for the clean state, where the head and the working tree decide.
pub fn state_label(state: &RepoState) -> (r: Option<ZshOutput>)
    ensures
        match state_text(*state) {
            Some(t) => r matches Some(o) && o.text@ == t && o.color_view() == Some("magenta"@)
                && !o.is_bold,
            None => r is None,
        },
{
    let text: &str = match state {
        RepoState::Clean => {
            return None;
        },
        RepoState::Merge => "(merging)",
        RepoState::Revert => "(reverting)",
        RepoState::RevertSequence => "(reverting)",
        RepoState::CherryPick => "(cherry-picking)",
        RepoState::CherryPickSequence => "(cherry-picking)",
        RepoState::Bisect => "(bisecting)",
        RepoState::Rebase => "(rebasing)",
        RepoState::RebaseInteractive => "(rebasing)",
        RepoState::RebaseMerge => "(rebasing)",
        RepoState::ApplyMailbox => "(mailbox-applying)",
        RepoState::ApplyMailboxOrRebase => "(mailbox-applying)",
    };
    let mut output = ZshOutput::new(text);
    output.set_color("magenta");
    Some(output)
}

/// The label for a clean-state repository: the head's name, a `*` suffix and
/// red when dirty, blue when not, and a fixed yellow label when there are no
/// commits yet.
pub fn head_summary(head: &Head, dirty: bool) -> (r: ZshOutput)
    ensures
        r.text@ == spec_status_text(RepoState::Clean, *head, dirty),
        r.color_view() == Some(spec_status_color(RepoState::Clean, *head, dirty)),
        !r.is_bold,
{
    match head {
        Head::Unborn => {
            let mut output = ZshOutput::new("(no commits yet)");
            output.set_color("yellow");
            output
        },
        _ => {
            let name: String = match head {
                Head::Unborn => String::new(),
                Head::Branch(Some(n)) => n.clone(),
                Head::Branch(None) => String::from_str("(unknown branch)"),
                Head::Detached(id) => id.clone(),
            };
            if dirty {
                let mut text = name;
                text.append("*");
                let mut output = ZshOutput::new(text.as_str());
                output.set_color("red");
                output
            } else {
                let mut output = ZshOutput::new(name.as_str());
                output.set_color("blue");
                output
            }
        },
    }
}

/// Summarizes a repository into its status label: a fixed magenta label for
/// any state that is not clean; otherwise the head's name, red with a `*`
/// suffix when the working tree is dirty, blue when clean, or a yellow
/// fixed label when no commits exist yet. Never bold.
pub fn summarize(
    state: &RepoState,
    head: &Head,
    changed_files: Option<usize>,
    untracked_found: Option<bool>,
) -> (r: ZshOutput)
    ensures
        r.text@ == spec_status_text(*state, *head, spec_dirty(changed_files, untracked_found)),
        r.color_view() == Some(
            spec_status_color(*state, *head, spec_dirty(changed_files, untracked_found)),
        ),
        !r.is_bold,
{
    match state_label(state) {
        Some(o) => o,
        None => {
            let dirty = any_files_changed(changed_files) || any_untracked_files(untracked_found);
            head_summary(head, dirty)
        },
    }
}

} // verus!
