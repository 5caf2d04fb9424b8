use vstd::prelude::*;

verus! {

/// A directory path, modelled as its components from the root downward.
/// A component that cannot be decoded as text is `None`; `is_dir` records
/// whether the path refers to an existing directory.
pub struct DirPath {
    pub components: Vec<Option<String>>,
    pub is_dir: bool,
}

/// What the path logic reads of a discovered repository: its top-level
/// working directory, if it has one (a bare repository has none).
pub struct RepoDir {
    pub workdir: Option<DirPath>,
}

/// The current working directory together with the repository it was found
/// to lie in, if any.
pub struct DirectoryContext {
    pub path: DirPath,
    pub repository: Option<RepoDir>,
}

/// The view of an optional string.
pub open spec fn opt_view(o: Option<String>) -> Option<Seq<char>> {
    match o {
        Some(s) => Some(s@),
        None => None,
    }
}

/// Whether two path components are the same: equal text, or both not text.
pub open spec fn comp_eq(a: Option<String>, b: Option<String>) -> bool {
    match (a, b) {
        (Some(x), Some(y)) => x@ == y@,
        (None, None) => true,
        _ => false,
    }
}

/// Component-wise equality of two component sequences.
pub open spec fn comps_eq(a: Seq<Option<String>>, b: Seq<Option<String>>) -> bool {
    a.len() == b.len() && forall|i: int| 0 <= i < a.len() ==> comp_eq(a[i], b[i])
}

/// Whether `a` is a component-wise prefix of `b`.
pub open spec fn comps_prefix(a: Seq<Option<String>>, b: Seq<Option<String>>) -> bool {
    a.len() <= b.len() && forall|i: int| 0 <= i < a.len() ==> comp_eq(a[i], b[i])
}

/// All components from position `from` onward are valid text.
pub open spec fn all_text_from(s: Seq<Option<String>>, from: int) -> bool {
    forall|i: int| from <= i < s.len() ==> s[i] is Some
}

/// The text of one component; a component that is not text contributes
/// nothing.
pub open spec fn comp_text(c: Option<String>) -> Seq<char> {
    match c {
        Some(s) => s@,
        None => Seq::<char>::empty(),
    }
}

/// The components from position `from` onward, joined with `/` between them.
pub open spec fn join_from(s: Seq<Option<String>>, from: int) -> Seq<char>
    decreases s.len() - from,
{
    if from < 0 || from >= s.len() {
        Seq::<char>::empty()
    } else if from == s.len() - 1 {
        comp_text(s[from])
    } else {
        comp_text(s[from]) + "/"@ + join_from(s, from + 1)
    }
}

/// The short (last-segment) name of a path: defined only when the path is an
/// existing directory with at least one component whose last component is
/// valid text.
pub open spec fn spec_short_name(p: DirPath) -> Option<Seq<char>> {
    if p.is_dir && p.components@.len() > 0 {
        match p.components@.last() {
            Some(s) => Some(s@),
            None => None,
        }
    } else {
        None
    }
}

/// The `"<repo-short-name>/<relative-path>"` label for a working directory
/// inside the repository root `w`. When relativization fails (the root is
/// not a prefix of the working directory, or the remainder is not valid
/// text), the trailing segment is omitted and only `"<repo-short-name>/"`
/// remains. When the root has no short name, there is no label.
pub open spec fn spec_format_sub(w: Option<DirPath>, cwd: DirPath) -> Option<Seq<char>> {
    match w {
        Some(wd) => match spec_short_name(wd) {
            Some(short) => {
                let wl = wd.components@.len() as int;
                if comps_prefix(wd.components@, cwd.components@) && all_text_from(
                    cwd.components@,
                    wl,
                ) {
                    Some(short + "/"@ + join_from(cwd.components@, wl))
                } else {
                    Some(short + "/"@)
                }
            },
            None => None,
        },
        None => None,
    }
}

/// Whether the repository root `w` is the working directory itself.
pub open spec fn spec_paths_match(w: Option<DirPath>, cwd: DirPath) -> bool {
    match w {
        Some(wd) => comps_eq(wd.components@, cwd.components@),
        None => false,
    }
}

/// The value behind an optional reference.
pub open spec fn opt_deref(o: Option<&DirPath>) -> Option<DirPath> {
    match o {
        Some(p) => Some(*p),
        None => None,
    }
}

/// The views of two paths agree: same existence flag, same components.
pub open spec fn dirpath_eq(a: DirPath, b: DirPath) -> bool {
    a.is_dir == b.is_dir && comps_eq(a.components@, b.components@)
}

/// The views of two optional paths agree.
pub open spec fn opt_dirpath_eq(a: Option<DirPath>, b: Option<DirPath>) -> bool {
    match (a, b) {
        (Some(x), Some(y)) => dirpath_eq(x, y),
        (None, None) => true,
        _ => false,
    }
}

/// The views of two contexts agree: same working directory, and repositories
/// that are both absent or have agreeing working directories.
pub open spec fn ctx_eq(a: DirectoryContext, b: DirectoryContext) -> bool {
    dirpath_eq(a.path, b.path) && match (a.repository, b.repository) {
        (Some(x), Some(y)) => opt_dirpath_eq(x.workdir, y.workdir),
        (None, None) => true,
        _ => false,
    }
}

/// Paths with agreeing views have the same short name.
pub proof fn lemma_short_name_congruence(a: DirPath, b: DirPath)
    requires
        dirpath_eq(a, b),
    ensures
        spec_short_name(a) == spec_short_name(b),
{
    if a.is_dir && a.components@.len() > 0 {
        assert(comp_eq(
            a.components@[a.components@.len() - 1],
            b.components@[b.components@.len() - 1],
        ));
    }
}

/// Component sequences that agree pairwise join to the same text.
pub proof fn lemma_join_congruence(a: Seq<Option<String>>, b: Seq<Option<String>>, from: int)
    requires
        a.len() == b.len(),
        forall|i: int| 0 <= i < a.len() ==> comp_eq(a[i], b[i]),
    ensures
        join_from(a, from) == join_from(b, from),
    decreases a.len() - from,
{
    if 0 <= from && from < a.len() {
        assert(comp_eq(a[from], b[from]));
        lemma_join_congruence(a, b, from + 1);
    }
}

/// Contexts with agreeing views summarize to the same directory label.
pub proof fn lemma_path_summary_congruence(a: DirectoryContext, b: DirectoryContext)
    requires
        ctx_eq(a, b),
    ensures
        a.spec_path_summary() == b.spec_path_summary(),
{
    match (a.repository, b.repository) {
        (Some(ra), Some(rb)) => {
            match (ra.workdir, rb.workdir) {
                (Some(wa), Some(wb)) => {
                    lemma_short_name_congruence(wa, wb);
                    lemma_short_name_congruence(a.path, b.path);
                    assert(spec_paths_match(ra.workdir, a.path) == spec_paths_match(
                        rb.workdir,
                        b.path,
                    )) by {
                        if comps_eq(wa.components@, a.path.components@) {
                            assert(forall|i: int|
                                0 <= i < wb.components@.len() ==> comp_eq(
                                    wb.components@[i],
                                    b.path.components@[i],
                                ));
                        }
                        if comps_eq(wb.components@, b.path.components@) {
                            assert(forall|i: int|
                                0 <= i < wa.components@.len() ==> comp_eq(
                                    wa.components@[i],
                                    a.path.components@[i],
                                ));
                        }
                    }
                    if !spec_paths_match(ra.workdir, a.path) {
                        assert(spec_format_sub(Some(wa), a.path) == spec_format_sub(
                            Some(wb),
                            b.path,
                        )) by {
                            if spec_short_name(wa) is Some {
                                assert(comps_prefix(wa.components@, a.path.components@)
                                    == comps_prefix(wb.components@, b.path.components@)) by {
                                    if comps_prefix(wa.components@, a.path.components@) {
                                        assert(forall|i: int|
                                            0 <= i < wb.components@.len() ==> comp_eq(
                                                wb.components@[i],
                                                b.path.components@[i],
                                            ));
                                    }
                                    if comps_prefix(wb.components@, b.path.components@) {
                                        assert(forall|i: int|
                                            0 <= i < wa.components@.len() ==> comp_eq(
                                                wa.components@[i],
                                                a.path.components@[i],
                                            ));
                                    }
                                }
                                let wl = wa.components@.len() as int;
                                assert(all_text_from(a.path.components@, wl) == all_text_from(
                                    b.path.components@,
                                    wl,
                                )) by {
                                    assert(forall|i: int|
                                        0 <= i < a.path.components@.len() ==> comp_eq(
                                            a.path.components@[i],
                                            b.path.components@[i],
                                        ));
                                }
                                lemma_join_congruence(a.path.components@, b.path.components@, wl);
                            }
                        }
                    }
                },
                (None, None) => {},
                _ => {},
            }
        },
        (None, None) => {
            lemma_short_name_congruence(a.path, b.path);
        },
        _ => {},
    }
}

/// Whether two optional path components hold the same text.
fn comp_equal(a: &Option<String>, b: &Option<String>) -> (r: bool)
    ensures
        r == comp_eq(*a, *b),
{
    match (a, b) {
        (Some(x), Some(y)) => *x == *y,
        (None, None) => true,
        _ => false,
    }
}

/// Whether the first `a.len()` components of `b` equal `a`.
fn comps_is_prefix(a: &Vec<Option<String>>, b: &Vec<Option<String>>) -> (r: bool)
    ensures
        r == comps_prefix(a@, b@),
{
    if a.len() > b.len() {
        return false;
    }
    let mut i: usize = 0;
    while i < a.len()
        invariant
            i <= a@.len(),
            a@.len() <= b@.len(),
            forall|j: int| 0 <= j < i ==> comp_eq(a@[j], b@[j]),
        decreases a@.len() - i,
    {
        if !comp_equal(&a[i], &b[i]) {
            return false;
        }
        i += 1;
    }
    true
}

/// Whether the two component sequences are equal.
fn comps_equal(a: &Vec<Option<String>>, b: &Vec<Option<String>>) -> (r: bool)
    ensures
        r == comps_eq(a@, b@),
{
    if a.len() != b.len() {
        return false;
    }
    comps_is_prefix(a, b)
}

/// Whether every component from position `from` onward is valid text.
fn comps_all_text(v: &Vec<Option<String>>, from: usize) -> (r: bool)
    ensures
        r == all_text_from(v@, from as int),
{
    let mut i: usize = from;
    if i > v.len() {
        return true;
    }
    while i < v.len()
        invariant
            from <= i <= v@.len(),
            forall|j: int| from <= j < i ==> v@[j] is Some,
        decreases v@.len() - i,
    {
        match &v[i] {
            Some(_) => {},
            None => {
                return false;
            },
        }
        i += 1;
    }
    true
}

/// Joins the components from position `from` onward with `/` between them.
fn join_components(v: &Vec<Option<String>>, from: usize) -> (r: String)
    requires
        all_text_from(v@, from as int),
    ensures
        r@ == join_from(v@, from as int),
    decreases v@.len() - from,
{
    if from >= v.len() {
        String::new()
    } else {
        let mut out: String = match &v[from] {
            Some(s) => s.clone(),
            None => String::new(),
        };
        if from + 1 < v.len() {
            out.append("/");
            let rest = join_components(v, from + 1);
            out.append(rest.as_str());
            proof {
                assert(out@ =~= join_from(v@, from as int));
            }
        }
        out
    }
}

impl DirectoryContext {
    /// The label the working directory summarizes to: the short name when the
    /// repository root is the working directory itself (or when there is no
    /// repository), otherwise the root's short name followed by the relative
    /// path from the root.
    pub open spec fn spec_path_summary(self) -> Option<Seq<char>> {
        match self.repository {
            Some(r) => if spec_paths_match(r.workdir, self.path) {
                spec_short_name(self.path)
            } else {
                spec_format_sub(r.workdir, self.path)
            },
            None => spec_short_name(self.path),
        }
    }

    /// The short name of the working directory itself.
    pub fn current_directory_short_name(&self) -> (r: Option<String>)
        ensures
            opt_view(r) == spec_short_name(self.path),
    {
        self.directory_short_name(&self.path)
    }

    /// The short (last-segment) name of a path, when it is an existing
    /// directory whose last component is valid text.
    pub fn directory_short_name(&self, path: &DirPath) -> (r: Option<String>)
        ensures
            opt_view(r) == spec_short_name(*path),
    {
        if path.is_dir && path.components.len() > 0 {
            match &path.components[path.components.len() - 1] {
                Some(s) => Some(s.clone()),
                None => None,
            }
        } else {
            None
        }
    }

    /// Renders `"<repo-short-name>/<relative-path-from-root>"`, omitting the
    /// relative part when relativization fails.
    pub fn format_subdirectory_path(
        &self,
        repository_path: Option<&DirPath>,
        current_working_directory: &DirPath,
    ) -> (r: Option<String>)
        ensures
            opt_view(r) == spec_format_sub(opt_deref(repository_path), *current_working_directory),
    {
        match repository_path {
            Some(rp) => {
                match self.directory_short_name(rp) {
                    Some(short) => {
                        let mut result = short;
                        result.append("/");
                        if comps_is_prefix(&rp.components, &current_working_directory.components) {
                            if comps_all_text(
                                &current_working_directory.components,
                                rp.components.len(),
                            ) {
                                let rest = join_components(
                                    &current_working_directory.components,
                                    rp.components.len(),
                                );
                                result.append(rest.as_str());
                                proof {
                                    assert(result@ =~= spec_format_sub(
                                        opt_deref(repository_path),
                                        *current_working_directory,
                                    )->0);
                                }
                            }
                        }
                        Some(result)
                    },
                    None => None,
                }
            },
            None => None,
        }
    }

    /// The directory label for the whole context.
    pub fn path_summary(&self) -> (r: Option<String>)
        ensures
            opt_view(r) == self.spec_path_summary(),
    {
        match &self.repository {
            Some(repo) => {
                if self.paths_match(repo.workdir.as_ref(), &self.path) {
                    self.current_directory_short_name()
                } else {
                    self.format_subdirectory_path(repo.workdir.as_ref(), &self.path)
                }
            },
            None => self.current_directory_short_name(),
        }
    }

    /// Whether the repository root is exactly the working directory.
    pub fn paths_match(
        &self,
        repository_path: Option<&DirPath>,
        current_working_directory: &DirPath,
    ) -> (r: bool)
        ensures
            r == spec_paths_match(opt_deref(repository_path), *current_working_directory),
    {
        match repository_path {
            Some(rp) => comps_equal(&rp.components, &current_working_directory.components),
            None => false,
        }
    }
}

} // verus!
