//! Classification of platform-description inputs.
//!
//! One raw string names either a builtin platform file, a local platform
//! file, a local platform file to import into the output directory, or
//! inline platform text. The choice is purely syntactic and follows a fixed
//! priority order; the file system only enters through the [`FsSnapshot`]
//! handed in by the caller.

use vstd::prelude::*;
use crate::envsub::envsub_chars;
use crate::envsub::EnvEntry;
use crate::envsub::EnvSubError;
use crate::envsub::EnvTable;
use crate::envsub::subst_spec;
use crate::envsub::SubstOutcome;
use crate::fsview::FileContent;
use crate::fsview::fs_exists;
use crate::fsview::fs_lookup;
use crate::fsview::FsFile;
use crate::fsview::FsLookup;
use crate::fsview::FsSnapshot;
use crate::text::chars_of;
use crate::text::contains_char;
use crate::text::copy_range;
use crate::text::has_char;
use crate::text::has_prefix;
use crate::text::has_suffix;
use crate::text::index_of_char;
use crate::text::indent_by_chars;
use crate::text::indent_spec;
use crate::text::lemma_index_of_char;
use crate::text::string_of;
use crate::text::trim_chars;
use crate::text::trim_spec;
use crate::text::unindent_chars;
use crate::text::unindent_spec;
use crate::types::normalize_spec;

verus! {

/// Which of the four forms a platform description takes.
#[derive(Clone, Debug, PartialEq, Eq)]
pub enum PlatformDescriptionKind {
    /// A platform file bundled with the emulator, written `@name.repl`.
    Internal,
    /// A local platform file, referenced by path.
    LocalFile,
    /// A local platform file to copy into the output directory; the value
    /// is the file's base name.
    GeneratedLocalFile(String),
    /// Inline platform text.
    String,
}

/// The specification-level form of a kind.
pub enum PlatformKindView {
    Internal,
    LocalFile,
    GeneratedLocalFile(Seq<char>),
    Text,
}

impl View for PlatformDescriptionKind {
    type V = PlatformKindView;

    open spec fn view(&self) -> PlatformKindView {
        match self {
            PlatformDescriptionKind::Internal => PlatformKindView::Internal,
            PlatformDescriptionKind::LocalFile => PlatformKindView::LocalFile,
            PlatformDescriptionKind::GeneratedLocalFile(n) => PlatformKindView::GeneratedLocalFile(
                n@,
            ),
            PlatformDescriptionKind::String => PlatformKindView::Text,
        }
    }
}

/// One classified platform description.
#[derive(Clone, Debug, PartialEq, Eq)]
pub struct PlatformDescription {
    content: String,
    kind: PlatformDescriptionKind,
}

/// The specification-level form of a classified description.
pub struct PlatformDescriptionView {
    pub content: Seq<char>,
    pub kind: PlatformKindView,
}

impl View for PlatformDescription {
    type V = PlatformDescriptionView;

    closed spec fn view(&self) -> PlatformDescriptionView {
        PlatformDescriptionView { content: self.content@, kind: self.kind@ }
    }
}

/// Failure of platform-description classification.
#[derive(Clone, Debug, PartialEq, Eq)]
pub enum PlatformDescriptionError {
    /// The description is empty after normalization.
    Empty,
    /// The referenced local file does not exist.
    LocalFileNotFound(String),
    /// Reading the referenced local file failed; path and error text.
    Io(String, String),
    /// No base name could be extracted from the path.
    FileName(String),
    /// Substitution failed inside the description.
    EnvSub(EnvSubError),
}

impl PlatformDescriptionError {
    /// The user-facing message for this failure.
    pub open spec fn message_spec(&self) -> Seq<char> {
        match self {
            PlatformDescriptionError::Empty => "The platform description is empty"@,
            PlatformDescriptionError::LocalFileNotFound(p) => "The local platform description file '"@
                + p@ + "' could not be found"@,
            PlatformDescriptionError::Io(p, m) => "Encountered an IO error while reading the local file '"@
                + p@ + "'. "@ + m@,
            PlatformDescriptionError::FileName(p) => "Could not determine a file name for local file '"@
                + p@ + "'"@,
            PlatformDescriptionError::EnvSub(e) => e.message_spec(),
        }
    }

    pub fn message(&self) -> (r: String)
        ensures
            r@ == self.message_spec(),
    {
        let mut out = String::new();
        match self {
            PlatformDescriptionError::Empty => {
                out.append("The platform description is empty");
            },
            PlatformDescriptionError::LocalFileNotFound(p) => {
                out.append("The local platform description file '");
                out.append(p.as_str());
                out.append("' could not be found");
            },
            PlatformDescriptionError::Io(p, m) => {
                out.append("Encountered an IO error while reading the local file '");
                out.append(p.as_str());
                out.append("'. ");
                out.append(m.as_str());
            },
            PlatformDescriptionError::FileName(p) => {
                out.append("Could not determine a file name for local file '");
                out.append(p.as_str());
                out.append("'");
            },
            PlatformDescriptionError::EnvSub(e) => {
                return e.message();
            },
        }
        out
    }
}

/// The specification-level form of a classification failure.
pub enum PlatformErrorView {
    Empty,
    NotFound(Seq<char>),
    Io(Seq<char>, Seq<char>),
    FileName(Seq<char>),
    NotUnicode(Seq<char>),
    NotPresent(Seq<char>),
}

impl View for PlatformDescriptionError {
    type V = PlatformErrorView;

    open spec fn view(&self) -> PlatformErrorView {
        match self {
            PlatformDescriptionError::Empty => PlatformErrorView::Empty,
            PlatformDescriptionError::LocalFileNotFound(p) => PlatformErrorView::NotFound(p@),
            PlatformDescriptionError::Io(p, m) => PlatformErrorView::Io(p@, m@),
            PlatformDescriptionError::FileName(p) => PlatformErrorView::FileName(p@),
            PlatformDescriptionError::EnvSub(EnvSubError::EnvVarNotUnicode(n)) =>
                PlatformErrorView::NotUnicode(n@),
            PlatformDescriptionError::EnvSub(EnvSubError::EnvVarNotPresent(n)) =>
                PlatformErrorView::NotPresent(n@),
        }
    }
}

/// What classifying one input yields.
pub enum PlatformOutcome {
    Made(PlatformDescriptionView),
    Failed(PlatformErrorView),
}

/// The platform-file extension every file-like description ends with.
pub open spec fn repl_suffix() -> Seq<char> {
    seq!['r', 'e', 'p', 'l']
}

pub open spec fn ends_with_repl(s: Seq<char>) -> bool {
    has_suffix(s, repl_suffix())
}

/// A description on a single line: one holding no newline.
pub open spec fn is_single_line(s: Seq<char>) -> bool {
    !contains_char(s, '\n')
}

/// A builtin reference: starts with the `@` sigil and ends with the
/// platform-file extension.
pub open spec fn is_builtin_desc(s: Seq<char>) -> bool {
    s.len() > 0 && s[0] == '@' && ends_with_repl(s)
}

/// A local file reference: a single line ending with the platform-file
/// extension, not a builtin reference and not marked for import.
pub open spec fn is_local_desc(s: Seq<char>) -> bool {
    s.len() > 0 && !is_builtin_desc(s) && is_single_line(s) && s[0] != '<' && ends_with_repl(s)
}

/// An importable local file: a single line ending with the platform-file
/// extension and marked with the `<` import prefix.
pub open spec fn is_import_desc(s: Seq<char>) -> bool {
    s.len() > 0 && !is_builtin_desc(s) && is_single_line(s) && s[0] == '<' && ends_with_repl(s)
}

/// Inline platform text: any non-empty description of no other form.
pub open spec fn is_inline_desc(s: Seq<char>) -> bool {
    s.len() > 0 && !is_builtin_desc(s) && !is_local_desc(s) && !is_import_desc(s)
}

/// Every non-empty normalized description has exactly one of the four
/// forms.
pub proof fn lemma_classifier_total(s: Seq<char>)
    requires
        s.len() > 0,
    ensures
        is_builtin_desc(s) || is_local_desc(s) || is_import_desc(s) || is_inline_desc(s),
        is_builtin_desc(s) ==> !(is_local_desc(s) || is_import_desc(s) || is_inline_desc(s)),
        is_local_desc(s) ==> !(is_builtin_desc(s) || is_import_desc(s) || is_inline_desc(s)),
        is_import_desc(s) ==> !(is_builtin_desc(s) || is_local_desc(s) || is_inline_desc(s)),
        is_inline_desc(s) ==> !(is_builtin_desc(s) || is_local_desc(s) || is_import_desc(s)),
{
}

/// A description that normalizes to the empty string always fails, before
/// any other rule is tried.
pub proof fn lemma_empty_desc_fails(raw: Seq<char>, entries: Seq<EnvEntry>, files: Seq<FsFile>)
    requires
        normalize_spec(raw).len() == 0,
    ensures
        classify_spec(raw, entries, files) == PlatformOutcome::Failed(PlatformErrorView::Empty),
{
}

/// The input with its leading run of `<` characters removed.
pub open spec fn strip_lt(s: Seq<char>) -> Seq<char>
    decreases s.len(),
{
    if s.len() > 0 && s[0] == '<' {
        strip_lt(s.skip(1))
    } else {
        s
    }
}

/// The text after the last `/` of a path; the whole path when it has none.
pub open spec fn after_last_slash(p: Seq<char>) -> Seq<char>
    decreases p.len(),
{
    let i = index_of_char(p, '/');
    if 0 <= i && i < p.len() {
        after_last_slash(p.skip(i + 1))
    } else {
        p
    }
}

/// The base name of a path: the text after the last `/`, unless that text
/// is empty or one of the relative components `.` and `..`.
pub open spec fn base_name_spec(p: Seq<char>) -> Option<Seq<char>> {
    let seg = after_last_slash(p);
    if seg.len() == 0 || seg == seq!['.'] || seg == seq!['.', '.'] {
        None
    } else {
        Some(seg)
    }
}

/// The keyword that opens a namespace declaration in inline platform text;
/// inline text starting with it is left unindented.
pub open spec fn using_keyword() -> Seq<char> {
    seq!['u', 's', 'i', 'n', 'g']
}

/// The outcome of a local-file description: the substituted path must name
/// a file of the snapshot.
pub open spec fn local_outcome(
    desc: Seq<char>,
    entries: Seq<EnvEntry>,
    files: Seq<FsFile>,
) -> PlatformOutcome {
    match subst_spec(desc, entries) {
        SubstOutcome::Done(path) => if fs_exists(files, path) {
            PlatformOutcome::Made(
                PlatformDescriptionView { content: path, kind: PlatformKindView::LocalFile },
            )
        } else {
            PlatformOutcome::Failed(PlatformErrorView::NotFound(path))
        },
        SubstOutcome::NotUnicode(n) => PlatformOutcome::Failed(PlatformErrorView::NotUnicode(n)),
        SubstOutcome::NotPresent(n) => PlatformOutcome::Failed(PlatformErrorView::NotPresent(n)),
    }
}

/// The outcome of an importable description: the import prefix is stripped,
/// the remainder trimmed and substituted into a path, and the file's text is
/// substituted into the content.
pub open spec fn import_outcome(
    desc: Seq<char>,
    entries: Seq<EnvEntry>,
    files: Seq<FsFile>,
) -> PlatformOutcome {
    match subst_spec(trim_spec(strip_lt(desc)), entries) {
        SubstOutcome::Done(path) => if !fs_exists(files, path) {
            PlatformOutcome::Failed(PlatformErrorView::NotFound(path))
        } else {
            match base_name_spec(path) {
                None => PlatformOutcome::Failed(PlatformErrorView::FileName(path)),
                Some(name) => match fs_lookup(files, path) {
                    FsLookup::Text(t) => match subst_spec(t, entries) {
                        SubstOutcome::Done(content) => PlatformOutcome::Made(
                            PlatformDescriptionView {
                                content: content,
                                kind: PlatformKindView::GeneratedLocalFile(name),
                            },
                        ),
                        SubstOutcome::NotUnicode(n) => PlatformOutcome::Failed(
                            PlatformErrorView::NotUnicode(n),
                        ),
                        SubstOutcome::NotPresent(n) => PlatformOutcome::Failed(
                            PlatformErrorView::NotPresent(n),
                        ),
                    },
                    FsLookup::Unreadable(m) => PlatformOutcome::Failed(
                        PlatformErrorView::Io(path, m),
                    ),
                    FsLookup::Missing => PlatformOutcome::Failed(PlatformErrorView::NotFound(path)),
                },
            }
        },
        SubstOutcome::NotUnicode(n) => PlatformOutcome::Failed(PlatformErrorView::NotUnicode(n)),
        SubstOutcome::NotPresent(n) => PlatformOutcome::Failed(PlatformErrorView::NotPresent(n)),
    }
}

/// The outcome of inline text: substituted, and indented by four spaces
/// unless it opens with the namespace keyword. The indentation is a
/// best-effort fit for the surrounding script.
pub open spec fn inline_outcome(desc: Seq<char>, entries: Seq<EnvEntry>) -> PlatformOutcome {
    match subst_spec(desc, entries) {
        SubstOutcome::Done(t) => PlatformOutcome::Made(
            PlatformDescriptionView {
                content: if has_prefix(t, using_keyword()) {
                    t
                } else {
                    indent_spec(t, 4, false)
                },
                kind: PlatformKindView::Text,
            },
        ),
        SubstOutcome::NotUnicode(n) => PlatformOutcome::Failed(PlatformErrorView::NotUnicode(n)),
        SubstOutcome::NotPresent(n) => PlatformOutcome::Failed(PlatformErrorView::NotPresent(n)),
    }
}

/// The classification of one raw input: normalize, reject the empty
/// description, then take the first matching form in priority order.
pub open spec fn classify_spec(
    raw: Seq<char>,
    entries: Seq<EnvEntry>,
    files: Seq<FsFile>,
) -> PlatformOutcome {
    let desc = normalize_spec(raw);
    if desc.len() == 0 {
        PlatformOutcome::Failed(PlatformErrorView::Empty)
    } else if is_builtin_desc(desc) {
        PlatformOutcome::Made(
            PlatformDescriptionView { content: desc, kind: PlatformKindView::Internal },
        )
    } else if is_local_desc(desc) {
        local_outcome(desc, entries, files)
    } else if is_import_desc(desc) {
        import_outcome(desc, entries, files)
    } else {
        inline_outcome(desc, entries)
    }
}

/// A description classified as an importable local file carries, as its
/// content, exactly the substitution-resolved text of the source file the
/// resolved path names, and as its kind the file's base name.
pub proof fn lemma_import_content(
    raw: Seq<char>,
    entries: Seq<EnvEntry>,
    files: Seq<FsFile>,
    name: Seq<char>,
    content: Seq<char>,
)
    requires
        classify_spec(raw, entries, files) == PlatformOutcome::Made(
            PlatformDescriptionView {
                content: content,
                kind: PlatformKindView::GeneratedLocalFile(name),
            },
        ),
    ensures
        ({
            let desc = normalize_spec(raw);
            &&& is_import_desc(desc)
            &&& match subst_spec(trim_spec(strip_lt(desc)), entries) {
                SubstOutcome::Done(path) => {
                    &&& fs_exists(files, path)
                    &&& base_name_spec(path) == Some(name)
                    &&& match fs_lookup(files, path) {
                        FsLookup::Text(t) => subst_spec(t, entries) == SubstOutcome::Done(content),
                        _ => false,
                    }
                },
                _ => false,
            }
        }),
{
}

fn ends_repl(d: &Vec<char>) -> (r: bool)
    ensures
        r == ends_with_repl(d@),
{
    let n = d.len();
    if n < 4 {
        return false;
    }
    let r = d[n - 4] == 'r' && d[n - 3] == 'e' && d[n - 2] == 'p' && d[n - 1] == 'l';
    proof {
        let suf = d@.subrange(n as int - 4, n as int);
        if r {
            assert(suf =~= repl_suffix());
        }
        if ends_with_repl(d@) {
            assert(suf[0] == 'r' && suf[1] == 'e' && suf[2] == 'p' && suf[3] == 'l');
        }
    }
    r
}

fn starts_with_using(d: &Vec<char>) -> (r: bool)
    ensures
        r == has_prefix(d@, using_keyword()),
{
    let n = d.len();
    if n < 5 {
        return false;
    }
    let r = d[0] == 'u' && d[1] == 's' && d[2] == 'i' && d[3] == 'n' && d[4] == 'g';
    proof {
        let pre = d@.subrange(0, 5);
        if r {
            assert(pre =~= using_keyword());
        }
        if has_prefix(d@, using_keyword()) {
            assert(pre[0] == 'u' && pre[1] == 's' && pre[2] == 'i' && pre[3] == 'n' && pre[4]
                == 'g');
        }
    }
    r
}

proof fn lemma_after_last_slash(p: Seq<char>, j: int)
    requires
        0 <= j <= p.len(),
        forall|k: int| j <= k < p.len() ==> p[k] != '/',
        j == 0 || p[j - 1] == '/',
    ensures
        after_last_slash(p) == p.skip(j),
    decreases p.len(),
{
    lemma_index_of_char(p, '/');
    let i = index_of_char(p, '/');
    if j == 0 {
        if i < p.len() {
            assert(p[i] == '/');
            assert(false);
        }
        assert(p.skip(0) =~= p);
    } else {
        assert(p[j - 1] == '/');
        assert(i <= j - 1);
        let q = p.skip(i + 1);
        let j2 = j - i - 1;
        assert(forall|k: int| j2 <= k < q.len() ==> q[k] == p[k + i + 1]);
        if j2 > 0 {
            assert(q[j2 - 1] == p[j - 1]);
        }
        lemma_after_last_slash(q, j2);
        assert(q.skip(j2) =~= p.skip(j));
    }
}

/// Extracts the base name of a path, or reports that it has none.
fn base_name(p: &Vec<char>) -> (r: Option<Vec<char>>)
    ensures
        match r {
            Some(v) => base_name_spec(p@) == Some(v@),
            None => base_name_spec(p@) is None,
        },
{
    let n = p.len();
    let mut j: usize = n;
    while j > 0 && p[j - 1] != '/'
        invariant
            j <= n,
            n == p@.len(),
            forall|k: int| j <= k < n ==> p@[k] != '/',
        decreases j,
    {
        j = j - 1;
    }
    proof {
        lemma_after_last_slash(p@, j as int);
    }
    let seg = copy_range(p, j, n);
    let len = seg.len();
    let dot1 = len == 1 && seg[0] == '.';
    let dot2 = len == 2 && seg[0] == '.' && seg[1] == '.';
    proof {
        if dot1 {
            assert(seg@ =~= seq!['.']);
        } else if seg@ == seq!['.'] {
            assert(seg@.len() == 1 && seg@[0] == '.');
        }
        if dot2 {
            assert(seg@ =~= seq!['.', '.']);
        } else if seg@ == seq!['.', '.'] {
            assert(seg@.len() == 2 && seg@[0] == '.' && seg@[1] == '.');
        }
    }
    if len == 0 || dot1 || dot2 {
        None
    } else {
        Some(seg)
    }
}

/// Removes the leading run of `<` characters.
fn strip_lt_chars(d: &Vec<char>) -> (r: Vec<char>)
    ensures
        r@ == strip_lt(d@),
{
    let n = d.len();
    let mut k: usize = 0;
    proof {
        assert(d@.skip(0) =~= d@);
    }
    while k < n && d[k] == '<'
        invariant
            k <= n,
            n == d@.len(),
            strip_lt(d@) == strip_lt(d@.skip(k as int)),
        decreases n - k,
    {
        proof {
            assert(d@.skip(k as int).skip(1) =~= d@.skip(k as int + 1));
        }
        k = k + 1;
    }
    proof {
        assert(strip_lt(d@.skip(k as int)) == d@.skip(k as int));
    }
    copy_range(d, k, n)
}

impl PlatformDescription {
    /// Classifies one raw platform-description input against the given
    /// environment and file-system snapshot.
    pub fn new(desc_from_config: &str, env: &EnvTable, fs: &FsSnapshot) -> (res: Result<
        Self,
        PlatformDescriptionError,
    >)
        ensures
            match res {
                Ok(d) => classify_spec(desc_from_config@, env.entries@, fs.files@)
                    == PlatformOutcome::Made(d@),
                Err(e) => classify_spec(desc_from_config@, env.entries@, fs.files@)
                    == PlatformOutcome::Failed(e@),
            },
    {
        let cs = chars_of(desc_from_config);
        let trimmed = trim_chars(&cs);
        let desc = unindent_chars(&trimmed);
        let ghost dv = desc@;
        if desc.len() == 0 {
            return Err(PlatformDescriptionError::Empty);
        }
        let repl = ends_repl(&desc);
        let single = !has_char(&desc, '\n');
        let starts_at = desc[0] == '@';
        let starts_lt = desc[0] == '<';
        if starts_at && repl {
            proof {
                assert(is_builtin_desc(dv));
            }
            return Ok(
                PlatformDescription {
                    content: string_of(&desc),
                    kind: PlatformDescriptionKind::Internal,
                },
            );
        }
        if single && !starts_lt && repl {
            proof {
                assert(is_local_desc(dv));
            }
            return Self::make_local(&desc, env, fs);
        }
        if single && starts_lt && repl {
            proof {
                assert(is_import_desc(dv));
            }
            return Self::make_import(&desc, env, fs);
        }
        proof {
            assert(!is_builtin_desc(dv) && !is_local_desc(dv) && !is_import_desc(dv));
        }
        Self::make_inline(&desc, env)
    }

    /// Resolves a local-file description: the substituted path must exist.
    fn make_local(desc: &Vec<char>, env: &EnvTable, fs: &FsSnapshot) -> (res: Result<
        Self,
        PlatformDescriptionError,
    >)
        ensures
            match res {
                Ok(d) => local_outcome(desc@, env.entries@, fs.files@) == PlatformOutcome::Made(d@),
                Err(e) => local_outcome(desc@, env.entries@, fs.files@) == PlatformOutcome::Failed(
                    e@,
                ),
            },
    {
        match envsub_chars(desc, env) {
            Ok(pc) => {
                let path = string_of(&pc);
                if fs.contains_path(&path) {
                    Ok(
                        PlatformDescription {
                            content: path,
                            kind: PlatformDescriptionKind::LocalFile,
                        },
                    )
                } else {
                    Err(PlatformDescriptionError::LocalFileNotFound(path))
                }
            },
            Err(e) => Err(PlatformDescriptionError::EnvSub(e)),
        }
    }

    /// Resolves an importable description: strips the import prefix,
    /// resolves and checks the path, and substitutes the file's text.
    fn make_import(desc: &Vec<char>, env: &EnvTable, fs: &FsSnapshot) -> (res: Result<
        Self,
        PlatformDescriptionError,
    >)
        ensures
            match res {
                Ok(d) => import_outcome(desc@, env.entries@, fs.files@) == PlatformOutcome::Made(
                    d@,
                ),
                Err(e) => import_outcome(desc@, env.entries@, fs.files@) == PlatformOutcome::Failed(
                    e@,
                ),
            },
    {
        let stripped = strip_lt_chars(desc);
        let prefix_removed = trim_chars(&stripped);
        match envsub_chars(&prefix_removed, env) {
            Ok(pc) => {
                let path = string_of(&pc);
                match fs.lookup(&path) {
                    None => Err(PlatformDescriptionError::LocalFileNotFound(path)),
                    Some(content) => {
                        match base_name(&pc) {
                            None => Err(PlatformDescriptionError::FileName(path)),
                            Some(name) => {
                                match content {
                                    FileContent::Text(t) => {
                                        let tc = chars_of(t.as_str());
                                        match envsub_chars(&tc, env) {
                                            Ok(sub) => Ok(
                                                PlatformDescription {
                                                    content: string_of(&sub),
                                                    kind:
                                                        PlatformDescriptionKind::GeneratedLocalFile(
                                                        string_of(&name),
                                                    ),
                                                },
                                            ),
                                            Err(e) => Err(PlatformDescriptionError::EnvSub(e)),
                                        }
                                    },
                                    FileContent::Unreadable(m) => Err(
                                        PlatformDescriptionError::Io(path, m),
                                    ),
                                }
                            },
                        }
                    },
                }
            },
            Err(e) => Err(PlatformDescriptionError::EnvSub(e)),
        }
    }

    /// Resolves inline text: substitutes it and indents it unless it opens
    /// with the namespace keyword.
    fn make_inline(desc: &Vec<char>, env: &EnvTable) -> (res: Result<
        Self,
        PlatformDescriptionError,
    >)
        ensures
            match res {
                Ok(d) => inline_outcome(desc@, env.entries@) == PlatformOutcome::Made(d@),
                Err(e) => inline_outcome(desc@, env.entries@) == PlatformOutcome::Failed(e@),
            },
    {
        match envsub_chars(desc, env) {
            Ok(raw) => {
                if starts_with_using(&raw) {
                    Ok(
                        PlatformDescription {
                            content: string_of(&raw),
                            kind: PlatformDescriptionKind::String,
                        },
                    )
                } else {
                    let indented = indent_by_chars(4, &raw);
                    Ok(
                        PlatformDescription {
                            content: string_of(&indented),
                            kind: PlatformDescriptionKind::String,
                        },
                    )
                }
            },
            Err(e) => Err(PlatformDescriptionError::EnvSub(e)),
        }
    }

    /// The normalized content: its meaning depends on the kind.
    pub fn content(&self) -> (r: &str)
        ensures
            r@ == self@.content,
    {
        self.content.as_str()
    }

    /// The kind this description was classified as.
    pub fn kind(&self) -> (r: &PlatformDescriptionKind)
        ensures
            r@ == self@.kind,
    {
        &self.kind
    }

    /// How the description is written in the script's load directive:
    /// builtin references and inline text verbatim, file references as the
    /// `@`-prefixed path, imported files as the `@`-prefixed base name.
    pub fn resc_fmt(&self) -> (r: String)
        ensures
            r@ == resc_fmt_spec(self@),
    {
        match &self.kind {
            PlatformDescriptionKind::Internal => self.content.clone(),
            PlatformDescriptionKind::LocalFile => {
                let mut out = String::new();
                out.append("@");
                out.append(self.content.as_str());
                out
            },
            PlatformDescriptionKind::GeneratedLocalFile(file_name) => {
                let mut out = String::new();
                out.append("@");
                out.append(file_name.as_str());
                out
            },
            PlatformDescriptionKind::String => self.content.clone(),
        }
    }
}

/// The file-system path that classifying this input would consult, if any:
/// the substituted path of a local or importable file reference. The caller
/// probes it and records the finding in the snapshot before classifying.
pub fn probe_path(desc_from_config: &str, env: &EnvTable) -> (r: Option<String>)
    ensures
        ({
            let desc = normalize_spec(desc_from_config@);
            if is_local_desc(desc) {
                match subst_spec(desc, env.entries@) {
                    SubstOutcome::Done(p) => r matches Some(s) && s@ == p,
                    _ => r is None,
                }
            } else if is_import_desc(desc) {
                match subst_spec(trim_spec(strip_lt(desc)), env.entries@) {
                    SubstOutcome::Done(p) => r matches Some(s) && s@ == p,
                    _ => r is None,
                }
            } else {
                r is None
            }
        }),
{
    let cs = chars_of(desc_from_config);
    let trimmed = trim_chars(&cs);
    let desc = unindent_chars(&trimmed);
    if desc.len() == 0 {
        return None;
    }
    let repl = ends_repl(&desc);
    let single = !has_char(&desc, '\n');
    let starts_at = desc[0] == '@';
    let starts_lt = desc[0] == '<';
    if starts_at && repl {
        return None;
    }
    if single && !starts_lt && repl {
        return match envsub_chars(&desc, env) {
            Ok(pc) => Some(string_of(&pc)),
            Err(_) => None,
        };
    }
    if single && starts_lt && repl {
        let stripped = strip_lt_chars(&desc);
        let prefix_removed = trim_chars(&stripped);
        return match envsub_chars(&prefix_removed, env) {
            Ok(pc) => Some(string_of(&pc)),
            Err(_) => None,
        };
    }
    None
}

/// The text a description contributes to its load directive.
pub open spec fn resc_fmt_spec(d: PlatformDescriptionView) -> Seq<char> {
    match d.kind {
        PlatformKindView::Internal => d.content,
        PlatformKindView::LocalFile => "@"@ + d.content,
        PlatformKindView::GeneratedLocalFile(name) => "@"@ + name,
        PlatformKindView::Text => d.content,
    }
}

} // verus!
