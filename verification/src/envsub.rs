//! Environment-variable substitution.
//!
//! Replaces `${NAME}`, `${NAME-default}` and `${NAME:-default}` tokens with
//! the value of the named variable, or with the literal default when the
//! variable is unset. The environment is handed in as an explicit
//! [`EnvTable`] value, so the whole engine is pure and verified: the caller
//! reads the process environment once and passes it down.

use vstd::prelude::*;
use crate::text::chars_of;
use crate::text::contains_char;
use crate::text::copy_range;
use crate::text::extend_chars;
use crate::text::string_of;

verus! {

/// The value of one environment variable: either ordinary text, or a value
/// that exists but is not valid unicode.
pub enum EnvVarValue {
    Utf8(String),
    NotUnicode,
}

/// One environment variable binding.
pub struct EnvEntry {
    pub name: String,
    pub value: EnvVarValue,
}

/// A snapshot of the process environment. Lookups find the first entry with
/// the requested name.
pub struct EnvTable {
    pub entries: Vec<EnvEntry>,
}

/// Failure of a substitution.
#[derive(Clone, Debug, PartialEq, Eq, Hash)]
pub enum EnvSubError {
    /// The named variable is set, but its value is not valid unicode.
    EnvVarNotUnicode(String),
    /// The named variable is not set and the token carries no default.
    EnvVarNotPresent(String),
}

/// The specification-level form of a substitution failure.
pub enum EnvSubErrorView {
    NotUnicode(Seq<char>),
    NotPresent(Seq<char>),
}

impl View for EnvSubError {
    type V = EnvSubErrorView;

    open spec fn view(&self) -> EnvSubErrorView {
        match self {
            EnvSubError::EnvVarNotUnicode(n) => EnvSubErrorView::NotUnicode(n@),
            EnvSubError::EnvVarNotPresent(n) => EnvSubErrorView::NotPresent(n@),
        }
    }
}

impl EnvSubError {
    /// The user-facing message for this failure.
    pub open spec fn message_spec(&self) -> Seq<char> {
        match self {
            EnvSubError::EnvVarNotUnicode(n) => "The environment variable '"@ + n@
                + "' contains invalid unicode"@,
            EnvSubError::EnvVarNotPresent(n) => "The environment variable '"@ + n@
                + "' is not set and no default value is specified"@,
        }
    }

    pub fn message(&self) -> (r: String)
        ensures
            r@ == self.message_spec(),
    {
        let mut out = String::new();
        match self {
            EnvSubError::EnvVarNotUnicode(n) => {
                out.append("The environment variable '");
                out.append(n.as_str());
                out.append("' contains invalid unicode");
            },
            EnvSubError::EnvVarNotPresent(n) => {
                out.append("The environment variable '");
                out.append(n.as_str());
                out.append("' is not set and no default value is specified");
            },
        }
        out
    }
}

/// What looking a name up in the environment yields.
pub enum EnvLookup {
    Missing,
    NotUnicode,
    Present(Seq<char>),
}

/// The first binding of `name` in `entries`.
pub open spec fn env_lookup(entries: Seq<EnvEntry>, name: Seq<char>) -> EnvLookup
    decreases entries.len(),
{
    if entries.len() == 0 {
        EnvLookup::Missing
    } else if entries[0].name@ == name {
        match entries[0].value {
            EnvVarValue::Utf8(v) => EnvLookup::Present(v@),
            EnvVarValue::NotUnicode => EnvLookup::NotUnicode,
        }
    } else {
        env_lookup(entries.skip(1), name)
    }
}

impl EnvTable {
    pub fn new() -> (r: Self)
        ensures
            r.entries@.len() == 0,
    {
        EnvTable { entries: Vec::new() }
    }

    /// Appends a binding of `name` to the text `value`.
    pub fn push_var(&mut self, name: &str, value: &str)
        ensures
            final(self).entries@.len() == old(self).entries@.len() + 1,
            forall|k: int|
                0 <= k < old(self).entries@.len() ==> final(self).entries@[k] == old(
                    self,
                ).entries@[k],
            final(self).entries@.last().name@ == name@,
            final(self).entries@.last().value matches EnvVarValue::Utf8(v) && v@ == value@,
    {
        self.entries.push(
            EnvEntry { name: name.to_owned(), value: EnvVarValue::Utf8(value.to_owned()) },
        );
    }

    /// Appends a binding of `name` to a value that is not valid unicode.
    pub fn push_not_unicode(&mut self, name: &str)
        ensures
            final(self).entries@.len() == old(self).entries@.len() + 1,
            forall|k: int|
                0 <= k < old(self).entries@.len() ==> final(self).entries@[k] == old(
                    self,
                ).entries@[k],
            final(self).entries@.last().name@ == name@,
            final(self).entries@.last().value is NotUnicode,
    {
        self.entries.push(EnvEntry { name: name.to_owned(), value: EnvVarValue::NotUnicode });
    }

    /// Finds the first binding of `name`, if any.
    pub fn lookup(&self, name: &String) -> (r: Option<EnvVarValue>)
        ensures
            match r {
                None => env_lookup(self.entries@, name@) is Missing,
                Some(v) => match v {
                    EnvVarValue::Utf8(t) => env_lookup(self.entries@, name@) == EnvLookup::Present(
                        t@,
                    ),
                    EnvVarValue::NotUnicode => env_lookup(self.entries@, name@)
                        is NotUnicode,
                },
            },
    {
        let n = self.entries.len();
        let mut k: usize = 0;
        proof {
            assert(self.entries@.skip(0) =~= self.entries@);
        }
        while k < n
            invariant
                k <= n,
                n == self.entries@.len(),
                env_lookup(self.entries@, name@) == env_lookup(
                    self.entries@.skip(k as int),
                    name@,
                ),
            decreases n - k,
        {
            let e = &self.entries[k];
            if e.name == *name {
                match &e.value {
                    EnvVarValue::Utf8(t) => {
                        return Some(EnvVarValue::Utf8(t.clone()));
                    },
                    EnvVarValue::NotUnicode => {
                        return Some(EnvVarValue::NotUnicode);
                    },
                }
            }
            proof {
                assert(self.entries@.skip(k as int).skip(1) =~= self.entries@.skip(k as int + 1));
            }
            k = k + 1;
        }
        None
    }
}

/// A character that may start a substitution variable name.
pub open spec fn is_name_start_char(c: char) -> bool {
    ('a' <= c && c <= 'z') || ('A' <= c && c <= 'Z') || c == '_'
}

/// A character that may continue a substitution variable name.
pub open spec fn is_name_char(c: char) -> bool {
    is_name_start_char(c) || ('0' <= c && c <= '9')
}

/// A well-formed variable name: one name-start character followed by name
/// characters.
pub open spec fn valid_name(s: Seq<char>) -> bool {
    s.len() > 0 && is_name_start_char(s[0]) && forall|i: int| 0 < i < s.len() ==> is_name_char(s[i])
}

pub fn name_start_char(c: char) -> (r: bool)
    ensures
        r == is_name_start_char(c),
{
    ('a' <= c && c <= 'z') || ('A' <= c && c <= 'Z') || c == '_'
}

pub fn name_char(c: char) -> (r: bool)
    ensures
        r == is_name_char(c),
{
    name_start_char(c) || ('0' <= c && c <= '9')
}

/// The end of the run of name characters starting at `i`.
pub open spec fn name_end(s: Seq<char>, i: int) -> int
    decreases s.len() - i when 0 <= i <= s.len()
{
    if i < s.len() && is_name_char(s[i]) {
        name_end(s, i + 1)
    } else {
        i
    }
}

/// The index of the closing brace of a default value scanned from `i`, or
/// `s.len()` when a newline or the end of the string comes first.
pub open spec fn def_close(s: Seq<char>, i: int) -> int
    decreases s.len() - i when 0 <= i <= s.len()
{
    if i >= s.len() {
        s.len() as int
    } else if s[i] == '}' {
        i
    } else if s[i] == '\n' {
        s.len() as int
    } else {
        def_close(s, i + 1)
    }
}

/// One parsed substitution token: `${name}`, `${name-def}` or
/// `${name:-def}`.
pub struct Token {
    pub name: Seq<char>,
    pub colon: bool,
    pub def: Option<Seq<char>>,
}

/// How many characters of the input the token spans.
pub open spec fn token_len(t: Token) -> int {
    2 + t.name.len() + match t.def {
        None => 1int,
        Some(d) => (if t.colon {
            2int
        } else {
            1int
        }) + d.len() + 1,
    }
}

/// The substitution token starting at position `i` of `s`, if any.
pub open spec fn token_at(s: Seq<char>, i: int) -> Option<Token> {
    if 0 <= i && i + 2 < s.len() && s[i] == '$' && s[i + 1] == '{' && is_name_start_char(
        s[i + 2],
    ) {
        let ne = name_end(s, i + 2);
        if ne < s.len() && s[ne] == '}' {
            Some(Token { name: s.subrange(i + 2, ne), colon: false, def: None })
        } else if ne < s.len() && s[ne] == '-' {
            let k = def_close(s, ne + 1);
            if k < s.len() {
                Some(
                    Token { name: s.subrange(i + 2, ne), colon: false, def: Some(
                        s.subrange(ne + 1, k),
                    ) },
                )
            } else {
                None
            }
        } else if ne + 1 < s.len() && s[ne] == ':' && s[ne + 1] == '-' {
            let k = def_close(s, ne + 2);
            if k < s.len() {
                Some(
                    Token { name: s.subrange(i + 2, ne), colon: true, def: Some(
                        s.subrange(ne + 2, k),
                    ) },
                )
            } else {
                None
            }
        } else {
            None
        }
    } else {
        None
    }
}

/// The outcome of a substitution: the substituted text, or the first failing
/// variable.
pub enum SubstOutcome {
    Done(Seq<char>),
    NotUnicode(Seq<char>),
    NotPresent(Seq<char>),
}

/// Prefixes `v` to the text of a successful outcome; failures pass through.
pub open spec fn out_prepend(v: Seq<char>, o: SubstOutcome) -> SubstOutcome {
    match o {
        SubstOutcome::Done(r) => SubstOutcome::Done(v + r),
        e => e,
    }
}

/// What a single token substitutes to.
pub open spec fn resolve_token(entries: Seq<EnvEntry>, t: Token) -> SubstOutcome {
    match env_lookup(entries, t.name) {
        EnvLookup::Present(v) => SubstOutcome::Done(v),
        EnvLookup::NotUnicode => SubstOutcome::NotUnicode(t.name),
        EnvLookup::Missing => match t.def {
            Some(d) => SubstOutcome::Done(d),
            None => SubstOutcome::NotPresent(t.name),
        },
    }
}

/// The substitution of `s` from position `i` on: left to right, each token
/// replaced by its resolution, text outside tokens copied verbatim, and the
/// first failing token aborting the whole substitution.
pub open spec fn subst_from(s: Seq<char>, entries: Seq<EnvEntry>, i: int) -> SubstOutcome
    decreases s.len() - i,
{
    if i < 0 || i >= s.len() {
        SubstOutcome::Done(Seq::empty())
    } else {
        match token_at(s, i) {
            None => out_prepend(seq![s[i]], subst_from(s, entries, i + 1)),
            Some(t) => {
                let end = i + token_len(t);
                let next = if i < end && end <= s.len() {
                    end
                } else {
                    i + 1
                };
                match resolve_token(entries, t) {
                    SubstOutcome::Done(v) => out_prepend(v, subst_from(s, entries, next)),
                    e => e,
                }
            },
        }
    }
}

/// The substitution of the whole of `s`.
pub open spec fn subst_spec(s: Seq<char>, entries: Seq<EnvEntry>) -> SubstOutcome {
    subst_from(s, entries, 0)
}

/// The relation between an executable substitution result and the
/// specification's outcome.
pub open spec fn subst_chars_match(res: Result<Vec<char>, EnvSubError>, o: SubstOutcome) -> bool {
    match res {
        Ok(r) => o == SubstOutcome::Done(r@),
        Err(EnvSubError::EnvVarNotUnicode(n)) => o == SubstOutcome::NotUnicode(n@),
        Err(EnvSubError::EnvVarNotPresent(n)) => o == SubstOutcome::NotPresent(n@),
    }
}

/// As `subst_chars_match`, for a `String` result.
pub open spec fn subst_str_match(res: Result<String, EnvSubError>, o: SubstOutcome) -> bool {
    match res {
        Ok(r) => o == SubstOutcome::Done(r@),
        Err(EnvSubError::EnvVarNotUnicode(n)) => o == SubstOutcome::NotUnicode(n@),
        Err(EnvSubError::EnvVarNotPresent(n)) => o == SubstOutcome::NotPresent(n@),
    }
}

proof fn lemma_out_prepend_assoc(a: Seq<char>, b: Seq<char>, o: SubstOutcome)
    ensures
        out_prepend(a, out_prepend(b, o)) == out_prepend(a + b, o),
{
    match o {
        SubstOutcome::Done(r) => {
            assert(a + (b + r) =~= (a + b) + r);
        },
        _ => {},
    }
}

/// The indices recorded by the executable token scanner.
struct TokenIdx {
    name_start: usize,
    name_end: usize,
    def_start: usize,
    def_end: usize,
    has_def: bool,
    colon: bool,
    end: usize,
}

/// The token the scanner found at `i`, as the specification sees it.
spec fn scanned_token(s: Seq<char>, t: TokenIdx) -> Token {
    Token {
        name: s.subrange(t.name_start as int, t.name_end as int),
        colon: t.colon,
        def: if t.has_def {
            Some(s.subrange(t.def_start as int, t.def_end as int))
        } else {
            None
        },
    }
}

fn scan_def(s: &Vec<char>, d: usize) -> (r: Option<usize>)
    requires
        d <= s@.len(),
    ensures
        match r {
            Some(k) => d <= k < s@.len() && def_close(s@, d as int) == k,
            None => def_close(s@, d as int) == s@.len(),
        },
{
    let n = s.len();
    let mut k: usize = d;
    while k < n
        invariant
            d <= k <= n,
            n == s@.len(),
            def_close(s@, d as int) == def_close(s@, k as int),
        decreases n - k,
    {
        if s[k] == '}' {
            return Some(k);
        }
        if s[k] == '\n' {
            return None;
        }
        k = k + 1;
    }
    None
}

fn scan_token(s: &Vec<char>, i: usize) -> (r: Option<TokenIdx>)
    requires
        i < s@.len(),
    ensures
        match r {
            None => token_at(s@, i as int) is None,
            Some(t) => {
                &&& t.name_start == i + 2
                &&& t.name_start <= t.name_end < s@.len()
                &&& t.has_def ==> t.name_end < t.def_start <= t.def_end < s@.len()
                &&& i < t.end <= s@.len()
                &&& token_at(s@, i as int) == Some(scanned_token(s@, t))
                &&& t.end == i + token_len(scanned_token(s@, t))
            },
        },
{
    let n = s.len();
    if s[i] != '$' {
        return None;
    }
    if i + 1 >= n || s[i + 1] != '{' {
        return None;
    }
    if i + 2 >= n || !name_start_char(s[i + 2]) {
        return None;
    }
    let mut j: usize = i + 2;
    while j < n && name_char(s[j])
        invariant
            i + 2 <= j <= n,
            n == s@.len(),
            name_end(s@, i as int + 2) == name_end(s@, j as int),
        decreases n - j,
    {
        j = j + 1;
    }
    if j < n && s[j] == '}' {
        Some(
            TokenIdx {
                name_start: i + 2,
                name_end: j,
                def_start: 0,
                def_end: 0,
                has_def: false,
                colon: false,
                end: j + 1,
            },
        )
    } else if j < n && s[j] == '-' {
        match scan_def(s, j + 1) {
            Some(k) => Some(
                TokenIdx {
                    name_start: i + 2,
                    name_end: j,
                    def_start: j + 1,
                    def_end: k,
                    has_def: true,
                    colon: false,
                    end: k + 1,
                },
            ),
            None => None,
        }
    } else if n - j > 1 && s[j] == ':' && s[j + 1] == '-' {
        match scan_def(s, j + 2) {
            Some(k) => Some(
                TokenIdx {
                    name_start: i + 2,
                    name_end: j,
                    def_start: j + 2,
                    def_end: k,
                    has_def: true,
                    colon: true,
                    end: k + 1,
                },
            ),
            None => None,
        }
    } else {
        None
    }
}

proof fn lemma_name_end_run(s: Seq<char>, a: int, b: int)
    requires
        0 <= a <= b <= s.len(),
        forall|k: int| a <= k < b ==> is_name_char(s[k]),
        b == s.len() || !is_name_char(s[b]),
    ensures
        name_end(s, a) == b,
    decreases b - a,
{
    if a < b {
        lemma_name_end_run(s, a + 1, b);
    }
}

proof fn lemma_def_close_run(s: Seq<char>, a: int, b: int)
    requires
        0 <= a <= b < s.len(),
        forall|k: int| a <= k < b ==> s[k] != '}' && s[k] != '\n',
        s[b] == '}',
    ensures
        def_close(s, a) == b,
    decreases b - a,
{
    if a < b {
        lemma_def_close_run(s, a + 1, b);
    }
}

/// A single `${name}` token substitutes to the variable's value when the
/// variable is set; when it is set to text that is not valid unicode, or not
/// set at all, substitution fails naming that variable.
pub proof fn lemma_substitute_variable(name: Seq<char>, entries: Seq<EnvEntry>)
    requires
        valid_name(name),
    ensures
        ({
            let s = seq!['$', '{'] + name + seq!['}'];
            subst_spec(s, entries) == match env_lookup(entries, name) {
                EnvLookup::Present(v) => SubstOutcome::Done(v),
                EnvLookup::NotUnicode => SubstOutcome::NotUnicode(name),
                EnvLookup::Missing => SubstOutcome::NotPresent(name),
            }
        }),
{
    let s = seq!['$', '{'] + name + seq!['}'];
    let ne = 2 + name.len() as int;
    assert(s.len() == name.len() + 3);
    assert(s[0] == '$' && s[1] == '{');
    assert(forall|k: int| 2 <= k < ne ==> s[k] == name[k - 2]);
    assert(s[ne] == '}');
    assert(!is_name_char('}'));
    lemma_name_end_run(s, 2, ne);
    let t = Token { name: s.subrange(2, ne), colon: false, def: None };
    assert(s.subrange(2, ne) =~= name);
    assert(token_at(s, 0) == Some(t));
    assert(token_len(t) == s.len());
    assert(subst_from(s, entries, s.len() as int) == SubstOutcome::Done(Seq::<char>::empty()));
    match env_lookup(entries, name) {
        EnvLookup::Present(v) => {
            assert(v + Seq::<char>::empty() =~= v);
        },
        _ => {},
    }
}

/// A single `${name-def}` or `${name:-def}` token substitutes to the
/// variable's value when it is set, and to the literal default when it is not
/// set; a set value that is not valid unicode still fails.
pub proof fn lemma_substitute_default(
    name: Seq<char>,
    def: Seq<char>,
    colon: bool,
    entries: Seq<EnvEntry>,
)
    requires
        valid_name(name),
        !contains_char(def, '}'),
        !contains_char(def, '\n'),
    ensures
        ({
            let s = seq!['$', '{'] + name + (if colon {
                seq![':', '-']
            } else {
                seq!['-']
            }) + def + seq!['}'];
            subst_spec(s, entries) == match env_lookup(entries, name) {
                EnvLookup::Present(v) => SubstOutcome::Done(v),
                EnvLookup::NotUnicode => SubstOutcome::NotUnicode(name),
                EnvLookup::Missing => SubstOutcome::Done(def),
            }
        }),
{
    let marker: Seq<char> = if colon {
        seq![':', '-']
    } else {
        seq!['-']
    };
    let s = seq!['$', '{'] + name + marker + def + seq!['}'];
    let ne = 2 + name.len() as int;
    let ds = ne + marker.len() as int;
    let dc = ds + def.len() as int;
    assert(s.len() == dc + 1);
    assert(s[0] == '$' && s[1] == '{');
    assert(forall|k: int| 2 <= k < ne ==> s[k] == name[k - 2]);
    assert(forall|k: int| ds <= k < dc ==> s[k] == def[k - ds]);
    assert(s[dc] == '}');
    assert(!is_name_char('-') && !is_name_char(':'));
    lemma_name_end_run(s, 2, ne);
    assert(forall|k: int| ds <= k < dc ==> s[k] != '}' && s[k] != '\n') by {
        assert(forall|j: int| 0 <= j < def.len() ==> def[j] != '}' && def[j] != '\n');
    }
    lemma_def_close_run(s, ds, dc);
    let t = Token { name: s.subrange(2, ne), colon: colon, def: Some(s.subrange(ds, dc)) };
    assert(s.subrange(2, ne) =~= name);
    assert(s.subrange(ds, dc) =~= def);
    if colon {
        assert(s[ne] == ':' && s[ne + 1] == '-');
        assert(token_at(s, 0) == Some(t));
    } else {
        assert(s[ne] == '-');
        assert(token_at(s, 0) == Some(t));
    }
    assert(token_len(t) == s.len());
    assert(subst_from(s, entries, s.len() as int) == SubstOutcome::Done(Seq::<char>::empty()));
    match env_lookup(entries, name) {
        EnvLookup::Present(v) => {
            assert(v + Seq::<char>::empty() =~= v);
        },
        EnvLookup::Missing => {
            assert(def + Seq::<char>::empty() =~= def);
        },
        _ => {},
    }
}

/// A string with no substitution token anywhere.
pub open spec fn token_free(s: Seq<char>) -> bool {
    forall|i: int| token_at(s, i) is None
}

proof fn lemma_token_free_from(s: Seq<char>, entries: Seq<EnvEntry>, i: int)
    requires
        token_free(s),
        0 <= i <= s.len(),
    ensures
        subst_from(s, entries, i) == SubstOutcome::Done(s.skip(i)),
    decreases s.len() - i,
{
    if i >= s.len() {
        assert(s.skip(i) =~= Seq::<char>::empty());
    } else {
        lemma_token_free_from(s, entries, i + 1);
        assert(seq![s[i]] + s.skip(i + 1) =~= s.skip(i));
    }
}

/// Substituting a token-free string returns it unchanged.
pub proof fn lemma_token_free_identity(s: Seq<char>, entries: Seq<EnvEntry>)
    requires
        token_free(s),
    ensures
        subst_spec(s, entries) == SubstOutcome::Done(s),
{
    lemma_token_free_from(s, entries, 0);
    assert(s.skip(0) =~= s);
}

/// Substitution is idempotent on its own output whenever that output holds no
/// further token: substituting it again returns it unchanged.
pub proof fn lemma_substitute_idempotent(s: Seq<char>, entries: Seq<EnvEntry>, r: Seq<char>)
    requires
        subst_spec(s, entries) == SubstOutcome::Done(r),
        token_free(r),
    ensures
        subst_spec(r, entries) == subst_spec(s, entries),
{
    lemma_token_free_identity(r, entries);
}

/// Substitutes every token of `s` against `env`, over characters.
pub fn envsub_chars(s: &Vec<char>, env: &EnvTable) -> (res: Result<Vec<char>, EnvSubError>)
    ensures
        subst_chars_match(res, subst_spec(s@, env.entries@)),
{
    let n = s.len();
    let ghost ent = env.entries@;
    let mut out: Vec<char> = Vec::new();
    let mut i: usize = 0;
    proof {
        match subst_from(s@, ent, 0) {
            SubstOutcome::Done(v) => {
                assert(Seq::<char>::empty() + v =~= v);
            },
            _ => {},
        }
    }
    while i < n
        invariant
            i <= n,
            n == s@.len(),
            subst_spec(s@, ent) == out_prepend(out@, subst_from(s@, ent, i as int)),
            ent == env.entries@,
        decreases n - i,
    {
        match scan_token(s, i) {
            None => {
                proof {
                    lemma_out_prepend_assoc(out@, seq![s@[i as int]], subst_from(s@, ent, i as int + 1));
                    assert(out@ + seq![s@[i as int]] =~= out@.push(s@[i as int]));
                }
                out.push(s[i]);
                i = i + 1;
            },
            Some(t) => {
                let ghost tk = scanned_token(s@, t);
                let name_vec = copy_range(s, t.name_start, t.name_end);
                let name_str = string_of(&name_vec);
                proof {
                    assert(name_str@ == tk.name);
                }
                match env.lookup(&name_str) {
                    Some(EnvVarValue::Utf8(v)) => {
                        proof {
                            assert(resolve_token(ent, tk) == SubstOutcome::Done(v@));
                            lemma_out_prepend_assoc(out@, v@, subst_from(s@, ent, t.end as int));
                        }
                        let vc = chars_of(v.as_str());
                        extend_chars(&mut out, &vc);
                        i = t.end;
                    },
                    Some(EnvVarValue::NotUnicode) => {
                        proof {
                            assert(resolve_token(ent, tk) == SubstOutcome::NotUnicode(tk.name));
                        }
                        return Err(EnvSubError::EnvVarNotUnicode(name_str));
                    },
                    None => {
                        if t.has_def {
                            proof {
                                assert(resolve_token(ent, tk) == SubstOutcome::Done(
                                    s@.subrange(t.def_start as int, t.def_end as int),
                                ));
                                lemma_out_prepend_assoc(
                                    out@,
                                    s@.subrange(t.def_start as int, t.def_end as int),
                                    subst_from(s@, ent, t.end as int),
                                );
                            }
                            let dc = copy_range(s, t.def_start, t.def_end);
                            extend_chars(&mut out, &dc);
                            i = t.end;
                        } else {
                            proof {
                                assert(resolve_token(ent, tk) == SubstOutcome::NotPresent(tk.name));
                            }
                            return Err(EnvSubError::EnvVarNotPresent(name_str));
                        }
                    },
                }
            },
        }
    }
    proof {
        assert(out@ + Seq::<char>::empty() =~= out@);
    }
    Ok(out)
}

/// Substitutes every token of `input` against `env`.
pub fn envsub(input: &str, env: &EnvTable) -> (res: Result<String, EnvSubError>)
    ensures
        subst_str_match(res, subst_spec(input@, env.entries@)),
{
    let cs = chars_of(input);
    match envsub_chars(&cs, env) {
        Ok(r) => Ok(string_of(&r)),
        Err(e) => Err(e),
    }
}

} // verus!
