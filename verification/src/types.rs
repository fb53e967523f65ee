//! Validated field types and the session definition they assemble into.
//!
//! Each newtype owns the validation of one configuration field: optional
//! de-indentation, environment-variable substitution, and a non-emptiness
//! check. A field that resolves to the empty string is rejected with an
//! error naming the field.

use vstd::prelude::*;
use crate::config::AppConfig;
use crate::config::RenodeScriptConfig;
use crate::envsub::envsub_chars;
use crate::envsub::EnvEntry;
use crate::envsub::EnvSubError;
use crate::envsub::EnvSubErrorView;
use crate::envsub::EnvTable;
use crate::envsub::subst_spec;
use crate::envsub::SubstOutcome;
use crate::fsview::fs_exists;
use crate::fsview::FsFile;
use crate::fsview::FsSnapshot;
use crate::platform::classify_spec;
use crate::platform::PlatformDescription;
use crate::platform::PlatformDescriptionError;
use crate::platform::PlatformDescriptionView;
use crate::platform::PlatformErrorView;
use crate::platform::PlatformOutcome;
use crate::text::chars_of;
use crate::text::indent_all_by_chars;
use crate::text::indent_spec;
use crate::text::is_space_char;
use crate::text::string_of;
use crate::text::trim_chars;
use crate::text::trim_spec;
use crate::text::unindent_chars;
use crate::text::unindent_spec;

verus! {

/// Failure of one validated field.
#[derive(Clone, Debug, PartialEq, Eq)]
pub enum RescGenericFieldError {
    /// The named field resolved to the empty string.
    Empty(String),
    /// Substitution failed inside the field.
    EnvSub(EnvSubError),
}

impl RescGenericFieldError {
    /// The user-facing message for this failure.
    pub open spec fn message_spec(&self) -> Seq<char> {
        match self {
            RescGenericFieldError::Empty(f) => "The field '"@ + f@
                + "' cannot contain an empty string"@,
            RescGenericFieldError::EnvSub(e) => e.message_spec(),
        }
    }

    pub fn message(&self) -> (r: String)
        ensures
            r@ == self.message_spec(),
    {
        let mut out = String::new();
        match self {
            RescGenericFieldError::Empty(f) => {
                out.append("The field '");
                out.append(f.as_str());
                out.append("' cannot contain an empty string");
            },
            RescGenericFieldError::EnvSub(e) => {
                return e.message();
            },
        }
        out
    }
}

/// The specification-level form of a field failure.
pub enum FieldErrorView {
    Empty(Seq<char>),
    Sub(EnvSubErrorView),
}

impl View for RescGenericFieldError {
    type V = FieldErrorView;

    open spec fn view(&self) -> FieldErrorView {
        match self {
            RescGenericFieldError::Empty(f) => FieldErrorView::Empty(f@),
            RescGenericFieldError::EnvSub(e) => FieldErrorView::Sub(e@),
        }
    }
}

/// The de-indentation every block-like field goes through: trim the raw
/// text, then remove the indentation shared by the lines after the first.
pub open spec fn normalize_spec(raw: Seq<char>) -> Seq<char> {
    unindent_spec(trim_spec(raw))
}

/// What validating one field yields.
pub enum FieldOutcome {
    Done(Seq<char>),
    Empty,
    NotUnicode(Seq<char>),
    NotPresent(Seq<char>),
}

/// The outcome of one field: optionally de-indent, then substitute, then
/// reject an empty result.
pub open spec fn field_spec(raw: Seq<char>, entries: Seq<EnvEntry>, deindent: bool) -> FieldOutcome {
    let pre = if deindent {
        normalize_spec(raw)
    } else {
        raw
    };
    match subst_spec(pre, entries) {
        SubstOutcome::Done(s) => if s.len() == 0 {
            FieldOutcome::Empty
        } else {
            FieldOutcome::Done(s)
        },
        SubstOutcome::NotUnicode(n) => FieldOutcome::NotUnicode(n),
        SubstOutcome::NotPresent(n) => FieldOutcome::NotPresent(n),
    }
}

/// How a field error relates to the outcome it reports, for the field named
/// `field`.
pub open spec fn field_err_match(
    e: RescGenericFieldError,
    o: FieldOutcome,
    field: Seq<char>,
) -> bool {
    match e {
        RescGenericFieldError::Empty(f) => o is Empty && f@ == field,
        RescGenericFieldError::EnvSub(EnvSubError::EnvVarNotUnicode(n)) => o
            == FieldOutcome::NotUnicode(n@),
        RescGenericFieldError::EnvSub(EnvSubError::EnvVarNotPresent(n)) => o
            == FieldOutcome::NotPresent(n@),
    }
}

/// Validates one field: de-indents when asked, substitutes, and rejects an
/// empty result under the name `field`.
fn make_field(v: &str, env: &EnvTable, deindent: bool, field: &str) -> (res: Result<
    String,
    RescGenericFieldError,
>)
    ensures
        match res {
            Ok(s) => field_spec(v@, env.entries@, deindent) == FieldOutcome::Done(s@),
            Err(e) => field_err_match(e, field_spec(v@, env.entries@, deindent), field@),
        },
{
    let cs = chars_of(v);
    let pre = if deindent {
        let t = trim_chars(&cs);
        proof {
            assert(t@.len() > 0 ==> !is_space_char(t@[0]));
        }
        unindent_chars(&t)
    } else {
        cs
    };
    match envsub_chars(&pre, env) {
        Ok(r) => {
            if r.len() == 0 {
                Err(RescGenericFieldError::Empty(field.to_owned()))
            } else {
                Ok(string_of(&r))
            }
        },
        Err(e) => Err(RescGenericFieldError::EnvSub(e)),
    }
}

/// The session's name. Substituted, not de-indented.
#[derive(Clone, Debug)]
pub struct Name(String);

impl View for Name {
    type V = Seq<char>;

    closed spec fn view(&self) -> Seq<char> {
        self.0@
    }
}

impl Name {
    pub fn new(v: &str, env: &EnvTable) -> (res: Result<Self, RescGenericFieldError>)
        ensures
            match res {
                Ok(n) => field_spec(v@, env.entries@, false) == FieldOutcome::Done(n@),
                Err(e) => field_err_match(e, field_spec(v@, env.entries@, false), "name"@),
            },
    {
        match make_field(v, env, false, "name") {
            Ok(s) => Ok(Name(s)),
            Err(e) => Err(e),
        }
    }

    pub fn as_str(&self) -> (r: &str)
        ensures
            r@ == self@,
    {
        self.0.as_str()
    }
}

impl Default for Name {
    /// The fixed name used when the configuration gives none.
    fn default() -> (r: Self)
        ensures
            r@ == "renode-system"@,
    {
        Name("renode-system".to_owned())
    }
}

/// The session's description. Substituted, not de-indented.
#[derive(Clone, Debug)]
pub struct Description(String);

impl View for Description {
    type V = Seq<char>;

    closed spec fn view(&self) -> Seq<char> {
        self.0@
    }
}

impl Description {
    pub fn new(v: &str, env: &EnvTable) -> (res: Result<Self, RescGenericFieldError>)
        ensures
            match res {
                Ok(n) => field_spec(v@, env.entries@, false) == FieldOutcome::Done(n@),
                Err(e) => field_err_match(e, field_spec(v@, env.entries@, false), "description"@),
            },
    {
        match make_field(v, env, false, "description") {
            Ok(s) => Ok(Description(s)),
            Err(e) => Err(e),
        }
    }

    pub fn as_str(&self) -> (r: &str)
        ensures
            r@ == self@,
    {
        self.0.as_str()
    }
}

impl Default for Description {
    /// The fixed description used when the configuration gives none.
    fn default() -> (r: Self)
        ensures
            r@ == "Renode script generated by renode-run"@,
    {
        Description("Renode script generated by renode-run".to_owned())
    }
}

/// The emulated machine's name. Substituted, not de-indented.
#[derive(Clone, Debug)]
pub struct MachineName(String);

impl View for MachineName {
    type V = Seq<char>;

    closed spec fn view(&self) -> Seq<char> {
        self.0@
    }
}

impl MachineName {
    pub fn new(v: &str, env: &EnvTable) -> (res: Result<Self, RescGenericFieldError>)
        ensures
            match res {
                Ok(n) => field_spec(v@, env.entries@, false) == FieldOutcome::Done(n@),
                Err(e) => field_err_match(e, field_spec(v@, env.entries@, false), "machine-name"@),
            },
    {
        match make_field(v, env, false, "machine-name") {
            Ok(s) => Ok(MachineName(s)),
            Err(e) => Err(e),
        }
    }

    pub fn as_str(&self) -> (r: &str)
        ensures
            r@ == self@,
    {
        self.0.as_str()
    }
}

impl Default for MachineName {
    /// The fixed machine name used when the configuration gives none.
    fn default() -> (r: Self)
        ensures
            r@ == "default-machine"@,
    {
        MachineName("default-machine".to_owned())
    }
}

/// One variable-assignment line. De-indented and substituted.
#[derive(Clone, Debug)]
pub struct Variable(String);

impl View for Variable {
    type V = Seq<char>;

    closed spec fn view(&self) -> Seq<char> {
        self.0@
    }
}

impl Variable {
    pub fn new(v: &str, env: &EnvTable) -> (res: Result<Self, RescGenericFieldError>)
        ensures
            match res {
                Ok(n) => field_spec(v@, env.entries@, true) == FieldOutcome::Done(n@),
                Err(e) => field_err_match(e, field_spec(v@, env.entries@, true), "variables"@),
            },
    {
        match make_field(v, env, true, "variables") {
            Ok(s) => Ok(Variable(s)),
            Err(e) => Err(e),
        }
    }

    /// The synthesized assignment binding the target executable: the line
    /// `$bin = @` followed by the executable's path, validated like any
    /// other variable.
    pub fn default_binary_var(val: &str, env: &EnvTable) -> (res: Result<
        Self,
        RescGenericFieldError,
    >)
        ensures
            match res {
                Ok(n) => field_spec("$bin = @"@ + val@, env.entries@, true) == FieldOutcome::Done(
                    n@,
                ),
                Err(e) => field_err_match(
                    e,
                    field_spec("$bin = @"@ + val@, env.entries@, true),
                    "variables"@,
                ),
            },
    {
        let mut line = String::new();
        line.append("$bin = @");
        line.append(val);
        proof {
            assert(line@ == "$bin = @"@ + val@);
        }
        Variable::new(line.as_str(), env)
    }

    pub fn as_str(&self) -> (r: &str)
        ensures
            r@ == self@,
    {
        self.0.as_str()
    }
}

/// The body of the reset macro. De-indented and substituted.
#[derive(Clone, Debug)]
pub struct ResetMacro(String);

impl View for ResetMacro {
    type V = Seq<char>;

    closed spec fn view(&self) -> Seq<char> {
        self.0@
    }
}

impl ResetMacro {
    pub fn new(v: &str, env: &EnvTable) -> (res: Result<Self, RescGenericFieldError>)
        ensures
            match res {
                Ok(n) => field_spec(v@, env.entries@, true) == FieldOutcome::Done(n@),
                Err(e) => field_err_match(e, field_spec(v@, env.entries@, true), "reset-macro"@),
            },
    {
        match make_field(v, env, true, "reset-macro") {
            Ok(s) => Ok(ResetMacro(s)),
            Err(e) => Err(e),
        }
    }

    /// The macro body as it stands in the script: every non-empty line
    /// indented by four spaces.
    pub fn resc_fmt(&self) -> (r: String)
        ensures
            r@ == indent_spec(self@, 4, true),
    {
        let cs = chars_of(self.0.as_str());
        let indented = indent_all_by_chars(4, &cs);
        string_of(&indented)
    }

    pub fn as_str(&self) -> (r: &str)
        ensures
            r@ == self@,
    {
        self.0.as_str()
    }
}

impl Default for ResetMacro {
    /// The fixed reset body used when the configuration gives none.
    fn default() -> (r: Self)
        ensures
            r@ == "sysbus LoadELF $bin"@,
    {
        ResetMacro("sysbus LoadELF $bin".to_owned())
    }
}

/// One command run before the platform is loaded. De-indented and
/// substituted.
#[derive(Clone, Debug)]
pub struct InitCommand(String);

impl View for InitCommand {
    type V = Seq<char>;

    closed spec fn view(&self) -> Seq<char> {
        self.0@
    }
}

impl InitCommand {
    pub fn new(v: &str, env: &EnvTable) -> (res: Result<Self, RescGenericFieldError>)
        ensures
            match res {
                Ok(n) => field_spec(v@, env.entries@, true) == FieldOutcome::Done(n@),
                Err(e) => field_err_match(e, field_spec(v@, env.entries@, true), "init-commands"@),
            },
    {
        match make_field(v, env, true, "init-commands") {
            Ok(s) => Ok(InitCommand(s)),
            Err(e) => Err(e),
        }
    }

    pub fn as_str(&self) -> (r: &str)
        ensures
            r@ == self@,
    {
        self.0.as_str()
    }
}

/// One command run before the start directive. De-indented and substituted.
#[derive(Clone, Debug)]
pub struct PreStartCommand(String);

impl View for PreStartCommand {
    type V = Seq<char>;

    closed spec fn view(&self) -> Seq<char> {
        self.0@
    }
}

impl PreStartCommand {
    pub fn new(v: &str, env: &EnvTable) -> (res: Result<Self, RescGenericFieldError>)
        ensures
            match res {
                Ok(n) => field_spec(v@, env.entries@, true) == FieldOutcome::Done(n@),
                Err(e) => field_err_match(
                    e,
                    field_spec(v@, env.entries@, true),
                    "pre-start-commands"@,
                ),
            },
    {
        match make_field(v, env, true, "pre-start-commands") {
            Ok(s) => Ok(PreStartCommand(s)),
            Err(e) => Err(e),
        }
    }

    pub fn as_str(&self) -> (r: &str)
        ensures
            r@ == self@,
    {
        self.0.as_str()
    }
}

/// One command run after the start directive. De-indented and substituted.
#[derive(Clone, Debug)]
pub struct PostStartCommand(String);

impl View for PostStartCommand {
    type V = Seq<char>;

    closed spec fn view(&self) -> Seq<char> {
        self.0@
    }
}

impl PostStartCommand {
    pub fn new(v: &str, env: &EnvTable) -> (res: Result<Self, RescGenericFieldError>)
        ensures
            match res {
                Ok(n) => field_spec(v@, env.entries@, true) == FieldOutcome::Done(n@),
                Err(e) => field_err_match(
                    e,
                    field_spec(v@, env.entries@, true),
                    "post-start-commands"@,
                ),
            },
    {
        match make_field(v, env, true, "post-start-commands") {
            Ok(s) => Ok(PostStartCommand(s)),
            Err(e) => Err(e),
        }
    }

    pub fn as_str(&self) -> (r: &str)
        ensures
            r@ == self@,
    {
        self.0.as_str()
    }
}

/// The views of a list of strings.
pub open spec fn str_views(v: Seq<String>) -> Seq<Seq<char>> {
    v.map_values(|s: String| s@)
}

/// The views of a list of classified platform descriptions.
pub open spec fn platform_views(v: Seq<PlatformDescription>) -> Seq<PlatformDescriptionView> {
    v.map_values(|d: PlatformDescription| d@)
}

/// Validates a whole list of de-indented fields, stopping at the first
/// failure.
pub open spec fn validate_all(inputs: Seq<Seq<char>>, entries: Seq<EnvEntry>) -> Result<
    Seq<Seq<char>>,
    FieldOutcome,
>
    decreases inputs.len(),
{
    if inputs.len() == 0 {
        Ok(Seq::empty())
    } else {
        match field_spec(inputs[0], entries, true) {
            FieldOutcome::Done(s) => match validate_all(inputs.skip(1), entries) {
                Ok(rest) => Ok(seq![s] + rest),
                Err(o) => Err(o),
            },
            o => Err(o),
        }
    }
}

/// Classifies a whole list of platform-description inputs, stopping at the
/// first failure.
pub open spec fn classify_all(
    inputs: Seq<Seq<char>>,
    entries: Seq<EnvEntry>,
    files: Seq<FsFile>,
) -> Result<Seq<PlatformDescriptionView>, PlatformErrorView>
    decreases inputs.len(),
{
    if inputs.len() == 0 {
        Ok(Seq::empty())
    } else {
        match classify_spec(inputs[0], entries, files) {
            PlatformOutcome::Made(d) => match classify_all(inputs.skip(1), entries, files) {
                Ok(rest) => Ok(seq![d] + rest),
                Err(e) => Err(e),
            },
            PlatformOutcome::Failed(e) => Err(e),
        }
    }
}

/// The outcome of an optional field: validate the given text, or fall back
/// to the field's fixed default when the configuration gives none.
pub open spec fn opt_field_spec(
    v: Option<String>,
    entries: Seq<EnvEntry>,
    deindent: bool,
    dflt: Seq<char>,
) -> FieldOutcome {
    match v {
        Some(s) => field_spec(s@, entries, deindent),
        None => FieldOutcome::Done(dflt),
    }
}

/// The platform-description inputs in classification order: the single
/// primary field first, then the list.
pub open spec fn platform_inputs(resc: RenodeScriptConfig) -> Seq<Seq<char>> {
    (match resc.platform_description {
        Some(p) => seq![p@],
        None => Seq::<Seq<char>>::empty(),
    }) + str_views(resc.platform_descriptions@)
}

/// Failure of session-definition construction.
#[derive(Clone, Debug, PartialEq, Eq)]
pub enum RescDefinitionError {
    /// Substitution failed.
    EnvSub(EnvSubError),
    /// A validated field failed.
    RescGenericField(RescGenericFieldError),
    /// A platform description failed to classify.
    PlatformDescription(PlatformDescriptionError),
    /// No platform description was configured at all.
    MissingPlatformDescription,
    /// The target executable does not exist; carries the attempted path.
    ExeNotFound(String),
}

impl RescDefinitionError {
    /// The user-facing message for this failure.
    pub open spec fn message_spec(&self) -> Seq<char> {
        match self {
            RescDefinitionError::EnvSub(e) => e.message_spec(),
            RescDefinitionError::RescGenericField(e) => e.message_spec(),
            RescDefinitionError::PlatformDescription(e) => e.message_spec(),
            RescDefinitionError::MissingPlatformDescription =>
                "At least one platform description is required"@,
            RescDefinitionError::ExeNotFound(p) => "The application executable file '"@ + p@
                + "' could not be found"@,
        }
    }

    pub fn message(&self) -> (r: String)
        ensures
            r@ == self.message_spec(),
    {
        let mut out = String::new();
        match self {
            RescDefinitionError::EnvSub(e) => {
                return e.message();
            },
            RescDefinitionError::RescGenericField(e) => {
                return e.message();
            },
            RescDefinitionError::PlatformDescription(e) => {
                return e.message();
            },
            RescDefinitionError::MissingPlatformDescription => {
                out.append("At least one platform description is required");
            },
            RescDefinitionError::ExeNotFound(p) => {
                out.append("The application executable file '");
                out.append(p.as_str());
                out.append("' could not be found");
            },
        }
        out
    }
}

/// The specification-level form of a construction failure.
pub enum RescDefinitionErrorView {
    Sub(EnvSubErrorView),
    Field(FieldErrorView),
    Platform(PlatformErrorView),
    MissingPlatformDescription,
    ExeNotFound(Seq<char>),
}

impl View for RescDefinitionError {
    type V = RescDefinitionErrorView;

    open spec fn view(&self) -> RescDefinitionErrorView {
        match self {
            RescDefinitionError::EnvSub(e) => RescDefinitionErrorView::Sub(e@),
            RescDefinitionError::RescGenericField(e) => RescDefinitionErrorView::Field(e@),
            RescDefinitionError::PlatformDescription(e) => RescDefinitionErrorView::Platform(e@),
            RescDefinitionError::MissingPlatformDescription =>
                RescDefinitionErrorView::MissingPlatformDescription,
            RescDefinitionError::ExeNotFound(p) => RescDefinitionErrorView::ExeNotFound(p@),
        }
    }
}

/// The construction failure a failing field outcome turns into, for the
/// field named `field`.
pub open spec fn field_err_to_def(o: FieldOutcome, field: Seq<char>) -> RescDefinitionErrorView {
    match o {
        FieldOutcome::Empty => RescDefinitionErrorView::Field(FieldErrorView::Empty(field)),
        FieldOutcome::NotUnicode(n) => RescDefinitionErrorView::Field(
            FieldErrorView::Sub(EnvSubErrorView::NotUnicode(n)),
        ),
        FieldOutcome::NotPresent(n) => RescDefinitionErrorView::Field(
            FieldErrorView::Sub(EnvSubErrorView::NotPresent(n)),
        ),
        FieldOutcome::Done(_) => vstd::pervasive::arbitrary(),
    }
}

/// The specification-level form of a validated session definition.
pub struct RescDefinitionView {
    pub name: Seq<char>,
    pub description: Seq<char>,
    pub machine_name: Seq<char>,
    pub init_commands: Seq<Seq<char>>,
    pub variables: Seq<Seq<char>>,
    pub platform_descriptions: Seq<PlatformDescriptionView>,
    pub reset: Seq<char>,
    pub start: Option<Seq<char>>,
    pub pre_start_commands: Seq<Seq<char>>,
    pub post_start_commands: Seq<Seq<char>>,
}

/// What constructing a session definition yields.
pub enum RescDefOutcome {
    Made(RescDefinitionView),
    Failed(RescDefinitionErrorView),
}

/// The whole construction, in the order the builder performs it: executable
/// check, platform classification, the presence check, the synthesized
/// binary variable, user variables, the three command lists, then the
/// optional fields with their defaults.
pub open spec fn resc_def_spec(
    resc: RenodeScriptConfig,
    bin: Seq<char>,
    entries: Seq<EnvEntry>,
    files: Seq<FsFile>,
) -> RescDefOutcome {
    if !fs_exists(files, bin) {
        RescDefOutcome::Failed(RescDefinitionErrorView::ExeNotFound(bin))
    } else {
        match classify_all(platform_inputs(resc), entries, files) {
            Err(e) => RescDefOutcome::Failed(RescDefinitionErrorView::Platform(e)),
            Ok(pds) => if pds.len() == 0 {
                RescDefOutcome::Failed(RescDefinitionErrorView::MissingPlatformDescription)
            } else {
                match field_spec("$bin = @"@ + bin, entries, true) {
                    FieldOutcome::Done(binvar) => match validate_all(
                        str_views(resc.variables@),
                        entries,
                    ) {
                        Err(o) => RescDefOutcome::Failed(field_err_to_def(o, "variables"@)),
                        Ok(uvars) => match validate_all(str_views(resc.init_commands@), entries) {
                            Err(o) => RescDefOutcome::Failed(
                                field_err_to_def(o, "init-commands"@),
                            ),
                            Ok(inits) => match validate_all(
                                str_views(resc.pre_start_commands@),
                                entries,
                            ) {
                                Err(o) => RescDefOutcome::Failed(
                                    field_err_to_def(o, "pre-start-commands"@),
                                ),
                                Ok(pres) => match validate_all(
                                    str_views(resc.post_start_commands@),
                                    entries,
                                ) {
                                    Err(o) => RescDefOutcome::Failed(
                                        field_err_to_def(o, "post-start-commands"@),
                                    ),
                                    Ok(posts) => match opt_field_spec(
                                        resc.name,
                                        entries,
                                        false,
                                        "renode-system"@,
                                    ) {
                                        FieldOutcome::Done(nm) => match opt_field_spec(
                                            resc.description,
                                            entries,
                                            false,
                                            "Renode script generated by renode-run"@,
                                        ) {
                                            FieldOutcome::Done(ds) => match opt_field_spec(
                                                resc.machine_name,
                                                entries,
                                                false,
                                                "default-machine"@,
                                            ) {
                                                FieldOutcome::Done(mn) => match opt_field_spec(
                                                    resc.reset,
                                                    entries,
                                                    true,
                                                    "sysbus LoadELF $bin"@,
                                                ) {
                                                    FieldOutcome::Done(rs) => RescDefOutcome::Made(
                                                        RescDefinitionView {
                                                            name: nm,
                                                            description: ds,
                                                            machine_name: mn,
                                                            init_commands: inits,
                                                            variables: seq![binvar] + uvars,
                                                            platform_descriptions: pds,
                                                            reset: rs,
                                                            start: match resc.start {
                                                                Some(s) => Some(s@),
                                                                None => None,
                                                            },
                                                            pre_start_commands: pres,
                                                            post_start_commands: posts,
                                                        },
                                                    ),
                                                    o => RescDefOutcome::Failed(
                                                        field_err_to_def(o, "reset-macro"@),
                                                    ),
                                                },
                                                o => RescDefOutcome::Failed(
                                                    field_err_to_def(o, "machine-name"@),
                                                ),
                                            },
                                            o => RescDefOutcome::Failed(
                                                field_err_to_def(o, "description"@),
                                            ),
                                        },
                                        o => RescDefOutcome::Failed(field_err_to_def(o, "name"@)),
                                    },
                                },
                            },
                        },
                    },
                    o => RescDefOutcome::Failed(field_err_to_def(o, "variables"@)),
                }
            },
        }
    }
}

/// The validated, immutable model of one emulation session.
#[derive(Clone, Debug)]
pub struct RescDefinition {
    pub name: Name,
    pub description: Description,
    pub machine_name: MachineName,
    pub init_commands: Vec<InitCommand>,
    pub variables: Vec<Variable>,
    pub platform_descriptions: Vec<PlatformDescription>,
    pub reset: ResetMacro,
    pub start: Option<String>,
    pub pre_start_commands: Vec<PreStartCommand>,
    pub post_start_commands: Vec<PostStartCommand>,
}

impl View for RescDefinition {
    type V = RescDefinitionView;

    open spec fn view(&self) -> RescDefinitionView {
        RescDefinitionView {
            name: self.name@,
            description: self.description@,
            machine_name: self.machine_name@,
            init_commands: self.init_commands@.map_values(|c: InitCommand| c@),
            variables: self.variables@.map_values(|v: Variable| v@),
            platform_descriptions: platform_views(self.platform_descriptions@),
            reset: self.reset@,
            start: match self.start {
                Some(s) => Some(s@),
                None => None,
            },
            pre_start_commands: self.pre_start_commands@.map_values(|c: PreStartCommand| c@),
            post_start_commands: self.post_start_commands@.map_values(|c: PostStartCommand| c@),
        }
    }
}

/// How an executable construction result relates to the specified outcome.
pub open spec fn resc_def_matches(
    res: Result<RescDefinition, RescDefinitionError>,
    o: RescDefOutcome,
) -> bool {
    match res {
        Ok(d) => o == RescDefOutcome::Made(d@),
        Err(e) => o == RescDefOutcome::Failed(e@),
    }
}

/// Prefixes classified descriptions to a successful tail.
pub open spec fn prepend_pds(
    a: Seq<PlatformDescriptionView>,
    r: Result<Seq<PlatformDescriptionView>, PlatformErrorView>,
) -> Result<Seq<PlatformDescriptionView>, PlatformErrorView> {
    match r {
        Ok(rest) => Ok(a + rest),
        Err(e) => Err(e),
    }
}

proof fn lemma_prepend_pds_assoc(
    a: Seq<PlatformDescriptionView>,
    b: Seq<PlatformDescriptionView>,
    r: Result<Seq<PlatformDescriptionView>, PlatformErrorView>,
)
    ensures
        prepend_pds(a, prepend_pds(b, r)) == prepend_pds(a + b, r),
{
    match r {
        Ok(rest) => {
            assert(a + (b + rest) =~= (a + b) + rest);
        },
        Err(_) => {},
    }
}

/// Prefixes validated fields to a successful tail.
pub open spec fn prepend_fields(a: Seq<Seq<char>>, r: Result<Seq<Seq<char>>, FieldOutcome>) -> Result<
    Seq<Seq<char>>,
    FieldOutcome,
> {
    match r {
        Ok(rest) => Ok(a + rest),
        Err(o) => Err(o),
    }
}

proof fn lemma_prepend_fields_assoc(
    a: Seq<Seq<char>>,
    b: Seq<Seq<char>>,
    r: Result<Seq<Seq<char>>, FieldOutcome>,
)
    ensures
        prepend_fields(a, prepend_fields(b, r)) == prepend_fields(a + b, r),
{
    match r {
        Ok(rest) => {
            assert(a + (b + rest) =~= (a + b) + rest);
        },
        Err(_) => {},
    }
}

/// Classifies each input in order, stopping at the first failure.
fn classify_many(inputs: &Vec<String>, env: &EnvTable, fs: &FsSnapshot) -> (res: Result<
    Vec<PlatformDescription>,
    PlatformDescriptionError,
>)
    ensures
        match res {
            Ok(v) => classify_all(str_views(inputs@), env.entries@, fs.files@) == Ok::<
                _,
                PlatformErrorView,
            >(platform_views(v@)),
            Err(e) => classify_all(str_views(inputs@), env.entries@, fs.files@) == Err::<
                Seq<PlatformDescriptionView>,
                _,
            >(e@),
        },
{
    let ghost full = str_views(inputs@);
    let ghost ent = env.entries@;
    let ghost files = fs.files@;
    let n = inputs.len();
    let mut out: Vec<PlatformDescription> = Vec::new();
    let mut k: usize = 0;
    proof {
        assert(full.skip(0) =~= full);
        match classify_all(full, ent, files) {
            Ok(rest) => {
                assert(Seq::<PlatformDescriptionView>::empty() + rest =~= rest);
            },
            Err(_) => {},
        }
        assert(platform_views(out@) =~= Seq::<PlatformDescriptionView>::empty());
    }
    while k < n
        invariant
            k <= n,
            n == inputs@.len(),
            full == str_views(inputs@),
            ent == env.entries@,
            files == fs.files@,
            classify_all(full, ent, files) == prepend_pds(
                platform_views(out@),
                classify_all(full.skip(k as int), ent, files),
            ),
        decreases n - k,
    {
        match PlatformDescription::new(inputs[k].as_str(), env, fs) {
            Ok(d) => {
                proof {
                    assert(full.skip(k as int)[0] == inputs@[k as int]@);
                    assert(full.skip(k as int).skip(1) =~= full.skip(k as int + 1));
                    lemma_prepend_pds_assoc(
                        platform_views(out@),
                        seq![d@],
                        classify_all(full.skip(k as int + 1), ent, files),
                    );
                    assert(platform_views(out@) + seq![d@] =~= platform_views(out@.push(d)));
                }
                out.push(d);
                k = k + 1;
            },
            Err(e) => {
                proof {
                    assert(full.skip(k as int)[0] == inputs@[k as int]@);
                }
                return Err(e);
            },
        }
    }
    proof {
        assert(full.skip(n as int) =~= Seq::<Seq<char>>::empty());
        assert(platform_views(out@) + Seq::<PlatformDescriptionView>::empty() =~= platform_views(
            out@,
        ));
    }
    Ok(out)
}

/// Validates each input in order as a de-indented field named `field`,
/// stopping at the first failure.
fn validate_list(inputs: &Vec<String>, env: &EnvTable, field: &str) -> (res: Result<
    Vec<String>,
    RescGenericFieldError,
>)
    ensures
        match res {
            Ok(v) => validate_all(str_views(inputs@), env.entries@) == Ok::<_, FieldOutcome>(
                str_views(v@),
            ),
            Err(e) => match validate_all(str_views(inputs@), env.entries@) {
                Err(o) => field_err_match(e, o, field@),
                Ok(_) => false,
            },
        },
{
    let ghost full = str_views(inputs@);
    let ghost ent = env.entries@;
    let n = inputs.len();
    let mut out: Vec<String> = Vec::new();
    let mut k: usize = 0;
    proof {
        assert(full.skip(0) =~= full);
        match validate_all(full, ent) {
            Ok(rest) => {
                assert(Seq::<Seq<char>>::empty() + rest =~= rest);
            },
            Err(_) => {},
        }
        assert(str_views(out@) =~= Seq::<Seq<char>>::empty());
    }
    while k < n
        invariant
            k <= n,
            n == inputs@.len(),
            full == str_views(inputs@),
            ent == env.entries@,
            validate_all(full, ent) == prepend_fields(
                str_views(out@),
                validate_all(full.skip(k as int), ent),
            ),
        decreases n - k,
    {
        match make_field(inputs[k].as_str(), env, true, field) {
            Ok(s) => {
                proof {
                    assert(full.skip(k as int)[0] == inputs@[k as int]@);
                    assert(full.skip(k as int).skip(1) =~= full.skip(k as int + 1));
                    lemma_prepend_fields_assoc(
                        str_views(out@),
                        seq![s@],
                        validate_all(full.skip(k as int + 1), ent),
                    );
                    assert(str_views(out@) + seq![s@] =~= str_views(out@.push(s)));
                }
                out.push(s);
                k = k + 1;
            },
            Err(e) => {
                proof {
                    assert(full.skip(k as int)[0] == inputs@[k as int]@);
                }
                return Err(e);
            },
        }
    }
    proof {
        assert(full.skip(n as int) =~= Seq::<Seq<char>>::empty());
        assert(str_views(out@) + Seq::<Seq<char>>::empty() =~= str_views(out@));
    }
    Ok(out)
}

impl RescDefinition {
    /// Builds the validated session model from the raw configuration, the
    /// target executable's path, the environment and the file-system
    /// snapshot. Fails fast: the first failing step decides the error.
    pub fn new(
        resc: &RenodeScriptConfig,
        _app: &AppConfig,
        bin_var_value: &str,
        env: &EnvTable,
        fs: &FsSnapshot,
    ) -> (res: Result<Self, RescDefinitionError>)
        ensures
            resc_def_matches(res, resc_def_spec(*resc, bin_var_value@, env.entries@, fs.files@)),
            !fs_exists(fs.files@, bin_var_value@) ==> (res matches Err(e) && e@
                == RescDefinitionErrorView::ExeNotFound(bin_var_value@)),
            fs_exists(fs.files@, bin_var_value@) && platform_inputs(*resc).len() == 0 ==> (res
                matches Err(e) && e@ == RescDefinitionErrorView::MissingPlatformDescription),
    {
        let ghost ent = env.entries@;
        let ghost files = fs.files@;
        let bin_string = bin_var_value.to_owned();
        if !fs.contains_path(&bin_string) {
            return Err(RescDefinitionError::ExeNotFound(bin_string));
        }
        let mut pinputs: Vec<String> = Vec::new();
        match &resc.platform_description {
            Some(p) => {
                pinputs.push(p.clone());
            },
            None => {},
        }
        proof {
            if resc.platform_description is Some {
                assert(pinputs@ =~= seq![resc.platform_description->Some_0]);
            } else {
                assert(pinputs@ =~= Seq::<String>::empty());
            }
        }
        let mut k: usize = 0;
        let ghost base = pinputs@;
        while k < resc.platform_descriptions.len()
            invariant
                k <= resc.platform_descriptions@.len(),
                pinputs@.len() == base.len() + k,
                forall|i: int| 0 <= i < base.len() ==> pinputs@[i] == base[i],
                forall|i: int|
                    base.len() <= i < pinputs@.len() ==> #[trigger] pinputs@[i]
                        == resc.platform_descriptions@[i - base.len()],
            decreases resc.platform_descriptions@.len() - k,
        {
            pinputs.push(resc.platform_descriptions[k].clone());
            k = k + 1;
        }
        proof {
            let pi = platform_inputs(*resc);
            let prim: Seq<Seq<char>> = if resc.platform_description is Some {
                seq![resc.platform_description->Some_0@]
            } else {
                Seq::<Seq<char>>::empty()
            };
            assert(base.len() == prim.len());
            assert(str_views(pinputs@).len() == pi.len());
            assert forall|i: int| 0 <= i < pi.len() implies str_views(pinputs@)[i] == pi[i] by {
                assert(str_views(pinputs@)[i] == pinputs@[i]@);
                if i < base.len() {
                    assert(pinputs@[i] == base[i]);
                    assert(pi[i] == prim[i]);
                } else {
                    assert(pinputs@[i] == resc.platform_descriptions@[i - base.len()]);
                    assert(pi[i] == str_views(resc.platform_descriptions@)[i - prim.len()]);
                }
            }
            assert(str_views(pinputs@) =~= pi);
        }
        let platform_descriptions = match classify_many(&pinputs, env, fs) {
            Ok(v) => v,
            Err(e) => {
                return Err(RescDefinitionError::PlatformDescription(e));
            },
        };
        if platform_descriptions.len() == 0 {
            return Err(RescDefinitionError::MissingPlatformDescription);
        }
        let bin_var = match Variable::default_binary_var(bin_var_value, env) {
            Ok(v) => v,
            Err(e) => {
                return Err(RescDefinitionError::RescGenericField(e));
            },
        };
        let user_vars = match validate_list(&resc.variables, env, "variables") {
            Ok(v) => v,
            Err(e) => {
                return Err(RescDefinitionError::RescGenericField(e));
            },
        };
        let mut variables: Vec<Variable> = Vec::new();
        variables.push(bin_var);
        let mut k2: usize = 0;
        while k2 < user_vars.len()
            invariant
                k2 <= user_vars@.len(),
                variables@.len() == 1 + k2,
                variables@[0]@ == bin_var@,
                forall|i: int| 1 <= i < variables@.len() ==> #[trigger] variables@[i]@ == user_vars@[i - 1]@,
            decreases user_vars@.len() - k2,
        {
            variables.push(Variable(user_vars[k2].clone()));
            k2 = k2 + 1;
        }
        proof {
            assert(variables@.map_values(|v: Variable| v@) =~= seq![bin_var@] + str_views(
                user_vars@,
            ));
        }
        let init_raw = match validate_list(&resc.init_commands, env, "init-commands") {
            Ok(v) => v,
            Err(e) => {
                return Err(RescDefinitionError::RescGenericField(e));
            },
        };
        let mut init_commands: Vec<InitCommand> = Vec::new();
        let mut k3: usize = 0;
        while k3 < init_raw.len()
            invariant
                k3 <= init_raw@.len(),
                init_commands@.len() == k3,
                forall|i: int| 0 <= i < k3 ==> #[trigger] init_commands@[i]@ == init_raw@[i]@,
            decreases init_raw@.len() - k3,
        {
            init_commands.push(InitCommand(init_raw[k3].clone()));
            k3 = k3 + 1;
        }
        proof {
            assert(init_commands@.map_values(|c: InitCommand| c@) =~= str_views(init_raw@));
        }
        let pre_raw = match validate_list(&resc.pre_start_commands, env, "pre-start-commands") {
            Ok(v) => v,
            Err(e) => {
                return Err(RescDefinitionError::RescGenericField(e));
            },
        };
        let mut pre_start_commands: Vec<PreStartCommand> = Vec::new();
        let mut k4: usize = 0;
        while k4 < pre_raw.len()
            invariant
                k4 <= pre_raw@.len(),
                pre_start_commands@.len() == k4,
                forall|i: int| 0 <= i < k4 ==> #[trigger] pre_start_commands@[i]@ == pre_raw@[i]@,
            decreases pre_raw@.len() - k4,
        {
            pre_start_commands.push(PreStartCommand(pre_raw[k4].clone()));
            k4 = k4 + 1;
        }
        proof {
            assert(pre_start_commands@.map_values(|c: PreStartCommand| c@) =~= str_views(pre_raw@));
        }
        let post_raw = match validate_list(&resc.post_start_commands, env, "post-start-commands") {
            Ok(v) => v,
            Err(e) => {
                return Err(RescDefinitionError::RescGenericField(e));
            },
        };
        let mut post_start_commands: Vec<PostStartCommand> = Vec::new();
        let mut k5: usize = 0;
        while k5 < post_raw.len()
            invariant
                k5 <= post_raw@.len(),
                post_start_commands@.len() == k5,
                forall|i: int| 0 <= i < k5 ==> #[trigger] post_start_commands@[i]@ == post_raw@[i]@,
            decreases post_raw@.len() - k5,
        {
            post_start_commands.push(PostStartCommand(post_raw[k5].clone()));
            k5 = k5 + 1;
        }
        proof {
            assert(post_start_commands@.map_values(|c: PostStartCommand| c@) =~= str_views(
                post_raw@,
            ));
        }
        let name = match &resc.name {
            Some(s) => match Name::new(s.as_str(), env) {
                Ok(n) => n,
                Err(e) => {
                    return Err(RescDefinitionError::RescGenericField(e));
                },
            },
            None => Name::default(),
        };
        let description = match &resc.description {
            Some(s) => match Description::new(s.as_str(), env) {
                Ok(n) => n,
                Err(e) => {
                    return Err(RescDefinitionError::RescGenericField(e));
                },
            },
            None => Description::default(),
        };
        let machine_name = match &resc.machine_name {
            Some(s) => match MachineName::new(s.as_str(), env) {
                Ok(n) => n,
                Err(e) => {
                    return Err(RescDefinitionError::RescGenericField(e));
                },
            },
            None => MachineName::default(),
        };
        let reset = match &resc.reset {
            Some(s) => match ResetMacro::new(s.as_str(), env) {
                Ok(n) => n,
                Err(e) => {
                    return Err(RescDefinitionError::RescGenericField(e));
                },
            },
            None => ResetMacro::default(),
        };
        let start = match &resc.start {
            Some(s) => Some(s.clone()),
            None => None,
        };
        Ok(
            RescDefinition {
                name,
                description,
                machine_name,
                init_commands,
                variables,
                platform_descriptions,
                reset,
                start,
                pre_start_commands,
                post_start_commands,
            },
        )
    }
}

} // verus!
