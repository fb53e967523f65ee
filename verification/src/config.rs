//! The raw, unvalidated configuration of one run.
//!
//! These structs mirror the manifest's configuration tables field for field.
//! Deserialization lives outside the library; the structs here hold plain
//! values only and are handed to the validated constructors in the rest of
//! the crate.

use vstd::prelude::*;
use crate::text::string_of;

verus! {

/// The script-related configuration fields, all optional.
pub struct RenodeScriptConfig {
    pub name: Option<String>,
    pub description: Option<String>,
    pub machine_name: Option<String>,
    pub init_commands: Vec<String>,
    pub variables: Vec<String>,
    pub platform_description: Option<String>,
    pub platform_descriptions: Vec<String>,
    pub reset: Option<String>,
    pub start: Option<String>,
    pub pre_start_commands: Vec<String>,
    pub post_start_commands: Vec<String>,
}

impl Default for RenodeScriptConfig {
    fn default() -> (r: Self)
        ensures
            r.name is None,
            r.description is None,
            r.machine_name is None,
            r.init_commands@.len() == 0,
            r.variables@.len() == 0,
            r.platform_description is None,
            r.platform_descriptions@.len() == 0,
            r.reset is None,
            r.start is None,
            r.pre_start_commands@.len() == 0,
            r.post_start_commands@.len() == 0,
    {
        RenodeScriptConfig {
            name: None,
            description: None,
            machine_name: None,
            init_commands: Vec::new(),
            variables: Vec::new(),
            platform_description: None,
            platform_descriptions: Vec::new(),
            reset: None,
            start: None,
            pre_start_commands: Vec::new(),
            post_start_commands: Vec::new(),
        }
    }
}

/// The flags handed to the emulator's own command line.
pub struct RenodeCliConfig {
    pub plain: bool,
    pub port: Option<u16>,
    pub disable_xwt: bool,
    pub hide_monitor: bool,
    pub hide_log: bool,
    pub hide_analyzers: bool,
    pub console: bool,
    pub keep_temporary_files: bool,
}

impl Default for RenodeCliConfig {
    fn default() -> (r: Self)
        ensures
            !r.plain,
            r.port is None,
            !r.disable_xwt,
            !r.hide_monitor,
            !r.hide_log,
            !r.hide_analyzers,
            !r.console,
            !r.keep_temporary_files,
    {
        RenodeCliConfig {
            plain: false,
            port: None,
            disable_xwt: false,
            hide_monitor: false,
            hide_log: false,
            hide_analyzers: false,
            console: false,
            keep_temporary_files: false,
        }
    }
}

/// The digit character for one decimal digit.
pub open spec fn dec_digit(d: int) -> char {
    if d == 0 {
        '0'
    } else if d == 1 {
        '1'
    } else if d == 2 {
        '2'
    } else if d == 3 {
        '3'
    } else if d == 4 {
        '4'
    } else if d == 5 {
        '5'
    } else if d == 6 {
        '6'
    } else if d == 7 {
        '7'
    } else if d == 8 {
        '8'
    } else {
        '9'
    }
}

/// The decimal digits of a positive number; empty for zero and below.
pub open spec fn dec_rep(n: int) -> Seq<char>
    decreases n,
{
    if n <= 0 {
        Seq::empty()
    } else {
        dec_rep(n / 10).push(dec_digit(n % 10))
    }
}

/// The usual decimal rendering of a non-negative number.
pub open spec fn dec_of(n: int) -> Seq<char> {
    if n == 0 {
        seq!['0']
    } else {
        dec_rep(n)
    }
}

fn digit_char(d: u16) -> (c: char)
    requires
        d < 10,
    ensures
        c == dec_digit(d as int),
{
    if d == 0 {
        '0'
    } else if d == 1 {
        '1'
    } else if d == 2 {
        '2'
    } else if d == 3 {
        '3'
    } else if d == 4 {
        '4'
    } else if d == 5 {
        '5'
    } else if d == 6 {
        '6'
    } else if d == 7 {
        '7'
    } else if d == 8 {
        '8'
    } else {
        '9'
    }
}

/// Renders a port number in decimal.
pub fn u16_dec_chars(p: u16) -> (r: Vec<char>)
    ensures
        r@ == dec_of(p as int),
{
    if p == 0 {
        let mut r: Vec<char> = Vec::new();
        r.push('0');
        proof {
            assert(r@ =~= seq!['0']);
        }
        return r;
    }
    let mut out: Vec<char> = Vec::new();
    let mut v: u16 = p;
    while v > 0
        invariant
            dec_rep(p as int) == dec_rep(v as int) + out@,
        decreases v,
    {
        let d = digit_char(v % 10);
        proof {
            assert(dec_rep(v as int) == dec_rep(v as int / 10).push(dec_digit(v as int % 10)));
            assert(dec_rep(v as int / 10).push(dec_digit(v as int % 10)) + out@ =~= dec_rep(
                v as int / 10,
            ) + (seq![dec_digit(v as int % 10)] + out@));
            assert(out@.insert(0, dec_digit(v as int % 10)) =~= seq![dec_digit(v as int % 10)]
                + out@);
        }
        out.insert(0, d);
        v = v / 10;
    }
    out
}

/// A one-element list holding `flag`, or nothing, depending on `on`.
pub open spec fn arg_flag(on: bool, flag: Seq<char>) -> Seq<Seq<char>> {
    if on {
        seq![flag]
    } else {
        Seq::<Seq<char>>::empty()
    }
}

/// The `--port` flag with its decimal argument, or nothing.
pub open spec fn arg_port(port: Option<u16>) -> Seq<Seq<char>> {
    match port {
        Some(p) => seq!["--port"@, dec_of(p as int)],
        None => Seq::<Seq<char>>::empty(),
    }
}

/// The flag list `to_args` produces, as sequences of characters.
pub open spec fn to_args_spec(c: RenodeCliConfig) -> Seq<Seq<char>> {
    arg_flag(c.plain, "--plain"@) + arg_port(c.port) + arg_flag(c.disable_xwt, "--disable-xwt"@)
        + arg_flag(c.hide_monitor, "--hide-monitor"@) + arg_flag(c.hide_log, "--hide-log"@)
        + arg_flag(c.hide_analyzers, "--hide-analyzers"@) + arg_flag(c.console, "--console"@)
        + arg_flag(c.keep_temporary_files, "--keep-temporary-files"@)
}

proof fn lemma_args_step(prev: Seq<String>, cur: Seq<String>, built: Seq<Seq<char>>, part: Seq<
    Seq<char>,
>)
    requires
        prev.len() == built.len(),
        forall|i: int| 0 <= i < prev.len() ==> #[trigger] prev[i]@ == built[i],
        cur.len() == prev.len() + part.len(),
        forall|i: int| 0 <= i < prev.len() ==> #[trigger] cur[i] == prev[i],
        forall|i: int| 0 <= i < part.len() ==> #[trigger] cur[prev.len() + i]@ == part[i],
    ensures
        cur.len() == (built + part).len(),
        forall|i: int| 0 <= i < cur.len() ==> #[trigger] cur[i]@ == (built + part)[i],
{
    assert forall|i: int| 0 <= i < cur.len() implies #[trigger] cur[i]@ == (built + part)[i] by {
        if i < prev.len() {
            assert(cur[i] == prev[i]);
        } else {
            assert(cur[prev.len() + (i - prev.len())]@ == part[i - prev.len()]);
        }
    }
}

impl RenodeCliConfig {
    /// The extra command-line arguments these flags ask for, in a fixed
    /// order.
    #[verifier::rlimit(100)]
    pub fn to_args(&self) -> (r: Vec<String>)
        ensures
            r@.len() == to_args_spec(*self).len(),
            forall|i: int| 0 <= i < r@.len() ==> #[trigger] r@[i]@ == to_args_spec(*self)[i],
    {
        let ghost c = *self;
        let ghost p1 = arg_flag(c.plain, "--plain"@);
        let ghost p2 = p1 + arg_port(c.port);
        let ghost p3 = p2 + arg_flag(c.disable_xwt, "--disable-xwt"@);
        let ghost p4 = p3 + arg_flag(c.hide_monitor, "--hide-monitor"@);
        let ghost p5 = p4 + arg_flag(c.hide_log, "--hide-log"@);
        let ghost p6 = p5 + arg_flag(c.hide_analyzers, "--hide-analyzers"@);
        let ghost p7 = p6 + arg_flag(c.console, "--console"@);
        let ghost p8 = p7 + arg_flag(c.keep_temporary_files, "--keep-temporary-files"@);
        let mut args: Vec<String> = Vec::new();
        if self.plain {
            args.push("--plain".to_owned());
        }
        let ghost a1 = args@;
        proof {
            lemma_args_step(Seq::<String>::empty(), a1, Seq::<Seq<char>>::empty(), p1);
            assert(Seq::<Seq<char>>::empty() + p1 =~= p1);
            assert(forall|i: int| 0 <= i < a1.len() ==> #[trigger] a1[i]@ == p1[i]);
        }
        match self.port {
            Some(p) => {
                args.push("--port".to_owned());
                args.push(string_of(&u16_dec_chars(p)));
            },
            None => {},
        }
        let ghost a2 = args@;
        proof {
            lemma_args_step(a1, a2, p1, arg_port(c.port));
        }
        if self.disable_xwt {
            args.push("--disable-xwt".to_owned());
        }
        let ghost a3 = args@;
        proof {
            lemma_args_step(a2, a3, p2, arg_flag(c.disable_xwt, "--disable-xwt"@));
        }
        if self.hide_monitor {
            args.push("--hide-monitor".to_owned());
        }
        let ghost a4 = args@;
        proof {
            lemma_args_step(a3, a4, p3, arg_flag(c.hide_monitor, "--hide-monitor"@));
        }
        if self.hide_log {
            args.push("--hide-log".to_owned());
        }
        let ghost a5 = args@;
        proof {
            lemma_args_step(a4, a5, p4, arg_flag(c.hide_log, "--hide-log"@));
        }
        if self.hide_analyzers {
            args.push("--hide-analyzers".to_owned());
        }
        let ghost a6 = args@;
        proof {
            lemma_args_step(a5, a6, p5, arg_flag(c.hide_analyzers, "--hide-analyzers"@));
        }
        if self.console {
            args.push("--console".to_owned());
        }
        let ghost a7 = args@;
        proof {
            lemma_args_step(a6, a7, p6, arg_flag(c.console, "--console"@));
        }
        if self.keep_temporary_files {
            args.push("--keep-temporary-files".to_owned());
        }
        let ghost a8 = args@;
        proof {
            lemma_args_step(a7, a8, p7, arg_flag(c.keep_temporary_files, "--keep-temporary-files"@));
        }
        args
    }
}

/// Behaviour switches for generation and launch.
pub struct AppConfig {
    pub use_relative_paths: bool,
    pub resc_file_name: Option<String>,
    pub disable_envsub: bool,
    pub using_sysbus: bool,
    pub omit_start: bool,
    pub environment_variables: Vec<(String, String)>,
    pub renode: Option<String>,
    pub omit_out_dir_path: bool,
}

impl Default for AppConfig {
    fn default() -> (r: Self)
        ensures
            !r.use_relative_paths,
            r.resc_file_name is None,
            !r.disable_envsub,
            !r.using_sysbus,
            !r.omit_start,
            r.environment_variables@.len() == 0,
            r.renode is None,
            !r.omit_out_dir_path,
    {
        AppConfig {
            use_relative_paths: false,
            resc_file_name: None,
            disable_envsub: false,
            using_sysbus: false,
            omit_start: false,
            environment_variables: Vec::new(),
            renode: None,
            omit_out_dir_path: false,
        }
    }
}

/// The whole per-run configuration.
pub struct RenodeRunConfig {
    pub resc: RenodeScriptConfig,
    pub cli: RenodeCliConfig,
    pub app: AppConfig,
}

impl Default for RenodeRunConfig {
    fn default() -> (r: Self)
        ensures
            r.resc.name is None,
            r.resc.platform_description is None,
            r.resc.platform_descriptions@.len() == 0,
            r.cli.port is None,
            !r.app.omit_start,
            !r.app.using_sysbus,
            !r.app.omit_out_dir_path,
    {
        RenodeRunConfig {
            resc: RenodeScriptConfig::default(),
            cli: RenodeCliConfig::default(),
            app: AppConfig::default(),
        }
    }
}

} // verus!
