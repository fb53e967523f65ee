//! Rendering of a validated session definition into script text.
//!
//! The emitter is pure: it returns the whole script as one string, together
//! with the files to materialize into the output directory — one per
//! imported platform description. Writing both to disk is the caller's
//! business; the byte-for-byte layout of the script, blank lines included,
//! is fixed by `render_spec`.

use vstd::prelude::*;
use crate::config::AppConfig;
use crate::platform::PlatformDescriptionKind;
use crate::platform::PlatformDescriptionView;
use crate::platform::PlatformKindView;
use crate::platform::resc_fmt_spec;
use crate::text::chars_of;
use crate::text::extend_chars;
use crate::text::indent_spec;
use crate::text::string_of;
use crate::types::RescDefinition;
use crate::types::RescDefinitionView;

verus! {

/// One file to write into the output directory.
pub struct MaterializedFile {
    pub name: String,
    pub content: String,
}

/// The result of rendering: the script text and the files it refers to.
pub struct ScriptOutput {
    pub script: String,
    pub files: Vec<MaterializedFile>,
}

/// A newline.
pub open spec fn nl() -> Seq<char> {
    seq!['\n']
}

/// A triple-quote fence line.
pub open spec fn fence() -> Seq<char> {
    seq!['"', '"', '"']
}

/// The given lines, each closed by a newline.
pub open spec fn joined_lines(xs: Seq<Seq<char>>) -> Seq<char>
    decreases xs.len(),
{
    if xs.len() == 0 {
        Seq::empty()
    } else {
        xs[0] + nl() + joined_lines(xs.skip(1))
    }
}

/// A command group: its lines followed by one blank line, or nothing at all
/// when the group is empty.
pub open spec fn cmds_block_spec(xs: Seq<Seq<char>>) -> Seq<char> {
    if xs.len() == 0 {
        Seq::empty()
    } else {
        joined_lines(xs) + nl()
    }
}

/// The name and description header.
pub open spec fn header_spec(d: RescDefinitionView) -> Seq<char> {
    ":name: "@ + d.name + nl() + ":description: "@ + d.description + nl() + nl()
}

/// The optional directive putting the output directory on the search path.
pub open spec fn path_add_spec(app: AppConfig, dir: Seq<char>) -> Seq<char> {
    if app.omit_out_dir_path {
        Seq::empty()
    } else {
        "path add @"@ + dir + nl() + nl()
    }
}

/// The optional bus-declaration directive.
pub open spec fn sysbus_spec(app: AppConfig) -> Seq<char> {
    if app.using_sysbus {
        "using sysbus"@ + nl() + nl()
    } else {
        Seq::empty()
    }
}

/// The machine-creation directive.
pub open spec fn mach_spec(d: RescDefinitionView) -> Seq<char> {
    "mach create "@ + seq!['"'] + d.machine_name + seq!['"'] + nl() + nl()
}

/// The variable assignments, closed by a blank line.
pub open spec fn vars_spec(d: RescDefinitionView) -> Seq<char> {
    joined_lines(d.variables) + nl()
}

/// The load directive of one platform description: file-like kinds load by
/// reference, inline text loads through a triple-quoted block.
pub open spec fn load_directive_spec(p: PlatformDescriptionView) -> Seq<char> {
    match p.kind {
        PlatformKindView::Text => "machine LoadPlatformDescriptionFromString"@ + nl() + fence()
            + nl() + resc_fmt_spec(p) + nl() + fence() + nl(),
        _ => "machine LoadPlatformDescription "@ + resc_fmt_spec(p) + nl(),
    }
}

/// The load directives of all platform descriptions, in order.
pub open spec fn loads_spec(pds: Seq<PlatformDescriptionView>) -> Seq<char>
    decreases pds.len(),
{
    if pds.len() == 0 {
        Seq::empty()
    } else {
        load_directive_spec(pds[0]) + loads_spec(pds.skip(1))
    }
}

/// The reset-macro block and its invocation.
pub open spec fn reset_spec(d: RescDefinitionView) -> Seq<char> {
    "macro reset"@ + nl() + fence() + nl() + indent_spec(d.reset, 4, true) + nl() + fence() + nl()
        + nl() + "runMacro $reset"@ + nl() + nl()
}

/// The start directive — the default keyword unless overridden — and the
/// post-start commands; nothing at all when the start is suppressed.
pub open spec fn start_spec(app: AppConfig, d: RescDefinitionView) -> Seq<char> {
    if app.omit_start {
        Seq::empty()
    } else {
        (match d.start {
            Some(s) => s,
            None => "start"@,
        }) + nl() + nl() + joined_lines(d.post_start_commands)
    }
}

/// The whole script, in its fixed order.
pub open spec fn render_spec(app: AppConfig, d: RescDefinitionView, dir: Seq<char>) -> Seq<char> {
    header_spec(d) + path_add_spec(app, dir) + sysbus_spec(app) + mach_spec(d) + cmds_block_spec(
        d.init_commands,
    ) + vars_spec(d) + loads_spec(d.platform_descriptions) + nl() + cmds_block_spec(
        d.pre_start_commands,
    ) + reset_spec(d) + start_spec(app, d)
}

/// The (name, content) pairs of the files to materialize: one per imported
/// platform description, in order.
pub open spec fn files_spec(pds: Seq<PlatformDescriptionView>) -> Seq<(Seq<char>, Seq<char>)>
    decreases pds.len(),
{
    if pds.len() == 0 {
        Seq::empty()
    } else {
        (match pds[0].kind {
            PlatformKindView::GeneratedLocalFile(name) => seq![(name, pds[0].content)],
            _ => Seq::<(Seq<char>, Seq<char>)>::empty(),
        }) + files_spec(pds.skip(1))
    }
}

/// The views of a list of materialized files.
pub open spec fn file_views(v: Seq<MaterializedFile>) -> Seq<(Seq<char>, Seq<char>)> {
    v.map_values(|f: MaterializedFile| (f.name@, f.content@))
}

/// With the start directive suppressed, the rendered script holds neither a
/// start directive nor any post-start command: it ends at the reset
/// invocation.
pub proof fn lemma_omit_start(app: AppConfig, d: RescDefinitionView, dir: Seq<char>)
    requires
        app.omit_start,
    ensures
        start_spec(app, d) == Seq::<char>::empty(),
        render_spec(app, d, dir) == header_spec(d) + path_add_spec(app, dir) + sysbus_spec(app)
            + mach_spec(d) + cmds_block_spec(d.init_commands) + vars_spec(d) + loads_spec(
            d.platform_descriptions,
        ) + nl() + cmds_block_spec(d.pre_start_commands) + reset_spec(d),
{
    let prefix = header_spec(d) + path_add_spec(app, dir) + sysbus_spec(app) + mach_spec(d)
        + cmds_block_spec(d.init_commands) + vars_spec(d) + loads_spec(d.platform_descriptions)
        + nl() + cmds_block_spec(d.pre_start_commands) + reset_spec(d);
    assert(prefix + Seq::<char>::empty() =~= prefix);
}

/// Every imported platform description contributes its base name and its
/// content to the materialized files, at the position matching its place
/// among the imported descriptions.
pub proof fn lemma_files_contain_import(pds: Seq<PlatformDescriptionView>, i: int, name: Seq<char>)
    requires
        0 <= i < pds.len(),
        pds[i].kind == PlatformKindView::GeneratedLocalFile(name),
    ensures
        files_spec(pds).contains((name, pds[i].content)),
    decreases pds.len(),
{
    if i == 0 {
        assert(files_spec(pds)[0] == (name, pds[0].content));
    } else {
        lemma_files_contain_import(pds.skip(1), i - 1, name);
        let rest = files_spec(pds.skip(1));
        let j = choose|j: int| 0 <= j < rest.len() && rest[j] == (name, pds[i].content);
        match pds[0].kind {
            PlatformKindView::GeneratedLocalFile(_) => {
                assert(files_spec(pds)[j + 1] == (name, pds[i].content));
            },
            _ => {
                assert(files_spec(pds)[j] == (name, pds[i].content));
            },
        }
    }
}

/// Round trip: for every platform description classified as an importable
/// local file, the emitter materializes a file named by the extracted base
/// name whose content equals the substitution-resolved text of the source
/// file.
pub proof fn lemma_materialized_round_trip(
    raw: Seq<char>,
    entries: Seq<crate::envsub::EnvEntry>,
    files: Seq<crate::fsview::FsFile>,
    pds: Seq<PlatformDescriptionView>,
    i: int,
    name: Seq<char>,
)
    requires
        0 <= i < pds.len(),
        pds[i].kind == PlatformKindView::GeneratedLocalFile(name),
        crate::platform::classify_spec(raw, entries, files) == crate::platform::PlatformOutcome::Made(
            pds[i],
        ),
    ensures
        files_spec(pds).contains((name, pds[i].content)),
        match crate::envsub::subst_spec(
            crate::text::trim_spec(crate::platform::strip_lt(crate::types::normalize_spec(raw))),
            entries,
        ) {
            crate::envsub::SubstOutcome::Done(path) => match crate::fsview::fs_lookup(
                files,
                path,
            ) {
                crate::fsview::FsLookup::Text(t) => crate::envsub::subst_spec(t, entries)
                    == crate::envsub::SubstOutcome::Done(pds[i].content),
                _ => false,
            },
            _ => false,
        },
{
    lemma_files_contain_import(pds, i, name);
    crate::platform::lemma_import_content(raw, entries, files, name, pds[i].content);
}

fn push_str_chars(out: &mut Vec<char>, s: &str)
    ensures
        final(out)@ == old(out)@ + s@,
{
    let cs = chars_of(s);
    extend_chars(out, &cs);
}

/// The script emitter. It consumes a validated definition and produces the
/// script text and the files to materialize as plain values.
pub struct RescGen {}

impl RescGen {
    pub fn new() -> (r: Self) {
        RescGen {  }
    }

    /// Renders the definition into the script text and collects the files
    /// to materialize, in the fixed order `render_spec` describes.
    #[verifier::rlimit(100)]
    pub fn generate(self, output_dir: &str, app: &AppConfig, resc: &RescDefinition) -> (out:
        ScriptOutput)
        ensures
            out.script@ == render_spec(*app, resc@, output_dir@),
            file_views(out.files@) == files_spec(resc@.platform_descriptions),
    {
        let ghost dv = resc@;
        let ghost pv = resc@.platform_descriptions;

        let mut files: Vec<MaterializedFile> = Vec::new();
        let pn = resc.platform_descriptions.len();
        let mut i: usize = 0;
        proof {
            assert(pv.skip(0) =~= pv);
            assert(file_views(files@) =~= Seq::<(Seq<char>, Seq<char>)>::empty());
            assert(Seq::<(Seq<char>, Seq<char>)>::empty() + files_spec(pv) =~= files_spec(pv));
        }
        while i < pn
            invariant
                i <= pn,
                pn == resc.platform_descriptions@.len(),
                pv == resc@.platform_descriptions,
                files_spec(pv) == file_views(files@) + files_spec(pv.skip(i as int)),
            decreases pn - i,
        {
            let p = &resc.platform_descriptions[i];
            proof {
                assert(pv.skip(i as int)[0] == pv[i as int]);
                assert(pv.skip(i as int).skip(1) =~= pv.skip(i as int + 1));
            }
            match p.kind() {
                PlatformDescriptionKind::GeneratedLocalFile(file_name) => {
                    let entry = MaterializedFile {
                        name: file_name.clone(),
                        content: p.content().to_owned(),
                    };
                    proof {
                        assert(file_views(files@.push(entry)) =~= file_views(files@).push(
                            (entry.name@, entry.content@),
                        ));
                        assert(file_views(files@) + (seq![(entry.name@, entry.content@)]
                            + files_spec(pv.skip(i as int + 1))) =~= file_views(files@).push(
                            (entry.name@, entry.content@),
                        ) + files_spec(pv.skip(i as int + 1)));
                    }
                    files.push(entry);
                },
                _ => {
                    proof {
                        assert(Seq::<(Seq<char>, Seq<char>)>::empty() + files_spec(
                            pv.skip(i as int + 1),
                        ) =~= files_spec(pv.skip(i as int + 1)));
                    }
                },
            }
            i = i + 1;
        }
        proof {
            assert(files_spec(pv.skip(pn as int)) =~= Seq::<(Seq<char>, Seq<char>)>::empty());
            assert(file_views(files@) + Seq::<(Seq<char>, Seq<char>)>::empty() =~= file_views(
                files@,
            ));
        }

        let mut w: Vec<char> = Vec::new();
        // header
        push_str_chars(&mut w, ":name: ");
        push_str_chars(&mut w, resc.name.as_str());
        w.push('\n');
        push_str_chars(&mut w, ":description: ");
        push_str_chars(&mut w, resc.description.as_str());
        w.push('\n');
        w.push('\n');
        let ghost g1 = header_spec(dv);
        proof {
            assert(w@ =~= g1);
        }
        // path add
        if !app.omit_out_dir_path {
            push_str_chars(&mut w, "path add @");
            push_str_chars(&mut w, output_dir);
            w.push('\n');
            w.push('\n');
        }
        let ghost g2 = g1 + path_add_spec(*app, output_dir@);
        proof {
            assert(w@ =~= g2);
        }
        // using sysbus
        if app.using_sysbus {
            push_str_chars(&mut w, "using sysbus");
            w.push('\n');
            w.push('\n');
        }
        let ghost g3 = g2 + sysbus_spec(*app);
        proof {
            assert(w@ =~= g3);
        }
        // mach create
        push_str_chars(&mut w, "mach create ");
        w.push('"');
        push_str_chars(&mut w, resc.machine_name.as_str());
        w.push('"');
        w.push('\n');
        w.push('\n');
        let ghost g4 = g3 + mach_spec(dv);
        proof {
            assert(w@ =~= g4);
        }
        // init commands
        let icn = resc.init_commands.len();
        let mut ic: usize = 0;
        proof {
            assert(dv.init_commands.skip(0) =~= dv.init_commands);
        }
        while ic < icn
            invariant
                ic <= icn,
                icn == resc.init_commands@.len(),
                dv == resc@,
                g4 + joined_lines(dv.init_commands) == w@ + joined_lines(
                    dv.init_commands.skip(ic as int),
                ),
            decreases icn - ic,
        {
            proof {
                assert(dv.init_commands.skip(ic as int)[0] == dv.init_commands[ic as int]);
                assert(dv.init_commands.skip(ic as int).skip(1) =~= dv.init_commands.skip(
                    ic as int + 1,
                ));
            }
            let ghost before = w@;
            push_str_chars(&mut w, resc.init_commands[ic].as_str());
            w.push('\n');
            proof {
                assert(w@ =~= before + (dv.init_commands[ic as int] + nl()));
                assert(before + (dv.init_commands[ic as int] + nl()) + joined_lines(
                    dv.init_commands.skip(ic as int + 1),
                ) =~= before + joined_lines(dv.init_commands.skip(ic as int)));
            }
            ic = ic + 1;
        }
        if icn > 0 {
            w.push('\n');
        }
        let ghost g5 = g4 + cmds_block_spec(dv.init_commands);
        proof {
            assert(joined_lines(dv.init_commands.skip(icn as int)) =~= Seq::<char>::empty());
            assert(g4 + joined_lines(dv.init_commands) =~= g4 + joined_lines(dv.init_commands)
                + Seq::<char>::empty());
            assert(w@ =~= g5);
        }
        // variables
        let vn = resc.variables.len();
        let mut vi: usize = 0;
        proof {
            assert(dv.variables.skip(0) =~= dv.variables);
        }
        while vi < vn
            invariant
                vi <= vn,
                vn == resc.variables@.len(),
                dv == resc@,
                g5 + joined_lines(dv.variables) == w@ + joined_lines(dv.variables.skip(vi as int)),
            decreases vn - vi,
        {
            proof {
                assert(dv.variables.skip(vi as int)[0] == dv.variables[vi as int]);
                assert(dv.variables.skip(vi as int).skip(1) =~= dv.variables.skip(vi as int + 1));
            }
            let ghost before = w@;
            push_str_chars(&mut w, resc.variables[vi].as_str());
            w.push('\n');
            proof {
                assert(w@ =~= before + (dv.variables[vi as int] + nl()));
                assert(before + (dv.variables[vi as int] + nl()) + joined_lines(
                    dv.variables.skip(vi as int + 1),
                ) =~= before + joined_lines(dv.variables.skip(vi as int)));
            }
            vi = vi + 1;
        }
        w.push('\n');
        let ghost g6 = g5 + vars_spec(dv);
        proof {
            assert(joined_lines(dv.variables.skip(vn as int)) =~= Seq::<char>::empty());
            assert(g5 + joined_lines(dv.variables) =~= g5 + joined_lines(dv.variables) + Seq::<
                char,
            >::empty());
            assert(w@ =~= g6);
        }
        // platform load directives
        let mut pi: usize = 0;
        proof {
            assert(pv.skip(0) =~= pv);
        }
        while pi < pn
            invariant
                pi <= pn,
                pn == resc.platform_descriptions@.len(),
                pv == resc@.platform_descriptions,
                dv == resc@,
                g6 + loads_spec(pv) == w@ + loads_spec(pv.skip(pi as int)),
            decreases pn - pi,
        {
            let p = &resc.platform_descriptions[pi];
            proof {
                assert(pv.skip(pi as int)[0] == pv[pi as int]);
                assert(pv.skip(pi as int).skip(1) =~= pv.skip(pi as int + 1));
            }
            let ghost before = w@;
            let s = p.resc_fmt();
            let inline_text = match p.kind() {
                PlatformDescriptionKind::String => true,
                _ => false,
            };
            if inline_text {
                push_str_chars(&mut w, "machine LoadPlatformDescriptionFromString");
                w.push('\n');
                w.push('"');
                w.push('"');
                w.push('"');
                w.push('\n');
                push_str_chars(&mut w, s.as_str());
                w.push('\n');
                w.push('"');
                w.push('"');
                w.push('"');
                w.push('\n');
            } else {
                push_str_chars(&mut w, "machine LoadPlatformDescription ");
                push_str_chars(&mut w, s.as_str());
                w.push('\n');
            }
            proof {
                assert(w@ =~= before + load_directive_spec(pv[pi as int]));
                assert(before + load_directive_spec(pv[pi as int]) + loads_spec(
                    pv.skip(pi as int + 1),
                ) =~= before + loads_spec(pv.skip(pi as int)));
            }
            pi = pi + 1;
        }
        w.push('\n');
        let ghost g7 = g6 + loads_spec(pv) + nl();
        proof {
            assert(loads_spec(pv.skip(pn as int)) =~= Seq::<char>::empty());
            assert(g6 + loads_spec(pv) =~= g6 + loads_spec(pv) + Seq::<char>::empty());
            assert(w@ =~= g7);
        }
        // pre-start commands
        let pcn = resc.pre_start_commands.len();
        let mut pc: usize = 0;
        proof {
            assert(dv.pre_start_commands.skip(0) =~= dv.pre_start_commands);
        }
        while pc < pcn
            invariant
                pc <= pcn,
                pcn == resc.pre_start_commands@.len(),
                dv == resc@,
                g7 + joined_lines(dv.pre_start_commands) == w@ + joined_lines(
                    dv.pre_start_commands.skip(pc as int),
                ),
            decreases pcn - pc,
        {
            proof {
                assert(dv.pre_start_commands.skip(pc as int)[0] == dv.pre_start_commands[
                    pc as int]);
                assert(dv.pre_start_commands.skip(pc as int).skip(1) =~= dv.pre_start_commands.skip(
                    pc as int + 1,
                ));
            }
            let ghost before = w@;
            push_str_chars(&mut w, resc.pre_start_commands[pc].as_str());
            w.push('\n');
            proof {
                assert(w@ =~= before + (dv.pre_start_commands[pc as int] + nl()));
                assert(before + (dv.pre_start_commands[pc as int] + nl()) + joined_lines(
                    dv.pre_start_commands.skip(pc as int + 1),
                ) =~= before + joined_lines(dv.pre_start_commands.skip(pc as int)));
            }
            pc = pc + 1;
        }
        if pcn > 0 {
            w.push('\n');
        }
        let ghost g8 = g7 + cmds_block_spec(dv.pre_start_commands);
        proof {
            assert(joined_lines(dv.pre_start_commands.skip(pcn as int)) =~= Seq::<char>::empty());
            assert(g7 + joined_lines(dv.pre_start_commands) =~= g7 + joined_lines(
                dv.pre_start_commands,
            ) + Seq::<char>::empty());
            assert(w@ =~= g8);
        }
        // reset macro block and invocation
        push_str_chars(&mut w, "macro reset");
        w.push('\n');
        w.push('"');
        w.push('"');
        w.push('"');
        w.push('\n');
        let reset_fmt = resc.reset.resc_fmt();
        push_str_chars(&mut w, reset_fmt.as_str());
        w.push('\n');
        w.push('"');
        w.push('"');
        w.push('"');
        w.push('\n');
        w.push('\n');
        push_str_chars(&mut w, "runMacro $reset");
        w.push('\n');
        w.push('\n');
        let ghost g9 = g8 + reset_spec(dv);
        proof {
            assert(w@ =~= g9);
        }
        // start directive and post-start commands
        if !app.omit_start {
            match &resc.start {
                Some(s) => {
                    push_str_chars(&mut w, s.as_str());
                },
                None => {
                    push_str_chars(&mut w, "start");
                },
            }
            w.push('\n');
            w.push('\n');
            let ghost g10 = g9 + (match dv.start {
                Some(s) => s,
                None => "start"@,
            }) + nl() + nl();
            proof {
                assert(w@ =~= g10);
            }
            let pon = resc.post_start_commands.len();
            let mut po: usize = 0;
            proof {
                assert(dv.post_start_commands.skip(0) =~= dv.post_start_commands);
            }
            while po < pon
                invariant
                    po <= pon,
                    pon == resc.post_start_commands@.len(),
                    dv == resc@,
                    g10 + joined_lines(dv.post_start_commands) == w@ + joined_lines(
                        dv.post_start_commands.skip(po as int),
                    ),
                decreases pon - po,
            {
                proof {
                    assert(dv.post_start_commands.skip(po as int)[0] == dv.post_start_commands[
                        po as int]);
                    assert(dv.post_start_commands.skip(po as int).skip(1)
                        =~= dv.post_start_commands.skip(po as int + 1));
                }
                let ghost before = w@;
                push_str_chars(&mut w, resc.post_start_commands[po].as_str());
                w.push('\n');
                proof {
                    assert(w@ =~= before + (dv.post_start_commands[po as int] + nl()));
                    assert(before + (dv.post_start_commands[po as int] + nl()) + joined_lines(
                        dv.post_start_commands.skip(po as int + 1),
                    ) =~= before + joined_lines(dv.post_start_commands.skip(po as int)));
                }
                po = po + 1;
            }
            proof {
                assert(joined_lines(dv.post_start_commands.skip(pon as int)) =~= Seq::<
                    char,
                >::empty());
                assert(g10 + joined_lines(dv.post_start_commands) =~= g10 + joined_lines(
                    dv.post_start_commands,
                ) + Seq::<char>::empty());
                assert(w@ =~= g9 + start_spec(*app, dv));
            }
        } else {
            proof {
                assert(w@ =~= g9 + start_spec(*app, dv));
            }
        }
        proof {
            assert(w@ =~= render_spec(*app, dv, output_dir@));
        }
        ScriptOutput { script: string_of(&w), files }
    }
}

} // verus!
