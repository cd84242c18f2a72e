//! The process invocation handed to whoever spawns the terminal, and the
//! parts of it that every terminal shares.

use crate::text::opt_text;
use crate::text::push_str;
use crate::text::push_strings;
use crate::text::texts;
use vstd::prelude::*;

verus! {

/// The window class or application id under which the terminal runs.
pub const APP_ID: &'static str = "glrnvim";

/// An executable with its ordered arguments.
#[derive(Debug, PartialEq)]
pub struct ProcessDescriptor {
    pub exe: String,
    pub args: Vec<String>,
}

impl ProcessDescriptor {
    /// The arguments, in order.
    pub open spec fn arg_texts(&self) -> Seq<Seq<char>> {
        texts(self.args@)
    }
}

/// The arguments that follow the editor's executable for every terminal:
/// full-colour rendering, the window title taken from the editor, and the
/// mark that tells the editor it runs as a GUI.
pub open spec fn common_arg_texts() -> Seq<Seq<char>> {
    seq!["+set termguicolors"@, "+set title"@, "--cmd"@, "let g:glrnvim_gui=1"@]
}

/// The arguments that end every invocation: the editor's executable and the
/// common arguments.
pub open spec fn editor_arg_texts(editor: Seq<char>) -> Seq<Seq<char>> {
    seq![editor] + common_arg_texts()
}

/// One configuration flag for each file, in order.
pub open spec fn flagged(flag: Seq<char>, files: Seq<Seq<char>>) -> Seq<Seq<char>>
    decreases files.len(),
{
    if files.len() == 0 {
        Seq::empty()
    } else {
        flagged(flag, files.drop_last()).push(flag).push(files.last())
    }
}

/// The configuration flags of an invocation. An explicit configuration path
/// is the only flag. Otherwise the discovered configuration files are
/// passed, each under its own flag and in discovery order, if loading them
/// was asked for; the generated file, if there is one, comes last, so that
/// its settings win.
pub open spec fn config_flag_texts(
    flag: Seq<char>,
    explicit: Option<Seq<char>>,
    load_existing: bool,
    discovered: Seq<Seq<char>>,
    generated: Option<Seq<char>>,
) -> Seq<Seq<char>> {
    match explicit {
        Some(p) => seq![flag, p],
        None => {
            let found = if load_existing {
                flagged(flag, discovered)
            } else {
                Seq::empty()
            };
            match generated {
                Some(g) => found.push(flag).push(g),
                None => found,
            }
        },
    }
}

/// With an explicit configuration path there is exactly one configuration
/// flag, it points at that path, and neither the generated file nor a
/// discovered one is referred to.
pub proof fn lemma_explicit_config_only(
    flag: Seq<char>,
    explicit: Seq<char>,
    load_existing: bool,
    discovered: Seq<Seq<char>>,
    generated: Option<Seq<char>>,
)
    ensures
        config_flag_texts(flag, Some(explicit), load_existing, discovered, generated) == seq![
            flag,
            explicit,
        ],
{
}

/// Without an explicit path the generated file is the last configuration
/// flag, after every discovered file.
pub proof fn lemma_generated_config_last(
    flag: Seq<char>,
    load_existing: bool,
    discovered: Seq<Seq<char>>,
    generated: Seq<char>,
)
    ensures
        ({
            let flags = config_flag_texts(flag, None, load_existing, discovered, Some(generated));
            &&& flags.len() >= 2
            &&& flags[flags.len() - 2] == flag
            &&& flags.last() == generated
            &&& flags.drop_last().drop_last() == config_flag_texts(
                flag,
                None,
                load_existing,
                discovered,
                None,
            )
        }),
{
    let found = config_flag_texts(flag, None, load_existing, discovered, None);
    let flags = config_flag_texts(flag, None, load_existing, discovered, Some(generated));
    assert(flags == found.push(flag).push(generated));
    assert(flags.drop_last().drop_last() =~= found);
}

/// The common arguments.
pub fn common_args() -> (r: Vec<String>)
    ensures
        texts(r@) == common_arg_texts(),
{
    let mut r: Vec<String> = Vec::new();
    push_str(&mut r, "+set termguicolors");
    push_str(&mut r, "+set title");
    push_str(&mut r, "--cmd");
    push_str(&mut r, "let g:glrnvim_gui=1");
    assert(texts(r@) =~= common_arg_texts());
    r
}

/// Appends the editor's executable and the common arguments.
pub fn push_editor_args(args: &mut Vec<String>, editor: &str)
    ensures
        texts(final(args)@) == texts(old(args)@) + editor_arg_texts(editor@),
{
    let ghost before = texts(args@);
    push_str(args, editor);
    let common = common_args();
    push_strings(args, &common);
    assert(texts(args@) =~= before + editor_arg_texts(editor@));
}

/// Appends the configuration flags of an invocation.
pub fn push_config_flags(
    args: &mut Vec<String>,
    flag: &str,
    explicit: &Option<String>,
    load_existing: bool,
    discovered: &Vec<String>,
    generated: &Option<String>,
)
    ensures
        texts(final(args)@) == texts(old(args)@) + config_flag_texts(
            flag@,
            opt_text(*explicit),
            load_existing,
            texts(discovered@),
            opt_text(*generated),
        ),
{
    let ghost before = texts(args@);
    match explicit {
        Some(p) => {
            push_str(args, flag);
            push_str(args, p.as_str());
            assert(texts(args@) =~= before + seq![flag@, p@]);
        },
        None => {
            let ghost d = texts(discovered@);
            if load_existing {
                let mut i: usize = 0;
                proof {
                    assert(d.subrange(0, 0) =~= Seq::<Seq<char>>::empty());
                    assert(texts(args@) =~= before + flagged(flag@, d.subrange(0, 0)));
                }
                while i < discovered.len()
                    invariant
                        i <= discovered.len(),
                        d == texts(discovered@),
                        texts(args@) == before + flagged(flag@, d.subrange(0, i as int)),
                    decreases discovered.len() - i,
                {
                    push_str(args, flag);
                    push_str(args, discovered[i].as_str());
                    proof {
                        let next = d.subrange(0, i + 1);
                        assert(next.drop_last() =~= d.subrange(0, i as int));
                        assert(next.last() == discovered[i as int]@);
                        assert(texts(args@) =~= before + flagged(flag@, next));
                    }
                    i += 1;
                }
                proof {
                    assert(d.subrange(0, i as int) =~= d);
                }
            } else {
                assert(texts(args@) =~= before + Seq::<Seq<char>>::empty());
            }
            match generated {
                Some(g) => {
                    push_str(args, flag);
                    push_str(args, g.as_str());
                    assert(texts(args@) =~= before + config_flag_texts(
                        flag@,
                        None,
                        load_existing,
                        d,
                        Some(g@),
                    ));
                },
                None => {},
            }
        },
    }
}

} // verus!
