//! Terminal-invocation templates: a shell-style command string holding one
//! `%s` placeholder is turned into an executable path, an argument list and
//! the index where the editor command must be inserted.

use vstd::prelude::*;
use crate::str_eq;

verus! {

/// What shlex's POSIX word splitting returns for a given input string:
/// `None` where the quoting is malformed, else the token list.
pub uninterp spec fn shell_split(s: Seq<char>) -> Option<Seq<Seq<char>>>;

/// The character sequences of a sequence of strings.
pub open spec fn strs(v: Seq<String>) -> Seq<Seq<char>> {
    v.map_values(|t: String| t@)
}

/// The literal placeholder token that marks where the editor command goes.
pub open spec fn placeholder() -> Seq<char> {
    seq!['%', 's']
}

/// `i` is the position of the first placeholder token in `args`.
pub open spec fn is_first_placeholder(args: Seq<Seq<char>>, i: int) -> bool {
    &&& 0 <= i < args.len()
    &&& args[i] == placeholder()
    &&& forall|j: int| 0 <= j < i ==> args[j] != placeholder()
}

/// Some token of `args` is the placeholder.
pub open spec fn has_placeholder(args: Seq<Seq<char>>) -> bool {
    exists|i: int| 0 <= i < args.len() && args[i] == placeholder()
}

/// A parsed terminal-invocation template: the executable to run, the fixed
/// arguments, and the index at which the editor command is inserted.
pub struct Shell {
    pub path: String,
    pub argv: Vec<String>,
    pub cmd_idx: usize,
}

impl Shell {
    /// The insertion index stays within the argument list.
    pub open spec fn wf(&self) -> bool {
        self.cmd_idx <= self.argv@.len()
    }

    /// The argument list as character sequences.
    pub open spec fn args(&self) -> Seq<Seq<char>> {
        strs(self.argv@)
    }
}

/// `sh` is the template that the token list `toks` describes: the first token
/// is the executable, the rest are the arguments with the first placeholder
/// removed, and `cmd_idx` records where that placeholder stood.
pub open spec fn tokens_make(toks: Seq<Seq<char>>, sh: Shell) -> bool {
    &&& toks.len() > 0
    &&& sh.wf()
    &&& sh.path@ == toks[0]
    &&& is_first_placeholder(toks.drop_first(), sh.cmd_idx as int)
    &&& sh.args() == toks.drop_first().remove(sh.cmd_idx as int)
}

/// What parsing the template string `input` must yield: the template built
/// from its token list, or nothing where splitting fails, the token list is
/// empty, or no token after the first is the placeholder.
pub open spec fn parses_to(input: Seq<char>, r: Option<Shell>) -> bool {
    match shell_split(input) {
        Some(toks) => match r {
            Some(sh) => tokens_make(toks, sh),
            None => toks.len() == 0 || !has_placeholder(toks.drop_first()),
        },
        None => r is None,
    }
}

/// Relies on shlex::split: POSIX-shell word splitting of the whole input,
/// `None` on erroneous quoting; the result depends on the input string alone.
#[verifier::external_body]
fn shlex_split(s: &str) -> (r: Option<Vec<String>>)
    ensures
        match r {
            Some(v) => shell_split(s@) == Some(strs(v@)),
            None => shell_split(s@) is None,
        },
{
    shlex::split(s)
}

/// Mapping to character sequences commutes with removing an element.
proof fn lemma_strs_remove(v: Seq<String>, i: int)
    requires
        0 <= i < v.len(),
    ensures
        strs(v.remove(i)) =~= strs(v).remove(i),
{
}

impl Shell {
    /// Builds the template from an already-split token list.
    #[verifier::loop_isolation(false)]
    pub fn from_tokens(tokens: Vec<String>) -> (r: Option<Shell>)
        ensures
            match r {
                Some(sh) => tokens_make(strs(tokens@), sh),
                None => tokens@.len() == 0 || !has_placeholder(strs(tokens@).drop_first()),
            },
    {
        let ghost orig: Seq<String> = tokens@;
        let ghost toks0: Seq<Seq<char>> = strs(tokens@);
        let mut toks = tokens;
        if toks.len() == 0 {
            return None;
        }
        let path = toks.remove(0);
        let ghost args: Seq<Seq<char>> = strs(toks@);
        proof {
            lemma_strs_remove(orig, 0);
            assert(args == strs(orig).remove(0));
            assert(args =~= toks0.drop_first());
            assert(path@ == toks0[0]);
        }
        let n = toks.len();
        let mut i: usize = 0;
        while i < n
            invariant
                i <= n,
                n == toks@.len(),
                args == strs(toks@),
                forall|j: int| 0 <= j < i ==> args[j] != placeholder(),
            decreases n - i,
        {
            let hit = str_eq(toks[i].as_str(), "%s");
            proof {
                reveal_strlit("%s");
                assert("%s"@ =~= placeholder());
                assert(args[i as int] == toks@[i as int]@);
            }
            if hit {
                let idx = i;
                proof {
                    assert(is_first_placeholder(args, idx as int));
                }
                let ghost before = toks@;
                let _ = toks.remove(idx);
                let sh = Shell { path, argv: toks, cmd_idx: idx };
                proof {
                    lemma_strs_remove(before, idx as int);
                    assert(sh.args() == strs(before).remove(idx as int));
                    assert(sh.args() == toks0.drop_first().remove(idx as int));
                    assert(tokens_make(toks0, sh));
                }
                return Some(sh);
            }
            i += 1;
        }
        proof {
            assert(!has_placeholder(args));
        }
        None
    }

    /// Parses a raw template string: shell word splitting, then template
    /// construction; nothing where splitting fails or no placeholder is found.
    pub fn parse(fmt: &str) -> (r: Option<Shell>)
        ensures
            parses_to(fmt@, r),
    {
        match shlex_split(fmt) {
            Some(tokens) => Shell::from_tokens(tokens),
            None => None,
        }
    }

    /// Substitutes the editor command into a copy of the argument list at the
    /// recorded placeholder position.
    pub fn resolve(&self, cmd: &str) -> (r: Vec<String>)
        requires
            self.wf(),
        ensures
            r@.len() == self.argv@.len() + 1,
            r@[self.cmd_idx as int]@ == cmd@,
            forall|j: int| 0 <= j < self.cmd_idx ==> r@[j]@ == self.argv@[j]@,
            forall|j: int| self.cmd_idx < j < r@.len() ==> r@[j]@ == self.argv@[j - 1]@,
    {
        let mut out: Vec<String> = Vec::new();
        let mut j: usize = 0;
        let n = self.argv.len();
        while j < n
            invariant
                j <= n,
                n == self.argv@.len(),
                out@.len() == j,
                forall|k: int| 0 <= k < j ==> out@[k]@ == self.argv@[k]@,
            decreases n - j,
        {
            out.push(self.argv[j].clone());
            j += 1;
        }
        let ghost plain = out@;
        out.insert(self.cmd_idx, cmd.to_owned());
        proof {
            plain.insert_ensures(self.cmd_idx as int, out@[self.cmd_idx as int]);
        }
        out
    }
}

/// The default template used where no template variable is set: a generic X
/// terminal emulator handed the editor command.
pub open spec fn default_template() -> Seq<char> {
    "xterm -e \"%s\""@
}

/// Resolves the template from the optional environment value: a present value
/// is parsed as it stands, an absent one falls back to the built-in default.
pub fn get_shell_from(term_var: Option<String>) -> (r: Option<Shell>)
    ensures
        match term_var {
            Some(v) => parses_to(v@, r),
            None => parses_to(default_template(), r),
        },
{
    match term_var {
        Some(v) => Shell::parse(v.as_str()),
        None => Shell::parse("xterm -e \"%s\""),
    }
}

/// Law: for a template parsed from a token list with a placeholder after the
/// first token, substituting a command string at the recorded index
/// reproduces the original argument tail with the placeholder replaced by
/// that command, token for token.
pub proof fn lemma_template_round_trip(toks: Seq<Seq<char>>, sh: Shell, cmd: Seq<char>)
    requires
        tokens_make(toks, sh),
    ensures
        sh.args().insert(sh.cmd_idx as int, cmd) =~= toks.drop_first().update(
            sh.cmd_idx as int,
            cmd,
        ),
{
    let args = toks.drop_first();
    let i = sh.cmd_idx as int;
    let r = args.remove(i);
    let l = r.insert(i, cmd);
    args.remove_ensures(i);
    r.insert_ensures(i, cmd);
    assert forall|j: int| 0 <= j < l.len() implies l[j] == args.update(i, cmd)[j] by {
        if j > i {
            assert(r.insert(i, cmd)[(j - 1) + 1] == r[j - 1]);
            assert(r[j - 1] == args[(j - 1) + 1]);
        }
    }
    assert(l =~= args.update(i, cmd));
}

} // verus!
