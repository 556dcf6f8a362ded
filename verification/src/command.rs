//! A command and its arguments.

use vstd::prelude::*;
use vstd::string::StringExecFns;
use crate::errors::Error;

verus! {

/// A command and its arguments.  We use this as a wrapper for consistency.
#[derive(Clone, Debug)]
pub struct Command {
    /// The name of the program to run.
    pub cmd: String,
    /// The arguments to pass to the program.
    pub args: Vec<String>,
}

/// A character the POSIX shell gives no special meaning, so a word made of
/// such characters needs no quoting.
pub open spec fn shell_safe_char(c: char) -> bool {
    ('a' as int <= c as int && c as int <= 'z' as int)
        || ('A' as int <= c as int && c as int <= 'Z' as int)
        || ('0' as int <= c as int && c as int <= '9' as int)
        || c == '-' || c == '_' || c == '=' || c == '/' || c == ',' || c == '.' || c == '+'
}

/// A non-empty word of shell-safe characters is rendered as it stands.
pub open spec fn shell_safe(s: Seq<char>) -> bool {
    s.len() > 0 && (forall|i: int| 0 <= i < s.len() ==> shell_safe_char(#[trigger] s[i]))
}

/// How one character renders inside a single-quoted shell word: a single
/// quote or an exclamation mark closes the quote, appears escaped with a
/// backslash, and reopens the quote; everything else stands as it is.
pub open spec fn escape_char_spec(c: char) -> Seq<char> {
    if c == '\'' || c == '!' {
        seq!['\'', '\\', c, '\'']
    } else {
        seq![c]
    }
}

/// The body of a single-quoted shell word, character by character.
pub open spec fn escape_body_spec(s: Seq<char>) -> Seq<char>
    decreases s.len(),
{
    if s.len() == 0 {
        Seq::empty()
    } else {
        escape_char_spec(s[0]) + escape_body_spec(s.skip(1))
    }
}

/// How one argument renders as a POSIX shell word: a non-empty word of
/// safe characters stands as it is, anything else is wrapped in single
/// quotes with quotes and exclamation marks escaped.
pub open spec fn escape_spec(s: Seq<char>) -> Seq<char> {
    if shell_safe(s) {
        s
    } else {
        seq!['\''] + escape_body_spec(s) + seq!['\'']
    }
}

/// The rendering of the argument list: each argument is preceded by one
/// space and escaped as a shell word.
pub open spec fn display_args_spec(args: Seq<Seq<char>>) -> Seq<char>
    decreases args.len(),
{
    if args.len() == 0 {
        Seq::empty()
    } else {
        display_args_spec(args.drop_last()) + seq![' '] + escape_spec(args.last())
    }
}

/// The shell-safe rendering of a whole command: the program name followed
/// by its escaped arguments.
pub open spec fn display_spec(cmd: Seq<char>, args: Seq<Seq<char>>) -> Seq<char> {
    cmd + display_args_spec(args)
}

/// Relies on `shell_escape::unix::escape` (the platform arm of
/// `shell_escape::escape` used here): a non-empty all-whitelisted word is
/// returned unchanged, anything else is single-quoted with `'` and `!`
/// escaped, exactly as `escape_spec` states.
#[verifier::external_body]
fn escape_arg(s: &String) -> (r: String)
    ensures
        r@ == escape_spec(s@),
{
    shell_escape::unix::escape(std::borrow::Cow::Borrowed(s.as_str())).into_owned()
}

impl Command {
    /// Build a command from the raw argument list handed over by the
    /// command line: the first element names the program, the rest are its
    /// arguments.  An empty list is rejected.
    pub fn from_arguments(arguments: Vec<String>) -> (r: Result<Command, Error>)
        ensures
            arguments@.len() == 0 ==> (r matches Err(e) && e is NoCommandSpecified),
            arguments@.len() > 0 ==> (r matches Ok(c) && c.cmd@ == arguments.deep_view()[0]
                && c.args.deep_view() == arguments.deep_view().skip(1)),
    {
        if arguments.len() == 0 {
            return Err(Error::NoCommandSpecified);
        }
        let cmd = arguments[0].clone();
        let mut args: Vec<String> = Vec::new();
        let n = arguments.len();
        for i in 1..n
            invariant
                n == arguments@.len(),
                1 <= i <= n,
                args.deep_view() =~= arguments.deep_view().subrange(1, i as int),
        {
            proof {
                assert(args.deep_view().len() == i - 1);
                assert(args@.len() == i - 1);
            }
            args.push(arguments[i].clone());
            proof {
                let dv = arguments.deep_view();
                assert forall|k: int| 0 <= k < i implies args.deep_view()[k] == dv.subrange(
                    1,
                    i + 1,
                )[k] by {
                    assert(args.deep_view()[k] == args@[k]@);
                }
                assert(args.deep_view() =~= arguments.deep_view().subrange(1, i + 1));
            }
        }
        proof {
            assert(arguments.deep_view().subrange(1, n as int) =~= arguments.deep_view().skip(1));
        }
        Ok(Command { cmd, args })
    }

    /// Render the command as one shell-safe line: the program name, then
    /// each argument quoted as a POSIX shell word.
    pub fn display(&self) -> (r: String)
        ensures
            r@ == display_spec(self.cmd@, self.args.deep_view()),
    {
        let mut r = self.cmd.clone();
        let n = self.args.len();
        for i in 0..n
            invariant
                n == self.args@.len(),
                r@ == display_spec(self.cmd@, self.args.deep_view().take(i as int)),
        {
            proof {
                reveal_strlit(" ");
            }
            r.append(" ");
            let escaped = escape_arg(&self.args[i]);
            r.append(escaped.as_str());
            proof {
                let dv = self.args.deep_view();
                assert(" "@ =~= seq![' ']);
                assert(dv.take(i + 1).drop_last() =~= dv.take(i as int));
                assert(dv.take(i + 1).last() == dv[i as int]);
                assert(self.args@[i as int]@ == dv[i as int]);
                assert(r@ =~= display_spec(self.cmd@, dv.take(i + 1)));
            }
        }
        proof {
            assert(self.args.deep_view().take(n as int) =~= self.args.deep_view());
        }
        r
    }
}

/// Reading the body of a quoted shell word back: a quote that opens a
/// backslash escape (`'\c'`) stands for the escaped character alone; any
/// other character stands for itself.
pub open spec fn unescape_body_spec(s: Seq<char>) -> Seq<char>
    decreases s.len(),
{
    if s.len() == 0 {
        Seq::empty()
    } else if s[0] == '\'' && s.len() >= 4 && s[1] == '\\' && s[3] == '\'' {
        seq![s[2]] + unescape_body_spec(s.skip(4))
    } else {
        seq![s[0]] + unescape_body_spec(s.skip(1))
    }
}

/// Reading a rendered shell word back: a word wrapped in single quotes is
/// the unescaped body between them; a bare word stands for itself.
pub open spec fn unescape_word_spec(w: Seq<char>) -> Seq<char> {
    if w.len() >= 2 && w[0] == '\'' && w.last() == '\'' {
        unescape_body_spec(w.subrange(1, w.len() - 1))
    } else {
        w
    }
}

/// A quoted word keeps its characters as they are when none of them needs
/// the backslash escape.
proof fn lemma_escape_body_plain(s: Seq<char>)
    requires
        forall|i: int| 0 <= i < s.len() ==> s[i] != '\'' && s[i] != '!',
    ensures
        escape_body_spec(s) == s,
    decreases s.len(),
{
    if s.len() == 0 {
        assert(escape_body_spec(s) =~= s);
    } else {
        lemma_escape_body_plain(s.skip(1));
        assert(escape_char_spec(s[0]) =~= seq![s[0]]);
        assert(escape_body_spec(s) =~= seq![s[0]] + s.skip(1));
        assert(seq![s[0]] + s.skip(1) =~= s);
    }
}

/// An argument that holds whitespace, but no single quote and no
/// exclamation mark, renders as the argument itself inside one pair of
/// single quotes — so the original text round-trips through the display
/// form unchanged.
pub proof fn lemma_escape_round_trips_whitespace(s: Seq<char>)
    requires
        exists|i: int| 0 <= i < s.len() && s[i] == ' ',
        forall|i: int| 0 <= i < s.len() ==> s[i] != '\'' && s[i] != '!',
    ensures
        escape_spec(s) == seq!['\''] + s + seq!['\''],
{
    let i = choose|i: int| 0 <= i < s.len() && s[i] == ' ';
    assert(!shell_safe_char(s[i]));
    assert(!shell_safe(s));
    lemma_escape_body_plain(s);
}

/// Reading an escaped body back yields the characters it was built from.
proof fn lemma_unescape_body(s: Seq<char>)
    ensures
        unescape_body_spec(escape_body_spec(s)) == s,
    decreases s.len(),
{
    if s.len() == 0 {
        assert(escape_body_spec(s) =~= Seq::<char>::empty());
        assert(unescape_body_spec(escape_body_spec(s)) =~= s);
    } else {
        let c = s[0];
        let rest = escape_body_spec(s.skip(1));
        lemma_unescape_body(s.skip(1));
        let e = escape_body_spec(s);
        if c == '\'' || c == '!' {
            assert(escape_char_spec(c) =~= seq!['\'', '\\', c, '\'']);
            assert(e =~= seq!['\'', '\\', c, '\''] + rest);
            assert(e[0] == '\'' && e.len() >= 4 && e[1] == '\\' && e[3] == '\'');
            assert(e.skip(4) =~= rest);
            assert(e[2] == c);
            assert(unescape_body_spec(e) == seq![c] + s.skip(1));
        } else {
            assert(escape_char_spec(c) =~= seq![c]);
            assert(e =~= seq![c] + rest);
            assert(e[0] == c && c != '\'');
            assert(e.skip(1) =~= rest);
            assert(unescape_body_spec(e) == seq![c] + s.skip(1));
        }
        assert(seq![c] + s.skip(1) =~= s);
    }
}

/// Rendering loses nothing: reading the rendered shell word back yields
/// the argument exactly, for every argument — whitespace, quotes,
/// exclamation marks and all.
pub proof fn lemma_escape_round_trips(s: Seq<char>)
    ensures
        unescape_word_spec(escape_spec(s)) == s,
{
    if shell_safe(s) {
        assert(shell_safe_char(s[0]));
        assert(s[0] != '\'');
    } else {
        let w = escape_spec(s);
        let body = escape_body_spec(s);
        assert(w =~= seq!['\''] + body + seq!['\'']);
        assert(w[0] == '\'' && w.last() == '\'' && w.len() >= 2);
        assert(w.subrange(1, w.len() - 1) =~= body);
        lemma_unescape_body(s);
    }
}

} // verus!
