//! Resolution of compiler and linker flags from what the native library's
//! configuration command reported.

use vstd::prelude::*;
use vstd::string::*;
use vstd::utf8::*;

verus! {

/// The categories of flags that the configuration command can be asked for.
#[derive(Clone, Copy, Debug, PartialEq, Eq, Structural)]
pub enum FlagCategory {
    /// Flags for the native compiler.
    Compiler,
    /// Search path for the native library at run time.
    RuntimePath,
    /// Search path for the native library at link time.
    LinkPath,
    /// Names of the libraries to link.
    Libraries,
    /// Installation prefix of the native library.
    Prefix,
}

impl FlagCategory {
    /// The single argument that selects this category on the command line.
    pub fn argument(self) -> (arg: &'static str)
        ensures
            arg@ == (match self {
                FlagCategory::Compiler => "--cxxflags"@,
                FlagCategory::RuntimePath => "--rpath"@,
                FlagCategory::LinkPath => "--ldflags"@,
                FlagCategory::Libraries => "--libs"@,
                FlagCategory::Prefix => "--prefix"@,
            }),
    {
        match self {
            FlagCategory::Compiler => "--cxxflags",
            FlagCategory::RuntimePath => "--rpath",
            FlagCategory::LinkPath => "--ldflags",
            FlagCategory::Libraries => "--libs",
            FlagCategory::Prefix => "--prefix",
        }
    }
}

/// What became of one run of the configuration command.
#[derive(Debug)]
pub enum CommandOutcome {
    /// The command could not be launched at all.
    NotLaunched,
    /// The command ran to its end.
    Exited {
        /// Whether it reported success.
        success: bool,
        /// Its exit code, where the platform gives one.
        code: Option<i32>,
        /// Everything it wrote to standard output.
        stdout: Vec<u8>,
        /// Everything it wrote to standard error.
        stderr: Vec<u8>,
    },
}

/// Why a flag category could not be resolved.
#[derive(Debug)]
pub enum FlagFailure {
    /// The command could not be launched.
    NotLaunched,
    /// The command exited without success. `diagnostics` holds what it wrote
    /// to standard error, or nothing if it wrote nothing there.
    Failed { code: Option<i32>, diagnostics: Option<Vec<u8>> },
    /// The command succeeded, but its output is not valid UTF-8 text.
    NotText,
}

/// A failed resolution, with the category that was asked for.
#[derive(Debug)]
pub struct FlagError {
    pub category: FlagCategory,
    pub failure: FlagFailure,
}

/// Whether `c` has the Unicode property White_Space: the ASCII controls from
/// tab to carriage return, the space, next line, the no-break space, the
/// ogham space mark, the spaces from en quad to hair space, the line and
/// paragraph separators, the narrow no-break space, the medium mathematical
/// space and the ideographic space.
pub open spec fn white_space(c: char) -> bool {
    let u = c as u32;
    ||| 0x09 <= u <= 0x0D
    ||| u == 0x20
    ||| u == 0x85
    ||| u == 0xA0
    ||| u == 0x1680
    ||| 0x2000 <= u <= 0x200A
    ||| u == 0x2028
    ||| u == 0x2029
    ||| u == 0x202F
    ||| u == 0x205F
    ||| u == 0x3000
}

/// Tells whether a character separates tokens.
pub fn is_white_space(c: char) -> (r: bool)
    ensures
        r == white_space(c),
{
    let u: u32 = c as u32;
    (0x09 <= u && u <= 0x0D) || u == 0x20 || u == 0x85 || u == 0xA0 || u == 0x1680 || (0x2000 <= u
        && u <= 0x200A) || u == 0x2028 || u == 0x2029 || u == 0x202F || u == 0x205F || u == 0x3000
}

/// `core::str::from_utf8` of the standard library: checks that the bytes are
/// valid UTF-8 and, if so, returns them as a string slice over the same bytes;
/// otherwise it returns an error, which is mapped to `None`.
#[verifier::external_body]
fn text_of<'a>(bytes: &'a [u8]) -> (r: Option<&'a str>)
    ensures
        r is Some <==> valid_utf8(bytes@),
        r matches Some(s) ==> s.spec_bytes() == bytes@,
{
    match core::str::from_utf8(bytes) {
        Ok(s) => Some(s),
        Err(_) => None,
    }
}

/// The whitespace-separated tokens of `text`, in order: the maximal runs of
/// characters that are not whitespace.
///
/// Read from left to right, a whitespace character adds nothing; any other
/// character lengthens the last token if it follows a character of that
/// token, and opens a new token otherwise.
pub open spec fn tokens(text: Seq<char>) -> Seq<Seq<char>>
    decreases text.len(),
{
    if text.len() == 0 {
        Seq::empty()
    } else {
        let before = text.drop_last();
        let c = text.last();
        if white_space(c) {
            tokens(before)
        } else if before.len() > 0 && !white_space(before.last()) {
            let t = tokens(before);
            t.drop_last().push(t.last().push(c))
        } else {
            tokens(before).push(seq![c])
        }
    }
}

/// The character sequences of a list of strings.
pub open spec fn views(strings: Seq<String>) -> Seq<Seq<char>> {
    Seq::new(strings.len(), |i: int| strings[i]@)
}

/// Splits text into its whitespace-separated tokens.
pub fn split_tokens(text: &str) -> (r: Vec<String>)
    ensures
        views(r@) == tokens(text@),
{
    let n: usize = text.unicode_len();
    let mut out: Vec<String> = Vec::new();
    let mut start: usize = 0;
    let mut i: usize = 0;
    proof {
        assert(text@.subrange(0, 0) =~= Seq::<char>::empty());
        assert(views(out@) =~= tokens(text@.subrange(0, 0)));
    }
    while i < n
        invariant
            n == text@.len(),
            start <= i <= n,
            forall|j: int| start <= j < i ==> !white_space(text@[j]),
            start < i ==> tokens(text@.subrange(0, i as int)) == views(out@).push(
                text@.subrange(start as int, i as int),
            ),
            start == i ==> tokens(text@.subrange(0, i as int)) == views(out@),
            start == i && i > 0 ==> white_space(text@[i - 1]),
        decreases n - i,
    {
        let c: char = text.get_char(i);
        let ghost prefix = text@.subrange(0, i as int);
        let ghost next = text@.subrange(0, i + 1);
        proof {
            assert(next.drop_last() =~= prefix);
            assert(next.last() == c);
        }
        if is_white_space(c) {
            if start < i {
                let token: String = text.substring_char(start, i).to_owned();
                let ghost old_views = views(out@);
                out.push(token);
                proof {
                    assert(views(out@) =~= old_views.push(text@.subrange(start as int, i as int)));
                }
            }
            start = i + 1;
        } else {
            proof {
                if start < i {
                    let t = tokens(prefix);
                    assert(prefix.last() == text@[i - 1]);
                    assert(!white_space(prefix.last()));
                    assert(t.last().push(c) =~= text@.subrange(start as int, i + 1));
                    assert(t.drop_last() =~= views(out@));
                    assert(tokens(next) == t.drop_last().push(t.last().push(c)));
                } else {
                    assert(seq![c] =~= text@.subrange(start as int, i + 1));
                    if i > 0 {
                        assert(prefix.last() == text@[i - 1]);
                    }
                    assert(tokens(next) == tokens(prefix).push(seq![c]));
                }
            }
        }
        i += 1;
    }
    proof {
        assert(text@.subrange(0, n as int) =~= text@);
    }
    if start < n {
        let token: String = text.substring_char(start, n).to_owned();
        let ghost old_views = views(out@);
        out.push(token);
        proof {
            assert(views(out@) =~= old_views.push(text@.subrange(start as int, n as int)));
        }
    }
    out
}

impl CommandOutcome {
    /// The tokens that this outcome resolves to, if it resolves at all: the
    /// command must have exited with success and written valid UTF-8 text.
    pub open spec fn resolved(self) -> Option<Seq<Seq<char>>> {
        match self {
            CommandOutcome::NotLaunched => None,
            CommandOutcome::Exited { success, code, stdout, stderr } => {
                if success && valid_utf8(stdout@) {
                    Some(tokens(decode_utf8(stdout@)))
                } else {
                    None
                }
            },
        }
    }

    /// Whether `failure` is the failure that this outcome calls for.
    pub open spec fn fails_with(self, failure: FlagFailure) -> bool {
        match self {
            CommandOutcome::NotLaunched => failure is NotLaunched,
            CommandOutcome::Exited { success, code, stdout, stderr } => {
                if !success {
                    &&& failure matches FlagFailure::Failed { code: c, diagnostics: d }
                    &&& c == code
                    &&& match d {
                        None => stderr@.len() == 0,
                        Some(text) => stderr@.len() > 0 && text@ == stderr@,
                    }
                } else {
                    !valid_utf8(stdout@) && failure is NotText
                }
            },
        }
    }

    /// Whether two outcomes report the same thing on everything that decides
    /// the resolved tokens.
    pub open spec fn same_report(self, other: CommandOutcome) -> bool {
        match (self, other) {
            (CommandOutcome::NotLaunched, CommandOutcome::NotLaunched) => true,
            (
                CommandOutcome::Exited { success: s1, code: c1, stdout: o1, stderr: e1 },
                CommandOutcome::Exited { success: s2, code: c2, stdout: o2, stderr: e2 },
            ) => s1 == s2 && o1@ == o2@,
            _ => false,
        }
    }
}

/// Resolves one flag category from the outcome of the configuration command.
///
/// A successful run with valid UTF-8 output yields the whitespace-separated
/// tokens of that output. Anything else is an error that carries the
/// category, the exit code and the captured diagnostics.
pub fn resolve_flags(category: FlagCategory, outcome: CommandOutcome) -> (r: Result<
    Vec<String>,
    FlagError,
>)
    ensures
        r is Ok <==> outcome.resolved() is Some,
        r matches Ok(flags) ==> outcome.resolved() == Some(views(flags@)),
        r matches Err(e) ==> e.category == category && outcome.fails_with(e.failure),
{
    match outcome {
        CommandOutcome::NotLaunched => Err(
            FlagError { category, failure: FlagFailure::NotLaunched },
        ),
        CommandOutcome::Exited { success, code, stdout, stderr } => {
            if !success {
                let diagnostics = if stderr.len() == 0 {
                    None
                } else {
                    Some(stderr)
                };
                Err(FlagError { category, failure: FlagFailure::Failed { code, diagnostics } })
            } else {
                match text_of(stdout.as_slice()) {
                    None => Err(FlagError { category, failure: FlagFailure::NotText }),
                    Some(text) => {
                        proof {
                            encode_utf8_decode_utf8(text@);
                        }
                        Ok(split_tokens(text))
                    },
                }
            }
        },
    }
}

/// The arguments to hand to the linker, in the order in which they must
/// appear: runtime search path, link search path, library names.
pub fn linker_arguments(
    runtime_path: Vec<String>,
    link_path: Vec<String>,
    libraries: Vec<String>,
) -> (r: Vec<String>)
    ensures
        r@ == runtime_path@ + link_path@ + libraries@,
{
    let mut out = runtime_path;
    let mut link_path = link_path;
    let mut libraries = libraries;
    out.append(&mut link_path);
    out.append(&mut libraries);
    out
}

/// The line that tells the enclosing build to pass `flag` to the linker.
pub open spec fn link_directive(flag: Seq<char>) -> Seq<char> {
    "cargo:rustc-link-arg="@ + flag
}

/// The lines that tell the enclosing build how to link against the native
/// library: one per linker argument, in the order of [`linker_arguments`].
pub fn link_directives(
    runtime_path: Vec<String>,
    link_path: Vec<String>,
    libraries: Vec<String>,
) -> (r: Vec<String>)
    ensures
        r@.len() == runtime_path@.len() + link_path@.len() + libraries@.len(),
        forall|i: int|
            0 <= i < r@.len() ==> (#[trigger] r@[i])@ == link_directive(
                (runtime_path@ + link_path@ + libraries@)[i]@,
            ),
{
    let arguments = linker_arguments(runtime_path, link_path, libraries);
    let mut out: Vec<String> = Vec::new();
    let mut i: usize = 0;
    while i < arguments.len()
        invariant
            i <= arguments@.len(),
            out@.len() == i,
            forall|k: int| 0 <= k < i ==> (#[trigger] out@[k])@ == link_directive(arguments@[k]@),
        decreases arguments@.len() - i,
    {
        let line = String::from_str("cargo:rustc-link-arg=").concat(arguments[i].as_str());
        out.push(line);
        i += 1;
    }
    out
}

/// Resolution is repeatable: two runs of the command that reported the same
/// resolve to the same sequence of tokens, or both to none.
pub proof fn resolution_is_repeatable(first: CommandOutcome, second: CommandOutcome)
    requires
        first.same_report(second),
    ensures
        first.resolved() == second.resolved(),
{
}

/// Whether `token` is a word: not empty, and free of whitespace.
pub open spec fn is_word(token: Seq<char>) -> bool {
    &&& token.len() > 0
    &&& forall|j: int| 0 <= j < token.len() ==> !white_space(token[j])
}

/// Every token is a word, and text that ends in a character other than
/// whitespace has at least one token.
pub proof fn tokens_are_words(text: Seq<char>)
    ensures
        forall|k: int| 0 <= k < tokens(text).len() ==> is_word(#[trigger] tokens(text)[k]),
        text.len() > 0 && !white_space(text.last()) ==> tokens(text).len() > 0,
    decreases text.len(),
{
    if text.len() > 0 {
        let before = text.drop_last();
        let c = text.last();
        let t = tokens(before);
        tokens_are_words(before);
        if white_space(c) {
        } else if before.len() > 0 && !white_space(before.last()) {
            let grown = t.last().push(c);
            assert(is_word(t[t.len() - 1]));
            assert(is_word(grown));
            assert forall|k: int| 0 <= k < tokens(text).len() implies is_word(
                #[trigger] tokens(text)[k],
            ) by {
                if k < t.len() - 1 {
                    assert(tokens(text)[k] == t[k]);
                } else {
                    assert(tokens(text)[k] == grown);
                }
            }
        } else {
            assert(is_word(seq![c]));
            assert forall|k: int| 0 <= k < tokens(text).len() implies is_word(
                #[trigger] tokens(text)[k],
            ) by {
                if k < t.len() {
                    assert(tokens(text)[k] == t[k]);
                } else {
                    assert(tokens(text)[k] == seq![c]);
                }
            }
        }
    }
}

/// Text of whitespace alone has no tokens.
pub proof fn blank_text_has_no_tokens(text: Seq<char>)
    requires
        forall|i: int| 0 <= i < text.len() ==> white_space(text[i]),
    ensures
        tokens(text).len() == 0,
    decreases text.len(),
{
    if text.len() > 0 {
        blank_text_has_no_tokens(text.drop_last());
    }
}

/// Text without whitespace is one token: itself.
pub proof fn word_is_its_own_token(text: Seq<char>)
    requires
        text.len() > 0,
        forall|i: int| 0 <= i < text.len() ==> !white_space(text[i]),
    ensures
        tokens(text) == seq![text],
    decreases text.len(),
{
    let before = text.drop_last();
    if before.len() > 0 {
        word_is_its_own_token(before);
        assert(tokens(before).drop_last().push(before.push(text.last())) =~= seq![text]) by {
            assert(before.push(text.last()) =~= text);
        }
    } else {
        assert(tokens(before).push(seq![text.last()]) =~= seq![text]) by {
            assert(seq![text.last()] =~= text);
        }
    }
}

/// Whitespace separates: the tokens of two texts joined by one whitespace
/// character are the tokens of the first followed by those of the second.
pub proof fn tokens_split_at_white_space(left: Seq<char>, c: char, right: Seq<char>)
    requires
        white_space(c),
    ensures
        tokens(left.push(c) + right) == tokens(left) + tokens(right),
    decreases right.len(),
{
    let text = left.push(c) + right;
    if right.len() == 0 {
        assert(text =~= left.push(c));
        assert(text.drop_last() =~= left);
        assert(tokens(left) + tokens(right) =~= tokens(left));
    } else {
        let shorter = right.drop_last();
        let d = right.last();
        let before = left.push(c) + shorter;
        assert(text.drop_last() =~= before);
        assert(text.last() == d);
        tokens_split_at_white_space(left, c, shorter);
        tokens_are_words(shorter);
        let t = tokens(before);
        let tail = tokens(shorter);
        if white_space(d) {
        } else if shorter.len() > 0 && !white_space(shorter.last()) {
            assert(before.last() == shorter.last());
            assert(tokens(text) == t.drop_last().push(t.last().push(d)));
            assert(tokens(right) == tail.drop_last().push(tail.last().push(d)));
            assert(t.last() == tail.last());
            assert(t.drop_last() =~= tokens(left) + tail.drop_last());
            assert(tokens(text) =~= tokens(left) + tokens(right));
        } else {
            if shorter.len() > 0 {
                assert(before.last() == shorter.last());
            } else {
                assert(before =~= left.push(c));
                assert(before.last() == c);
            }
            assert(tokens(text) == t.push(seq![d]));
            assert(tokens(right) == tail.push(seq![d]));
            assert(tokens(text) =~= tokens(left) + tokens(right));
        }
    }
}

} // verus!
