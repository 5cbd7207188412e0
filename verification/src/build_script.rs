//! The build script the backend hands to rattler-build: zig caches inside
//! the work directory, optionally the zig C toolchain, then `zig build`
//! installing into the conda prefix.

use crate::config::strings_view;
use vstd::prelude::*;

verus! {

/// The inputs of the build script.
pub struct BuildScriptContext {
    /// The directory containing `build.zig`.
    pub source_dir: String,
    /// Args to pass to `zig build`: the `-D` flags derived by the backend
    /// followed by the user's `extra-args`.
    pub args: Vec<String>,
    /// When set, `CC`/`CXX`/`AR`/`RANLIB` (and untargeted `CC_FOR_BUILD` /
    /// `CXX_FOR_BUILD`) are exported pointing at zig's C toolchain. Holds the
    /// clang-style target flags appended to `zig cc` / `zig c++`, e.g.
    /// `" -target x86_64-linux-gnu.2.28 -mcpu=baseline"`; may be empty for a
    /// native build.
    pub cc_flags: Option<String>,
    /// True when the build runs under bash (i.e. the build machine is not
    /// Windows).
    pub is_bash: bool,
    /// True when the TARGET platform is Windows: the install prefix then
    /// points at the `Library` subdirectory of the prefix, per conda
    /// convention, regardless of the build machine.
    pub host_is_windows: bool,
}

/// The abstract content of a [`BuildScriptContext`].
pub struct BuildScriptView {
    pub source_dir: Seq<char>,
    pub args: Seq<Seq<char>>,
    pub cc_flags: Option<Seq<char>>,
    pub is_bash: bool,
    pub host_is_windows: bool,
}

impl View for BuildScriptContext {
    type V = BuildScriptView;

    open spec fn view(&self) -> BuildScriptView {
        BuildScriptView {
            source_dir: self.source_dir@,
            args: strings_view(self.args@),
            cc_flags: match self.cc_flags {
                Some(f) => Some(f@),
                None => None,
            },
            is_bash: self.is_bash,
            host_is_windows: self.host_is_windows,
        }
    }
}

// ---------------------------------------------------------------------------
// The pieces of the script
// ---------------------------------------------------------------------------

pub const BASH_CACHE_DIRS: &'static str =
    "export ZIG_GLOBAL_CACHE_DIR=\"${ZIG_GLOBAL_CACHE_DIR:-$SRC_DIR/.zig-global-cache}\"\nexport ZIG_LOCAL_CACHE_DIR=\"${ZIG_LOCAL_CACHE_DIR:-$SRC_DIR/.zig-local-cache}\"\n\n";

pub const CMD_CACHE_DIRS: &'static str =
    "if not defined ZIG_GLOBAL_CACHE_DIR SET \"ZIG_GLOBAL_CACHE_DIR=%SRC_DIR%\\.zig-global-cache\"\nif not defined ZIG_LOCAL_CACHE_DIR SET \"ZIG_LOCAL_CACHE_DIR=%SRC_DIR%\\.zig-local-cache\"\n\n";

pub const BASH_CC: &'static str = "export CC=\"zig cc";

pub const BASH_CXX: &'static str = "\"\nexport CXX=\"zig c++";

pub const BASH_OTHER_TOOLS: &'static str =
    "\"\nexport AR=\"zig ar\"\nexport RANLIB=\"zig ranlib\"\nexport CC_FOR_BUILD=\"zig cc\"\nexport CXX_FOR_BUILD=\"zig c++\"\n\n";

pub const CMD_CC: &'static str = "SET \"CC=zig cc";

pub const CMD_CXX: &'static str = "\"\nSET \"CXX=zig c++";

pub const CMD_OTHER_TOOLS: &'static str =
    "\"\nSET \"AR=zig ar\"\nSET \"RANLIB=zig ranlib\"\nSET \"CC_FOR_BUILD=zig cc\"\nSET \"CXX_FOR_BUILD=zig c++\"\n\n";

pub const BASH_MKDIR: &'static str = "mkdir -p \"";

pub const CMD_MKDIR: &'static str = "if not exist \"";

pub const CMD_MKDIR_THEN: &'static str = "\" mkdir \"";

pub const BUILD_FILE: &'static str = "\"\nzig build --build-file \"";

pub const BASH_BUILD_FILE_END: &'static str = "/build.zig\" --prefix \"";

pub const CMD_BUILD_FILE_END: &'static str = "\\build.zig\" --prefix \"";

pub const SEARCH_PREFIX: &'static str = "\" --search-prefix \"";

pub const QUOTE: &'static str = "\"";

pub const SPACE: &'static str = " ";

pub const CMD_CHECK_ERRORLEVEL: &'static str = "\nif errorlevel 1 exit 1";

pub const BASH_PREFIX: &'static str = "$PREFIX";

pub const BASH_LIBRARY_PREFIX: &'static str = "$PREFIX/Library";

pub const CMD_PREFIX: &'static str = "%PREFIX%";

pub const CMD_LIBRARY_PREFIX: &'static str = "%LIBRARY_PREFIX%";

/// The install prefix: the `Library` subdirectory of the conda prefix when
/// the package is for Windows, the prefix itself otherwise; in the syntax of
/// the shell that runs the script.
pub open spec fn install_prefix(is_bash: bool, host_is_windows: bool) -> Seq<char> {
    if is_bash {
        if host_is_windows {
            BASH_LIBRARY_PREFIX@
        } else {
            BASH_PREFIX@
        }
    } else {
        if host_is_windows {
            CMD_LIBRARY_PREFIX@
        } else {
            CMD_PREFIX@
        }
    }
}

/// The lines that keep zig's caches inside the work directory.
pub open spec fn cache_lines(is_bash: bool) -> Seq<char> {
    if is_bash {
        BASH_CACHE_DIRS@
    } else {
        CMD_CACHE_DIRS@
    }
}

/// The lines that export the zig C toolchain, when it is exported.
pub open spec fn toolchain_lines(is_bash: bool, cc_flags: Option<Seq<char>>) -> Seq<char> {
    match cc_flags {
        Some(f) => if is_bash {
            BASH_CC@ + f + BASH_CXX@ + f + BASH_OTHER_TOOLS@
        } else {
            CMD_CC@ + f + CMD_CXX@ + f + CMD_OTHER_TOOLS@
        },
        None => Seq::empty(),
    }
}

/// Each argument preceded by a space.
pub open spec fn spaced_args(args: Seq<Seq<char>>) -> Seq<char>
    decreases args.len(),
{
    if args.len() == 0 {
        Seq::empty()
    } else {
        spaced_args(args.drop_last()) + SPACE@ + args.last()
    }
}

/// Creating the prefix and running `zig build`.
pub open spec fn build_lines(ctx: BuildScriptView) -> Seq<char> {
    let prefix = install_prefix(ctx.is_bash, ctx.host_is_windows);
    if ctx.is_bash {
        BASH_MKDIR@ + prefix + BUILD_FILE@ + ctx.source_dir + BASH_BUILD_FILE_END@ + prefix
            + SEARCH_PREFIX@ + prefix + QUOTE@ + spaced_args(ctx.args)
    } else {
        CMD_MKDIR@ + prefix + CMD_MKDIR_THEN@ + prefix + BUILD_FILE@ + ctx.source_dir
            + CMD_BUILD_FILE_END@ + prefix + SEARCH_PREFIX@ + prefix + QUOTE@ + spaced_args(
            ctx.args,
        ) + CMD_CHECK_ERRORLEVEL@
    }
}

/// The script before surrounding whitespace is trimmed.
pub open spec fn untrimmed_script(ctx: BuildScriptView) -> Seq<char> {
    cache_lines(ctx.is_bash) + toolchain_lines(ctx.is_bash, ctx.cc_flags) + build_lines(ctx)
}

/// Two lists of arguments in a row render as the first list followed by the
/// second.
pub proof fn lemma_spaced_args_concat(a: Seq<Seq<char>>, b: Seq<Seq<char>>)
    ensures
        spaced_args(a + b) == spaced_args(a) + spaced_args(b),
    decreases b.len(),
{
    if b.len() == 0 {
        assert(a + b =~= a);
        assert(spaced_args(b) =~= Seq::<char>::empty());
        assert(spaced_args(a) + spaced_args(b) =~= spaced_args(a));
    } else {
        let b0 = b.drop_last();
        assert((a + b).drop_last() =~= a + b0);
        assert((a + b).last() == b.last());
        lemma_spaced_args_concat(a, b0);
        assert(spaced_args(a + b) =~= spaced_args(a) + spaced_args(b));
    }
}

// ---------------------------------------------------------------------------
// Trimming
// ---------------------------------------------------------------------------

/// `char::is_whitespace`: the Unicode `White_Space` property.
pub open spec fn is_unicode_whitespace(c: char) -> bool {
    let u = c as u32;
    (0x09 <= u <= 0x0D) || u == 0x20 || u == 0x85 || u == 0xA0 || u == 0x1680 || (0x2000 <= u
        <= 0x200A) || u == 0x2028 || u == 0x2029 || u == 0x202F || u == 0x205F || u == 0x3000
}

/// The text without its leading whitespace.
pub open spec fn trim_start(s: Seq<char>) -> Seq<char>
    decreases s.len(),
{
    if s.len() > 0 && is_unicode_whitespace(s[0]) {
        trim_start(s.drop_first())
    } else {
        s
    }
}

/// The text without its trailing whitespace.
pub open spec fn trim_end(s: Seq<char>) -> Seq<char>
    decreases s.len(),
{
    if s.len() > 0 && is_unicode_whitespace(s.last()) {
        trim_end(s.drop_last())
    } else {
        s
    }
}

/// `str::trim`: the text without leading and trailing whitespace.
pub open spec fn trim(s: Seq<char>) -> Seq<char> {
    trim_end(trim_start(s))
}

/// The rendered build script.
pub open spec fn rendered_script(ctx: BuildScriptView) -> Seq<char> {
    trim(untrimmed_script(ctx))
}

fn unicode_whitespace(c: char) -> (r: bool)
    ensures
        r == is_unicode_whitespace(c),
{
    let u = c as u32;
    (0x09 <= u && u <= 0x0D) || u == 0x20 || u == 0x85 || u == 0xA0 || u == 0x1680 || (0x2000
        <= u && u <= 0x200A) || u == 0x2028 || u == 0x2029 || u == 0x202F || u == 0x205F || u
        == 0x3000
}

fn trimmed(s: &str) -> (r: String)
    ensures
        r@ == trim(s@),
{
    let n = s.unicode_len();
    let mut a: usize = 0;
    assert(s@.subrange(0, n as int) =~= s@);
    while a < n && unicode_whitespace(s.get_char(a))
        invariant
            a <= n,
            n == s@.len(),
            trim_start(s@) == trim_start(s@.subrange(a as int, n as int)),
        decreases n - a,
    {
        assert(s@.subrange(a as int, n as int).drop_first() =~= s@.subrange(a + 1, n as int));
        a = a + 1;
    }
    let ghost rest = s@.subrange(a as int, n as int);
    assert(trim_start(rest) == rest);
    let mut e: usize = n;
    while e > a && unicode_whitespace(s.get_char(e - 1))
        invariant
            a <= e <= n,
            n == s@.len(),
            rest == s@.subrange(a as int, n as int),
            trim_end(rest) == trim_end(s@.subrange(a as int, e as int)),
        decreases e - a,
    {
        assert(s@.subrange(a as int, e as int).drop_last() =~= s@.subrange(a as int, e - 1));
        e = e - 1;
    }
    s.substring_char(a, e).to_owned()
}

// ---------------------------------------------------------------------------
// Rendering
// ---------------------------------------------------------------------------

fn push_str(s: &mut String, t: &str)
    ensures
        final(s)@ == old(s)@ + t@,
{
    s.append(t);
}

fn install_prefix_of(is_bash: bool, host_is_windows: bool) -> (r: &'static str)
    ensures
        r@ == install_prefix(is_bash, host_is_windows),
{
    if is_bash {
        if host_is_windows {
            BASH_LIBRARY_PREFIX
        } else {
            BASH_PREFIX
        }
    } else {
        if host_is_windows {
            CMD_LIBRARY_PREFIX
        } else {
            CMD_PREFIX
        }
    }
}

fn toolchain_text(is_bash: bool, cc_flags: &Option<String>) -> (r: String)
    ensures
        r@ == toolchain_lines(
            is_bash,
            match cc_flags {
                Some(f) => Some(f@),
                None => None,
            },
        ),
{
    match cc_flags {
        Some(f) => {
            let mut s = if is_bash {
                BASH_CC.to_owned()
            } else {
                CMD_CC.to_owned()
            };
            push_str(&mut s, f.as_str());
            push_str(
                &mut s,
                if is_bash {
                    BASH_CXX
                } else {
                    CMD_CXX
                },
            );
            push_str(&mut s, f.as_str());
            push_str(
                &mut s,
                if is_bash {
                    BASH_OTHER_TOOLS
                } else {
                    CMD_OTHER_TOOLS
                },
            );
            s
        },
        None => String::new(),
    }
}

fn spaced_args_text(args: &Vec<String>) -> (r: String)
    ensures
        r@ == spaced_args(strings_view(args@)),
{
    let mut s = String::new();
    let mut i: usize = 0;
    while i < args.len()
        invariant
            i <= args@.len(),
            s@ == spaced_args(strings_view(args@).subrange(0, i as int)),
        decreases args@.len() - i,
    {
        let ghost before = strings_view(args@).subrange(0, i as int);
        assert(strings_view(args@).subrange(0, i + 1).drop_last() =~= before);
        push_str(&mut s, SPACE);
        push_str(&mut s, args[i].as_str());
        i = i + 1;
    }
    assert(strings_view(args@).subrange(0, args@.len() as int) =~= strings_view(args@));
    s
}

fn build_text(ctx: &BuildScriptContext) -> (r: String)
    ensures
        r@ == build_lines(ctx@),
{
    let prefix = install_prefix_of(ctx.is_bash, ctx.host_is_windows);
    let args = spaced_args_text(&ctx.args);
    if ctx.is_bash {
        let mut s = BASH_MKDIR.to_owned();
        push_str(&mut s, prefix);
        push_str(&mut s, BUILD_FILE);
        push_str(&mut s, ctx.source_dir.as_str());
        push_str(&mut s, BASH_BUILD_FILE_END);
        push_str(&mut s, prefix);
        push_str(&mut s, SEARCH_PREFIX);
        push_str(&mut s, prefix);
        push_str(&mut s, QUOTE);
        push_str(&mut s, args.as_str());
        s
    } else {
        let mut s = CMD_MKDIR.to_owned();
        push_str(&mut s, prefix);
        push_str(&mut s, CMD_MKDIR_THEN);
        push_str(&mut s, prefix);
        push_str(&mut s, BUILD_FILE);
        push_str(&mut s, ctx.source_dir.as_str());
        push_str(&mut s, CMD_BUILD_FILE_END);
        push_str(&mut s, prefix);
        push_str(&mut s, SEARCH_PREFIX);
        push_str(&mut s, prefix);
        push_str(&mut s, QUOTE);
        push_str(&mut s, args.as_str());
        push_str(&mut s, CMD_CHECK_ERRORLEVEL);
        s
    }
}

impl BuildScriptContext {
    /// The build script: zig cache directories, the exported C toolchain when
    /// `cc_flags` is set, and the `zig build` invocation with the args in
    /// order; with surrounding whitespace trimmed.
    pub fn render(&self) -> (script: String)
        ensures
            script@ == rendered_script(self@),
    {
        let mut s = if self.is_bash {
            BASH_CACHE_DIRS.to_owned()
        } else {
            CMD_CACHE_DIRS.to_owned()
        };
        let tools = toolchain_text(self.is_bash, &self.cc_flags);
        push_str(&mut s, tools.as_str());
        let build = build_text(self);
        push_str(&mut s, build.as_str());
        trimmed(s.as_str())
    }
}

} // verus!
