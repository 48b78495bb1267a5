use std::str::FromStr;

use oxc_syntax::es_target::ESTarget;
use vstd::prelude::*;

verus! {

/// The ECMAScript version that compressed output may use.
#[derive(Clone, Copy, Debug, PartialEq, Eq, Structural)]
pub enum EsTarget {
    Es2015,
    Es2016,
    Es2017,
    Es2018,
    Es2019,
    Es2020,
    Es2021,
    Es2022,
    Es2023,
    Es2024,
    Es2025,
    Es2026,
    EsNext,
}

/// ASCII letters folded to lower case; every other character kept.
pub open spec fn ascii_lower(s: Seq<char>) -> Seq<char> {
    s.map_values(|c: char| if 'A' <= c && c <= 'Z' { ((c as u32) + 32) as char } else { c })
}

/// The target named by a (case-insensitive) version tag, if the tag is known.
pub open spec fn target_of_name(s: Seq<char>) -> Option<EsTarget> {
    let l = ascii_lower(s);
    if l == seq!['e', 's', '6'] || l == seq!['e', 's', '2', '0', '1', '5'] {
        Some(EsTarget::Es2015)
    } else if l == seq!['e', 's', '2', '0', '1', '6'] {
        Some(EsTarget::Es2016)
    } else if l == seq!['e', 's', '2', '0', '1', '7'] {
        Some(EsTarget::Es2017)
    } else if l == seq!['e', 's', '2', '0', '1', '8'] {
        Some(EsTarget::Es2018)
    } else if l == seq!['e', 's', '2', '0', '1', '9'] {
        Some(EsTarget::Es2019)
    } else if l == seq!['e', 's', '2', '0', '2', '0'] {
        Some(EsTarget::Es2020)
    } else if l == seq!['e', 's', '2', '0', '2', '1'] {
        Some(EsTarget::Es2021)
    } else if l == seq!['e', 's', '2', '0', '2', '2'] {
        Some(EsTarget::Es2022)
    } else if l == seq!['e', 's', '2', '0', '2', '3'] {
        Some(EsTarget::Es2023)
    } else if l == seq!['e', 's', '2', '0', '2', '4'] {
        Some(EsTarget::Es2024)
    } else if l == seq!['e', 's', '2', '0', '2', '5'] {
        Some(EsTarget::Es2025)
    } else if l == seq!['e', 's', '2', '0', '2', '6'] {
        Some(EsTarget::Es2026)
    } else if l == seq!['e', 's', 'n', 'e', 'x', 't'] {
        Some(EsTarget::EsNext)
    } else {
        None
    }
}

/// The message with which an unknown target tag is refused.
pub open spec fn target_error(s: Seq<char>) -> Seq<char> {
    if ascii_lower(s) == seq!['e', 's', '5'] {
        "ES5 is not yet supported."@
    } else {
        "Invalid target \""@ + s + "\"."@
    }
}

/// Relies on `ESTarget::from_str` of oxc_syntax: an ASCII-case-insensitive
/// match of the tag against "es6", "es2015" .. "es2026" and "esnext"; any
/// other tag is refused with a message naming it ("es5" with a message of its own).
#[verifier::external_body]
fn parse_target(s: &str) -> (r: Result<EsTarget, String>)
    ensures
        r is Ok <==> target_of_name(s@) is Some,
        r is Ok ==> r->Ok_0 == target_of_name(s@)->0,
        r is Err ==> r->Err_0@ == target_error(s@),
{
    Ok(match ESTarget::from_str(s)? {
        ESTarget::ES2015 => EsTarget::Es2015, ESTarget::ES2016 => EsTarget::Es2016,
        ESTarget::ES2017 => EsTarget::Es2017, ESTarget::ES2018 => EsTarget::Es2018,
        ESTarget::ES2019 => EsTarget::Es2019, ESTarget::ES2020 => EsTarget::Es2020,
        ESTarget::ES2021 => EsTarget::Es2021, ESTarget::ES2022 => EsTarget::Es2022,
        ESTarget::ES2023 => EsTarget::Es2023, ESTarget::ES2024 => EsTarget::Es2024,
        ESTarget::ES2025 => EsTarget::Es2025, ESTarget::ES2026 => EsTarget::Es2026,
        ESTarget::ESNext => EsTarget::EsNext,
    })
}

/// An option field that was present but held a value the engine does not accept.
#[derive(Debug)]
pub struct ConfigurationError {
    /// The name of the offending field, as the caller spells it.
    pub field: String,
    /// The value the caller gave.
    pub value: String,
    /// Why the value was refused.
    pub message: String,
}

/// A caller's setting for one stage: not given, a plain on/off, or a detailed record.
#[derive(Debug)]
pub enum RawOption<T> {
    Absent,
    Flag(bool),
    Detail(T),
}

/// Compression settings as a caller gives them; every field may be left out.
#[derive(Debug)]
pub struct CompressOptions {
    /// ECMAScript version tag for the output ("esnext" when left out).
    pub target: Option<String>,
    /// Discard calls to `console.*` (false when left out).
    pub drop_console: Option<bool>,
    /// Remove `debugger;` statements (true when left out).
    pub drop_debugger: Option<bool>,
}

/// Mangling settings as a caller gives them.
#[derive(Debug)]
pub struct MangleOptions {
    /// Mangle names declared in the top level scope (false when left out).
    pub toplevel: Option<bool>,
    /// Use readable mangled names (false when left out).
    pub debug: Option<bool>,
}

/// Code generation settings as a caller gives them.
#[derive(Debug)]
pub struct CodegenOptions {
    /// Remove whitespace (true when left out).
    pub remove_whitespace: Option<bool>,
}

/// The whole configuration of one minification call.
#[derive(Debug)]
pub struct MinifyOptions {
    pub compress: RawOption<CompressOptions>,
    pub mangle: RawOption<MangleOptions>,
    pub codegen: RawOption<CodegenOptions>,
    /// Also emit a source map (false when left out).
    pub sourcemap: Option<bool>,
}

/// The output of a minification call: the code and, when one was asked for,
/// the source map as JSON text.
#[derive(Debug)]
pub struct MinifyResult {
    pub code: String,
    pub map: Option<String>,
}

/// Fully determined compression settings.
#[derive(Clone, Copy, Debug, PartialEq, Eq, Structural)]
pub struct ResolvedCompress {
    pub target: EsTarget,
    pub drop_console: bool,
    pub drop_debugger: bool,
}

/// Fully determined mangling settings.
#[derive(Clone, Copy, Debug, PartialEq, Eq, Structural)]
pub struct ResolvedMangle {
    pub top_level: bool,
    pub debug: bool,
}

/// Fully determined code generation settings.
#[derive(Clone, Copy, Debug, PartialEq, Eq, Structural)]
pub struct ResolvedCodegen {
    pub remove_whitespace: bool,
}

/// The engine configuration of one call: `None` for a stage means it is skipped.
#[derive(Clone, Copy, Debug, PartialEq, Eq, Structural)]
pub struct ResolvedOptions {
    pub compress: Option<ResolvedCompress>,
    pub mangle: Option<ResolvedMangle>,
    pub codegen: Option<ResolvedCodegen>,
    pub sourcemap: bool,
}

pub open spec fn default_compress() -> ResolvedCompress {
    ResolvedCompress { target: EsTarget::EsNext, drop_console: false, drop_debugger: true }
}

pub open spec fn default_mangle() -> ResolvedMangle {
    ResolvedMangle { top_level: false, debug: false }
}

pub open spec fn default_codegen() -> ResolvedCodegen {
    ResolvedCodegen { remove_whitespace: true }
}

/// The value of an optional setting, or the given default when it is left out.
pub open spec fn or_default<T>(o: Option<T>, d: T) -> T {
    match o {
        Some(v) => v,
        None => d,
    }
}

/// A compression record merged field by field over the defaults; `None` when
/// the target tag is not known.
pub open spec fn compress_resolution(o: CompressOptions) -> Option<ResolvedCompress> {
    let target = match o.target {
        Some(t) => target_of_name(t@),
        None => Some(default_compress().target),
    };
    match target {
        Some(t) => Some(
            ResolvedCompress {
                target: t,
                drop_console: or_default(o.drop_console, default_compress().drop_console),
                drop_debugger: or_default(o.drop_debugger, default_compress().drop_debugger),
            },
        ),
        None => None,
    }
}

pub open spec fn mangle_resolution(o: MangleOptions) -> ResolvedMangle {
    ResolvedMangle {
        top_level: or_default(o.toplevel, default_mangle().top_level),
        debug: or_default(o.debug, default_mangle().debug),
    }
}

pub open spec fn codegen_resolution(o: CodegenOptions) -> ResolvedCodegen {
    ResolvedCodegen {
        remove_whitespace: or_default(o.remove_whitespace, default_codegen().remove_whitespace),
    }
}

/// The tri-state rule: left out or `true` enables the stage with `dflt`, `false`
/// skips it, a detailed record enables it with `detail`.
pub open spec fn stage<T, R>(raw: RawOption<T>, dflt: R, detail: R) -> Option<R> {
    match raw {
        RawOption::Absent => Some(dflt),
        RawOption::Flag(on) => if on {
            Some(dflt)
        } else {
            None
        },
        RawOption::Detail(_) => Some(detail),
    }
}

/// Whether resolving the compression stage fails on an unknown target tag.
pub open spec fn compress_fails(raw: RawOption<CompressOptions>) -> bool {
    match raw {
        RawOption::Detail(c) => compress_resolution(c) is None,
        _ => false,
    }
}

/// The configuration a caller's options resolve to, when they resolve at all.
pub open spec fn resolution(o: MinifyOptions) -> ResolvedOptions {
    ResolvedOptions {
        compress: match o.compress {
            RawOption::Detail(c) => compress_resolution(c),
            _ => stage(o.compress, default_compress(), default_compress()),
        },
        mangle: match o.mangle {
            RawOption::Detail(m) => Some(mangle_resolution(m)),
            _ => stage(o.mangle, default_mangle(), default_mangle()),
        },
        codegen: match o.codegen {
            RawOption::Detail(g) => Some(codegen_resolution(g)),
            _ => stage(o.codegen, default_codegen(), default_codegen()),
        },
        sourcemap: or_default(o.sourcemap, false),
    }
}

/// Two settings that only differ by one being left out where the other is `true`.
pub open spec fn alike<T>(x: RawOption<T>, y: RawOption<T>) -> bool {
    x == y || (x is Absent && y == RawOption::<T>::Flag(true)) || (y is Absent && x
        == RawOption::<T>::Flag(true))
}

/// Leaving a stage out and switching it on with `true` resolve to the same
/// configuration, and neither can fail.
pub proof fn absent_and_enabled_agree(a: MinifyOptions, b: MinifyOptions)
    requires
        alike(a.compress, b.compress),
        alike(a.mangle, b.mangle),
        alike(a.codegen, b.codegen),
        a.sourcemap == b.sourcemap,
    ensures
        compress_fails(a.compress) == compress_fails(b.compress),
        resolution(a) == resolution(b),
{
}

/// In a detailed record every given field is taken as it is, and every field
/// left out takes its own default.
pub proof fn detail_merges_field_by_field(o: MinifyOptions)
    ensures
        o.compress is Detail && !compress_fails(o.compress) ==> {
            let c = o.compress->Detail_0;
            let r = resolution(o).compress->0;
            &&& resolution(o).compress is Some
            &&& r.target == (if c.target is Some {
                target_of_name(c.target->0@)->0
            } else {
                default_compress().target
            })
            &&& r.drop_console == (if c.drop_console is Some {
                c.drop_console->0
            } else {
                default_compress().drop_console
            })
            &&& r.drop_debugger == (if c.drop_debugger is Some {
                c.drop_debugger->0
            } else {
                default_compress().drop_debugger
            })
        },
        o.mangle is Detail ==> {
            let m = o.mangle->Detail_0;
            let r = resolution(o).mangle->0;
            &&& resolution(o).mangle is Some
            &&& r.top_level == (if m.toplevel is Some {
                m.toplevel->0
            } else {
                default_mangle().top_level
            })
            &&& r.debug == (if m.debug is Some {
                m.debug->0
            } else {
                default_mangle().debug
            })
        },
        o.codegen is Detail ==> {
            let g = o.codegen->Detail_0;
            let r = resolution(o).codegen->0;
            &&& resolution(o).codegen is Some
            &&& r.remove_whitespace == (if g.remove_whitespace is Some {
                g.remove_whitespace->0
            } else {
                default_codegen().remove_whitespace
            })
        },
{
}

/// A stage switched off with `false` is skipped, whatever the other settings
/// are; switching compression off also removes the only way to fail.
pub proof fn disabled_stage_is_skipped(o: MinifyOptions)
    ensures
        o.compress == RawOption::<CompressOptions>::Flag(false) ==> !compress_fails(o.compress)
            && resolution(o).compress is None,
        o.mangle == RawOption::<MangleOptions>::Flag(false) ==> resolution(o).mangle is None,
        o.codegen == RawOption::<CodegenOptions>::Flag(false) ==> resolution(o).codegen is None,
{
}

impl Default for CompressOptions {
    fn default() -> (r: Self)
        ensures
            r.target is None,
            r.drop_console is None,
            r.drop_debugger == Some(true),
    {
        CompressOptions { target: None, drop_console: None, drop_debugger: Some(true) }
    }
}

impl Default for MangleOptions {
    fn default() -> (r: Self)
        ensures
            r.toplevel is None,
            r.debug is None,
    {
        MangleOptions { toplevel: None, debug: None }
    }
}

impl Default for CodegenOptions {
    fn default() -> (r: Self)
        ensures
            r.remove_whitespace == Some(true),
    {
        CodegenOptions { remove_whitespace: Some(true) }
    }
}

impl Default for MinifyOptions {
    fn default() -> (r: Self)
        ensures
            r.compress is Absent,
            r.mangle is Absent,
            r.codegen is Absent,
            r.sourcemap is None,
    {
        MinifyOptions {
            compress: RawOption::Absent,
            mangle: RawOption::Absent,
            codegen: RawOption::Absent,
            sourcemap: None,
        }
    }
}

impl ResolvedCompress {
    pub fn new_default() -> (r: Self)
        ensures
            r == default_compress(),
    {
        ResolvedCompress { target: EsTarget::EsNext, drop_console: false, drop_debugger: true }
    }
}

impl ResolvedMangle {
    pub fn new_default() -> (r: Self)
        ensures
            r == default_mangle(),
    {
        ResolvedMangle { top_level: false, debug: false }
    }
}

impl ResolvedCodegen {
    pub fn new_default() -> (r: Self)
        ensures
            r == default_codegen(),
    {
        ResolvedCodegen { remove_whitespace: true }
    }
}

impl CompressOptions {
    /// Merges the given fields over the defaults. Fails, naming the `target`
    /// field and its value, exactly when the target tag is not known.
    pub fn resolve(&self) -> (r: Result<ResolvedCompress, ConfigurationError>)
        ensures
            r is Ok <==> compress_resolution(*self) is Some,
            r is Ok ==> r->Ok_0 == compress_resolution(*self)->0,
            r is Err ==> self.target is Some && r->Err_0.field@ == "target"@
                && r->Err_0.value@ == self.target->0@ && r->Err_0.message@ == target_error(
                self.target->0@,
            ),
    {
        let target = match &self.target {
            Some(t) => match parse_target(t.as_str()) {
                Ok(v) => v,
                Err(message) => {
                    return Err(
                        ConfigurationError {
                            field: "target".to_string(),
                            value: t.clone(),
                            message,
                        },
                    );
                },
            },
            None => EsTarget::EsNext,
        };
        let drop_console = match self.drop_console {
            Some(v) => v,
            None => false,
        };
        let drop_debugger = match self.drop_debugger {
            Some(v) => v,
            None => true,
        };
        Ok(ResolvedCompress { target, drop_console, drop_debugger })
    }
}

impl MangleOptions {
    /// Merges the given fields over the defaults.
    pub fn resolve(&self) -> (r: ResolvedMangle)
        ensures
            r == mangle_resolution(*self),
    {
        let top_level = match self.toplevel {
            Some(v) => v,
            None => false,
        };
        let debug = match self.debug {
            Some(v) => v,
            None => false,
        };
        ResolvedMangle { top_level, debug }
    }
}

impl CodegenOptions {
    /// Merges the given fields over the defaults.
    pub fn resolve(&self) -> (r: ResolvedCodegen)
        ensures
            r == codegen_resolution(*self),
    {
        let remove_whitespace = match self.remove_whitespace {
            Some(v) => v,
            None => true,
        };
        ResolvedCodegen { remove_whitespace }
    }
}

impl MinifyOptions {
    /// Resolves every stage and the top-level flags into one engine
    /// configuration; fails, with nothing else resolved, exactly when the
    /// compression record names an unknown target.
    pub fn resolve(&self) -> (r: Result<ResolvedOptions, ConfigurationError>)
        ensures
            r is Err <==> compress_fails(self.compress),
            r is Ok ==> r->Ok_0 == resolution(*self),
            r is Err ==> self.compress is Detail && self.compress->Detail_0.target is Some
                && r->Err_0.field@ == "target"@ && r->Err_0.value@
                == self.compress->Detail_0.target->0@ && r->Err_0.message@ == target_error(
                self.compress->Detail_0.target->0@,
            ),
    {
        let compress = match &self.compress {
            RawOption::Flag(false) => None,
            RawOption::Absent | RawOption::Flag(true) => Some(ResolvedCompress::new_default()),
            RawOption::Detail(c) => Some(c.resolve()?),
        };
        let mangle = match &self.mangle {
            RawOption::Flag(false) => None,
            RawOption::Absent | RawOption::Flag(true) => Some(ResolvedMangle::new_default()),
            RawOption::Detail(m) => Some(m.resolve()),
        };
        let codegen = match &self.codegen {
            RawOption::Flag(false) => None,
            RawOption::Absent | RawOption::Flag(true) => Some(ResolvedCodegen::new_default()),
            RawOption::Detail(g) => Some(g.resolve()),
        };
        let sourcemap = match self.sourcemap {
            Some(v) => v,
            None => false,
        };
        Ok(ResolvedOptions { compress, mangle, codegen, sourcemap })
    }
}

/// The byte that stands for a target in the record encoding.
pub open spec fn target_code(t: EsTarget) -> u8 {
    match t {
        EsTarget::Es2015 => 0,
        EsTarget::Es2016 => 1,
        EsTarget::Es2017 => 2,
        EsTarget::Es2018 => 3,
        EsTarget::Es2019 => 4,
        EsTarget::Es2020 => 5,
        EsTarget::Es2021 => 6,
        EsTarget::Es2022 => 7,
        EsTarget::Es2023 => 8,
        EsTarget::Es2024 => 9,
        EsTarget::Es2025 => 10,
        EsTarget::Es2026 => 11,
        EsTarget::EsNext => 12,
    }
}

pub open spec fn target_of_code(b: u8) -> Option<EsTarget> {
    if b == 0 {
        Some(EsTarget::Es2015)
    } else if b == 1 {
        Some(EsTarget::Es2016)
    } else if b == 2 {
        Some(EsTarget::Es2017)
    } else if b == 3 {
        Some(EsTarget::Es2018)
    } else if b == 4 {
        Some(EsTarget::Es2019)
    } else if b == 5 {
        Some(EsTarget::Es2020)
    } else if b == 6 {
        Some(EsTarget::Es2021)
    } else if b == 7 {
        Some(EsTarget::Es2022)
    } else if b == 8 {
        Some(EsTarget::Es2023)
    } else if b == 9 {
        Some(EsTarget::Es2024)
    } else if b == 10 {
        Some(EsTarget::Es2025)
    } else if b == 11 {
        Some(EsTarget::Es2026)
    } else if b == 12 {
        Some(EsTarget::EsNext)
    } else {
        None
    }
}

pub open spec fn flag_byte(b: bool) -> u8 {
    if b {
        1
    } else {
        0
    }
}

/// The record encoding of a configuration: ten bytes, one per field, each
/// stage led by a presence byte and zero-filled when the stage is skipped.
pub open spec fn encoding(r: ResolvedOptions) -> Seq<u8> {
    let (c0, c1, c2, c3) = match r.compress {
        Some(c) => (1u8, target_code(c.target), flag_byte(c.drop_console), flag_byte(c.drop_debugger)),
        None => (0u8, 0u8, 0u8, 0u8),
    };
    let (m0, m1, m2) = match r.mangle {
        Some(m) => (1u8, flag_byte(m.top_level), flag_byte(m.debug)),
        None => (0u8, 0u8, 0u8),
    };
    let (g0, g1) = match r.codegen {
        Some(g) => (1u8, flag_byte(g.remove_whitespace)),
        None => (0u8, 0u8),
    };
    seq![c0, c1, c2, c3, m0, m1, m2, g0, g1, flag_byte(r.sourcemap)]
}

/// What every encoded record looks like: flag bytes are 0 or 1, the target
/// byte names a target, and a skipped stage is zero-filled.
proof fn encoding_shape(x: ResolvedOptions)
    ensures
        ({
            let e = encoding(x);
            &&& e.len() == 10
            &&& forall|k: int| 0 <= k < 10 && k != 1 ==> #[trigger] e[k] <= 1
            &&& (e[0] == 1) == (x.compress is Some)
            &&& e[0] == 1 ==> target_of_code(e[1]) == Some(x.compress->0.target)
            &&& e[0] == 0 ==> e[1] == 0 && e[2] == 0 && e[3] == 0
            &&& (e[4] == 1) == (x.mangle is Some)
            &&& e[4] == 0 ==> e[5] == 0 && e[6] == 0
            &&& (e[7] == 1) == (x.codegen is Some)
            &&& e[7] == 0 ==> e[8] == 0
        }),
{
}

/// The bytes have the shape that every encoded record has.
pub open spec fn record_shaped(e: Seq<u8>) -> bool {
    &&& e.len() == 10
    &&& forall|k: int| 0 <= k < 10 && k != 1 ==> #[trigger] e[k] <= 1
    &&& e[0] == 1 ==> target_of_code(e[1]) is Some
    &&& e[0] == 0 ==> e[1] == 0 && e[2] == 0 && e[3] == 0
    &&& e[4] == 0 ==> e[5] == 0 && e[6] == 0
    &&& e[7] == 0 ==> e[8] == 0
}

/// The target byte of a record gives back the target it was made from.
proof fn target_code_inverse(b: u8, t: EsTarget)
    requires
        target_of_code(b) == Some(t),
    ensures
        target_code(t) == b,
{
}

/// Two configurations with the same record are the same configuration, so a
/// record decodes to the configuration that was encoded.
pub proof fn encoding_round_trip(r: ResolvedOptions, x: ResolvedOptions)
    requires
        encoding(x) == encoding(r),
    ensures
        x == r,
{
    let e = encoding(r);
    encoding_shape(r);
    encoding_shape(x);
    assert(encoding(x)[2] == e[2] && encoding(x)[3] == e[3] && encoding(x)[5] == e[5]);
    assert(encoding(x)[6] == e[6] && encoding(x)[8] == e[8] && encoding(x)[9] == e[9]);
    assert(x.compress == r.compress) by {
        if r.compress is Some {
            assert(x.compress->0.target == r.compress->0.target);
            assert(x.compress->0.drop_console == r.compress->0.drop_console);
            assert(x.compress->0.drop_debugger == r.compress->0.drop_debugger);
        }
    }
    assert(x.mangle == r.mangle);
    assert(x.codegen == r.codegen);
    assert(x.sourcemap == r.sourcemap);
}

fn flag_to_byte(b: bool) -> (r: u8)
    ensures
        r == flag_byte(b),
{
    if b {
        1
    } else {
        0
    }
}

impl EsTarget {
    fn code(&self) -> (r: u8)
        ensures
            r == target_code(*self),
    {
        match self {
            EsTarget::Es2015 => 0,
            EsTarget::Es2016 => 1,
            EsTarget::Es2017 => 2,
            EsTarget::Es2018 => 3,
            EsTarget::Es2019 => 4,
            EsTarget::Es2020 => 5,
            EsTarget::Es2021 => 6,
            EsTarget::Es2022 => 7,
            EsTarget::Es2023 => 8,
            EsTarget::Es2024 => 9,
            EsTarget::Es2025 => 10,
            EsTarget::Es2026 => 11,
            EsTarget::EsNext => 12,
        }
    }

    fn from_code(b: u8) -> (r: Option<EsTarget>)
        ensures
            r == target_of_code(b),
    {
        if b == 0 {
            Some(EsTarget::Es2015)
        } else if b == 1 {
            Some(EsTarget::Es2016)
        } else if b == 2 {
            Some(EsTarget::Es2017)
        } else if b == 3 {
            Some(EsTarget::Es2018)
        } else if b == 4 {
            Some(EsTarget::Es2019)
        } else if b == 5 {
            Some(EsTarget::Es2020)
        } else if b == 6 {
            Some(EsTarget::Es2021)
        } else if b == 7 {
            Some(EsTarget::Es2022)
        } else if b == 8 {
            Some(EsTarget::Es2023)
        } else if b == 9 {
            Some(EsTarget::Es2024)
        } else if b == 10 {
            Some(EsTarget::Es2025)
        } else if b == 11 {
            Some(EsTarget::Es2026)
        } else if b == 12 {
            Some(EsTarget::EsNext)
        } else {
            None
        }
    }
}

impl ResolvedOptions {
    /// The ten-byte record of this configuration.
    pub fn to_bytes(&self) -> (r: Vec<u8>)
        ensures
            r@ == encoding(*self),
    {
        let mut out: Vec<u8> = Vec::new();
        match self.compress {
            Some(c) => {
                out.push(1);
                out.push(c.target.code());
                out.push(flag_to_byte(c.drop_console));
                out.push(flag_to_byte(c.drop_debugger));
            },
            None => {
                out.push(0);
                out.push(0);
                out.push(0);
                out.push(0);
            },
        }
        match self.mangle {
            Some(m) => {
                out.push(1);
                out.push(flag_to_byte(m.top_level));
                out.push(flag_to_byte(m.debug));
            },
            None => {
                out.push(0);
                out.push(0);
                out.push(0);
            },
        }
        match self.codegen {
            Some(g) => {
                out.push(1);
                out.push(flag_to_byte(g.remove_whitespace));
            },
            None => {
                out.push(0);
                out.push(0);
            },
        }
        out.push(flag_to_byte(self.sourcemap));
        proof {
            assert(out@ =~= encoding(*self));
        }
        out
    }

    /// The configuration a record stands for; `None` for bytes that no
    /// configuration encodes to.
    pub fn from_bytes(s: &[u8]) -> (r: Option<ResolvedOptions>)
        ensures
            r is Some ==> encoding(r->0) == s@,
            r is None ==> forall|x: ResolvedOptions| encoding(x) != s@,
    {
        proof {
            assert forall|x: ResolvedOptions| #[trigger] encoding(x) == s@ implies record_shaped(s@) by {
                encoding_shape(x);
            }
        }
        if s.len() != 10 {
            return None;
        }
        let mut k: usize = 0;
        while k < 10
            invariant
                s@.len() == 10,
                k <= 10,
                forall|m: int| 0 <= m < k && m != 1 ==> (#[trigger] s@[m]) <= 1,
            decreases 10 - k,
        {
            if k != 1 && s[k] > 1 {
                return None;
            }
            k = k + 1;
        }
        let target = EsTarget::from_code(s[1]);
        if s[0] == 1 && target.is_none() {
            return None;
        }
        if (s[0] == 0 && (s[1] != 0 || s[2] != 0 || s[3] != 0)) || (s[4] == 0 && (s[5] != 0 || s[6]
            != 0)) || (s[7] == 0 && s[8] != 0) {
            return None;
        }
        let compress = if s[0] == 1 {
            match target {
                Some(t) => Some(
                    ResolvedCompress { target: t, drop_console: s[2] == 1, drop_debugger: s[3] == 1 },
                ),
                None => None,
            }
        } else {
            None
        };
        let mangle = if s[4] == 1 {
            Some(ResolvedMangle { top_level: s[5] == 1, debug: s[6] == 1 })
        } else {
            None
        };
        let codegen = if s[7] == 1 {
            Some(ResolvedCodegen { remove_whitespace: s[8] == 1 })
        } else {
            None
        };
        let r = ResolvedOptions { compress, mangle, codegen, sourcemap: s[9] == 1 };
        proof {
            if s@[0] == 1 {
                target_code_inverse(s@[1], target_of_code(s@[1])->0);
            }
            assert(s@[2] <= 1 && s@[3] <= 1 && s@[5] <= 1 && s@[6] <= 1 && s@[8] <= 1 && s@[9] <= 1);
            assert(s@[0] <= 1 && s@[4] <= 1 && s@[7] <= 1);
            assert(encoding(r) =~= s@);
        }
        Some(r)
    }
}

} // verus!
