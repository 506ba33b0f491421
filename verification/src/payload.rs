//! The payload configuration model: where the payload comes from, what it
//! is compiled for, how it is booted and run, and which conditional
//! features are passed to the cross-compiler driver.

use vstd::prelude::*;
use vstd::string::*;

use crate::errors::{ConfigError, Error, ParseError, SpecError, SpecParseError};
use crate::text::{find_char_from, is_space, is_word, space_char, str_eq, word_char};

verus! {

/// Maps a `Result` whose error is an [`Error`] onto the mathematical
/// models of both sides.
pub open spec fn res_view<T: View>(r: Result<T, Error>) -> Result<T::V, SpecError> {
    match r {
        Ok(t) => Ok(t@),
        Err(e) => Err(e@),
    }
}

// ---------------------------------------------------------------------
// Source
// ---------------------------------------------------------------------

/// Where the payload's code comes from: a directory that is already local,
/// or a remote repository to clone.
#[derive(Clone, Debug, PartialEq, Eq)]
pub enum Source {
    Local(String),
    Git(String),
}

/// Mathematical model of a [`Source`].
pub enum SpecSource {
    Local(Seq<char>),
    Git(Seq<char>),
}

impl View for Source {
    type V = SpecSource;

    open spec fn view(&self) -> SpecSource {
        match self {
            Source::Local(s) => SpecSource::Local(s@),
            Source::Git(s) => SpecSource::Git(s@),
        }
    }
}

/// A value is repository-shaped when an `@` is followed, at least one
/// character later, by a `:` that still has text after it.
pub open spec fn git_shaped(s: Seq<char>) -> bool {
    exists|i: int, j: int|
        0 <= i && i + 1 < j && j + 1 < s.len() && s[i] == '@' && s[j] == ':'
}

/// How a source value is classified.
pub open spec fn spec_source_from(s: Seq<char>) -> SpecSource {
    if git_shaped(s) {
        SpecSource::Git(s)
    } else {
        SpecSource::Local(s)
    }
}

/// Runtime test for [`git_shaped`].
fn is_git_shaped(s: &str) -> (r: bool)
    ensures
        r == git_shaped(s@),
{
    let n = s.unicode_len();
    let a = find_char_from(s, '@', 0);
    if a >= n || n - a < 4 {
        proof {
            assert forall|i: int, j: int|
                0 <= i && i + 1 < j && j + 1 < s@.len() && s@[i] == '@' implies s@[j]
                != ':' by {
                assert(i >= a);
            }
        }
        return false;
    }
    let j = find_char_from(s, ':', a + 2);
    if j < n - 1 {
        proof {
            assert(0 <= a as int && a + 1 < j as int && j + 1 < s@.len() && s@[a as int] == '@'
                && s@[j as int] == ':');
        }
        true
    } else {
        proof {
            assert forall|i: int, j2: int|
                0 <= i && i + 1 < j2 && j2 + 1 < s@.len() && s@[i] == '@' implies s@[j2]
                != ':' by {
                assert(i >= a);
                assert(a + 2 <= j2 < j);
            }
        }
        false
    }
}

impl Source {
    /// Classify a source value: repository-shaped text is a remote
    /// repository, anything else a local path.
    pub fn from_str(s: &str) -> (r: Source)
        ensures
            r@ == spec_source_from(s@),
    {
        if is_git_shaped(s) {
            Source::Git(s.to_owned())
        } else {
            Source::Local(s.to_owned())
        }
    }
}

// ---------------------------------------------------------------------
// Target
// ---------------------------------------------------------------------

/// A compilation target: a name the build tool knows, or the path of a
/// target-description file.
#[derive(Clone, Debug, PartialEq, Eq)]
pub enum Target {
    BuiltIn(String),
    Json(String),
}

/// Mathematical model of a [`Target`].
pub enum SpecTarget {
    BuiltIn(Seq<char>),
    Json(Seq<char>),
}

impl View for Target {
    type V = SpecTarget;

    open spec fn view(&self) -> SpecTarget {
        match self {
            Target::BuiltIn(s) => SpecTarget::BuiltIn(s@),
            Target::Json(s) => SpecTarget::Json(s@),
        }
    }
}

/// The descriptor-file extension as a character sequence.
pub open spec fn json_ext() -> Seq<char> {
    seq!['.', 'j', 's', 'o', 'n']
}

/// Whether a value ends in the descriptor-file extension.
pub open spec fn has_json_ext(s: Seq<char>) -> bool {
    s.len() >= 5 && s.subrange(s.len() - 5, s.len() as int) == json_ext()
}

/// How a target value is classified.
pub open spec fn spec_target_from(s: Seq<char>) -> SpecTarget {
    if has_json_ext(s) {
        SpecTarget::Json(s)
    } else {
        SpecTarget::BuiltIn(s)
    }
}

/// The position right after the last `/`, or `0` when there is none: where
/// the bare filename of a path starts.
pub open spec fn file_start(s: Seq<char>) -> int
    decreases s.len(),
{
    if s.len() == 0 {
        0
    } else if s[s.len() - 1] == '/' {
        s.len() as int
    } else {
        file_start(s.drop_last())
    }
}

/// Where the filename starts: within bounds, right after a separator, and
/// with no separator at or after it.
pub proof fn lemma_file_start(s: Seq<char>)
    ensures
        0 <= file_start(s) <= s.len(),
        forall|k: int| file_start(s) <= k < s.len() ==> s[k] != '/',
        file_start(s) > 0 ==> s[file_start(s) - 1] == '/',
    decreases s.len(),
{
    if s.len() == 0 {
    } else if s[s.len() - 1] == '/' {
    } else {
        lemma_file_start(s.drop_last());
        assert forall|k: int| file_start(s) <= k < s.len() implies s[k] != '/' by {
            if k < s.len() - 1 {
                assert(s.drop_last()[k] == s[k]);
            }
        }
        if file_start(s) > 0 {
            assert(s.drop_last()[file_start(s) - 1] == s[file_start(s) - 1]);
        }
    }
}

/// A scan that found no separator in the suffix may look at the prefix
/// alone.
proof fn lemma_file_start_prefix(s: Seq<char>, i: int)
    requires
        0 <= i <= s.len(),
        forall|k: int| i <= k < s.len() ==> s[k] != '/',
    ensures
        file_start(s) == file_start(s.subrange(0, i)),
    decreases s.len() - i,
{
    if i == s.len() {
        assert(s.subrange(0, i) =~= s);
    } else {
        assert(s[s.len() - 1] != '/');
        assert(s.drop_last() =~= s.subrange(0, s.len() - 1));
        assert forall|k: int| i <= k < s.drop_last().len() implies s.drop_last()[k] != '/' by {
            assert(s.drop_last()[k] == s[k]);
        }
        lemma_file_start_prefix(s.drop_last(), i);
        assert(s.drop_last().subrange(0, i) =~= s.subrange(0, i));
    }
}

/// Runtime scan for [`file_start`].
fn find_file_start(s: &str) -> (r: usize)
    ensures
        r as int == file_start(s@),
        r <= s@.len(),
{
    let n = s.unicode_len();
    let mut i: usize = n;
    while i > 0
        invariant
            i <= n,
            n == s@.len(),
            forall|k: int| i <= k < n ==> s@[k] != '/',
        decreases i,
    {
        if s.get_char(i - 1) == '/' {
            proof {
                lemma_file_start_prefix(s@, i as int);
                assert(s@.subrange(0, i as int).len() == i as int);
                assert(s@.subrange(0, i as int)[i - 1] == s@[i - 1]);
            }
            return i;
        }
        i = i - 1;
    }
    proof {
        lemma_file_start_prefix(s@, 0);
        assert(s@.subrange(0, 0) =~= Seq::<char>::empty());
    }
    0
}

/// The canonical form of a descriptor-file path: the extension stripped,
/// the directory part kept. A filename that consists of the bare extension
/// has nothing to strip.
pub open spec fn json_canonical(s: Seq<char>) -> Seq<char> {
    if file_start(s) == s.len() - 5 {
        s
    } else {
        s.subrange(0, s.len() - 5)
    }
}

/// The stem of a descriptor-file path: the bare filename without extension
/// or directory.
pub open spec fn json_stem(s: Seq<char>) -> Seq<char> {
    if file_start(s) == s.len() - 5 {
        s.subrange(file_start(s), s.len() as int)
    } else {
        s.subrange(file_start(s), s.len() - 5)
    }
}

/// The string a target contributes to the build tool's argument list.
pub open spec fn spec_canonical(t: SpecTarget) -> Seq<char> {
    match t {
        SpecTarget::BuiltIn(s) => s,
        SpecTarget::Json(s) => json_canonical(s),
    }
}

/// The short form a target contributes to feature names.
pub open spec fn spec_stem(t: SpecTarget) -> Seq<char> {
    match t {
        SpecTarget::BuiltIn(s) => s,
        SpecTarget::Json(s) => json_stem(s),
    }
}

impl SpecTarget {
    /// A descriptor-file target always carries the descriptor extension;
    /// classification establishes this and everything preserves it.
    pub open spec fn wf(&self) -> bool {
        match self {
            SpecTarget::BuiltIn(_) => true,
            SpecTarget::Json(s) => has_json_ext(*s),
        }
    }
}

/// The filename of a descriptor-file path starts no later than its
/// extension, because the extension holds no separator.
proof fn lemma_file_start_before_ext(s: Seq<char>)
    requires
        has_json_ext(s),
    ensures
        file_start(s) <= s.len() - 5,
{
    lemma_file_start(s);
    if file_start(s) > s.len() - 5 {
        let d = file_start(s) - 1;
        assert(s.subrange(s.len() - 5, s.len() as int)[d - (s.len() - 5)] == s[d]);
        assert(s[d] == '/');
    }
}

impl Target {
    /// See [`SpecTarget::wf`].
    pub open spec fn wf(&self) -> bool {
        self@.wf()
    }

    /// Classify a target value: a path ending in the descriptor-file
    /// extension names a description file, anything else a built-in
    /// target.
    pub fn from_str(s: &str) -> (t: Target)
        ensures
            t@ == spec_target_from(s@),
            t.wf(),
    {
        if ends_with_json(s) {
            Target::Json(s.to_owned())
        } else {
            Target::BuiltIn(s.to_owned())
        }
    }

    /// The canonical string handed to the build tool: a built-in name
    /// itself; a descriptor path with its extension stripped and its
    /// directory preserved.
    pub fn as_string(&self) -> (r: String)
        requires
            self.wf(),
        ensures
            r@ == spec_canonical(self@),
    {
        match self {
            Target::BuiltIn(s) => s.clone(),
            Target::Json(s) => {
                let n = s.as_str().unicode_len();
                let fs = find_file_start(s.as_str());
                proof {
                    lemma_file_start_before_ext(s@);
                }
                if fs == n - 5 {
                    s.clone()
                } else {
                    s.as_str().substring_char(0, n - 5).to_owned()
                }
            },
        }
    }

    /// The short target form used in feature names and artifact naming:
    /// the bare filename without extension or directory.
    pub fn as_stem(&self) -> (r: String)
        requires
            self.wf(),
        ensures
            r@ == spec_stem(self@),
    {
        match self {
            Target::BuiltIn(s) => s.clone(),
            Target::Json(s) => {
                let n = s.as_str().unicode_len();
                let fs = find_file_start(s.as_str());
                proof {
                    lemma_file_start_before_ext(s@);
                }
                if fs == n - 5 {
                    s.as_str().substring_char(fs, n).to_owned()
                } else {
                    s.as_str().substring_char(fs, n - 5).to_owned()
                }
            },
        }
    }
}

/// The stem of a descriptor-file target holds no path separator.
pub proof fn lemma_json_stem_no_separator(s: Seq<char>)
    requires
        has_json_ext(s),
    ensures
        forall|k: int| 0 <= k < json_stem(s).len() ==> json_stem(s)[k] != '/',
{
    lemma_file_start(s);
    lemma_file_start_before_ext(s);
}

// ---------------------------------------------------------------------
// Feature
// ---------------------------------------------------------------------

/// A conditional compilation flag handed to the build tool: either common
/// to every target, or specific to the configured architecture.
#[derive(Clone, Debug, PartialEq, Eq)]
pub enum Feature {
    Common(String),
    ArchSpecific(String),
}

/// Mathematical model of a [`Feature`].
pub enum SpecFeature {
    Common(Seq<char>),
    ArchSpecific(Seq<char>),
}

impl View for Feature {
    type V = SpecFeature;

    open spec fn view(&self) -> SpecFeature {
        match self {
            Feature::Common(s) => SpecFeature::Common(s@),
            Feature::ArchSpecific(s) => SpecFeature::ArchSpecific(s@),
        }
    }
}

impl DeepView for Feature {
    type V = SpecFeature;

    open spec fn deep_view(&self) -> SpecFeature {
        self@
    }
}

/// How a feature renders against a resolved target: a common feature is
/// its own name; an architecture-specific one is prefixed with the
/// target's stem.
pub open spec fn spec_render(f: SpecFeature, t: SpecTarget) -> Seq<char> {
    match f {
        SpecFeature::Common(s) => s,
        SpecFeature::ArchSpecific(s) => seq!['_'] + spec_stem(t) + seq!['-'] + s,
    }
}

/// A common feature renders as its own name, whatever the target: the two
/// renderings agree and both are the name itself.
pub proof fn lemma_common_render_target_independent(x: Seq<char>, t1: SpecTarget, t2: SpecTarget)
    ensures
        spec_render(SpecFeature::Common(x), t1) == x,
        spec_render(SpecFeature::Common(x), t1) == spec_render(SpecFeature::Common(x), t2),
{
}

impl Feature {
    /// Render this feature as the string handed to the build tool.
    pub fn canonicalize(&self, t: &Target) -> (r: String)
        requires
            t.wf(),
        ensures
            r@ == spec_render(self@, t@),
    {
        match self {
            Feature::Common(s) => s.clone(),
            Feature::ArchSpecific(s) => {
                let mut out = String::from_str("_");
                let stem = t.as_stem();
                out.append(stem.as_str());
                out.append("-");
                out.append(s.as_str());
                proof {
                    reveal_strlit("_");
                    reveal_strlit("-");
                    assert(("_")@ =~= seq!['_']);
                    assert(("-")@ =~= seq!['-']);
                    assert(out@ =~= spec_render(self@, t@));
                }
                out
            },
        }
    }
}

// ---------------------------------------------------------------------
// Loader and Runner
// ---------------------------------------------------------------------

/// The bootloader strategy used to produce a bootable image.
#[derive(Clone, Copy, Debug, PartialEq, Eq, Structural)]
pub enum Loader {
    GRUB,
}

/// The program used to execute the produced artifact.
#[derive(Clone, Copy, Debug, PartialEq, Eq, Structural)]
pub enum Runner {
    Qemu,
}

impl View for Loader {
    type V = Loader;

    open spec fn view(&self) -> Loader {
        *self
    }
}

impl View for Runner {
    type V = Runner;

    open spec fn view(&self) -> Runner {
        *self
    }
}

/// How a loader value is parsed; an unknown value is named in the error.
pub open spec fn spec_loader_from(s: Seq<char>) -> Result<Loader, SpecError> {
    if s == ("grub")@ {
        Ok(Loader::GRUB)
    } else {
        Err(SpecError::Parse(SpecParseError::UnknownLoader(s)))
    }
}

/// How a runner value is parsed; an unknown value is named in the error.
pub open spec fn spec_runner_from(s: Seq<char>) -> Result<Runner, SpecError> {
    if s == ("qemu")@ {
        Ok(Runner::Qemu)
    } else {
        Err(SpecError::Parse(SpecParseError::UnknownRunner(s)))
    }
}

impl Loader {
    /// Parse a loader value.
    pub fn from_str(s: &str) -> (r: Result<Loader, Error>)
        ensures
            res_view(r) == spec_loader_from(s@),
    {
        if str_eq(s, "grub") {
            Ok(Loader::GRUB)
        } else {
            Err(Error::Parse(ParseError::UnknownLoader(s.to_owned())))
        }
    }
}

impl Runner {
    /// Parse a runner value.
    pub fn from_str(s: &str) -> (r: Result<Runner, Error>)
        ensures
            res_view(r) == spec_runner_from(s@),
    {
        if str_eq(s, "qemu") {
            Ok(Runner::Qemu)
        } else {
            Err(Error::Parse(ParseError::UnknownRunner(s.to_owned())))
        }
    }
}

// ---------------------------------------------------------------------
// Option tokens
// ---------------------------------------------------------------------

/// The first position at or after `i` holding `=`, or the length of `s`
/// when there is none.
pub open spec fn first_eq_from(s: Seq<char>, i: int) -> int
    decreases s.len() - i,
{
    if i < 0 || i >= s.len() {
        s.len() as int
    } else if s[i] == '=' {
        i
    } else {
        first_eq_from(s, i + 1)
    }
}

/// Where the `=` of an option token stands: the first `=` after the
/// leading dashes.
pub open spec fn eq_idx(t: Seq<char>) -> int {
    first_eq_from(t, 2)
}

/// A payload option token has the shape `--key=value`: two dashes, a
/// non-empty key of word characters, `=`, and a non-empty value free of
/// whitespace.
pub open spec fn option_shaped(t: Seq<char>) -> bool {
    &&& t.len() >= 5
    &&& t[0] == '-'
    &&& t[1] == '-'
    &&& 2 < eq_idx(t) < t.len() - 1
    &&& forall|k: int| 2 <= k < eq_idx(t) ==> is_word(t[k])
    &&& forall|k: int| eq_idx(t) < k < t.len() ==> !is_space(t[k])
}

/// The key of a well-shaped option token.
pub open spec fn opt_key(t: Seq<char>) -> Seq<char> {
    t.subrange(2, eq_idx(t))
}

/// The value of a well-shaped option token.
pub open spec fn opt_val(t: Seq<char>) -> Seq<char> {
    t.subrange(eq_idx(t) + 1, t.len() as int)
}

/// A scan that saw no `=` before position `e`, and `=` or the end at `e`,
/// has found [`first_eq_from`].
proof fn lemma_first_eq_from(s: Seq<char>, i: int, e: int)
    requires
        0 <= i <= e <= s.len(),
        forall|k: int| i <= k < e ==> s[k] != '=',
        e < s.len() ==> s[e] == '=',
    ensures
        first_eq_from(s, i) == e,
    decreases e - i,
{
    if i < e {
        lemma_first_eq_from(s, i + 1, e);
    }
}

/// Split one option token into its key and value, or report that it is
/// not well shaped.
fn split_option(t: &str) -> (r: Option<(String, String)>)
    ensures
        match r {
            Some(kv) => option_shaped(t@) && kv.0@ == opt_key(t@) && kv.1@ == opt_val(t@),
            None => !option_shaped(t@),
        },
{
    let n = t.unicode_len();
    if n < 5 {
        return None;
    }
    if t.get_char(0) != '-' || t.get_char(1) != '-' {
        return None;
    }
    let e = find_char_from(t, '=', 2);
    proof {
        lemma_first_eq_from(t@, 2, e as int);
    }
    if e >= n || e == 2 || e + 1 >= n {
        return None;
    }
    let mut i: usize = 2;
    while i < e
        invariant
            2 <= i <= e,
            e + 1 < n,
            n == t@.len(),
            eq_idx(t@) == e,
            forall|k: int| 2 <= k < i ==> is_word(t@[k]),
        decreases e - i,
    {
        if !word_char(t.get_char(i)) {
            return None;
        }
        i = i + 1;
    }
    let mut j: usize = e + 1;
    while j < n
        invariant
            e + 1 <= j <= n,
            n == t@.len(),
            eq_idx(t@) == e,
            forall|k: int| e < k < j ==> !is_space(t@[k]),
        decreases n - j,
    {
        if space_char(t.get_char(j)) {
            return None;
        }
        j = j + 1;
    }
    let key = t.substring_char(2, e).to_owned();
    let val = t.substring_char(e + 1, n).to_owned();
    Some((key, val))
}

// ---------------------------------------------------------------------
// Payload configuration
// ---------------------------------------------------------------------

/// The state the option loop threads: every configurable slot, each still
/// optional.
pub struct SpecConfig {
    pub source: Option<SpecSource>,
    pub target: Option<SpecTarget>,
    pub loader: Option<Loader>,
    pub runner: Option<Runner>,
}

/// The state before any option token is read.
pub open spec fn empty_config() -> SpecConfig {
    SpecConfig { source: None, target: None, loader: None, runner: None }
}

/// How one option token transforms the configuration: a later occurrence
/// of a key overwrites an earlier one.
pub open spec fn spec_apply_option(st: SpecConfig, t: Seq<char>) -> Result<SpecConfig, SpecError> {
    if !option_shaped(t) {
        Err(SpecError::Parse(SpecParseError::MalformedOption(t)))
    } else {
        let k = opt_key(t);
        let v = opt_val(t);
        if k == ("source")@ {
            Ok(SpecConfig { source: Some(spec_source_from(v)), ..st })
        } else if k == ("target")@ {
            Ok(SpecConfig { target: Some(spec_target_from(v)), ..st })
        } else if k == ("loader")@ {
            match spec_loader_from(v) {
                Ok(l) => Ok(SpecConfig { loader: Some(l), ..st }),
                Err(e) => Err(e),
            }
        } else if k == ("runner")@ {
            match spec_runner_from(v) {
                Ok(r) => Ok(SpecConfig { runner: Some(r), ..st }),
                Err(e) => Err(e),
            }
        } else {
            Err(SpecError::Parse(SpecParseError::UnknownOption(k)))
        }
    }
}

/// The option tokens folded over a starting configuration, left to right.
pub open spec fn spec_parse_options_from(st: SpecConfig, toks: Seq<Seq<char>>) -> Result<
    SpecConfig,
    SpecError,
>
    decreases toks.len(),
{
    if toks.len() == 0 {
        Ok(st)
    } else {
        match spec_apply_option(st, toks[0]) {
            Ok(st2) => spec_parse_options_from(st2, toks.drop_first()),
            Err(e) => Err(e),
        }
    }
}

/// Mathematical model of a [`Payload`].
pub struct SpecPayload {
    pub source: Option<SpecSource>,
    pub target: SpecTarget,
    pub loader: Option<Loader>,
    pub runner: Option<Runner>,
    pub features: Seq<SpecFeature>,
    pub project_name: Seq<char>,
}

impl SpecPayload {
    /// A payload is well formed when its target is.
    pub open spec fn wf(&self) -> bool {
        self.target.wf()
    }
}

/// What constructing a payload from option tokens and the manifest's
/// package name yields: the name must be known, every token must apply,
/// and a target must have been configured; the feature list starts empty.
pub open spec fn spec_payload_new(toks: Seq<Seq<char>>, name: Option<Seq<char>>) -> Result<
    SpecPayload,
    SpecError,
> {
    match name {
        None => Err(SpecError::Config(ConfigError::NoProjectName)),
        Some(n) => match spec_parse_options_from(empty_config(), toks) {
            Ok(st) => match st.target {
                Some(t) => Ok(
                    SpecPayload {
                        source: st.source,
                        target: t,
                        loader: st.loader,
                        runner: st.runner,
                        features: Seq::empty(),
                        project_name: n,
                    },
                ),
                None => Err(SpecError::Config(ConfigError::NoTarget)),
            },
            Err(e) => Err(e),
        },
    }
}

/// The model of an optional component.
pub open spec fn opt_view<T: View>(o: Option<T>) -> Option<T::V> {
    match o {
        Some(t) => Some(t@),
        None => None,
    }
}

/// The model of the option loop's running state.
pub open spec fn config_view(
    source: Option<Source>,
    target: Option<Target>,
    loader: Option<Loader>,
    runner: Option<Runner>,
) -> SpecConfig {
    SpecConfig {
        source: opt_view(source),
        target: opt_view(target),
        loader: opt_view(loader),
        runner: opt_view(runner),
    }
}

/// The configuration of one run: where the payload lives, what it is
/// compiled for, how it boots and runs, its features, and the project
/// name the manifest gave it.
#[derive(Debug)]
pub struct Payload {
    pub source: Option<Source>,
    pub target: Target,
    pub loader: Option<Loader>,
    pub runner: Option<Runner>,
    pub features: Vec<Feature>,
    pub project_name: String,
}

impl View for Payload {
    type V = SpecPayload;

    open spec fn view(&self) -> SpecPayload {
        SpecPayload {
            source: opt_view(self.source),
            target: self.target@,
            loader: opt_view(self.loader),
            runner: opt_view(self.runner),
            features: self.features.deep_view(),
            project_name: self.project_name@,
        }
    }
}

impl Payload {
    /// See [`SpecPayload::wf`].
    pub open spec fn wf(&self) -> bool {
        self@.wf()
    }

    /// Build a payload configuration from the `--key=value` option tokens
    /// and the text of the payload's build manifest. Recognized keys are
    /// `source`, `target`, `loader` and `runner`; the last occurrence of a
    /// key wins; a missing target is a terminal configuration error.
    pub fn new(options: Vec<String>, manifest_text: &str) -> (r: Result<Payload, Error>)
        ensures
            res_view(r) == spec_payload_new(
                options.deep_view(),
                crate::manifest::manifest_package_name(manifest_text@),
            ),
            r matches Ok(p) ==> p.wf(),
    {
        let ghost toks = options.deep_view();
        let project_name = match crate::manifest::manifest_project_name(manifest_text) {
            Ok(n) => n,
            Err(e) => {
                return Err(e);
            },
        };
        let mut source: Option<Source> = None;
        let mut target: Option<Target> = None;
        let mut loader: Option<Loader> = None;
        let mut runner: Option<Runner> = None;
        let n = options.len();
        let mut idx: usize = 0;
        proof {
            assert(toks.skip(0) =~= toks);
            assert(config_view(None, None, None, None) == empty_config());
        }
        while idx < n
            invariant
                idx <= n,
                n == options@.len(),
                toks == options.deep_view(),
                toks.len() == n,
                crate::manifest::manifest_package_name(manifest_text@) == Some(project_name@),
                target matches Some(t) ==> t.wf(),
                spec_parse_options_from(config_view(source, target, loader, runner), toks.skip(idx as int))
                    == spec_parse_options_from(empty_config(), toks),
            decreases n - idx,
        {
            let tok = &options[idx];
            let ghost cur = config_view(source, target, loader, runner);
            let ghost sk = toks.skip(idx as int);
            proof {
                assert(toks[idx as int] == tok@);
                assert(sk[0] == toks[idx as int]);
                assert(sk.drop_first() =~= toks.skip(idx as int + 1));
                assert(spec_parse_options_from(cur, sk) == match spec_apply_option(cur, tok@) {
                    Ok(st2) => spec_parse_options_from(st2, sk.drop_first()),
                    Err(e) => Err(e),
                });
            }
            match split_option(tok.as_str()) {
                None => {
                    proof {
                        assert(spec_apply_option(cur, tok@) == Err::<SpecConfig, SpecError>(
                            SpecError::Parse(SpecParseError::MalformedOption(tok@)),
                        ));
                    }
                    return Err(Error::Parse(ParseError::MalformedOption(tok.clone())));
                },
                Some(kv) => {
                    let (key, val) = kv;
                    if str_eq(key.as_str(), "source") {
                        source = Some(Source::from_str(val.as_str()));
                        proof {
                            assert(spec_apply_option(cur, tok@) == Ok::<SpecConfig, SpecError>(
                                config_view(source, target, loader, runner),
                            ));
                        }
                    } else if str_eq(key.as_str(), "target") {
                        target = Some(Target::from_str(val.as_str()));
                        proof {
                            assert(spec_apply_option(cur, tok@) == Ok::<SpecConfig, SpecError>(
                                config_view(source, target, loader, runner),
                            ));
                        }
                    } else if str_eq(key.as_str(), "loader") {
                        match Loader::from_str(val.as_str()) {
                            Ok(l) => {
                                loader = Some(l);
                                proof {
                                    assert(spec_apply_option(cur, tok@) == Ok::<
                                        SpecConfig,
                                        SpecError,
                                    >(config_view(source, target, loader, runner)));
                                }
                            },
                            Err(e) => {
                                proof {
                                    assert(spec_apply_option(cur, tok@) == Err::<
                                        SpecConfig,
                                        SpecError,
                                    >(e@));
                                }
                                return Err(e);
                            },
                        }
                    } else if str_eq(key.as_str(), "runner") {
                        match Runner::from_str(val.as_str()) {
                            Ok(rn) => {
                                runner = Some(rn);
                                proof {
                                    assert(spec_apply_option(cur, tok@) == Ok::<
                                        SpecConfig,
                                        SpecError,
                                    >(config_view(source, target, loader, runner)));
                                }
                            },
                            Err(e) => {
                                proof {
                                    assert(spec_apply_option(cur, tok@) == Err::<
                                        SpecConfig,
                                        SpecError,
                                    >(e@));
                                }
                                return Err(e);
                            },
                        }
                    } else {
                        proof {
                            assert(spec_apply_option(cur, tok@) == Err::<SpecConfig, SpecError>(
                                SpecError::Parse(SpecParseError::UnknownOption(key@)),
                            ));
                        }
                        return Err(Error::Parse(ParseError::UnknownOption(key)));
                    }
                },
            }
            idx = idx + 1;
        }
        proof {
            assert(toks.skip(n as int) =~= Seq::<Seq<char>>::empty());
        }
        match target {
            None => Err(Error::Config(ConfigError::NoTarget)),
            Some(t) => {
                let p = Payload {
                    source,
                    target: t,
                    loader,
                    runner,
                    features: Vec::new(),
                    project_name,
                };
                proof {
                    assert(p.features.deep_view() =~= Seq::<SpecFeature>::empty());
                }
                Ok(p)
            },
        }
    }
}

// ---------------------------------------------------------------------
// Driver invocations
// ---------------------------------------------------------------------

/// The feature marking multiboot support, added to every invocation made
/// with a GRUB loader configured.
pub open spec fn multiboot_marker() -> Seq<char> {
    ("_multiboot")@
}

/// The feature set of one driver invocation: the configured features,
/// plus the multiboot marker if and only if a GRUB loader is configured.
/// Derived fresh for each invocation from the stored configuration, which
/// is never touched.
pub open spec fn spec_effective_features(p: SpecPayload) -> Seq<SpecFeature> {
    if p.loader == Some(Loader::GRUB) {
        p.features.push(SpecFeature::Common(multiboot_marker()))
    } else {
        p.features
    }
}

/// The effective features rendered against the configured target, in
/// declaration order.
pub open spec fn spec_rendered_features(p: SpecPayload) -> Seq<Seq<char>> {
    spec_effective_features(p).map_values(|f: SpecFeature| spec_render(f, p.target))
}

/// The parts joined with single spaces.
pub open spec fn join_spaces(parts: Seq<Seq<char>>) -> Seq<char>
    decreases parts.len(),
{
    if parts.len() == 0 {
        Seq::empty()
    } else if parts.len() == 1 {
        parts[0]
    } else {
        join_spaces(parts.drop_last()) + seq![' '] + parts.last()
    }
}

/// How many times the multiboot marker occurs in a feature list.
pub open spec fn count_marker(fs: Seq<SpecFeature>) -> int
    decreases fs.len(),
{
    if fs.len() == 0 {
        0
    } else {
        count_marker(fs.drop_last()) + (if fs.last() == SpecFeature::Common(multiboot_marker()) {
            1int
        } else {
            0int
        })
    }
}

/// With a GRUB loader, the effective feature set carries the multiboot
/// marker exactly once as long as the stored features hold none — as a
/// freshly parsed configuration does — and this holds of every invocation
/// alike, because the set is recomputed from the untouched configuration.
pub proof fn lemma_multiboot_marker_once(p: SpecPayload)
    requires
        p.loader == Some(Loader::GRUB),
        count_marker(p.features) == 0,
    ensures
        count_marker(spec_effective_features(p)) == 1,
{
    assert(spec_effective_features(p).drop_last() =~= p.features);
}

/// A freshly constructed configuration stores no features, so with a GRUB
/// loader the effective feature set of every invocation made in one run
/// carries the multiboot marker exactly once: the marker never
/// accumulates across invocations.
pub proof fn lemma_new_payload_marker_once(
    toks: Seq<Seq<char>>,
    name: Option<Seq<char>>,
    p: SpecPayload,
)
    requires
        spec_payload_new(toks, name) == Ok::<SpecPayload, SpecError>(p),
        p.loader == Some(Loader::GRUB),
    ensures
        count_marker(spec_effective_features(p)) == 1,
{
    assert(count_marker(p.features) == 0);
    lemma_multiboot_marker_once(p);
}

/// One external tool invocation: the program and its argument list.
#[derive(Clone, Debug, PartialEq, Eq)]
pub struct ToolInvocation {
    pub program: String,
    pub args: Vec<String>,
}

/// Mathematical model of a [`ToolInvocation`].
pub struct SpecInvocation {
    pub program: Seq<char>,
    pub args: Seq<Seq<char>>,
}

impl View for ToolInvocation {
    type V = SpecInvocation;

    open spec fn view(&self) -> SpecInvocation {
        SpecInvocation { program: self.program@, args: self.args.deep_view() }
    }
}

/// The deterministic argument list of one driver invocation: the
/// subcommand, a verbosity flag, the target flag with the target's
/// canonical string, and the features flag with the space-joined rendered
/// features.
pub open spec fn spec_invocation(p: SpecPayload, sub: Seq<char>) -> SpecInvocation {
    SpecInvocation {
        program: ("xargo")@,
        args: seq![
            sub,
            ("--verbose")@,
            ("--target")@,
            spec_canonical(p.target),
            ("--features")@,
            join_spaces(spec_rendered_features(p)),
        ],
    }
}

/// The fixed build profile label.
pub open spec fn spec_build_profile() -> Seq<char> {
    ("debug")@
}

/// Where the built artifact lands, derived from the configuration.
pub open spec fn spec_artefact_path(p: SpecPayload) -> Seq<char> {
    ("./target/")@ + spec_canonical(p.target) + seq!['/'] + spec_build_profile() + seq!['/']
        + p.project_name
}

// ---------------------------------------------------------------------
// Fetching
// ---------------------------------------------------------------------

/// How a fetch is carried out: use a directory that is already local, or
/// clone a remote repository to the given destination.
#[derive(Clone, Debug, PartialEq, Eq)]
pub enum FetchPlan {
    UseLocal(String),
    CloneRepo { url: String, dest: String },
}

/// Mathematical model of a [`FetchPlan`].
pub enum SpecFetchPlan {
    UseLocal(Seq<char>),
    CloneRepo { url: Seq<char>, dest: Seq<char> },
}

impl View for FetchPlan {
    type V = SpecFetchPlan;

    open spec fn view(&self) -> SpecFetchPlan {
        match self {
            FetchPlan::UseLocal(p) => SpecFetchPlan::UseLocal(p@),
            FetchPlan::CloneRepo { url, dest } => SpecFetchPlan::CloneRepo {
                url: url@,
                dest: dest@,
            },
        }
    }
}

/// What fetching means for each kind of source: a local source is handed
/// back unchanged with no network activity, a repository source is cloned
/// into the payload's local path, and no source at all is a configuration
/// error.
pub open spec fn spec_fetch(p: SpecPayload) -> Result<SpecFetchPlan, SpecError> {
    match p.source {
        Some(SpecSource::Local(path)) => Ok(SpecFetchPlan::UseLocal(path)),
        Some(SpecSource::Git(url)) => Ok(
            SpecFetchPlan::CloneRepo { url: url, dest: spec_artefact_path(p) },
        ),
        None => Err(SpecError::Config(ConfigError::NoSource)),
    }
}

/// How a credential request during a clone is satisfied: the username is
/// prompted for only when none is known, the password is always prompted
/// for; no plan exists when the remote takes no plaintext pair.
#[derive(Clone, Copy, Debug, PartialEq, Eq, Structural)]
pub struct CredentialPlan {
    pub prompt_username: bool,
}

/// Decide how to answer one credential request.
pub fn credential_plan(has_username: bool, allows_userpass_plaintext: bool) -> (r: Option<
    CredentialPlan,
>)
    ensures
        r == if allows_userpass_plaintext {
            Some(CredentialPlan { prompt_username: !has_username })
        } else {
            None::<CredentialPlan>
        },
{
    if allows_userpass_plaintext {
        Some(CredentialPlan { prompt_username: !has_username })
    } else {
        None
    }
}

impl Payload {
    /// The effective features of one invocation, rendered against the
    /// configured target, in declaration order.
    pub fn rendered_features(&self) -> (r: Vec<String>)
        requires
            self.wf(),
        ensures
            r.deep_view() == spec_rendered_features(self@),
    {
        let ghost dv = self.features.deep_view();
        let ghost g = |f: SpecFeature| spec_render(f, self@.target);
        let mut out: Vec<String> = Vec::new();
        let m = self.features.len();
        let mut i: usize = 0;
        while i < m
            invariant
                i <= m,
                m == self.features@.len(),
                dv == self.features.deep_view(),
                dv.len() == m,
                self.wf(),
                g == (|f: SpecFeature| spec_render(f, self@.target)),
                out.deep_view() == dv.take(i as int).map_values(g),
            decreases m - i,
        {
            let rendered = self.features[i].canonicalize(&self.target);
            out.push(rendered);
            proof {
                assert(dv[i as int] == self.features@[i as int]@);
                assert(dv.take(i as int + 1).map_values(g) =~= dv.take(i as int).map_values(
                    g,
                ).push(g(dv[i as int])));
            }
            i = i + 1;
        }
        proof {
            assert(dv.take(m as int) =~= dv);
        }
        match &self.loader {
            Some(l) => {
                match l {
                    Loader::GRUB => {
                        let ghost before = out.deep_view();
                        out.push(String::from_str("_multiboot"));
                        proof {
                            assert(out.deep_view() =~= before.push(multiboot_marker()));
                            assert(spec_effective_features(self@) == dv.push(
                                SpecFeature::Common(multiboot_marker()),
                            ));
                            assert(g(SpecFeature::Common(multiboot_marker()))
                                == multiboot_marker());
                            assert(spec_effective_features(self@).map_values(g) =~= before.push(
                                multiboot_marker(),
                            ));
                        }
                    },
                }
            },
            None => {
                proof {
                    assert(spec_effective_features(self@) == dv);
                }
            },
        }
        out
    }

    /// The rendered features joined into the single features argument.
    fn joined_features(&self) -> (r: String)
        requires
            self.wf(),
        ensures
            r@ == join_spaces(spec_rendered_features(self@)),
    {
        let parts = self.rendered_features();
        let ghost pv = parts.deep_view();
        let np = parts.len();
        let mut out = String::new();
        let mut i: usize = 0;
        while i < np
            invariant
                i <= np,
                np == parts@.len(),
                pv == parts.deep_view(),
                pv.len() == np,
                out@ == join_spaces(pv.take(i as int)),
            decreases np - i,
        {
            if i > 0 {
                out.append(" ");
            }
            out.append(parts[i].as_str());
            proof {
                reveal_strlit(" ");
                assert((" ")@ =~= seq![' ']);
                assert(pv[i as int] == parts@[i as int]@);
                assert(pv.take(i as int + 1).drop_last() =~= pv.take(i as int));
                assert(pv.take(i as int + 1).last() == pv[i as int]);
            }
            i = i + 1;
        }
        proof {
            assert(pv.take(np as int) =~= pv);
        }
        out
    }

    /// The full driver invocation for one subcommand.
    pub fn invocation(&self, subcommand: &str) -> (r: ToolInvocation)
        requires
            self.wf(),
        ensures
            r@ == spec_invocation(self@, subcommand@),
    {
        let mut args: Vec<String> = Vec::new();
        args.push(subcommand.to_owned());
        args.push(String::from_str("--verbose"));
        args.push(String::from_str("--target"));
        args.push(self.target.as_string());
        args.push(String::from_str("--features"));
        args.push(self.joined_features());
        let r = ToolInvocation { program: String::from_str("xargo"), args };
        proof {
            assert(r.args.deep_view() =~= spec_invocation(self@, subcommand@).args);
        }
        r
    }

    /// The driver invocation that cleans the payload's build outputs.
    pub fn clean(&self) -> (r: ToolInvocation)
        requires
            self.wf(),
        ensures
            r@ == spec_invocation(self@, ("clean")@),
    {
        self.invocation("clean")
    }

    /// The driver invocation that documents the payload.
    pub fn doc(&self) -> (r: ToolInvocation)
        requires
            self.wf(),
        ensures
            r@ == spec_invocation(self@, ("doc")@),
    {
        self.invocation("doc")
    }

    /// The driver invocation that runs the payload under the configured
    /// runner.
    pub fn run(&self) -> (r: ToolInvocation)
        requires
            self.wf(),
        ensures
            r@ == spec_invocation(self@, ("run")@),
    {
        self.invocation("run")
    }

    /// The fixed build profile label.
    pub fn build_type(&self) -> (r: String)
        ensures
            r@ == spec_build_profile(),
    {
        String::from_str("debug")
    }

    /// Where the built artifact lands.
    pub fn artefact_path(&self) -> (r: String)
        requires
            self.wf(),
        ensures
            r@ == spec_artefact_path(self@),
    {
        let mut out = String::from_str("./target/");
        let canon = self.target.as_string();
        out.append(canon.as_str());
        out.append("/");
        let profile = self.build_type();
        out.append(profile.as_str());
        out.append("/");
        out.append(self.project_name.as_str());
        proof {
            reveal_strlit("/");
            assert(("/")@ =~= seq!['/']);
            assert(out@ =~= spec_artefact_path(self@));
        }
        out
    }

    /// Decide how a fetch is carried out; see [`spec_fetch`].
    pub fn fetch(&self) -> (r: Result<FetchPlan, Error>)
        requires
            self.wf(),
        ensures
            res_view(r) == spec_fetch(self@),
    {
        match &self.source {
            Some(Source::Local(path)) => Ok(FetchPlan::UseLocal(path.clone())),
            Some(Source::Git(url)) => Ok(
                FetchPlan::CloneRepo { url: url.clone(), dest: self.artefact_path() },
            ),
            None => Err(Error::Config(ConfigError::NoSource)),
        }
    }
}

/// Runtime test for [`has_json_ext`].
fn ends_with_json(s: &str) -> (r: bool)
    ensures
        r == has_json_ext(s@),
{
    let n = s.unicode_len();
    if n < 5 {
        proof {
            assert(!has_json_ext(s@));
        }
        return false;
    }
    let c0 = s.get_char(n - 5);
    let c1 = s.get_char(n - 4);
    let c2 = s.get_char(n - 3);
    let c3 = s.get_char(n - 2);
    let c4 = s.get_char(n - 1);
    let r = c0 == '.' && c1 == 'j' && c2 == 's' && c3 == 'o' && c4 == 'n';
    proof {
        let tail = s@.subrange(n - 5, n as int);
        assert(tail[0] == s@[n - 5] && tail[1] == s@[n - 4] && tail[2] == s@[n - 3] && tail[3]
            == s@[n - 2] && tail[4] == s@[n - 1]);
        if r {
            assert(tail =~= json_ext());
        } else {
            assert(tail != json_ext()) by {
                if tail == json_ext() {
                    assert(tail[0] == '.' && tail[1] == 'j' && tail[2] == 's' && tail[3] == 'o'
                        && tail[4] == 'n');
                }
            }
        }
    }
    r
}

} // verus!
