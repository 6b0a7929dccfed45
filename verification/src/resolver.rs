use vstd::prelude::*;
use crate::error::ProtoError;
use crate::text::{lower_seq, to_chars, chars_eq_str, eq_ignore_case, sub_chars};
use crate::version::{
    Version, version_chars, version_to_string, spec_parse_version, parse_version,
    spec_parse_partial, parse_partial, spec_best, best_match, contains_version,
    lemma_parse_version_first_digit, lemma_version_roundtrip,
    lemma_spec_best_props, req_matches, spec_version_le,
};

verus! {

/// Everything version resolution consults besides the specifier itself:
/// the known release list, its declared latest release, the plugin's
/// built-in alias table, and the custom aliases persisted in the manifest.
pub struct ResolverContext {
    pub versions: Vec<Version>,
    pub latest: Option<Version>,
    pub aliases: Vec<(String, String)>,
    pub manifest_aliases: Vec<(String, String)>,
}

/// A well-formed context declares a latest release only from its own
/// release list (or carries no release list at all).
pub open spec fn wf_context(ctx: &ResolverContext) -> bool {
    ctx.latest matches Some(l) ==> (ctx.versions@.len() == 0 || ctx.versions@.contains(l))
}

/// The outcome of resolving one specifier.
pub enum Resolution {
    /// A concrete version string.
    Resolved(Seq<char>),
    /// The specifier is neither a version nor any known alias.
    UnknownAlias(Seq<char>),
    /// The specifier parses but matches no known release.
    Failed(Seq<char>),
}

/// How an executable resolution result realises a spec-level outcome.
pub open spec fn matches_resolution(r: Result<String, ProtoError>, out: Resolution) -> bool {
    match out {
        Resolution::Resolved(c) => r matches Ok(v) && v@ == c,
        Resolution::UnknownAlias(a) => r matches Err(e) && e matches
            ProtoError::VersionUnknownAlias(x) && x@ == a,
        Resolution::Failed(f) => r matches Err(e) && e matches ProtoError::VersionResolveFailed(x)
            && x@ == f,
    }
}

/// The specifier with one leading `v` or `V` removed.
pub open spec fn spec_strip_v(s: Seq<char>) -> Seq<char> {
    if s.len() >= 1 && (s[0] == 'v' || s[0] == 'V') {
        s.subrange(1, s.len() as int)
    } else {
        s
    }
}

pub fn strip_v(s: &String) -> (r: String)
    ensures
        r@ == spec_strip_v(s@),
{
    let n = s.as_str().unicode_len();
    if n >= 1 {
        let c0 = s.as_str().get_char(0);
        if c0 == 'v' || c0 == 'V' {
            return s.as_str().substring_char(1, n).to_owned();
        }
    }
    s.clone()
}

/// Reserved specifiers: `latest`, `stable`, and the tag families
/// `lts-...` and `lts/...`; these are delegated to the tool's
/// resolve-version capability before anything else is tried.
pub open spec fn spec_is_reserved(s: Seq<char>) -> bool {
    s == "latest"@ || s == "stable"@ || (s.len() >= 4 && s.subrange(0, 3) == "lts"@ && (s[3] == '-'
        || s[3] == '/'))
}

pub fn is_reserved(v: &Vec<char>) -> (r: bool)
    ensures
        r == spec_is_reserved(v@),
{
    if chars_eq_str(v, "latest") || chars_eq_str(v, "stable") {
        return true;
    }
    if v.len() >= 4 {
        let pre = sub_chars(v, 0, 3);
        if chars_eq_str(&pre, "lts") && (v[3] == '-' || v[3] == '/') {
            return true;
        }
    }
    false
}

/// Case-insensitive lookup in an alias table; the first matching entry
/// wins.
pub open spec fn spec_alias_lookup(t: Seq<(String, String)>, name: Seq<char>) -> Option<Seq<char>>
    decreases t.len(),
{
    if t.len() == 0 {
        None
    } else if lower_seq(t[0].0@) == lower_seq(name) {
        Some(t[0].1@)
    } else {
        spec_alias_lookup(t.drop_first(), name)
    }
}

/// Exact lookup in a table; the first matching entry wins.
pub open spec fn spec_table_lookup(t: Seq<(String, String)>, name: Seq<char>) -> Option<Seq<char>>
    decreases t.len(),
{
    if t.len() == 0 {
        None
    } else if t[0].0@ == name {
        Some(t[0].1@)
    } else {
        spec_table_lookup(t.drop_first(), name)
    }
}

/// How an optional owned string realises an optional spec string.
pub open spec fn opt_matches(r: Option<String>, s: Option<Seq<char>>) -> bool {
    match (r, s) {
        (Option::Some(a), Option::Some(b)) => a@ == b,
        (Option::None, Option::None) => true,
        _ => false,
    }
}

fn alias_lookup_from(t: &Vec<(String, String)>, name: &Vec<char>, i: usize) -> (r: Option<String>)
    requires
        i <= t@.len(),
    ensures
        opt_matches(r, spec_alias_lookup(t@.skip(i as int), name@)),
    decreases t@.len() - i,
{
    if i >= t.len() {
        proof {
            assert(t@.skip(i as int) =~= Seq::<(String, String)>::empty());
        }
        None
    } else {
        proof {
            assert(t@.skip(i as int)[0] == t@[i as int]);
            assert(t@.skip(i as int).drop_first() =~= t@.skip(i as int + 1));
        }
        if eq_ignore_case(t[i].0.as_str(), name) {
            Some(t[i].1.clone())
        } else {
            alias_lookup_from(t, name, i + 1)
        }
    }
}

pub fn alias_lookup(t: &Vec<(String, String)>, name: &Vec<char>) -> (r: Option<String>)
    ensures
        opt_matches(r, spec_alias_lookup(t@, name@)),
{
    proof {
        assert(t@.skip(0) =~= t@);
    }
    alias_lookup_from(t, name, 0)
}

fn table_lookup_from(t: &Vec<(String, String)>, name: &Vec<char>, i: usize) -> (r: Option<String>)
    requires
        i <= t@.len(),
    ensures
        opt_matches(r, spec_table_lookup(t@.skip(i as int), name@)),
    decreases t@.len() - i,
{
    if i >= t.len() {
        proof {
            assert(t@.skip(i as int) =~= Seq::<(String, String)>::empty());
        }
        None
    } else {
        proof {
            assert(t@.skip(i as int)[0] == t@[i as int]);
            assert(t@.skip(i as int).drop_first() =~= t@.skip(i as int + 1));
        }
        if chars_eq_str(name, t[i].0.as_str()) {
            Some(t[i].1.clone())
        } else {
            table_lookup_from(t, name, i + 1)
        }
    }
}

pub fn table_lookup(t: &Vec<(String, String)>, name: &Vec<char>) -> (r: Option<String>)
    ensures
        opt_matches(r, spec_table_lookup(t@, name@)),
{
    proof {
        assert(t@.skip(0) =~= t@);
    }
    table_lookup_from(t, name, 0)
}

/// The custom aliases of the manifest take precedence over the plugin's
/// built-in alias table.
pub open spec fn spec_alias_chain(s: Seq<char>, ctx: &ResolverContext) -> Option<Seq<char>> {
    match spec_alias_lookup(ctx.manifest_aliases@, s) {
        Option::Some(v) => Some(v),
        Option::None => spec_alias_lookup(ctx.aliases@, s),
    }
}

fn alias_chain(sv: &Vec<char>, ctx: &ResolverContext) -> (r: Option<String>)
    ensures
        opt_matches(r, spec_alias_chain(sv@, ctx)),
{
    match alias_lookup(&ctx.manifest_aliases, sv) {
        Option::Some(v) => Some(v),
        Option::None => alias_lookup(&ctx.aliases, sv),
    }
}

/// Resolution of a specifier that is itself a version: keep it verbatim
/// (minus a `v` prefix), but refuse one outside the known release list.
pub open spec fn spec_concrete_outcome(
    s: Seq<char>,
    ver: Version,
    ctx: &ResolverContext,
) -> Resolution {
    if ctx.versions@.len() > 0 && !ctx.versions@.contains(ver) {
        Resolution::Failed(s)
    } else {
        Resolution::Resolved(spec_strip_v(s))
    }
}

/// Resolution of a partial specifier: the highest known release it
/// matches.
pub open spec fn spec_partial_outcome(
    s: Seq<char>,
    maj: u64,
    min: Option<u64>,
    ctx: &ResolverContext,
) -> Resolution {
    match spec_best(ctx.versions@, maj, min) {
        Option::Some(b) => Resolution::Resolved(version_chars(b)),
        Option::None => Resolution::Failed(s),
    }
}

/// Resolution of `latest` or `stable` when the capability declines: the
/// release list's declared latest.
pub open spec fn spec_latest_outcome(s: Seq<char>, ctx: &ResolverContext) -> Resolution {
    match ctx.latest {
        Option::Some(l) => Resolution::Resolved(version_chars(l)),
        Option::None => Resolution::UnknownAlias(s),
    }
}

/// Steps 1 and 2 of resolution: an exact version, or a partial version
/// expanded against the release list; everything else is (so far) an
/// unknown alias.
pub open spec fn spec_resolve_exact(s: Seq<char>, ctx: &ResolverContext) -> Resolution {
    let t = spec_strip_v(s);
    match spec_parse_version(t) {
        Option::Some(ver) => spec_concrete_outcome(s, ver, ctx),
        Option::None => match spec_parse_partial(t) {
            Option::Some((maj, min)) => spec_partial_outcome(s, maj, min, ctx),
            Option::None => Resolution::UnknownAlias(s),
        },
    }
}

/// Exact and partial versions, plus the built-in handling of `latest`
/// and `stable`.
pub open spec fn spec_resolve_leaf(s: Seq<char>, ctx: &ResolverContext) -> Resolution {
    match spec_resolve_exact(s, ctx) {
        Resolution::UnknownAlias(_) => if s == "latest"@ || s == "stable"@ {
            spec_latest_outcome(s, ctx)
        } else {
            Resolution::UnknownAlias(s)
        },
        out => out,
    }
}

/// One re-resolution step for an alias value or a capability candidate:
/// no further delegation, but alias tables still apply.
pub open spec fn spec_resolve_base(s: Seq<char>, ctx: &ResolverContext) -> Resolution {
    match spec_resolve_leaf(s, ctx) {
        Resolution::UnknownAlias(_) => match spec_alias_chain(s, ctx) {
            Option::Some(val) => spec_resolve_leaf(val, ctx),
            Option::None => Resolution::UnknownAlias(s),
        },
        out => out,
    }
}

/// The whole resolution state machine over a specifier:
/// 1. an exact version resolves to itself, minus any `v` prefix;
/// 2. a partial version expands to the highest matching release;
/// 3. a reserved specifier is delegated to the resolve-version
///    capability, whose candidate is re-resolved once; `latest` and
///    `stable` fall back to the release list's declared latest;
/// 4. anything else is looked up as an alias — manifest first, then the
///    plugin table — and then offered to the capability;
/// 5. what remains is an unknown alias, named verbatim.
pub open spec fn spec_resolve(
    s: Seq<char>,
    ctx: &ResolverContext,
    cap: Seq<(String, String)>,
) -> Resolution {
    match spec_resolve_exact(s, ctx) {
        Resolution::UnknownAlias(_) => if spec_is_reserved(s) {
            match spec_table_lookup(cap, s) {
                Option::Some(cand) => spec_resolve_base(cand, ctx),
                Option::None => if s == "latest"@ || s == "stable"@ {
                    spec_latest_outcome(s, ctx)
                } else {
                    Resolution::UnknownAlias(s)
                },
            }
        } else {
            match spec_alias_chain(s, ctx) {
                Option::Some(val) => spec_resolve_leaf(val, ctx),
                Option::None => match spec_table_lookup(cap, s) {
                    Option::Some(cand) => spec_resolve_base(cand, ctx),
                    Option::None => Resolution::UnknownAlias(s),
                },
            }
        },
        out => out,
    }
}

/// A specifier already carrying a concrete, known version resolves to
/// itself, minus any leading `v`: resolution is the identity on
/// well-formed concrete versions the release list knows (or when no
/// release list is available at all).
pub proof fn lemma_resolve_concrete_identity(
    s: Seq<char>,
    ctx: &ResolverContext,
    cap: Seq<(String, String)>,
)
    requires
        spec_parse_version(spec_strip_v(s)) is Some,
        ctx.versions@.len() == 0 || ctx.versions@.contains(
            spec_parse_version(spec_strip_v(s))->Some_0,
        ),
    ensures
        spec_resolve(s, ctx, cap) == Resolution::Resolved(spec_strip_v(s)),
{
}

/// A specifier that parses as a version but lies outside a non-empty
/// release list fails with a resolve-failed error naming the specifier
/// verbatim.
pub proof fn lemma_resolve_out_of_range(
    s: Seq<char>,
    ctx: &ResolverContext,
    cap: Seq<(String, String)>,
)
    requires
        spec_parse_version(spec_strip_v(s)) is Some,
        ctx.versions@.len() > 0,
        !ctx.versions@.contains(spec_parse_version(spec_strip_v(s))->Some_0),
    ensures
        spec_resolve(s, ctx, cap) == Resolution::Failed(s),
{
}

/// A specifier that is no version, no reserved word, no alias in either
/// table, and has no capability answer, fails with an unknown-alias
/// error naming the specifier verbatim.
pub proof fn lemma_resolve_unknown_alias(
    s: Seq<char>,
    ctx: &ResolverContext,
    cap: Seq<(String, String)>,
)
    requires
        spec_parse_version(spec_strip_v(s)) is None,
        spec_parse_partial(spec_strip_v(s)) is None,
        !spec_is_reserved(s),
        spec_alias_chain(s, ctx) is None,
        spec_table_lookup(cap, s) is None,
    ensures
        spec_resolve(s, ctx, cap) == Resolution::UnknownAlias(s),
{
}

/// A partial specifier expands to the highest release that matches it:
/// the result is a member of the release list, it matches the partial
/// requirement, and every other matching member is at or below it.
pub proof fn lemma_resolve_partial_expansion(
    s: Seq<char>,
    maj: u64,
    min: Option<u64>,
    b: Version,
    ctx: &ResolverContext,
    cap: Seq<(String, String)>,
)
    requires
        spec_parse_version(spec_strip_v(s)) is None,
        spec_parse_partial(spec_strip_v(s)) == Some((maj, min)),
        spec_best(ctx.versions@, maj, min) == Some(b),
    ensures
        spec_resolve(s, ctx, cap) == Resolution::Resolved(version_chars(b)),
        ctx.versions@.contains(b),
        req_matches(b, maj, min),
        forall|i: int|
            0 <= i < ctx.versions@.len() && req_matches(#[trigger] ctx.versions@[i], maj, min)
                ==> spec_version_le(ctx.versions@[i], b),
{
    lemma_spec_best_props(ctx.versions@, maj, min);
}

/// A reserved specifier whose capability answer is a concrete version
/// present in the release list resolves to that version.
pub proof fn lemma_resolve_delegated(
    s: Seq<char>,
    cand: Seq<char>,
    ctx: &ResolverContext,
    cap: Seq<(String, String)>,
)
    requires
        spec_parse_version(spec_strip_v(s)) is None,
        spec_parse_partial(spec_strip_v(s)) is None,
        spec_is_reserved(s),
        spec_table_lookup(cap, s) == Some(cand),
        spec_parse_version(spec_strip_v(cand)) is Some,
        ctx.versions@.len() == 0 || ctx.versions@.contains(
            spec_parse_version(spec_strip_v(cand))->Some_0,
        ),
    ensures
        spec_resolve(s, ctx, cap) == Resolution::Resolved(spec_strip_v(cand)),
{
}

/// A `Resolved` outcome of steps 1 and 2 is a concrete version the
/// release list knows, and resolving it again gives it back unchanged.
proof fn lemma_exact_resolved_form(s: Seq<char>, c: Seq<char>, ctx: &ResolverContext)
    requires
        wf_context(ctx),
        spec_resolve_exact(s, ctx) == Resolution::Resolved(c),
    ensures
        spec_resolve_exact(c, ctx) == Resolution::Resolved(c),
{
    let t = spec_strip_v(s);
    match spec_parse_version(t) {
        Option::Some(ver) => {
            lemma_parse_version_first_digit(t);
            assert(spec_strip_v(c) == c);
        },
        Option::None => {
            match spec_parse_partial(t) {
                Option::Some((maj, min)) => {
                    match spec_best(ctx.versions@, maj, min) {
                        Option::Some(b) => {
                            lemma_spec_best_props(ctx.versions@, maj, min);
                            lemma_version_roundtrip(b);
                            lemma_parse_version_first_digit(version_chars(b));
                            assert(spec_strip_v(c) == c);
                        },
                        Option::None => {
                            assert(false);
                        },
                    }
                },
                Option::None => {
                    assert(false);
                },
            }
        },
    }
}

/// As above, for steps 1 and 2 plus the built-in `latest` and `stable`
/// handling.
proof fn lemma_leaf_resolved_form(s: Seq<char>, c: Seq<char>, ctx: &ResolverContext)
    requires
        wf_context(ctx),
        spec_resolve_leaf(s, ctx) == Resolution::Resolved(c),
    ensures
        spec_resolve_exact(c, ctx) == Resolution::Resolved(c),
{
    match spec_resolve_exact(s, ctx) {
        Resolution::UnknownAlias(_) => {
            match ctx.latest {
                Option::Some(l) => {
                    lemma_version_roundtrip(l);
                    lemma_parse_version_first_digit(version_chars(l));
                    assert(spec_strip_v(c) == c);
                },
                Option::None => {
                    assert(false);
                },
            }
        },
        _ => {
            lemma_exact_resolved_form(s, c, ctx);
        },
    }
}

/// As above, for one full re-resolution step.
proof fn lemma_base_resolved_form(s: Seq<char>, c: Seq<char>, ctx: &ResolverContext)
    requires
        wf_context(ctx),
        spec_resolve_base(s, ctx) == Resolution::Resolved(c),
    ensures
        spec_resolve_exact(c, ctx) == Resolution::Resolved(c),
{
    match spec_resolve_leaf(s, ctx) {
        Resolution::UnknownAlias(_) => {
            match spec_alias_chain(s, ctx) {
                Option::Some(val) => {
                    lemma_leaf_resolved_form(val, c, ctx);
                },
                Option::None => {
                    assert(false);
                },
            }
        },
        _ => {
            lemma_leaf_resolved_form(s, c, ctx);
        },
    }
}

/// Resolution is idempotent: whatever concrete version it produces, that
/// version resolves to itself. Together with the identity law this gives
/// `resolve(resolve(v)) == resolve(v)` for every successful resolution
/// against a well-formed context.
pub proof fn lemma_resolve_idempotent(
    s: Seq<char>,
    c: Seq<char>,
    ctx: &ResolverContext,
    cap: Seq<(String, String)>,
)
    requires
        wf_context(ctx),
        spec_resolve(s, ctx, cap) == Resolution::Resolved(c),
    ensures
        spec_resolve(c, ctx, cap) == Resolution::Resolved(c),
{
    match spec_resolve_exact(s, ctx) {
        Resolution::UnknownAlias(_) => {
            if spec_is_reserved(s) {
                match spec_table_lookup(cap, s) {
                    Option::Some(cand) => {
                        lemma_base_resolved_form(cand, c, ctx);
                    },
                    Option::None => {
                        match ctx.latest {
                            Option::Some(l) => {
                                lemma_version_roundtrip(l);
                                lemma_parse_version_first_digit(version_chars(l));
                                assert(spec_strip_v(c) == c);
                            },
                            Option::None => {
                                assert(false);
                            },
                        }
                    },
                }
            } else {
                match spec_alias_chain(s, ctx) {
                    Option::Some(val) => {
                        lemma_leaf_resolved_form(val, c, ctx);
                    },
                    Option::None => {
                        match spec_table_lookup(cap, s) {
                            Option::Some(cand) => {
                                lemma_base_resolved_form(cand, c, ctx);
                            },
                            Option::None => {
                                assert(false);
                            },
                        }
                    },
                }
            }
        },
        _ => {
            lemma_exact_resolved_form(s, c, ctx);
        },
    }
}

fn resolve_exact(s: &String, ctx: &ResolverContext) -> (r: Result<String, ProtoError>)
    ensures
        matches_resolution(r, spec_resolve_exact(s@, ctx)),
{
    let t = strip_v(s);
    let tv = to_chars(t.as_str());
    match parse_version(&tv) {
        Option::Some(ver) => {
            if ctx.versions.len() > 0 && !contains_version(&ctx.versions, &ver) {
                Err(ProtoError::VersionResolveFailed(s.clone()))
            } else {
                Ok(t)
            }
        },
        Option::None => {
            match parse_partial(&tv) {
                Option::Some((maj, min)) => {
                    match best_match(&ctx.versions, maj, min) {
                        Option::Some(b) => Ok(version_to_string(&b)),
                        Option::None => Err(ProtoError::VersionResolveFailed(s.clone())),
                    }
                },
                Option::None => Err(ProtoError::VersionUnknownAlias(s.clone())),
            }
        },
    }
}

fn is_latest_or_stable(sv: &Vec<char>) -> (r: bool)
    ensures
        r == (sv@ == "latest"@ || sv@ == "stable"@),
{
    chars_eq_str(sv, "latest") || chars_eq_str(sv, "stable")
}

fn resolve_latest(s: &String, ctx: &ResolverContext) -> (r: Result<String, ProtoError>)
    ensures
        matches_resolution(r, spec_latest_outcome(s@, ctx)),
{
    match &ctx.latest {
        Option::Some(l) => Ok(version_to_string(l)),
        Option::None => Err(ProtoError::VersionUnknownAlias(s.clone())),
    }
}

fn resolve_leaf(s: &String, ctx: &ResolverContext) -> (r: Result<String, ProtoError>)
    ensures
        matches_resolution(r, spec_resolve_leaf(s@, ctx)),
{
    let first = resolve_exact(s, ctx);
    match first {
        Err(ProtoError::VersionUnknownAlias(_)) => {
            let sv = to_chars(s.as_str());
            if is_latest_or_stable(&sv) {
                resolve_latest(s, ctx)
            } else {
                Err(ProtoError::VersionUnknownAlias(s.clone()))
            }
        },
        other => other,
    }
}

fn resolve_base(s: &String, ctx: &ResolverContext) -> (r: Result<String, ProtoError>)
    ensures
        matches_resolution(r, spec_resolve_base(s@, ctx)),
{
    let first = resolve_leaf(s, ctx);
    match first {
        Err(ProtoError::VersionUnknownAlias(_)) => {
            let sv = to_chars(s.as_str());
            match alias_chain(&sv, ctx) {
                Option::Some(val) => resolve_leaf(&val, ctx),
                Option::None => Err(ProtoError::VersionUnknownAlias(s.clone())),
            }
        },
        other => other,
    }
}

/// Resolve a user-supplied version specifier to a concrete version.
///
/// `capability` stands for the tool's resolve-version capability: the
/// candidate it answers for a specifier, as a table of answers.
pub fn resolve_version(
    spec: &String,
    ctx: &ResolverContext,
    capability: &Vec<(String, String)>,
) -> (r: Result<String, ProtoError>)
    ensures
        matches_resolution(r, spec_resolve(spec@, ctx, capability@)),
{
    let first = resolve_exact(spec, ctx);
    match first {
        Err(ProtoError::VersionUnknownAlias(_)) => {
            let sv = to_chars(spec.as_str());
            if is_reserved(&sv) {
                match table_lookup(capability, &sv) {
                    Option::Some(cand) => resolve_base(&cand, ctx),
                    Option::None => {
                        if is_latest_or_stable(&sv) {
                            resolve_latest(spec, ctx)
                        } else {
                            Err(ProtoError::VersionUnknownAlias(spec.clone()))
                        }
                    },
                }
            } else {
                match alias_chain(&sv, ctx) {
                    Option::Some(val) => resolve_leaf(&val, ctx),
                    Option::None => match table_lookup(capability, &sv) {
                        Option::Some(cand) => resolve_base(&cand, ctx),
                        Option::None => Err(ProtoError::VersionUnknownAlias(spec.clone())),
                    },
                }
            }
        },
        other => other,
    }
}

} // verus!
