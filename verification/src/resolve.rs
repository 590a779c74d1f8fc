//! The option resolver: layered precedence, per option.
//!
//! For an option the command line did not supply, the layers are probed
//! in this order, and the first value found wins:
//!
//! 1. the active presets, in reverse listed order — for each preset
//!    name, first the store key `delta.<preset>.<option>`, then, if the
//!    name is a builtin preset defining the option, that entry's value;
//!    a name that matches neither contributes nothing;
//! 2. the global store key `delta.<option>`;
//! 3. the compiled-in default already held by the option struct.
//!
//! Presets are never merged: each option takes its value from exactly
//! one winning layer, chosen independently per option.

use vstd::prelude::*;
use vstd::string::*;
use crate::keys::{make_preset_key, make_global_key, preset_key, global_key};
use crate::options::{OptView, OptionStruct};
use crate::presets::{
    registry_lookup,
    eval_value_function,
    BuiltinPreset,
    BuiltinRegistry,
    Fallback,
    ValueFunction,
};
use crate::store::{opt_store_view, GitConfig, StoreView};
use crate::text::{active_presets_of, parse_active_presets};

verus! {

/// Everything one resolution pass reads: the store snapshot, the active
/// preset names (case-folded, in listed order) and the builtin preset
/// registry. Built once per run and passed by reference into each
/// resolver call.
pub struct ResolutionContext {
    pub git_config: Option<GitConfig>,
    pub active_presets: Vec<String>,
    pub registry: BuiltinRegistry,
}

impl ResolutionContext {
    /// The active preset names, in listed order.
    pub open spec fn active(&self) -> Seq<Seq<char>> {
        self.active_presets.deep_view()
    }

    /// The contents of the store snapshot.
    pub open spec fn store(&self) -> StoreView {
        opt_store_view(self.git_config)
    }

    /// Builds the context for one run: normalises the raw preset-list
    /// argument and takes the registry and the store snapshot as given.
    pub fn new(
        git_config: Option<GitConfig>,
        presets_arg: &Option<String>,
        registry: BuiltinRegistry,
    ) -> (r: ResolutionContext)
        ensures
            r.git_config == git_config,
            r.registry == registry,
            r.active() == active_presets_of(presets_arg.deep_view()),
    {
        let active_presets = match presets_arg {
            Some(raw) => parse_active_presets(raw.as_str()),
            None => Vec::new(),
        };
        assert(active_presets.deep_view() =~= active_presets_of(presets_arg.deep_view()));
        ResolutionContext { git_config, active_presets, registry }
    }
}

/// What one active preset name yields for an option: the store value
/// under `delta.<preset>.<option>` when present — a user preset beats
/// the builtin table of the same name — else the value of the builtin
/// entry for (preset, option), if there is one and it yields anything.
pub open spec fn resolve_with_preset(
    option: Seq<char>,
    preset: Seq<char>,
    presets: Seq<BuiltinPreset>,
    opt: OptView,
    store: StoreView,
) -> Option<Seq<char>> {
    if store.strings.contains_key(preset_key(preset, option)) {
        Some(store.strings[preset_key(preset, option)])
    } else {
        match registry_lookup(presets, preset, option) {
            Some(vf) => eval_value_function(vf, opt, store),
            None => None,
        }
    }
}

/// What the active preset list yields for an option: the value of the
/// last-listed preset that yields one. Listed later wins; a name that
/// yields nothing is skipped, whatever earlier names would yield.
pub open spec fn resolve_presets(
    option: Seq<char>,
    active: Seq<Seq<char>>,
    presets: Seq<BuiltinPreset>,
    opt: OptView,
    store: StoreView,
) -> Option<Seq<char>>
    decreases active.len(),
{
    if active.len() == 0 {
        None
    } else {
        match resolve_with_preset(option, active.last(), presets, opt, store) {
            Some(v) => Some(v),
            None => resolve_presets(option, active.drop_last(), presets, opt, store),
        }
    }
}

/// The resolved string value of an option the command line did not
/// supply: the preset layer first, then the global store key. `None`
/// means every layer missed and the compiled-in default stands.
pub open spec fn resolve_string(
    option: Seq<char>,
    active: Seq<Seq<char>>,
    presets: Seq<BuiltinPreset>,
    opt: OptView,
    store: StoreView,
) -> Option<Seq<char>> {
    match resolve_presets(option, active, presets, opt, store) {
        Some(v) => Some(v),
        None => if store.strings.contains_key(global_key(option)) {
            Some(store.strings[global_key(option)])
        } else {
            None
        },
    }
}

/// Evaluates one builtin preset entry: probes its redirect key, then
/// computes its fallback from the option fields resolved so far.
fn eval_entry(
    vf: &ValueFunction,
    opt: &OptionStruct,
    git_config: &Option<GitConfig>,
) -> (r: Option<String>)
    ensures
        r.deep_view() == eval_value_function(vf@, opt@, opt_store_view(*git_config)),
{
    if let Some(key) = &vf.redirect {
        if let Some(c) = git_config {
            if let Some(v) = c.get_string(key.as_str()) {
                return Some(v);
            }
        }
    }
    match &vf.fallback {
        Some(Fallback::Literal(s)) => Some(s.clone()),
        Some(Fallback::FromField(fid)) => Some(opt.read_string_field(*fid)),
        Some(Fallback::FromFieldSuffixed(fid, suffix)) => Some(
            opt.read_string_field(*fid).concat(suffix.as_str()),
        ),
        None => None,
    }
}

/// What one active preset name yields for an option, as
/// [`resolve_with_preset`] says: the user preset section of the store
/// first, then the builtin entry of the same name.
pub fn get_option_value_for_preset__string(
    option_name: &str,
    preset: &str,
    ctx: &ResolutionContext,
    opt: &OptionStruct,
) -> (r: Option<String>)
    ensures
        r.deep_view() == resolve_with_preset(
            option_name@,
            preset@,
            ctx.registry.presets@,
            opt@,
            ctx.store(),
        ),
{
    let key = make_preset_key(preset, option_name);
    if let Some(c) = &ctx.git_config {
        if let Some(v) = c.get_string(key.as_str()) {
            return Some(v);
        }
    }
    match ctx.registry.lookup(preset, option_name) {
        Some(vf) => eval_entry(&vf, opt, &ctx.git_config),
        None => None,
    }
}

/// The resolved string value of an option the command line did not
/// supply, as [`resolve_string`] says: active presets in reverse listed
/// order, then the global store key. `None` means the caller keeps the
/// compiled-in default.
pub fn get_option_value__string(
    option_name: &str,
    ctx: &ResolutionContext,
    opt: &OptionStruct,
) -> (r: Option<String>)
    ensures
        r.deep_view() == resolve_string(
            option_name@,
            ctx.active(),
            ctx.registry.presets@,
            opt@,
            ctx.store(),
        ),
{
    let n = ctx.active_presets.len();
    let mut i: usize = n;
    assert(ctx.active().take(n as int) =~= ctx.active());
    while i > 0
        invariant
            n == ctx.active_presets@.len(),
            i <= n,
            resolve_presets(option_name@, ctx.active(), ctx.registry.presets@, opt@, ctx.store())
                == resolve_presets(
                option_name@,
                ctx.active().take(i as int),
                ctx.registry.presets@,
                opt@,
                ctx.store(),
            ),
        decreases i,
    {
        let p = &ctx.active_presets[i - 1];
        let r = get_option_value_for_preset__string(option_name, p.as_str(), ctx, opt);
        proof {
            let taken = ctx.active().take(i as int);
            assert(taken.last() == ctx.active()[i - 1]);
            assert(taken.drop_last() =~= ctx.active().take(i - 1));
        }
        if let Some(v) = r {
            return Some(v);
        }
        i = i - 1;
    }
    assert(ctx.active().take(0) =~= Seq::<Seq<char>>::empty());
    let key = make_global_key(option_name);
    if let Some(c) = &ctx.git_config {
        if let Some(v) = c.get_string(key.as_str()) {
            return Some(v);
        }
    }
    None
}

} // verus!
