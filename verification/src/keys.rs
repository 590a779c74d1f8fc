//! Store keys probed by the resolver.
//!
//! Every option named `o` has one global key, `delta.o`, and one key per
//! preset `p`, `delta.p.o`. Values under the preset key take precedence
//! over the global key when `p` is active.

use vstd::prelude::*;
use vstd::string::*;
use crate::presets::{registry_lookup, BuiltinPreset};
use crate::resolve::ResolutionContext;

verus! {

/// The global store key of an option: `delta.<option>`.
pub open spec fn global_key(option: Seq<char>) -> Seq<char> {
    "delta."@ + option
}

/// The per-preset store key of an option: `delta.<preset>.<option>`.
pub open spec fn preset_key(preset: Seq<char>, option: Seq<char>) -> Seq<char> {
    "delta."@ + preset + "."@ + option
}

/// Builds the global store key of an option.
pub fn make_global_key(option: &str) -> (r: String)
    ensures
        r@ == global_key(option@),
{
    String::from_str("delta.").concat(option)
}

/// Builds the per-preset store key of an option.
pub fn make_preset_key(preset: &str, option: &str) -> (r: String)
    ensures
        r@ == preset_key(preset@, option@),
{
    String::from_str("delta.").concat(preset).concat(".").concat(option)
}

/// The keys one active preset contributes for an option: the preset's
/// own key, then the symbolic-redirect key of the matching builtin
/// entry, when one is declared.
pub open spec fn preset_expansion(
    option: Seq<char>,
    preset: Seq<char>,
    presets: Seq<BuiltinPreset>,
) -> Seq<Seq<char>> {
    seq![preset_key(preset, option)] + match registry_lookup(presets, preset, option) {
        Some(vf) => match vf.redirect {
            Some(k) => seq![k],
            None => Seq::empty(),
        },
        None => Seq::empty(),
    }
}

/// The ordered list of store keys to probe for an option: the keys of
/// each active preset, last-listed preset first, and the global key
/// last. With no active presets only the global key is probed.
pub open spec fn expand_keys(
    option: Seq<char>,
    active: Seq<Seq<char>>,
    presets: Seq<BuiltinPreset>,
) -> Seq<Seq<char>>
    decreases active.len(),
{
    if active.len() == 0 {
        seq![global_key(option)]
    } else {
        preset_expansion(option, active.last(), presets) + expand_keys(
            option,
            active.drop_last(),
            presets,
        )
    }
}

/// Builds the probe order of store keys for an option, as
/// [`expand_keys`] says. Used by the simple per-type lookups, which
/// probe the store directly instead of taking the value-function
/// detour.
pub fn make_git_config_keys(key: &str, ctx: &ResolutionContext) -> (r: Vec<String>)
    ensures
        r.deep_view() == expand_keys(key@, ctx.active(), ctx.registry.presets@),
{
    let ghost active = ctx.active();
    let ghost presets = ctx.registry.presets@;
    let n = ctx.active_presets.len();
    let mut keys: Vec<String> = Vec::new();
    let mut i: usize = n;
    assert(active.take(n as int) =~= active);
    assert(keys.deep_view() + expand_keys(key@, active.take(n as int), presets) =~= expand_keys(
        key@,
        active,
        presets,
    ));
    while i > 0
        invariant
            n == ctx.active_presets@.len(),
            i <= n,
            active == ctx.active(),
            presets == ctx.registry.presets@,
            expand_keys(key@, active, presets) == keys.deep_view() + expand_keys(
                key@,
                active.take(i as int),
                presets,
            ),
        decreases i,
    {
        let ghost taken = active.take(i as int);
        proof {
            assert(taken.last() == active[i - 1]);
            assert(taken.drop_last() =~= active.take(i - 1));
        }
        let p = &ctx.active_presets[i - 1];
        let ghost before = keys.deep_view();
        keys.push(make_preset_key(p.as_str(), key));
        assert(keys.deep_view() =~= before.push(preset_key(active[i - 1], key@)));
        let ghost mid = keys.deep_view();
        match ctx.registry.lookup(p.as_str(), key) {
            Some(vf) => {
                match vf.redirect {
                    Some(redirect) => {
                        let ghost rk = redirect@;
                        keys.push(redirect);
                        assert(keys.deep_view() =~= mid.push(rk));
                    },
                    None => {},
                }
            },
            None => {},
        }
        assert(keys.deep_view() =~= before + preset_expansion(key@, active[i - 1], presets));
        assert(keys.deep_view() + expand_keys(key@, active.take(i - 1), presets) =~= expand_keys(
            key@,
            active,
            presets,
        ));
        i = i - 1;
    }
    assert(active.take(0) =~= Seq::<Seq<char>>::empty());
    let ghost before = keys.deep_view();
    keys.push(make_global_key(key));
    assert(keys.deep_view() =~= before.push(global_key(key@)));
    assert(keys.deep_view() =~= expand_keys(key@, active, presets));
    keys
}

} // verus!
