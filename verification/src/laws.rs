//! The tie-break laws of the resolver, stated and proved once.
//!
//! Each law here holds for every option name, every preset name, every
//! option struct and every store contents that its hypotheses admit.
//! The explicit-wins law needs no lemma: every setter's contract says
//! directly that a supplied option leaves the struct unchanged.

use vstd::prelude::*;
use crate::keys::{global_key, preset_key};
use crate::options::OptView;
use crate::presets::{registry_lookup, BuiltinPreset};
use crate::resolve::{resolve_presets, resolve_string, resolve_with_preset};
use crate::store::StoreView;

verus! {

/// Global-default fallback: with no presets active, an option resolves
/// to the global store key `delta.<option>`, and to nothing — so the
/// compiled-in default stands — when that key is absent.
pub proof fn lemma_global_default_fallback(
    option: Seq<char>,
    presets: Seq<BuiltinPreset>,
    opt: OptView,
    store: StoreView,
)
    ensures
        resolve_string(option, Seq::empty(), presets, opt, store) == (if store.strings.contains_key(
            global_key(option),
        ) {
            Some(store.strings[global_key(option)])
        } else {
            None::<Seq<char>>
        }),
{
}

/// Last-listed preset wins: when two active presets both define an
/// option in the store, the one listed later supplies the value, in
/// either order.
pub proof fn lemma_last_listed_preset_wins(
    option: Seq<char>,
    a: Seq<char>,
    b: Seq<char>,
    presets: Seq<BuiltinPreset>,
    opt: OptView,
    store: StoreView,
)
    requires
        store.strings.contains_key(preset_key(a, option)),
        store.strings.contains_key(preset_key(b, option)),
    ensures
        resolve_string(option, seq![a, b], presets, opt, store) == Some(
            store.strings[preset_key(b, option)],
        ),
        resolve_string(option, seq![b, a], presets, opt, store) == Some(
            store.strings[preset_key(a, option)],
        ),
{
    assert(seq![a, b].last() == b);
    assert(seq![b, a].last() == a);
}

/// No merge across presets: the winning preset is chosen per option,
/// not once for the whole struct. When the later-listed preset defines
/// one option and says nothing about another, it wins the first while
/// the earlier preset wins the second.
pub proof fn lemma_no_merge_across_presets(
    option1: Seq<char>,
    option2: Seq<char>,
    a: Seq<char>,
    b: Seq<char>,
    presets: Seq<BuiltinPreset>,
    opt: OptView,
    store: StoreView,
)
    requires
        store.strings.contains_key(preset_key(a, option1)),
        store.strings.contains_key(preset_key(a, option2)),
        store.strings.contains_key(preset_key(b, option1)),
        !store.strings.contains_key(preset_key(b, option2)),
        registry_lookup(presets, b, option2) is None,
    ensures
        resolve_string(option1, seq![a, b], presets, opt, store) == Some(
            store.strings[preset_key(b, option1)],
        ),
        resolve_string(option2, seq![a, b], presets, opt, store) == Some(
            store.strings[preset_key(a, option2)],
        ),
{
    let active = seq![a, b];
    assert(active.last() == b);
    assert(active.drop_last() =~= seq![a]);
    assert(resolve_with_preset(option2, b, presets, opt, store) is None);
    assert(seq![a].last() == a);
    assert(seq![a].drop_last() =~= Seq::<Seq<char>>::empty());
    assert(resolve_presets(option2, seq![a], presets, opt, store) == Some(
        store.strings[preset_key(a, option2)],
    ));
}

/// The preset layer skips a name that yields nothing for an option,
/// wherever it stands before the rest of the list.
proof fn lemma_unknown_prefix_presets(
    option: Seq<char>,
    x: Seq<char>,
    active: Seq<Seq<char>>,
    presets: Seq<BuiltinPreset>,
    opt: OptView,
    store: StoreView,
)
    requires
        !store.strings.contains_key(preset_key(x, option)),
        registry_lookup(presets, x, option) is None,
    ensures
        resolve_presets(option, seq![x] + active, presets, opt, store) == resolve_presets(
            option,
            active,
            presets,
            opt,
            store,
        ),
    decreases active.len(),
{
    let ext = seq![x] + active;
    if active.len() == 0 {
        assert(ext.len() == 1);
        assert(ext.last() == x);
        assert(resolve_with_preset(option, x, presets, opt, store) is None);
        assert(ext.drop_last() =~= active);
    } else {
        assert(ext.last() == active.last());
        assert(ext.drop_last() =~= seq![x] + active.drop_last());
        lemma_unknown_prefix_presets(option, x, active.drop_last(), presets, opt, store);
    }
}

/// Unknown-preset transparency: a first-listed name the store knows no
/// key for and the builtin registry does not carry resolves every
/// option exactly as the rest of the list alone would.
pub proof fn lemma_unknown_preset_transparent(
    option: Seq<char>,
    x: Seq<char>,
    active: Seq<Seq<char>>,
    presets: Seq<BuiltinPreset>,
    opt: OptView,
    store: StoreView,
)
    requires
        !store.strings.contains_key(preset_key(x, option)),
        registry_lookup(presets, x, option) is None,
    ensures
        resolve_string(option, seq![x] + active, presets, opt, store) == resolve_string(
            option,
            active,
            presets,
            opt,
            store,
        ),
{
    lemma_unknown_prefix_presets(option, x, active, presets, opt, store);
}

} // verus!
