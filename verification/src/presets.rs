//! Builtin presets: per-option value functions and symbolic redirects.
//!
//! A builtin preset is a shipped, named table with one entry per option
//! it defines. An entry may name a *symbolic redirect*: another global
//! store key that is probed first (for instance `color.diff.old`). When
//! the redirect misses, or no redirect is declared, the entry's computed
//! fallback supplies the value; a fallback may read option fields that
//! were resolved earlier in declaration order. An entry with a redirect
//! and no fallback yields nothing when the redirect misses, and
//! resolution moves on to the next active preset.

use vstd::prelude::*;
use vstd::string::*;
use crate::options::{FieldId, OptView};
use crate::store::StoreView;
use crate::text::str_eq;

verus! {

/// A computed fallback value of one builtin preset entry.
pub enum Fallback {
    /// A fixed string.
    Literal(String),
    /// The current value of an option field resolved earlier.
    FromField(FieldId),
    /// The current value of an option field, with a suffix appended.
    FromFieldSuffixed(FieldId, String),
}

/// The mathematical value of a [`Fallback`].
pub enum FallbackView {
    Literal(Seq<char>),
    FromField(FieldId),
    FromFieldSuffixed(FieldId, Seq<char>),
}

impl View for Fallback {
    type V = FallbackView;

    open spec fn view(&self) -> FallbackView {
        match self {
            Fallback::Literal(s) => FallbackView::Literal(s@),
            Fallback::FromField(fid) => FallbackView::FromField(*fid),
            Fallback::FromFieldSuffixed(fid, suffix) => FallbackView::FromFieldSuffixed(
                *fid,
                suffix@,
            ),
        }
    }
}

/// One builtin preset entry: what a preset says about one option.
pub struct ValueFunction {
    /// A global store key probed before the fallback is computed.
    pub redirect: Option<String>,
    /// The computed value used when the redirect is absent or misses.
    pub fallback: Option<Fallback>,
}

/// The mathematical value of a [`ValueFunction`].
pub struct VfView {
    pub redirect: Option<Seq<char>>,
    pub fallback: Option<FallbackView>,
}

impl View for ValueFunction {
    type V = VfView;

    open spec fn view(&self) -> VfView {
        VfView { redirect: self.redirect.deep_view(), fallback: match self.fallback {
            Some(f) => Some(f@),
            None => None,
        } }
    }
}

/// One option's entry in a builtin preset's table.
pub struct PresetEntry {
    pub option_name: String,
    pub value: ValueFunction,
}

/// A named builtin preset.
pub struct BuiltinPreset {
    pub name: String,
    pub entries: Vec<PresetEntry>,
}

/// The registry of builtin presets shipped with the program. It is
/// built once per run and read only.
pub struct BuiltinRegistry {
    pub presets: Vec<BuiltinPreset>,
}

/// The value of a computed fallback against the given option fields.
pub open spec fn eval_fallback(f: FallbackView, opt: OptView) -> Seq<char> {
    match f {
        FallbackView::Literal(s) => s,
        FallbackView::FromField(fid) => opt.string_field(fid),
        FallbackView::FromFieldSuffixed(fid, suffix) => opt.string_field(fid) + suffix,
    }
}

/// The value a builtin preset entry yields: the store value under the
/// redirect key when one is declared and present, else the computed
/// fallback, else nothing.
pub open spec fn eval_value_function(vf: VfView, opt: OptView, store: StoreView) -> Option<
    Seq<char>,
> {
    let redirected = match vf.redirect {
        Some(k) => if store.strings.contains_key(k) {
            Some(store.strings[k])
        } else {
            None
        },
        None => None,
    };
    match redirected {
        Some(v) => Some(v),
        None => match vf.fallback {
            Some(f) => Some(eval_fallback(f, opt)),
            None => None,
        },
    }
}

/// The entry for an option in one preset's table: the first entry
/// carrying the option's name.
pub open spec fn entry_lookup(entries: Seq<PresetEntry>, option: Seq<char>) -> Option<VfView>
    decreases entries.len(),
{
    if entries.len() == 0 {
        None
    } else if entries[0].option_name@ == option {
        Some(entries[0].value@)
    } else {
        entry_lookup(entries.drop_first(), option)
    }
}

/// What the registry says about one (preset, option) pair: the option's
/// entry in the first preset carrying that name, if any.
pub open spec fn registry_lookup(
    presets: Seq<BuiltinPreset>,
    preset: Seq<char>,
    option: Seq<char>,
) -> Option<VfView>
    decreases presets.len(),
{
    if presets.len() == 0 {
        None
    } else if presets[0].name@ == preset {
        entry_lookup(presets[0].entries@, option)
    } else {
        registry_lookup(presets.drop_first(), preset, option)
    }
}

impl ValueFunction {
    /// Copies one entry out of the registry.
    fn clone_vf(&self) -> (r: ValueFunction)
        ensures
            r@ == self@,
    {
        let redirect = match &self.redirect {
            Some(k) => Some(k.clone()),
            None => None,
        };
        let fallback = match &self.fallback {
            Some(Fallback::Literal(s)) => Some(Fallback::Literal(s.clone())),
            Some(Fallback::FromField(fid)) => Some(Fallback::FromField(*fid)),
            Some(Fallback::FromFieldSuffixed(fid, suffix)) => Some(
                Fallback::FromFieldSuffixed(*fid, suffix.clone()),
            ),
            None => None,
        };
        ValueFunction { redirect, fallback }
    }
}

impl BuiltinRegistry {
    /// Looks one (preset, option) pair up, as [`registry_lookup`] says.
    pub fn lookup(&self, preset: &str, option: &str) -> (r: Option<ValueFunction>)
        ensures
            r is Some <==> registry_lookup(self.presets@, preset@, option@) is Some,
            r is Some ==> r.unwrap()@ == registry_lookup(
                self.presets@,
                preset@,
                option@,
            ).unwrap(),
    {
        let n = self.presets.len();
        let mut i: usize = 0;
        assert(self.presets@.skip(0) =~= self.presets@);
        while i < n
            invariant
                n == self.presets@.len(),
                i <= n,
                registry_lookup(self.presets@, preset@, option@) == registry_lookup(
                    self.presets@.skip(i as int),
                    preset@,
                    option@,
                ),
            decreases n - i,
        {
            assert(self.presets@.skip(i as int)[0] == self.presets@[i as int]);
            if str_eq(self.presets[i].name.as_str(), preset) {
                return self.entry_search(i, option);
            }
            assert(self.presets@.skip(i as int).drop_first() =~= self.presets@.skip(i + 1));
            i = i + 1;
        }
        assert(self.presets@.skip(n as int) =~= Seq::<BuiltinPreset>::empty());
        None
    }

    /// Searches one preset's table for an option's entry.
    fn entry_search(&self, p: usize, option: &str) -> (r: Option<ValueFunction>)
        requires
            p < self.presets@.len(),
        ensures
            r is Some <==> entry_lookup(self.presets@[p as int].entries@, option@) is Some,
            r is Some ==> r.unwrap()@ == entry_lookup(
                self.presets@[p as int].entries@,
                option@,
            ).unwrap(),
    {
        let entries = &self.presets[p].entries;
        let n = entries.len();
        let mut i: usize = 0;
        assert(entries@.skip(0) =~= entries@);
        while i < n
            invariant
                entries@ == self.presets@[p as int].entries@,
                n == entries@.len(),
                i <= n,
                entry_lookup(entries@, option@) == entry_lookup(entries@.skip(i as int), option@),
            decreases n - i,
        {
            assert(entries@.skip(i as int)[0] == entries@[i as int]);
            if str_eq(entries[i].option_name.as_str(), option) {
                return Some(entries[i].value.clone_vf());
            }
            assert(entries@.skip(i as int).drop_first() =~= entries@.skip(i + 1));
            i = i + 1;
        }
        assert(entries@.skip(n as int) =~= Seq::<PresetEntry>::empty());
        None
    }
}

} // verus!
