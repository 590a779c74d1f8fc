//! Per-type option setters: one resolution step per declared option.
//!
//! Each setter leaves an option the command line supplied untouched —
//! the explicit value always wins, and no store or preset layer is even
//! consulted. Otherwise it resolves the option and writes the result,
//! or keeps the compiled-in value the field already holds when every
//! layer misses. [`set_options`] runs the setters over the whole option
//! struct in declaration order, so value functions that read fields
//! resolved earlier see their final values.

use vstd::prelude::*;
use vstd::string::*;
use crate::get_default;
use crate::git_config_get::{_bool, _i64, _string, first_bool, first_i64, first_string};
use crate::keys::{expand_keys, make_git_config_keys};
use crate::options::{ExplicitOpts, FieldId, OptView, OptionStruct};
use crate::presets::BuiltinPreset;
use crate::resolve::{get_option_value__string, resolve_string, ResolutionContext};
use crate::store::StoreView;

verus! {

/// One resolution step of a string option: the explicit value, else the
/// layered lookup, else the field's current value.
pub open spec fn set_string_step(
    o: OptView,
    f: FieldId,
    name: Seq<char>,
    supplied: bool,
    active: Seq<Seq<char>>,
    presets: Seq<BuiltinPreset>,
    store: StoreView,
) -> OptView {
    if supplied {
        o
    } else {
        match resolve_string(name, active, presets, o, store) {
            Some(v) => o.with_string_field(f, v),
            None => o,
        }
    }
}

/// One resolution step of an optional-string option: the explicit
/// value, else the first expanded key the store answers, else the
/// current value — which may be absent — stands.
pub open spec fn set_opt_string_step(
    o: OptView,
    name: Seq<char>,
    supplied: bool,
    active: Seq<Seq<char>>,
    presets: Seq<BuiltinPreset>,
    store: StoreView,
) -> OptView {
    if supplied {
        o
    } else {
        match first_string(expand_keys(name, active, presets), store) {
            Some(v) => OptView { theme: Some(v), ..o },
            None => o,
        }
    }
}

/// One resolution step of a bool option: the explicit value, else the
/// first expanded key the store's bool getter answers, else the current
/// value.
pub open spec fn set_bool_step(
    o: OptView,
    name: Seq<char>,
    supplied: bool,
    active: Seq<Seq<char>>,
    presets: Seq<BuiltinPreset>,
    store: StoreView,
) -> OptView {
    if supplied {
        o
    } else {
        match first_bool(expand_keys(name, active, presets), store) {
            Some(b) => OptView { light: b, ..o },
            None => o,
        }
    }
}

/// A store integer carried into an unsigned option field: clamped at
/// zero from below and at the field's maximum from above, so that a
/// negative or oversized store value cannot wrap around.
pub open spec fn clamp_to_usize(v: i64) -> usize {
    if v < 0 {
        0
    } else if v as int > usize::MAX as int {
        usize::MAX
    } else {
        v as usize
    }
}

/// One resolution step of an unsigned-integer option: the explicit
/// value, else the first expanded key the store's integer getter
/// answers, clamped into range, else the current value.
pub open spec fn set_usize_step(
    o: OptView,
    name: Seq<char>,
    supplied: bool,
    active: Seq<Seq<char>>,
    presets: Seq<BuiltinPreset>,
    store: StoreView,
) -> OptView {
    if supplied {
        o
    } else {
        match first_i64(expand_keys(name, active, presets), store) {
            Some(v) => OptView { tab_width: clamp_to_usize(v), ..o },
            None => o,
        }
    }
}

/// Resolves one string option into its field, as [`set_string_step`]
/// says. An explicitly supplied option is left exactly as it is.
pub fn set_string_option(
    f: FieldId,
    option_name: &str,
    user_supplied: bool,
    ctx: &ResolutionContext,
    opt: &mut OptionStruct,
)
    ensures
        final(opt)@ == set_string_step(
            old(opt)@,
            f,
            option_name@,
            user_supplied,
            ctx.active(),
            ctx.registry.presets@,
            ctx.store(),
        ),
        user_supplied ==> final(opt)@ == old(opt)@,
{
    if !user_supplied {
        match get_option_value__string(option_name, ctx, opt) {
            Some(v) => opt.write_string_field(f, v),
            None => {},
        }
    }
}

/// Resolves the optional-string option into its field, as
/// [`set_opt_string_step`] says. An explicitly supplied option is left
/// exactly as it is.
pub fn set_opt_string_option(
    option_name: &str,
    user_supplied: bool,
    ctx: &ResolutionContext,
    opt: &mut OptionStruct,
)
    ensures
        final(opt)@ == set_opt_string_step(
            old(opt)@,
            option_name@,
            user_supplied,
            ctx.active(),
            ctx.registry.presets@,
            ctx.store(),
        ),
        user_supplied ==> final(opt)@ == old(opt)@,
{
    if !user_supplied {
        let keys = make_git_config_keys(option_name, ctx);
        match _string(&keys, &ctx.git_config) {
            Some(v) => opt.theme = Some(v),
            None => match get_default::_string(option_name, opt) {
                Some(d) => opt.theme = Some(d),
                None => {},
            },
        }
    }
}

/// Resolves the bool option into its field, as [`set_bool_step`] says.
/// An explicitly supplied option is left exactly as it is.
pub fn set_bool_option(
    option_name: &str,
    user_supplied: bool,
    ctx: &ResolutionContext,
    opt: &mut OptionStruct,
)
    ensures
        final(opt)@ == set_bool_step(
            old(opt)@,
            option_name@,
            user_supplied,
            ctx.active(),
            ctx.registry.presets@,
            ctx.store(),
        ),
        user_supplied ==> final(opt)@ == old(opt)@,
{
    if !user_supplied {
        let keys = make_git_config_keys(option_name, ctx);
        match _bool(&keys, &ctx.git_config) {
            Some(b) => opt.light = b,
            None => match get_default::_bool(option_name, opt) {
                Some(d) => opt.light = d,
                None => {},
            },
        }
    }
}

/// Resolves the unsigned-integer option into its field, as
/// [`set_usize_step`] says. An explicitly supplied option is left
/// exactly as it is.
pub fn set_usize_option(
    option_name: &str,
    user_supplied: bool,
    ctx: &ResolutionContext,
    opt: &mut OptionStruct,
)
    ensures
        final(opt)@ == set_usize_step(
            old(opt)@,
            option_name@,
            user_supplied,
            ctx.active(),
            ctx.registry.presets@,
            ctx.store(),
        ),
        user_supplied ==> final(opt)@ == old(opt)@,
{
    if !user_supplied {
        let keys = make_git_config_keys(option_name, ctx);
        match _i64(&keys, &ctx.git_config) {
            Some(v) => {
                let clamped: usize = if v < 0 {
                    0
                } else if (v as u64) > (usize::MAX as u64) {
                    usize::MAX
                } else {
                    v as usize
                };
                assert(clamped == clamp_to_usize(v));
                opt.tab_width = clamped;
            },
            None => match get_default::_usize(option_name, opt) {
                Some(d) => opt.tab_width = d,
                None => {},
            },
        }
    }
}

/// The option struct after one full resolution pass: every setter
/// applied once, in declaration order.
pub open spec fn set_options_spec(
    o: OptView,
    e: ExplicitOpts,
    active: Seq<Seq<char>>,
    presets: Seq<BuiltinPreset>,
    store: StoreView,
) -> OptView {
    let o1 = set_string_step(
        o,
        FieldId::MinusStyle,
        "minus-style"@,
        e.minus_style,
        active,
        presets,
        store,
    );
    let o2 = set_string_step(
        o1,
        FieldId::MinusNonEmphStyle,
        "minus-non-emph-style"@,
        e.minus_non_emph_style,
        active,
        presets,
        store,
    );
    let o3 = set_string_step(
        o2,
        FieldId::MinusEmphStyle,
        "minus-emph-style"@,
        e.minus_emph_style,
        active,
        presets,
        store,
    );
    let o4 = set_string_step(
        o3,
        FieldId::ZeroStyle,
        "zero-style"@,
        e.zero_style,
        active,
        presets,
        store,
    );
    let o5 = set_string_step(
        o4,
        FieldId::PlusStyle,
        "plus-style"@,
        e.plus_style,
        active,
        presets,
        store,
    );
    let o6 = set_string_step(
        o5,
        FieldId::PlusNonEmphStyle,
        "plus-non-emph-style"@,
        e.plus_non_emph_style,
        active,
        presets,
        store,
    );
    let o7 = set_string_step(
        o6,
        FieldId::PlusEmphStyle,
        "plus-emph-style"@,
        e.plus_emph_style,
        active,
        presets,
        store,
    );
    let o8 = set_string_step(
        o7,
        FieldId::CommitStyle,
        "commit-style"@,
        e.commit_style,
        active,
        presets,
        store,
    );
    let o9 = set_string_step(
        o8,
        FieldId::CommitDecorationStyle,
        "commit-decoration-style"@,
        e.commit_decoration_style,
        active,
        presets,
        store,
    );
    let o10 = set_string_step(
        o9,
        FieldId::FileStyle,
        "file-style"@,
        e.file_style,
        active,
        presets,
        store,
    );
    let o11 = set_string_step(
        o10,
        FieldId::FileDecorationStyle,
        "file-decoration-style"@,
        e.file_decoration_style,
        active,
        presets,
        store,
    );
    let o12 = set_string_step(
        o11,
        FieldId::HunkHeaderStyle,
        "hunk-header-style"@,
        e.hunk_header_style,
        active,
        presets,
        store,
    );
    let o13 = set_string_step(
        o12,
        FieldId::HunkHeaderDecorationStyle,
        "hunk-header-decoration-style"@,
        e.hunk_header_decoration_style,
        active,
        presets,
        store,
    );
    let o14 = set_opt_string_step(o13, "theme"@, e.theme, active, presets, store);
    let o15 = set_bool_step(o14, "light"@, e.light, active, presets, store);
    set_usize_step(o15, "tab-width"@, e.tab_width, active, presets, store)
}

/// Runs one full resolution pass over the option struct: each declared
/// option in turn, in declaration order, as [`set_options_spec`] says.
/// Options the command line supplied keep their explicit values.
pub fn set_options(opt: &mut OptionStruct, explicit: &ExplicitOpts, ctx: &ResolutionContext)
    ensures
        final(opt)@ == set_options_spec(
            old(opt)@,
            *explicit,
            ctx.active(),
            ctx.registry.presets@,
            ctx.store(),
        ),
{
    set_string_option(FieldId::MinusStyle, "minus-style", explicit.minus_style, ctx, opt);
    set_string_option(
        FieldId::MinusNonEmphStyle,
        "minus-non-emph-style",
        explicit.minus_non_emph_style,
        ctx,
        opt,
    );
    set_string_option(
        FieldId::MinusEmphStyle,
        "minus-emph-style",
        explicit.minus_emph_style,
        ctx,
        opt,
    );
    set_string_option(FieldId::ZeroStyle, "zero-style", explicit.zero_style, ctx, opt);
    set_string_option(FieldId::PlusStyle, "plus-style", explicit.plus_style, ctx, opt);
    set_string_option(
        FieldId::PlusNonEmphStyle,
        "plus-non-emph-style",
        explicit.plus_non_emph_style,
        ctx,
        opt,
    );
    set_string_option(
        FieldId::PlusEmphStyle,
        "plus-emph-style",
        explicit.plus_emph_style,
        ctx,
        opt,
    );
    set_string_option(FieldId::CommitStyle, "commit-style", explicit.commit_style, ctx, opt);
    set_string_option(
        FieldId::CommitDecorationStyle,
        "commit-decoration-style",
        explicit.commit_decoration_style,
        ctx,
        opt,
    );
    set_string_option(FieldId::FileStyle, "file-style", explicit.file_style, ctx, opt);
    set_string_option(
        FieldId::FileDecorationStyle,
        "file-decoration-style",
        explicit.file_decoration_style,
        ctx,
        opt,
    );
    set_string_option(
        FieldId::HunkHeaderStyle,
        "hunk-header-style",
        explicit.hunk_header_style,
        ctx,
        opt,
    );
    set_string_option(
        FieldId::HunkHeaderDecorationStyle,
        "hunk-header-decoration-style",
        explicit.hunk_header_decoration_style,
        ctx,
        opt,
    );
    set_opt_string_option("theme", explicit.theme, ctx, opt);
    set_bool_option("light", explicit.light, ctx, opt);
    set_usize_option("tab-width", explicit.tab_width, ctx, opt);
}

} // verus!
