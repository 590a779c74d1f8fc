//! The builtin preset tables shipped with the program.
//!
//! Two presets are builtin. `diff-highlight` reproduces the classic
//! two-colour highlighting: its styles read the corresponding
//! `color.diff` and `color.diff-highlight` keys of the store first and
//! fall back to plain red/green, with the emphasis styles derived from
//! the already-resolved base styles. `diff-so-fancy` extends it with
//! bold base colours and the commit, file and hunk-header decorations of
//! the tool of that name.

use vstd::prelude::*;
use vstd::string::*;
use crate::options::FieldId;
use crate::presets::{
    BuiltinPreset,
    BuiltinRegistry,
    Fallback,
    FallbackView,
    PresetEntry,
    ValueFunction,
    VfView,
};

verus! {

/// The `diff-highlight` table: what each of its seven entries says.
pub open spec fn is_diff_highlight_entries(s: Seq<PresetEntry>, bold: bool) -> bool {
    &&& s.len() >= 7
    &&& s[0].option_name@ == "minus-style"@
    &&& s[0].value@ == (VfView {
        redirect: Some("color.diff.old"@),
        fallback: Some(
            FallbackView::Literal(
                if bold {
                    "bold red"@
                } else {
                    "red"@
                },
            ),
        ),
    })
    &&& s[1].option_name@ == "minus-non-emph-style"@
    &&& s[1].value@ == (VfView {
        redirect: Some("color.diff-highlight.oldNormal"@),
        fallback: Some(FallbackView::FromField(FieldId::MinusStyle)),
    })
    &&& s[2].option_name@ == "minus-emph-style"@
    &&& s[2].value@ == (VfView {
        redirect: Some("color.diff-highlight.oldHighlight"@),
        fallback: Some(FallbackView::FromFieldSuffixed(FieldId::MinusStyle, " reverse"@)),
    })
    &&& s[3].option_name@ == "zero-style"@
    &&& s[3].value@ == (VfView { redirect: None, fallback: Some(FallbackView::Literal("normal"@)) })
    &&& s[4].option_name@ == "plus-style"@
    &&& s[4].value@ == (VfView {
        redirect: Some("color.diff.new"@),
        fallback: Some(
            FallbackView::Literal(
                if bold {
                    "bold green"@
                } else {
                    "green"@
                },
            ),
        ),
    })
    &&& s[5].option_name@ == "plus-non-emph-style"@
    &&& s[5].value@ == (VfView {
        redirect: Some("color.diff-highlight.newNormal"@),
        fallback: Some(FallbackView::FromField(FieldId::PlusStyle)),
    })
    &&& s[6].option_name@ == "plus-emph-style"@
    &&& s[6].value@ == (VfView {
        redirect: Some("color.diff-highlight.newHighlight"@),
        fallback: Some(FallbackView::FromFieldSuffixed(FieldId::PlusStyle, " reverse"@)),
    })
}

/// The six entries `diff-so-fancy` adds after the bold
/// `diff-highlight` base.
pub open spec fn is_diff_so_fancy_tail(s: Seq<PresetEntry>) -> bool {
    &&& s.len() == 13
    &&& s[7].option_name@ == "commit-style"@
    &&& s[7].value@ == (VfView {
        redirect: Some("color.diff.commit"@),
        fallback: Some(FallbackView::Literal("bold yellow"@)),
    })
    &&& s[8].option_name@ == "commit-decoration-style"@
    &&& s[8].value@ == (VfView { redirect: None, fallback: Some(FallbackView::Literal("none"@)) })
    &&& s[9].option_name@ == "file-style"@
    &&& s[9].value@ == (VfView {
        redirect: Some("color.diff.meta"@),
        fallback: Some(FallbackView::Literal("11"@)),
    })
    &&& s[10].option_name@ == "file-decoration-style"@
    &&& s[10].value@ == (VfView {
        redirect: None,
        fallback: Some(FallbackView::Literal("bold yellow ul ol"@)),
    })
    &&& s[11].option_name@ == "hunk-header-style"@
    &&& s[11].value@ == (VfView {
        redirect: Some("color.diff.frag"@),
        fallback: Some(FallbackView::Literal("bold syntax"@)),
    })
    &&& s[12].option_name@ == "hunk-header-decoration-style"@
    &&& s[12].value@ == (VfView {
        redirect: None,
        fallback: Some(FallbackView::Literal("magenta box"@)),
    })
}

/// One entry of a builtin preset table.
fn entry(name: &str, redirect: Option<&str>, fallback: Option<Fallback>) -> (r: PresetEntry)
    ensures
        r.option_name@ == name@,
        r.value@.redirect == redirect.deep_view(),
        r.value@.fallback == match fallback {
            Some(f) => Some(f@),
            None => None,
        },
{
    let key = match redirect {
        Some(k) => Some(String::from_str(k)),
        None => None,
    };
    PresetEntry { option_name: String::from_str(name), value: ValueFunction {
        redirect: key,
        fallback,
    } }
}

/// The `diff-highlight` table, plain or with bold base colours.
fn diff_highlight_entries(bold: bool) -> (r: Vec<PresetEntry>)
    ensures
        r@.len() == 7,
        is_diff_highlight_entries(r@, bold),
{
    let minus = if bold {
        "bold red"
    } else {
        "red"
    };
    let plus = if bold {
        "bold green"
    } else {
        "green"
    };
    let mut e: Vec<PresetEntry> = Vec::new();
    e.push(
        entry(
            "minus-style",
            Some("color.diff.old"),
            Some(Fallback::Literal(String::from_str(minus))),
        ),
    );
    e.push(
        entry(
            "minus-non-emph-style",
            Some("color.diff-highlight.oldNormal"),
            Some(Fallback::FromField(FieldId::MinusStyle)),
        ),
    );
    e.push(
        entry(
            "minus-emph-style",
            Some("color.diff-highlight.oldHighlight"),
            Some(Fallback::FromFieldSuffixed(FieldId::MinusStyle, String::from_str(" reverse"))),
        ),
    );
    e.push(entry("zero-style", None, Some(Fallback::Literal(String::from_str("normal")))));
    e.push(
        entry(
            "plus-style",
            Some("color.diff.new"),
            Some(Fallback::Literal(String::from_str(plus))),
        ),
    );
    e.push(
        entry(
            "plus-non-emph-style",
            Some("color.diff-highlight.newNormal"),
            Some(Fallback::FromField(FieldId::PlusStyle)),
        ),
    );
    e.push(
        entry(
            "plus-emph-style",
            Some("color.diff-highlight.newHighlight"),
            Some(Fallback::FromFieldSuffixed(FieldId::PlusStyle, String::from_str(" reverse"))),
        ),
    );
    e
}

/// Builds the registry of builtin presets: `diff-highlight`, then
/// `diff-so-fancy`. Pure table construction; no store access happens
/// here — only evaluating an entry during resolution may read the store.
pub fn make_builtin_presets() -> (r: BuiltinRegistry)
    ensures
        r.presets@.len() == 2,
        r.presets@[0].name@ == "diff-highlight"@,
        r.presets@[0].entries@.len() == 7,
        is_diff_highlight_entries(r.presets@[0].entries@, false),
        r.presets@[1].name@ == "diff-so-fancy"@,
        is_diff_highlight_entries(r.presets@[1].entries@, true),
        is_diff_so_fancy_tail(r.presets@[1].entries@),
{
    let mut fancy = diff_highlight_entries(true);
    fancy.push(
        entry(
            "commit-style",
            Some("color.diff.commit"),
            Some(Fallback::Literal(String::from_str("bold yellow"))),
        ),
    );
    fancy.push(
        entry("commit-decoration-style", None, Some(Fallback::Literal(String::from_str("none")))),
    );
    fancy.push(
        entry(
            "file-style",
            Some("color.diff.meta"),
            Some(Fallback::Literal(String::from_str("11"))),
        ),
    );
    fancy.push(
        entry(
            "file-decoration-style",
            None,
            Some(Fallback::Literal(String::from_str("bold yellow ul ol"))),
        ),
    );
    fancy.push(
        entry(
            "hunk-header-style",
            Some("color.diff.frag"),
            Some(Fallback::Literal(String::from_str("bold syntax"))),
        ),
    );
    fancy.push(
        entry(
            "hunk-header-decoration-style",
            None,
            Some(Fallback::Literal(String::from_str("magenta box"))),
        ),
    );
    let mut presets: Vec<BuiltinPreset> = Vec::new();
    presets.push(
        BuiltinPreset {
            name: String::from_str("diff-highlight"),
            entries: diff_highlight_entries(false),
        },
    );
    presets.push(BuiltinPreset { name: String::from_str("diff-so-fancy"), entries: fancy });
    BuiltinRegistry { presets }
}

} // verus!
