//! The option struct that one resolution pass fills in.
//!
//! Each option has a stable kebab-case name, a field in [`OptionStruct`]
//! and a declared type. The struct starts from the compiled-in defaults,
//! the command-line layer overwrites the fields the user supplied, and
//! the resolution pass fills in the rest, field by field in declaration
//! order — builtin preset value functions may read fields resolved
//! earlier, so that order is part of the interface.

use vstd::prelude::*;
use vstd::string::*;

verus! {

/// The string-typed option fields a builtin preset value function can
/// read or a resolution can set, in declaration (resolution) order.
#[derive(Clone, Copy, PartialEq, Eq, Structural, Debug)]
pub enum FieldId {
    MinusStyle,
    MinusNonEmphStyle,
    MinusEmphStyle,
    ZeroStyle,
    PlusStyle,
    PlusNonEmphStyle,
    PlusEmphStyle,
    CommitStyle,
    CommitDecorationStyle,
    FileStyle,
    FileDecorationStyle,
    HunkHeaderStyle,
    HunkHeaderDecorationStyle,
}

/// The resolved option values of one run. Style values are opaque
/// strings here; parsing them is the rendering layer's concern.
pub struct OptionStruct {
    pub minus_style: String,
    pub minus_non_emph_style: String,
    pub minus_emph_style: String,
    pub zero_style: String,
    pub plus_style: String,
    pub plus_non_emph_style: String,
    pub plus_emph_style: String,
    pub commit_style: String,
    pub commit_decoration_style: String,
    pub file_style: String,
    pub file_decoration_style: String,
    pub hunk_header_style: String,
    pub hunk_header_decoration_style: String,
    pub theme: Option<String>,
    pub light: bool,
    pub tab_width: usize,
}

/// The mathematical value of an [`OptionStruct`].
#[verifier::ext_equal]
pub struct OptView {
    pub minus_style: Seq<char>,
    pub minus_non_emph_style: Seq<char>,
    pub minus_emph_style: Seq<char>,
    pub zero_style: Seq<char>,
    pub plus_style: Seq<char>,
    pub plus_non_emph_style: Seq<char>,
    pub plus_emph_style: Seq<char>,
    pub commit_style: Seq<char>,
    pub commit_decoration_style: Seq<char>,
    pub file_style: Seq<char>,
    pub file_decoration_style: Seq<char>,
    pub hunk_header_style: Seq<char>,
    pub hunk_header_decoration_style: Seq<char>,
    pub theme: Option<Seq<char>>,
    pub light: bool,
    pub tab_width: usize,
}

impl View for OptionStruct {
    type V = OptView;

    open spec fn view(&self) -> OptView {
        OptView {
            minus_style: self.minus_style@,
            minus_non_emph_style: self.minus_non_emph_style@,
            minus_emph_style: self.minus_emph_style@,
            zero_style: self.zero_style@,
            plus_style: self.plus_style@,
            plus_non_emph_style: self.plus_non_emph_style@,
            plus_emph_style: self.plus_emph_style@,
            commit_style: self.commit_style@,
            commit_decoration_style: self.commit_decoration_style@,
            file_style: self.file_style@,
            file_decoration_style: self.file_decoration_style@,
            hunk_header_style: self.hunk_header_style@,
            hunk_header_decoration_style: self.hunk_header_decoration_style@,
            theme: self.theme.deep_view(),
            light: self.light,
            tab_width: self.tab_width,
        }
    }
}

impl OptView {
    /// The value of one string-typed field.
    pub open spec fn string_field(self, f: FieldId) -> Seq<char> {
        match f {
            FieldId::MinusStyle => self.minus_style,
            FieldId::MinusNonEmphStyle => self.minus_non_emph_style,
            FieldId::MinusEmphStyle => self.minus_emph_style,
            FieldId::ZeroStyle => self.zero_style,
            FieldId::PlusStyle => self.plus_style,
            FieldId::PlusNonEmphStyle => self.plus_non_emph_style,
            FieldId::PlusEmphStyle => self.plus_emph_style,
            FieldId::CommitStyle => self.commit_style,
            FieldId::CommitDecorationStyle => self.commit_decoration_style,
            FieldId::FileStyle => self.file_style,
            FieldId::FileDecorationStyle => self.file_decoration_style,
            FieldId::HunkHeaderStyle => self.hunk_header_style,
            FieldId::HunkHeaderDecorationStyle => self.hunk_header_decoration_style,
        }
    }

    /// The view after one string-typed field is overwritten.
    pub open spec fn with_string_field(self, f: FieldId, v: Seq<char>) -> OptView {
        match f {
            FieldId::MinusStyle => OptView { minus_style: v, ..self },
            FieldId::MinusNonEmphStyle => OptView { minus_non_emph_style: v, ..self },
            FieldId::MinusEmphStyle => OptView { minus_emph_style: v, ..self },
            FieldId::ZeroStyle => OptView { zero_style: v, ..self },
            FieldId::PlusStyle => OptView { plus_style: v, ..self },
            FieldId::PlusNonEmphStyle => OptView { plus_non_emph_style: v, ..self },
            FieldId::PlusEmphStyle => OptView { plus_emph_style: v, ..self },
            FieldId::CommitStyle => OptView { commit_style: v, ..self },
            FieldId::CommitDecorationStyle => OptView { commit_decoration_style: v, ..self },
            FieldId::FileStyle => OptView { file_style: v, ..self },
            FieldId::FileDecorationStyle => OptView { file_decoration_style: v, ..self },
            FieldId::HunkHeaderStyle => OptView { hunk_header_style: v, ..self },
            FieldId::HunkHeaderDecorationStyle => OptView {
                hunk_header_decoration_style: v,
                ..self
            },
        }
    }
}

impl OptionStruct {
    /// The compiled-in defaults: the values every layer may fall back
    /// to when neither the command line, a preset nor the global store
    /// section has an opinion.
    pub fn new() -> (r: OptionStruct)
        ensures
            r@.minus_style == "normal auto"@,
            r@.minus_non_emph_style == "normal auto"@,
            r@.minus_emph_style == "normal auto"@,
            r@.zero_style == "normal"@,
            r@.plus_style == "normal auto"@,
            r@.plus_non_emph_style == "normal auto"@,
            r@.plus_emph_style == "normal auto"@,
            r@.commit_style == "raw"@,
            r@.commit_decoration_style == ""@,
            r@.file_style == "blue"@,
            r@.file_decoration_style == "blue ul"@,
            r@.hunk_header_style == "syntax"@,
            r@.hunk_header_decoration_style == "blue box"@,
            r@.theme is None,
            r@.light == false,
            r@.tab_width == 4,
    {
        OptionStruct {
            minus_style: String::from_str("normal auto"),
            minus_non_emph_style: String::from_str("normal auto"),
            minus_emph_style: String::from_str("normal auto"),
            zero_style: String::from_str("normal"),
            plus_style: String::from_str("normal auto"),
            plus_non_emph_style: String::from_str("normal auto"),
            plus_emph_style: String::from_str("normal auto"),
            commit_style: String::from_str("raw"),
            commit_decoration_style: String::from_str(""),
            file_style: String::from_str("blue"),
            file_decoration_style: String::from_str("blue ul"),
            hunk_header_style: String::from_str("syntax"),
            hunk_header_decoration_style: String::from_str("blue box"),
            theme: None,
            light: false,
            tab_width: 4,
        }
    }

    /// Reads one string-typed field.
    pub fn read_string_field(&self, f: FieldId) -> (r: String)
        ensures
            r@ == self@.string_field(f),
    {
        match f {
            FieldId::MinusStyle => self.minus_style.clone(),
            FieldId::MinusNonEmphStyle => self.minus_non_emph_style.clone(),
            FieldId::MinusEmphStyle => self.minus_emph_style.clone(),
            FieldId::ZeroStyle => self.zero_style.clone(),
            FieldId::PlusStyle => self.plus_style.clone(),
            FieldId::PlusNonEmphStyle => self.plus_non_emph_style.clone(),
            FieldId::PlusEmphStyle => self.plus_emph_style.clone(),
            FieldId::CommitStyle => self.commit_style.clone(),
            FieldId::CommitDecorationStyle => self.commit_decoration_style.clone(),
            FieldId::FileStyle => self.file_style.clone(),
            FieldId::FileDecorationStyle => self.file_decoration_style.clone(),
            FieldId::HunkHeaderStyle => self.hunk_header_style.clone(),
            FieldId::HunkHeaderDecorationStyle => self.hunk_header_decoration_style.clone(),
        }
    }

    /// Overwrites one string-typed field.
    pub fn write_string_field(&mut self, f: FieldId, v: String)
        ensures
            final(self)@ == old(self)@.with_string_field(f, v@),
    {
        match f {
            FieldId::MinusStyle => self.minus_style = v,
            FieldId::MinusNonEmphStyle => self.minus_non_emph_style = v,
            FieldId::MinusEmphStyle => self.minus_emph_style = v,
            FieldId::ZeroStyle => self.zero_style = v,
            FieldId::PlusStyle => self.plus_style = v,
            FieldId::PlusNonEmphStyle => self.plus_non_emph_style = v,
            FieldId::PlusEmphStyle => self.plus_emph_style = v,
            FieldId::CommitStyle => self.commit_style = v,
            FieldId::CommitDecorationStyle => self.commit_decoration_style = v,
            FieldId::FileStyle => self.file_style = v,
            FieldId::FileDecorationStyle => self.file_decoration_style = v,
            FieldId::HunkHeaderStyle => self.hunk_header_style = v,
            FieldId::HunkHeaderDecorationStyle => self.hunk_header_decoration_style = v,
        }
    }
}

/// Which options the command line supplied explicitly. A supplied
/// option keeps its command-line value; no store or preset layer is
/// consulted for it.
pub struct ExplicitOpts {
    pub minus_style: bool,
    pub minus_non_emph_style: bool,
    pub minus_emph_style: bool,
    pub zero_style: bool,
    pub plus_style: bool,
    pub plus_non_emph_style: bool,
    pub plus_emph_style: bool,
    pub commit_style: bool,
    pub commit_decoration_style: bool,
    pub file_style: bool,
    pub file_decoration_style: bool,
    pub hunk_header_style: bool,
    pub hunk_header_decoration_style: bool,
    pub theme: bool,
    pub light: bool,
    pub tab_width: bool,
}

impl ExplicitOpts {
    /// No option was supplied on the command line.
    pub fn none() -> (r: ExplicitOpts)
        ensures
            r.minus_style == false,
            r.minus_non_emph_style == false,
            r.minus_emph_style == false,
            r.zero_style == false,
            r.plus_style == false,
            r.plus_non_emph_style == false,
            r.plus_emph_style == false,
            r.commit_style == false,
            r.commit_decoration_style == false,
            r.file_style == false,
            r.file_decoration_style == false,
            r.hunk_header_style == false,
            r.hunk_header_decoration_style == false,
            r.theme == false,
            r.light == false,
            r.tab_width == false,
    {
        ExplicitOpts {
            minus_style: false,
            minus_non_emph_style: false,
            minus_emph_style: false,
            zero_style: false,
            plus_style: false,
            plus_non_emph_style: false,
            plus_emph_style: false,
            commit_style: false,
            commit_decoration_style: false,
            file_style: false,
            file_decoration_style: false,
            hunk_header_style: false,
            hunk_header_decoration_style: false,
            theme: false,
            light: false,
            tab_width: false,
        }
    }
}

} // verus!
