use delta_options::builtin::make_builtin_presets;
use delta_options::options::{ExplicitOpts, OptionStruct};
use delta_options::resolve::ResolutionContext;
use delta_options::set_options::set_options;
use delta_options::store::GitConfig;

fn make_git_config(entries: &[(&str, &str)], path: &str) -> GitConfig {
    let mut config = git2::Config::open(std::path::Path::new(path)).unwrap();
    for (key, value) in entries {
        config.set_str(key, value).unwrap();
    }
    GitConfig::from_config(&mut config).unwrap()
}

fn make_config(
    presets: Option<&str>,
    store: Option<GitConfig>,
    explicit: &ExplicitOpts,
    opt: &mut OptionStruct,
) {
    let presets_arg = presets.map(|s| s.to_string());
    let ctx = ResolutionContext::new(store, &presets_arg, make_builtin_presets());
    set_options(opt, explicit, &ctx);
}

#[test]
fn test_main_section() {
    let git_config_entries: &[(&str, &str)] = &[("delta.minus-style", "blue")];
    let git_config_path = "/tmp/delta__test_main_section.gitconfig";

    // First check that it doesn't default to blue, because that's going to be
    // used to signal that the store has set the style.
    let mut opt = OptionStruct::new();
    make_config(None, None, &ExplicitOpts::none(), &mut opt);
    assert_ne!(opt.minus_style, "blue");

    // Check that an explicit --minus-style is honored as we expect.
    let mut opt = OptionStruct::new();
    opt.minus_style = "red".to_string();
    let mut explicit = ExplicitOpts::none();
    explicit.minus_style = true;
    make_config(None, None, &explicit, &mut opt);
    assert_eq!(opt.minus_style, "red");

    // Check that the store does not override a command line argument.
    let mut opt = OptionStruct::new();
    opt.minus_style = "red".to_string();
    make_config(
        None,
        Some(make_git_config(git_config_entries, git_config_path)),
        &explicit,
        &mut opt,
    );
    assert_eq!(opt.minus_style, "red");

    // Finally, check that the store is honored when not overridden by a
    // command line argument.
    let mut opt = OptionStruct::new();
    make_config(
        None,
        Some(make_git_config(git_config_entries, git_config_path)),
        &ExplicitOpts::none(),
        &mut opt,
    );
    assert_eq!(opt.minus_style, "blue");
}

#[test]
fn test_preset() {
    let git_config_entries: &[(&str, &str)] = &[
        ("delta.minus-style", "blue"),
        ("delta.my-preset.minus-style", "green"),
    ];
    let git_config_path = "/tmp/delta__test_preset.gitconfig";

    // Without --presets the main section takes effect.
    let mut opt = OptionStruct::new();
    make_config(
        None,
        Some(make_git_config(git_config_entries, git_config_path)),
        &ExplicitOpts::none(),
        &mut opt,
    );
    assert_eq!(opt.minus_style, "blue");

    // With --presets the preset takes effect.
    let mut opt = OptionStruct::new();
    make_config(
        Some("my-preset"),
        Some(make_git_config(git_config_entries, git_config_path)),
        &ExplicitOpts::none(),
        &mut opt,
    );
    assert_eq!(opt.minus_style, "green");
}

#[test]
fn test_multiple_presets() {
    let git_config_entries: &[(&str, &str)] = &[
        ("delta.minus-style", "blue"),
        ("delta.my-preset-1.minus-style", "green"),
        ("delta.my-preset-2.minus-style", "yellow"),
    ];
    let git_config_path = "/tmp/delta__test_multiple_presets.gitconfig";

    let mut opt = OptionStruct::new();
    make_config(
        Some("my-preset-1"),
        Some(make_git_config(git_config_entries, git_config_path)),
        &ExplicitOpts::none(),
        &mut opt,
    );
    assert_eq!(opt.minus_style, "green");

    let mut opt = OptionStruct::new();
    make_config(
        Some("my-preset-1 my-preset-2"),
        Some(make_git_config(git_config_entries, git_config_path)),
        &ExplicitOpts::none(),
        &mut opt,
    );
    assert_eq!(opt.minus_style, "yellow");

    let mut opt = OptionStruct::new();
    make_config(
        Some("my-preset-2 my-preset-1"),
        Some(make_git_config(git_config_entries, git_config_path)),
        &ExplicitOpts::none(),
        &mut opt,
    );
    assert_eq!(opt.minus_style, "green");
}

#[test]
fn test_invalid_presets() {
    let git_config_entries: &[(&str, &str)] = &[
        ("delta.minus-style", "blue"),
        ("delta.my-preset-1.minus-style", "green"),
        ("delta.my-preset-2.minus-style", "yellow"),
    ];
    let git_config_path = "/tmp/delta__test_invalid_presets.gitconfig";

    let mut opt = OptionStruct::new();
    make_config(
        Some("my-preset-1"),
        Some(make_git_config(git_config_entries, git_config_path)),
        &ExplicitOpts::none(),
        &mut opt,
    );
    assert_eq!(opt.minus_style, "green");

    let mut opt = OptionStruct::new();
    make_config(
        Some("my-preset-x"),
        Some(make_git_config(git_config_entries, git_config_path)),
        &ExplicitOpts::none(),
        &mut opt,
    );
    assert_eq!(opt.minus_style, "blue");

    let mut opt = OptionStruct::new();
    make_config(
        Some("my-preset-1 my-preset-x"),
        Some(make_git_config(git_config_entries, git_config_path)),
        &ExplicitOpts::none(),
        &mut opt,
    );
    assert_eq!(opt.minus_style, "green");

    let mut opt = OptionStruct::new();
    make_config(
        Some("my-preset-x my-preset-2 my-preset-x"),
        Some(make_git_config(git_config_entries, git_config_path)),
        &ExplicitOpts::none(),
        &mut opt,
    );
    assert_eq!(opt.minus_style, "yellow");
}

#[test]
fn test_diff_highlight_defaults() {
    let mut opt = OptionStruct::new();
    make_config(Some("diff-highlight"), None, &ExplicitOpts::none(), &mut opt);

    assert_eq!(opt.minus_style, "red");
    assert_eq!(opt.minus_non_emph_style, "red");
    assert_eq!(opt.minus_emph_style, "red reverse");
    assert_eq!(opt.zero_style, "normal");
    assert_eq!(opt.plus_style, "green");
    assert_eq!(opt.plus_non_emph_style, "green");
    assert_eq!(opt.plus_emph_style, "green reverse");
}

#[test]
fn test_diff_highlight_respects_gitconfig() {
    let git_config_entries: &[(&str, &str)] = &[
        ("color.diff.old", "red bold"),
        ("color.diff.new", "green bold"),
        ("color.diff-highlight.oldNormal", "ul red bold"),
        ("color.diff-highlight.oldHighlight", "red bold 52"),
        ("color.diff-highlight.newNormal", "ul green bold"),
        ("color.diff-highlight.newHighlight", "green bold 22"),
    ];
    let git_config_path = "/tmp/delta__test_diff_highlight.gitconfig";

    let mut opt = OptionStruct::new();
    make_config(
        Some("diff-highlight"),
        Some(make_git_config(git_config_entries, git_config_path)),
        &ExplicitOpts::none(),
        &mut opt,
    );

    assert_eq!(opt.minus_style, "red bold");
    assert_eq!(opt.minus_non_emph_style, "ul red bold");
    assert_eq!(opt.minus_emph_style, "red bold 52");
    assert_eq!(opt.zero_style, "normal");
    assert_eq!(opt.plus_style, "green bold");
    assert_eq!(opt.plus_non_emph_style, "ul green bold");
    assert_eq!(opt.plus_emph_style, "green bold 22");
}

#[test]
fn test_diff_so_fancy_defaults() {
    let mut opt = OptionStruct::new();
    make_config(Some("diff-so-fancy"), None, &ExplicitOpts::none(), &mut opt);

    assert_eq!(opt.commit_style, "bold yellow");
    assert_eq!(opt.commit_decoration_style, "none");
    assert_eq!(opt.file_style, "11");
    assert_eq!(opt.file_decoration_style, "bold yellow ul ol");
    assert_eq!(opt.hunk_header_style, "bold syntax");
    assert_eq!(opt.hunk_header_decoration_style, "magenta box");
}

#[test]
fn test_diff_so_fancy_respects_git_config() {
    let git_config_entries: &[(&str, &str)] = &[
        ("color.diff.meta", "11"),
        ("color.diff.frag", "magenta bold"),
        ("color.diff.commit", "yellow bold"),
        ("color.diff.old", "red bold"),
        ("color.diff.new", "green bold"),
        ("color.diff.whitespace", "red reverse"),
    ];
    let git_config_path = "/tmp/delta__test_diff_so_fancy.gitconfig";

    let mut opt = OptionStruct::new();
    make_config(
        Some("diff-so-fancy some-other-preset"),
        Some(make_git_config(git_config_entries, git_config_path)),
        &ExplicitOpts::none(),
        &mut opt,
    );

    assert_eq!(opt.commit_style, "yellow bold");
    assert_eq!(opt.file_style, "11");
    assert_eq!(opt.hunk_header_style, "magenta bold");
    assert_eq!(opt.commit_decoration_style, "none");
    assert_eq!(opt.file_decoration_style, "bold yellow ul ol");
    assert_eq!(opt.hunk_header_decoration_style, "magenta box");
}

#[test]
fn test_diff_so_fancy_obeys_preset_precedence_rules() {
    let git_config_entries: &[(&str, &str)] = &[
        ("color.diff.meta", "11"),
        ("color.diff.frag", "magenta bold"),
        ("color.diff.commit", "yellow bold"),
        ("color.diff.old", "red bold"),
        ("color.diff.new", "green bold"),
        ("color.diff.whitespace", "red reverse"),
        ("delta.decorations.commit-decoration-style", "bold box ul"),
        ("delta.decorations.file-style", "bold 19 ul"),
        ("delta.decorations.file-decoration-style", "none"),
    ];
    let git_config_path = "/tmp/delta__test_diff_so_fancy_obeys_preset_precedence_rules.gitconfig";

    let mut opt = OptionStruct::new();
    make_config(
        Some("decorations diff-so-fancy"),
        Some(make_git_config(git_config_entries, git_config_path)),
        &ExplicitOpts::none(),
        &mut opt,
    );

    assert_eq!(opt.file_style, "11");
    assert_eq!(opt.file_decoration_style, "bold yellow ul ol");

    let mut opt = OptionStruct::new();
    make_config(
        Some("diff-so-fancy decorations"),
        Some(make_git_config(git_config_entries, git_config_path)),
        &ExplicitOpts::none(),
        &mut opt,
    );

    assert_eq!(opt.file_style, "bold 19 ul");
    assert_eq!(opt.file_decoration_style, "none");
}
