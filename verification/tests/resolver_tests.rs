use delta_options::builtin::make_builtin_presets;
use delta_options::git_config_get;
use delta_options::keys::make_git_config_keys;
use delta_options::options::{ExplicitOpts, OptionStruct};
use delta_options::resolve::{get_option_value__string, ResolutionContext};
use delta_options::set_options::set_options;
use delta_options::store::GitConfig;
use delta_options::text::parse_active_presets;

fn store_with(entries: &[(&str, &str)], path: &str) -> GitConfig {
    let mut config = git2::Config::open(std::path::Path::new(path)).unwrap();
    for (key, value) in entries {
        config.set_str(key, value).unwrap();
    }
    GitConfig::from_config(&mut config).unwrap()
}

fn context(presets: Option<&str>, store: Option<GitConfig>) -> ResolutionContext {
    let presets_arg = presets.map(|s| s.to_string());
    ResolutionContext::new(store, &presets_arg, make_builtin_presets())
}

#[test]
fn test_parse_active_presets_folds_case_and_splits() {
    let parsed = parse_active_presets("  My-Preset \t OTHER\npreset-3  ");
    assert_eq!(parsed, vec!["my-preset", "other", "preset-3"]);
    assert_eq!(parse_active_presets(""), Vec::<String>::new());
    assert_eq!(parse_active_presets("   "), Vec::<String>::new());
}

#[test]
fn test_make_git_config_keys_global_only() {
    let ctx = context(None, None);
    let keys = make_git_config_keys("tab-width", &ctx);
    assert_eq!(keys, vec!["delta.tab-width"]);
}

#[test]
fn test_make_git_config_keys_presets_and_redirect() {
    let ctx = context(Some("p diff-highlight"), None);
    let keys = make_git_config_keys("minus-style", &ctx);
    assert_eq!(
        keys,
        vec![
            "delta.diff-highlight.minus-style",
            "color.diff.old",
            "delta.p.minus-style",
            "delta.minus-style",
        ]
    );
}

#[test]
fn test_bool_option_from_store() {
    let entries: &[(&str, &str)] = &[("delta.light", "true"), ("delta.p.light", "false")];
    let path = "/tmp/delta__test_bool_option.gitconfig";

    let mut opt = OptionStruct::new();
    set_options(
        &mut opt,
        &ExplicitOpts::none(),
        &context(None, Some(store_with(entries, path))),
    );
    assert_eq!(opt.light, true);

    let mut opt = OptionStruct::new();
    set_options(
        &mut opt,
        &ExplicitOpts::none(),
        &context(Some("p"), Some(store_with(entries, path))),
    );
    assert_eq!(opt.light, false);
}

#[test]
fn test_usize_option_from_store() {
    let entries: &[(&str, &str)] = &[("delta.tab-width", "8")];
    let path = "/tmp/delta__test_usize_option.gitconfig";

    let mut opt = OptionStruct::new();
    set_options(
        &mut opt,
        &ExplicitOpts::none(),
        &context(None, Some(store_with(entries, path))),
    );
    assert_eq!(opt.tab_width, 8);
}

#[test]
fn test_usize_option_negative_clamps_to_zero() {
    let entries: &[(&str, &str)] = &[("delta.tab-width", "-3")];
    let path = "/tmp/delta__test_usize_negative.gitconfig";

    let mut opt = OptionStruct::new();
    set_options(
        &mut opt,
        &ExplicitOpts::none(),
        &context(None, Some(store_with(entries, path))),
    );
    assert_eq!(opt.tab_width, 0);
}

#[test]
fn test_usize_option_miss_keeps_compiled_in_default() {
    let mut opt = OptionStruct::new();
    set_options(&mut opt, &ExplicitOpts::none(), &context(None, None));
    assert_eq!(opt.tab_width, 4);
}

#[test]
fn test_theme_option_from_store_and_absent() {
    let entries: &[(&str, &str)] = &[("delta.theme", "zenburn")];
    let path = "/tmp/delta__test_theme_option.gitconfig";

    let mut opt = OptionStruct::new();
    set_options(
        &mut opt,
        &ExplicitOpts::none(),
        &context(None, Some(store_with(entries, path))),
    );
    assert_eq!(opt.theme, Some("zenburn".to_string()));

    let mut opt = OptionStruct::new();
    set_options(&mut opt, &ExplicitOpts::none(), &context(None, None));
    assert_eq!(opt.theme, None);
}

#[test]
fn test_explicit_wins_for_every_type() {
    let entries: &[(&str, &str)] = &[
        ("delta.minus-style", "blue"),
        ("delta.theme", "zenburn"),
        ("delta.light", "true"),
        ("delta.tab-width", "8"),
    ];
    let path = "/tmp/delta__test_explicit_wins.gitconfig";

    let mut opt = OptionStruct::new();
    opt.minus_style = "red".to_string();
    opt.theme = Some("gruvbox".to_string());
    opt.light = false;
    opt.tab_width = 2;
    let mut explicit = ExplicitOpts::none();
    explicit.minus_style = true;
    explicit.theme = true;
    explicit.light = true;
    explicit.tab_width = true;
    set_options(&mut opt, &explicit, &context(None, Some(store_with(entries, path))));
    assert_eq!(opt.minus_style, "red");
    assert_eq!(opt.theme, Some("gruvbox".to_string()));
    assert_eq!(opt.light, false);
    assert_eq!(opt.tab_width, 2);
}

#[test]
fn test_no_merge_across_presets() {
    // The winning preset is chosen per option: the later-listed preset
    // takes the options it defines, the earlier one keeps the rest.
    let entries: &[(&str, &str)] = &[
        ("delta.aaa.minus-style", "green"),
        ("delta.aaa.plus-style", "cyan"),
        ("delta.bbb.minus-style", "yellow"),
    ];
    let path = "/tmp/delta__test_no_merge.gitconfig";

    let mut opt = OptionStruct::new();
    set_options(
        &mut opt,
        &ExplicitOpts::none(),
        &context(Some("aaa bbb"), Some(store_with(entries, path))),
    );
    assert_eq!(opt.minus_style, "yellow");
    assert_eq!(opt.plus_style, "cyan");
}

#[test]
fn test_value_function_reads_earlier_field() {
    // With only the base colour in the store, the non-emphasis and
    // emphasis styles are derived from the already-resolved base style.
    let entries: &[(&str, &str)] = &[("color.diff.old", "magenta")];
    let path = "/tmp/delta__test_value_function_chain.gitconfig";

    let mut opt = OptionStruct::new();
    set_options(
        &mut opt,
        &ExplicitOpts::none(),
        &context(Some("diff-highlight"), Some(store_with(entries, path))),
    );
    assert_eq!(opt.minus_style, "magenta");
    assert_eq!(opt.minus_non_emph_style, "magenta");
    assert_eq!(opt.minus_emph_style, "magenta reverse");
}

#[test]
fn test_get_option_value_string_user_preset_beats_builtin() {
    let entries: &[(&str, &str)] = &[("delta.diff-highlight.minus-style", "brown")];
    let path = "/tmp/delta__test_user_preset_beats_builtin.gitconfig";

    let ctx = context(Some("diff-highlight"), Some(store_with(entries, path)));
    let opt = OptionStruct::new();
    let value = get_option_value__string("minus-style", &ctx, &opt);
    assert_eq!(value, Some("brown".to_string()));
}

#[test]
fn test_typed_lookups_probe_keys_in_order() {
    let entries: &[(&str, &str)] = &[
        ("delta.second", "two"),
        ("delta.first", "one"),
    ];
    let path = "/tmp/delta__test_typed_lookup_order.gitconfig";
    let store = Some(store_with(entries, path));

    let keys = vec!["delta.first".to_string(), "delta.second".to_string()];
    assert_eq!(git_config_get::_string(&keys, &store), Some("one".to_string()));

    let keys = vec!["delta.missing".to_string(), "delta.second".to_string()];
    assert_eq!(git_config_get::_string(&keys, &store), Some("two".to_string()));

    let keys = vec!["delta.missing".to_string()];
    assert_eq!(git_config_get::_string(&keys, &store), None);

    assert_eq!(git_config_get::_string(&keys, &None), None);
}

#[test]
fn test_empty_store_resolves_to_defaults() {
    // A store with no entries at all: every lookup misses and the
    // compiled-in defaults stand, exactly as with no store.
    let path = "/tmp/delta__test_empty_store_never_written.gitconfig";
    let mut config = git2::Config::open(std::path::Path::new(path)).unwrap();
    let store = GitConfig::from_config(&mut config).unwrap();

    let mut opt = OptionStruct::new();
    set_options(&mut opt, &ExplicitOpts::none(), &context(Some("p1 p2"), Some(store)));
    let defaults = OptionStruct::new();
    assert_eq!(opt.minus_style, defaults.minus_style);
    assert_eq!(opt.theme, None);
    assert_eq!(opt.light, defaults.light);
    assert_eq!(opt.tab_width, defaults.tab_width);
}
