use prompter::config::Config;
use prompter::config::DataSource;
use prompter::sources::calc_direnv;
use prompter::sources::calc_flake;
use prompter::sources::calc_key;
use prompter::sources::calc_rust;
use prompter::sources::calc_sudo;
use prompter::sources::Context;

fn quiet_context() -> Context {
    Context {
        home: None,
        cwd: String::new(),
        sudo_ok: false,
        cargo_marker: false,
        toolchain: None,
        direnv_set: false,
        key_env_set: false,
        key_ok: false,
        flake_marker: false,
    }
}

#[test]
fn sudo_value() {
    assert_eq!(calc_sudo(true), "yes");
    assert_eq!(calc_sudo(false), "");
}

#[test]
fn rust_passthrough_without_marker() {
    let out = Some(String::from("stable-x86_64-unknown-linux-gnu (default)"));
    assert_eq!(calc_rust("left", false, &out), "left");
}

#[test]
fn rust_stable_appends_glyph() {
    let out = Some(String::from("stable-x86_64-unknown-linux-gnu (default)"));
    assert_eq!(calc_rust("📂", true, &out), "📂🦀🏠");
}

#[test]
fn rust_beta_appends_glyph() {
    let out = Some(String::from("beta-x86_64-unknown-linux-gnu (default)"));
    assert_eq!(calc_rust("", true, &out), "🦀β");
}

#[test]
fn rust_nightly_appends_glyph() {
    let out = Some(String::from("nightly-x86_64-unknown-linux-gnu (default)"));
    assert_eq!(calc_rust("", true, &out), "🦀🌙");
}

#[test]
fn rust_named_channel_shows_name_up_to_dash() {
    let out = Some(String::from("1.70.0-x86_64-unknown-linux-gnu (default)"));
    assert_eq!(calc_rust("", true, &out), "🦀1.70.0");
}

#[test]
fn rust_named_channel_without_dash() {
    let out = Some(String::from("custom (default)"));
    assert_eq!(calc_rust("", true, &out), "🦀custom");
}

#[test]
fn rust_unparsable_output_appends_nothing() {
    assert_eq!(calc_rust("pre", true, &Some(String::from("nospace"))), "pre");
    assert_eq!(calc_rust("pre", true, &None), "pre");
}

#[test]
fn direnv_appends_glyph() {
    assert_eq!(calc_direnv("📂", false), "📂");
    assert_eq!(calc_direnv("x", true), "x📂");
}

#[test]
fn key_value() {
    assert_eq!(calc_key(false, false), "");
    assert_eq!(calc_key(false, true), "");
    assert_eq!(calc_key(true, false), "");
    assert_eq!(calc_key(true, true), "🔑");
}

#[test]
fn flake_value() {
    assert_eq!(calc_flake(true), "❄ ");
    assert_eq!(calc_flake(false), "");
}

#[test]
fn fill_grows_array_and_writes_slot() {
    let mut ctx = quiet_context();
    ctx.sudo_ok = true;
    let mut vars: Vec<String> = Vec::new();
    DataSource::Sudo(5).fill_vars(&ctx, &mut vars);
    assert_eq!(vars.len(), 6);
    for slot in vars.iter().take(5) {
        assert_eq!(slot, "");
    }
    assert_eq!(vars[5], "yes");
}

#[test]
fn fill_preserves_other_slots() {
    let ctx = quiet_context();
    let mut vars = vec![
        String::from("zero"),
        String::from("one"),
        String::from("two"),
    ];
    DataSource::Key(1).fill_vars(&ctx, &mut vars);
    assert_eq!(vars, vec![String::from("zero"), String::new(), String::from("two")]);
}

#[test]
fn max_needed_reserves_without_overwriting() {
    let mut vars = vec![String::from("kept")];
    DataSource::Git(1).max_needed(&mut vars);
    assert_eq!(vars.len(), 5);
    assert_eq!(vars[0], "kept");
    for slot in vars.iter().skip(1) {
        assert_eq!(slot, "");
    }
}

#[test]
fn composition_appends_in_declared_order() {
    let mut ctx = quiet_context();
    ctx.direnv_set = true;
    ctx.cargo_marker = true;
    ctx.toolchain = Some(String::from("stable-x86_64-unknown-linux-gnu (default)"));
    let mut vars: Vec<String> = Vec::new();
    DataSource::Direnv(6).fill_vars(&ctx, &mut vars);
    assert_eq!(vars[6], "📂");
    DataSource::Rust(6).fill_vars(&ctx, &mut vars);
    assert_eq!(vars[6], "📂🦀🏠");
}

#[test]
fn render_uses_declared_sources_in_order() {
    let mut ctx = quiet_context();
    ctx.sudo_ok = true;
    ctx.flake_marker = true;
    let config = Config {
        left_prompt: vec![],
        right_prompt: vec![],
        sources: vec![DataSource::Sudo(2), DataSource::Flake(1)],
    };
    let vars = config.render(&ctx);
    assert_eq!(vars.len(), 3);
    assert_eq!(vars[0], "");
    assert_eq!(vars[1], "❄ ");
    assert_eq!(vars[2], "yes");
}

#[test]
fn git_fill_without_repository_leaves_slots_empty() {
    // The test process does not run inside a repository, so upward
    // discovery fails and the version-control source contributes nothing.
    let ctx = quiet_context();
    let mut vars: Vec<String> = Vec::new();
    DataSource::Git(1).fill_vars(&ctx, &mut vars);
    assert_eq!(vars.len(), 5);
    for slot in &vars {
        assert_eq!(slot, "");
    }
}

#[test]
fn default_render_in_bare_environment() {
    // No repository, no markers, every probe negative: the default
    // sources still grow the array to their largest index, and every
    // slot stays empty.
    let config = Config::default();
    let vars = config.render(&quiet_context());
    assert_eq!(vars.len(), 9);
    for slot in &vars {
        assert_eq!(slot, "");
    }
}

#[test]
fn render_without_sources_is_empty() {
    let config = Config { left_prompt: vec![], right_prompt: vec![], sources: vec![] };
    let vars = config.render(&quiet_context());
    assert_eq!(vars.len(), 0);
}
