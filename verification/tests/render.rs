use prompter::config::Colour;
use prompter::config::Config;
use prompter::config::PromptElement;
use prompter::config::TernaryTest;

#[test]
fn escape_doubles_significant_chars() {
    assert_eq!(PromptElement::escape("a%b)c"), "a%%b%)c");
}

#[test]
fn escape_leaves_plain_text() {
    assert_eq!(PromptElement::escape("hello world"), "hello world");
}

#[test]
fn escape_empty() {
    assert_eq!(PromptElement::escape(""), "");
}

#[test]
fn escape_only_significant() {
    assert_eq!(PromptElement::escape("%%))"), "%%%%%)%)");
}

#[test]
fn render_simple_elements() {
    assert_eq!(PromptElement::Username.render(), "%n");
    assert_eq!(PromptElement::Hostname.render(), "%m");
    assert_eq!(PromptElement::Path.render(), "%~");
    assert_eq!(PromptElement::UserOrRoot.render(), "%#");
    assert_eq!(PromptElement::LastExit.render(), "%?");
    assert_eq!(PromptElement::Lit('x').render(), "x");
    assert_eq!(PromptElement::Lit(')').render(), "%)");
    assert_eq!(PromptElement::Literal(String::from("50%)")).render(), "50%%%)");
}

#[test]
fn render_psvar() {
    assert_eq!(PromptElement::PsVar(1).render(), "%1v");
    assert_eq!(PromptElement::PsVar(12).render(), "%12v");
    assert_eq!(PromptElement::PsVar(255).render(), "%255v");
    assert_eq!(PromptElement::PsVar(0).render(), "%0v");
}

#[test]
fn render_bold_wraps_children() {
    let e = PromptElement::Bold(vec![PromptElement::Username, PromptElement::Hostname]);
    assert_eq!(e.render(), "%B%n%m%b");
}

#[test]
fn render_underline_wraps_children() {
    let e = PromptElement::Underline(vec![PromptElement::Path]);
    assert_eq!(e.render(), "%U%~%u");
}

#[test]
fn render_foreground_wraps_children() {
    let e = PromptElement::Foreground(Colour::Red, vec![PromptElement::Hostname]);
    assert_eq!(e.render(), "%F{red}%m%f");
}

#[test]
fn render_background_wraps_children() {
    let e = PromptElement::Background(Colour::Cyan, vec![]);
    assert_eq!(e.render(), "%K{cyan}%k");
}

#[test]
fn render_all_colour_names() {
    let cases = [
        (Colour::Black, "black"),
        (Colour::Red, "red"),
        (Colour::Green, "green"),
        (Colour::Yellow, "yellow"),
        (Colour::Blue, "blue"),
        (Colour::Magenta, "magenta"),
        (Colour::Cyan, "cyan"),
        (Colour::White, "white"),
    ];
    for (c, name) in cases {
        assert_eq!(c.name(), name);
    }
}

#[test]
fn render_ternary_var_is_set() {
    let e = PromptElement::Ternary(
        TernaryTest::PsVarSet(5),
        vec![PromptElement::Hostname],
        vec![PromptElement::Path],
    );
    assert_eq!(e.render(), "%(5V.%m.%~)");
}

#[test]
fn render_ternary_exit_code() {
    let e = PromptElement::Ternary(TernaryTest::ExitCode(0), vec![], vec![]);
    assert_eq!(e.render(), "%(0?..)");
}

#[test]
fn render_nested_ternary() {
    let inner = PromptElement::Ternary(
        TernaryTest::PsVarSet(8),
        vec![PromptElement::PsVar(8), PromptElement::Lit(' ')],
        vec![],
    );
    let e = PromptElement::Foreground(
        Colour::Yellow,
        vec![PromptElement::Lit('['), inner, PromptElement::PsVar(3), PromptElement::Lit(']')],
    );
    assert_eq!(e.render(), "%F{yellow}[%(8V.%8v .)%3v]%f");
}

#[test]
fn default_left_prompt_renders() {
    let config = Config::default();
    assert_eq!(
        config.left_prompt(),
        "%(5V.%F{red}%m%f.%m)%(1V.%F{blue}(%1v%)%f.)%(6V.(%6v%).)%# "
    );
}

#[test]
fn default_right_prompt_renders() {
    let config = Config::default();
    assert_eq!(
        config.right_prompt(),
        "%(1V.%2v%F{yellow}[%(8V.%8v .)%3v]%f%4v.%~)"
    );
}
