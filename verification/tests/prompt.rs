use rush_console::prompt::{assemble_prompt, generate_prompt, ShellContext};

fn context(multi_line_prompt: bool, success: bool) -> ShellContext {
    ShellContext {
        user: String::from("ada"),
        cwd: String::from("~/s/rush"),
        multi_line_prompt,
        success,
    }
}

#[test]
fn prompt_on_one_row() {
    assert_eq!(
        assemble_prompt("ada", "~/s/rush", false, "\u{276f}"),
        "\r\nada on ~/s/rush \u{276f} "
    );
}

#[test]
fn prompt_on_two_rows() {
    assert_eq!(
        assemble_prompt("ada", "~/s/rush", true, "\u{276f}"),
        "\r\nada on ~/s/rush\r\n\u{276f} "
    );
}

#[test]
fn prompt_of_empty_parts() {
    assert_eq!(assemble_prompt("", "", false, ""), "\r\n on   ");
    assert_eq!(assemble_prompt("", "", true, ""), "\r\n on \r\n ");
}

#[test]
fn generated_prompt_has_the_layout() {
    let prompt = generate_prompt(&context(false, true));
    assert!(prompt.starts_with("\r\n"));
    assert!(prompt.ends_with(' '));
    let user = prompt.find("ada").expect("the user is shown");
    let on = prompt.find(" on ").expect("the word between the two");
    let cwd = prompt.find("~/s/rush").expect("the directory is shown");
    let tick = prompt.find('\u{276f}').expect("the tick is shown");
    assert!(user < on && on < cwd && cwd < tick);
    assert_eq!(prompt.matches("\r\n").count(), 1);
}

#[test]
fn generated_prompt_on_two_rows_breaks_before_the_tick() {
    let prompt = generate_prompt(&context(true, true));
    assert_eq!(prompt.matches("\r\n").count(), 2);
    let cwd = prompt.find("~/s/rush").expect("the directory is shown");
    let second_break = prompt.rfind("\r\n").expect("the break before the tick");
    let tick = prompt.find('\u{276f}').expect("the tick is shown");
    assert!(cwd < second_break && second_break < tick);
}

#[test]
fn generated_prompt_is_the_same_each_time() {
    assert_eq!(
        generate_prompt(&context(false, true)),
        generate_prompt(&context(false, true))
    );
    assert_eq!(
        generate_prompt(&context(true, false)),
        generate_prompt(&context(true, false))
    );
}

#[test]
fn generated_prompt_marks_the_parts() {
    let prompt = generate_prompt(&context(false, true));
    assert_ne!(prompt, assemble_prompt("ada", "~/s/rush", false, "\u{276f}"));
    assert_ne!(prompt, generate_prompt(&context(false, false)));
}

#[test]
fn generated_prompt_after_success_on_one_row() {
    assert_eq!(
        generate_prompt(&context(false, true)),
        "\r\n\u{1b}[38;5;4mada\u{1b}[39m on \u{1b}[38;5;2m~/s/rush\u{1b}[39m \u{1b}[38;5;10m\u{1b}[1m\u{276f}\u{1b}[0m "
    );
}

#[test]
fn generated_prompt_after_failure_on_two_rows() {
    assert_eq!(
        generate_prompt(&context(true, false)),
        "\r\n\u{1b}[38;5;4mada\u{1b}[39m on \u{1b}[38;5;2m~/s/rush\u{1b}[39m\r\n\u{1b}[38;5;9m\u{1b}[1m\u{276f}\u{1b}[0m "
    );
}

#[test]
fn generated_prompts_differ_only_in_the_colour_of_the_tick() {
    let good = generate_prompt(&context(false, true));
    let bad = generate_prompt(&context(false, false));
    let before = "\r\n\u{1b}[38;5;4mada\u{1b}[39m on \u{1b}[38;5;2m~/s/rush\u{1b}[39m ";
    let after = "\u{1b}[1m\u{276f}\u{1b}[0m ";
    assert_eq!(good, format!("{}\u{1b}[38;5;10m{}", before, after));
    assert_eq!(bad, format!("{}\u{1b}[38;5;9m{}", before, after));
}

#[test]
fn generated_prompt_takes_user_and_directory_from_the_context() {
    let context = ShellContext {
        user: String::from("root"),
        cwd: String::from("/"),
        multi_line_prompt: false,
        success: true,
    };
    assert_eq!(
        generate_prompt(&context),
        "\r\n\u{1b}[38;5;4mroot\u{1b}[39m on \u{1b}[38;5;2m/\u{1b}[39m \u{1b}[38;5;10m\u{1b}[1m\u{276f}\u{1b}[0m "
    );
}
