use cmake_init::project::{configure_arguments, link_arguments, App, SetupError, Step};
use cmake_init::reply::{is_decline, normalize_reply};
use cmake_init::template::{clang_tidy_config, get_cmake_file, main_source};

fn s(text: &str) -> String {
    text.to_string()
}

fn scaffold_for_demo() -> Vec<Step> {
    vec![
        Step::CreateDir(s("src")),
        Step::CreateDir(s("build")),
        Step::CreateDir(s("deps")),
        Step::WriteFile(s("deps/CMakeLists.txt"), s("")),
        Step::WriteFile(s("CMakeLists.txt"), get_cmake_file("demo", 20)),
        Step::WriteFile(s("src/main.cpp"), main_source()),
        Step::Run {
            dir: s("build"),
            program: s("cmake"),
            args: vec![s("-DCMAKE_EXPORT_COMPILE_COMMANDS=ON"), s("-DCMAKE_BUILD_TYPE=Debug"), s("..")],
        },
        Step::Run {
            dir: s(""),
            program: s("ln"),
            args: vec![s("-s"), s("build/compile_commands.json")],
        },
    ]
}

#[test]
fn normalize_reply_trims_the_end_and_lowercases() {
    assert_eq!(normalize_reply("N\n"), "n");
    assert_eq!(normalize_reply("n \t\r\n"), "n");
    assert_eq!(normalize_reply("  Yes \n"), "  yes");
    assert_eq!(normalize_reply(""), "");
}

#[test]
fn only_a_bare_n_declines() {
    assert!(is_decline("n"));
    assert!(!is_decline(""));
    assert!(!is_decline("y"));
    assert!(!is_decline("no"));
    assert!(!is_decline(" n"));
    assert!(!is_decline("N"));
}

#[test]
fn fixed_arguments_of_the_external_runs() {
    assert_eq!(
        configure_arguments(),
        vec![s("-DCMAKE_EXPORT_COMPILE_COMMANDS=ON"), s("-DCMAKE_BUILD_TYPE=Debug"), s("..")]
    );
    assert_eq!(link_arguments(), vec![s("-s"), s("build/compile_commands.json")]);
}

#[test]
fn fresh_demo_project_plan() {
    let app = App::new(s("demo"), 20, false);
    let mut expected = vec![Step::CreateRoot];
    expected.extend(scaffold_for_demo());
    assert_eq!(app.setup_plan(false, ""), Ok(expected));
}

#[test]
fn fresh_root_creates_only_the_three_subdirectories() {
    let app = App::new(s("demo"), 20, true);
    let steps = app.setup_plan(false, "").unwrap();
    let dirs: Vec<&String> = steps
        .iter()
        .filter_map(|step| match step {
            Step::CreateDir(p) => Some(p),
            _ => None,
        })
        .collect();
    assert_eq!(dirs, vec!["src", "build", "deps"]);
    assert!(!steps.contains(&Step::RemoveRoot));
    assert_eq!(steps.iter().filter(|step| **step == Step::CreateRoot).count(), 1);
}

#[test]
fn existing_root_declined_is_refused() {
    let app = App::new(s("demo"), 20, false);
    assert_eq!(app.setup_plan(true, "n\n"), Err(SetupError::Declined));
    assert_eq!(app.setup_plan(true, "N"), Err(SetupError::Declined));
    assert_eq!(app.plan_with_reply(true, "n"), Err(SetupError::Declined));
}

#[test]
fn existing_root_with_other_answer_is_rebuilt() {
    let app = App::new(s("demo"), 20, false);
    let mut expected = vec![Step::RemoveRoot, Step::CreateRoot];
    expected.extend(scaffold_for_demo());
    for reply in ["", "\n", "Y", "y\n", "yes", "no"] {
        assert_eq!(app.setup_plan(true, reply), Ok(expected.clone()), "reply {:?}", reply);
    }
}

#[test]
fn unsupported_version_is_refused_before_anything() {
    let app = App::new(s("demo"), 99, false);
    assert_eq!(app.setup_plan(false, ""), Err(SetupError::UnsupportedVersion));
    assert_eq!(app.setup_plan(true, "y"), Err(SetupError::UnsupportedVersion));
    assert_eq!(app.setup_plan(true, "n"), Err(SetupError::UnsupportedVersion));
}

#[test]
fn analysis_flag_writes_clang_tidy_last() {
    let app = App::new(s("demo"), 20, true);
    let steps = app.setup_plan(false, "").unwrap();
    assert_eq!(steps.last(), Some(&Step::WriteFile(s(".clang-tidy"), clang_tidy_config())));
    let without = App::new(s("demo"), 20, false).setup_plan(false, "").unwrap();
    assert!(without
        .iter()
        .all(|step| !matches!(step, Step::WriteFile(p, _) if p == ".clang-tidy")));
    assert_eq!(steps.len(), without.len() + 1);
}
