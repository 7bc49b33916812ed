use cmake_init::project::App;
use cmake_init::template::{clang_tidy_config, decimal_text, get_cmake_file, main_source, CLANG_TIDY_RULES};

#[test]
fn decimal_text_writes_each_width() {
    assert_eq!(decimal_text(0), "0");
    assert_eq!(decimal_text(7), "7");
    assert_eq!(decimal_text(20), "20");
    assert_eq!(decimal_text(100), "100");
    assert_eq!(decimal_text(255), "255");
}

#[test]
fn build_config_for_demo_names_project_and_standard() {
    let text = get_cmake_file("demo", 20);
    assert!(text.contains("project(demo)"));
    assert!(text.contains("set(CMAKE_CXX_STANDARD 20)"));
    assert!(text.contains("add_subdirectory(deps)"));
    assert!(text.contains("add_executable(demo src/main.cpp)"));
}

#[test]
fn build_config_exact_text() {
    let expected = "cmake_minimum_required(VERSION 3.26.3)\n\nproject(demo)\n\nset(CMAKE_CXX_STANDARD 20)\nset(CMAKE_CXX_FLAGS \"${CMAKE_CXX_FLAGS} -Wall -Wextra -Werror -Wpedantic\")\n\nadd_subdirectory(deps)\nadd_executable(demo src/main.cpp)";
    assert_eq!(get_cmake_file("demo", 20), expected);
}

#[test]
fn build_config_is_repeatable() {
    assert_eq!(get_cmake_file("demo", 20), get_cmake_file("demo", 20));
    let app = App::new("demo".to_string(), 20, false);
    assert_eq!(app.get_cmake_file_content(), get_cmake_file("demo", 20));
}

#[test]
fn build_config_embeds_name_verbatim() {
    let text = get_cmake_file("my app", 11);
    assert!(text.contains("project(my app)"));
    assert!(text.contains("set(CMAKE_CXX_STANDARD 11)"));
}

#[test]
fn main_source_is_hello_world() {
    let src = main_source();
    assert!(src.starts_with("#include <iostream>"));
    assert!(src.contains("std::cout << \"Hello World\\n\";"));
    assert!(src.ends_with("}"));
}

#[test]
fn clang_tidy_config_is_the_fixed_rule_document() {
    let text = clang_tidy_config();
    assert_eq!(text, CLANG_TIDY_RULES);
    assert!(text.starts_with("\n---\nChecks: '-*,\nbugprone-argument-comment,\n"));
    assert!(text.ends_with("readability-use-anyofallof'\n"));
    assert_eq!(text.lines().count(), 147);
    assert_eq!(text.len(), 4567);
}
