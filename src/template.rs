use vstd::prelude::*;

verus! {

/// The character of a decimal digit `d` (below ten).
pub open spec fn digit_char(d: nat) -> char {
    if d == 0 {
        '0'
    } else if d == 1 {
        '1'
    } else if d == 2 {
        '2'
    } else if d == 3 {
        '3'
    } else if d == 4 {
        '4'
    } else if d == 5 {
        '5'
    } else if d == 6 {
        '6'
    } else if d == 7 {
        '7'
    } else if d == 8 {
        '8'
    } else {
        '9'
    }
}

/// The decimal notation of `n`, without leading zeros.
pub open spec fn decimal_digits(n: nat) -> Seq<char>
    decreases n,
{
    if n < 10 {
        seq![digit_char(n)]
    } else {
        decimal_digits(n / 10).push(digit_char(n % 10))
    }
}

/// The declaration of the project's name.
pub open spec fn project_decl(name: Seq<char>) -> Seq<char> {
    "project("@ + name + ")"@
}

/// The declaration of the language standard the project is built with.
pub open spec fn standard_decl(version: nat) -> Seq<char> {
    "set(CMAKE_CXX_STANDARD "@ + decimal_digits(version) + ")"@
}

/// The single executable target, built from the placeholder source.
pub open spec fn target_decl(name: Seq<char>) -> Seq<char> {
    "add_executable("@ + name + " src/main.cpp)"@
}

/// The build configuration of a project: minimum tool version, project name,
/// language standard, strict warnings, the `deps` unit and the executable.
pub open spec fn build_config_text(name: Seq<char>, version: nat) -> Seq<char> {
    "cmake_minimum_required(VERSION 3.26.3)\n\n"@ + project_decl(name) + "\n\n"@
        + standard_decl(version)
        + "\nset(CMAKE_CXX_FLAGS \"${CMAKE_CXX_FLAGS} -Wall -Wextra -Werror -Wpedantic\")\n\nadd_subdirectory(deps)\n"@
        + target_decl(name)
}

/// `part` occurs in `text` as a contiguous run of characters.
pub open spec fn occurs_in(part: Seq<char>, text: Seq<char>) -> bool {
    exists|i: int| 0 <= i && i + part.len() <= text.len() && #[trigger] text.subrange(i, i + part.len()) == part
}

fn digit_text(d: u8) -> (r: &'static str)
    requires
        d < 10,
    ensures
        r@ == seq![digit_char(d as nat)],
{
    proof {
        reveal_strlit("0");
        reveal_strlit("1");
        reveal_strlit("2");
        reveal_strlit("3");
        reveal_strlit("4");
        reveal_strlit("5");
        reveal_strlit("6");
        reveal_strlit("7");
        reveal_strlit("8");
        reveal_strlit("9");
    }
    let r = if d == 0 {
        "0"
    } else if d == 1 {
        "1"
    } else if d == 2 {
        "2"
    } else if d == 3 {
        "3"
    } else if d == 4 {
        "4"
    } else if d == 5 {
        "5"
    } else if d == 6 {
        "6"
    } else if d == 7 {
        "7"
    } else if d == 8 {
        "8"
    } else {
        "9"
    };
    assert(r@ =~= seq![digit_char(d as nat)]);
    r
}

/// Writes `n` in decimal notation.
pub fn decimal_text(n: u8) -> (r: String)
    ensures
        r@ == decimal_digits(n as nat),
{
    let mut out = String::new();
    if n >= 100 {
        out.append(digit_text(n / 100));
    }
    if n >= 10 {
        out.append(digit_text((n / 10) % 10));
    }
    out.append(digit_text(n % 10));
    proof {
        let v = n as nat;
        if v >= 100 {
            assert(v / 10 / 10 == v / 100);
            assert(decimal_digits(v / 100) == seq![digit_char(v / 100)]);
            assert(decimal_digits(v / 10) == decimal_digits(v / 100).push(digit_char((v / 10) % 10)));
        } else if v >= 10 {
            assert(decimal_digits(v / 10) == seq![digit_char(v / 10)]);
        }
        assert(out@ =~= decimal_digits(v));
    }
    out
}

/// The fixed rule set written for the static-analysis tool.
pub open spec fn clang_tidy_text() -> Seq<char> {
    CLANG_TIDY_RULES@
}

/// The placeholder program that makes a fresh project build.
pub open spec fn main_source_text() -> Seq<char> {
    MAIN_SOURCE@
}

/// The static-analysis rule document.
pub const CLANG_TIDY_RULES: &'static str = "
---
Checks: '-*,
bugprone-argument-comment,
bugprone-assert-side-effect,
bugprone-bad-signal-to-kill-thread,
bugprone-branch-clone,
bugprone-copy-constructor-init,
bugprone-dangling-handle,
bugprone-dynamic-static-initializers,
bugprone-fold-init-type,
bugprone-forward-declaration-namespace,
bugprone-forwarding-reference-overload,
bugprone-inaccurate-erase,
bugprone-incorrect-roundings,
bugprone-integer-division,
bugprone-lambda-function-name,
bugprone-macro-parentheses,
bugprone-macro-repeated-side-effects,
bugprone-misplaced-operator-in-strlen-in-alloc,
bugprone-misplaced-pointer-arithmetic-in-alloc,
bugprone-misplaced-widening-cast,
bugprone-move-forwarding-reference,
bugprone-multiple-statement-macro,
bugprone-no-escape,
bugprone-not-null-terminated-result,
bugprone-parent-virtual-call,
bugprone-posix-return,
bugprone-reserved-identifier,
bugprone-sizeof-container,
bugprone-sizeof-expression,
bugprone-spuriously-wake-up-functions,
bugprone-string-constructor,
bugprone-string-integer-assignment,
bugprone-string-literal-with-embedded-nul,
bugprone-suspicious-enum-usage,
bugprone-suspicious-include,
bugprone-suspicious-memory-comparison,
bugprone-suspicious-memset-usage,
bugprone-suspicious-missing-comma,
bugprone-suspicious-semicolon,
bugprone-suspicious-string-compare,
bugprone-swapped-arguments,
bugprone-terminating-continue,
bugprone-throw-keyword-missing,
bugprone-too-small-loop-variable,
bugprone-undefined-memory-manipulation,
bugprone-undelegated-constructor,
bugprone-unhandled-self-assignment,
bugprone-unused-raii,
bugprone-unused-return-value,
bugprone-use-after-move,
bugprone-virtual-near-miss,
cert-dcl21-cpp,
cert-dcl58-cpp,
cert-err34-c,
cert-err52-cpp,
cert-err60-cpp,
cert-flp30-c,
cert-msc50-cpp,
cert-msc51-cpp,
cert-str34-c,
cppcoreguidelines-interfaces-global-init,
cppcoreguidelines-narrowing-conversions,
cppcoreguidelines-pro-type-member-init,
cppcoreguidelines-pro-type-static-cast-downcast,
cppcoreguidelines-slicing,
google-default-arguments,
google-explicit-constructor,
google-runtime-operator,
hicpp-exception-baseclass,
hicpp-multiway-paths-covered,
misc-misplaced-const,
misc-new-delete-overloads,
misc-no-recursion,
misc-non-copyable-objects,
misc-throw-by-value-catch-by-reference,
misc-unconventional-assign-operator,
misc-uniqueptr-reset-release,
modernize-avoid-bind,
modernize-concat-nested-namespaces,
modernize-deprecated-headers,
modernize-deprecated-ios-base-aliases,
modernize-loop-convert,
modernize-make-shared,
modernize-make-unique,
modernize-pass-by-value,
modernize-raw-string-literal,
modernize-redundant-void-arg,
modernize-replace-auto-ptr,
modernize-replace-disallow-copy-and-assign-macro,
modernize-replace-random-shuffle,
modernize-return-braced-init-list,
modernize-shrink-to-fit,
modernize-unary-static-assert,
modernize-use-auto,
modernize-use-bool-literals,
modernize-use-emplace,
modernize-use-equals-default,
modernize-use-equals-delete,
modernize-use-nodiscard,
modernize-use-noexcept,
modernize-use-nullptr,
modernize-use-override,
modernize-use-transparent-functors,
modernize-use-uncaught-exceptions,
mpi-buffer-deref,
mpi-type-mismatch,
openmp-use-default-none,
performance-faster-string-find,
performance-for-range-copy,
performance-implicit-conversion-in-loop,
performance-inefficient-algorithm,
performance-inefficient-string-concatenation,
performance-inefficient-vector-operation,
performance-move-const-arg,
performance-move-constructor-init,
performance-no-automatic-move,
performance-noexcept-move-constructor,
performance-trivially-destructible,
performance-type-promotion-in-math-fn,
performance-unnecessary-copy-initialization,
performance-unnecessary-value-param,
portability-simd-intrinsics,
readability-avoid-const-params-in-decls,
readability-const-return-type,
readability-container-size-empty,
readability-convert-member-functions-to-static,
readability-delete-null-pointer,
readability-deleted-default,
readability-inconsistent-declaration-parameter-name,
readability-make-member-function-const,
readability-misleading-indentation,
readability-misplaced-array-index,
readability-non-const-parameter,
readability-redundant-control-flow,
readability-redundant-declaration,
readability-redundant-function-ptr-dereference,
readability-redundant-smartptr-get,
readability-redundant-string-cstr,
readability-redundant-string-init,
readability-simplify-subscript-expr,
readability-static-accessed-through-instance,
readability-static-definition-in-anonymous-namespace,
readability-string-compare,
readability-uniqueptr-delete-release,
readability-use-anyofallof'
";

/// A "hello world" program in the project's language.
pub const MAIN_SOURCE: &'static str = "#include <iostream>\n\nint main() {\n    std::cout << \"Hello World\\n\";\n    return 0;\n}";

/// Renders the build configuration of project `project_name` for the
/// language standard `cpp_version`; the name is embedded verbatim.
pub fn get_cmake_file(project_name: &str, cpp_version: u8) -> (r: String)
    ensures
        r@ == build_config_text(project_name@, cpp_version as nat),
{
    let mut out = String::from_str("cmake_minimum_required(VERSION 3.26.3)\n\n");
    out.append("project(");
    out.append(project_name);
    out.append(")");
    out.append("\n\n");
    out.append("set(CMAKE_CXX_STANDARD ");
    let digits = decimal_text(cpp_version);
    out.append(digits.as_str());
    out.append(")");
    out.append(
        "\nset(CMAKE_CXX_FLAGS \"${CMAKE_CXX_FLAGS} -Wall -Wextra -Werror -Wpedantic\")\n\nadd_subdirectory(deps)\n",
    );
    out.append("add_executable(");
    out.append(project_name);
    out.append(" src/main.cpp)");
    assert(out@ =~= build_config_text(project_name@, cpp_version as nat));
    out
}

/// The placeholder source file's content.
pub fn main_source() -> (r: String)
    ensures
        r@ == main_source_text(),
{
    String::from_str(MAIN_SOURCE)
}

/// The static-analysis configuration file's content.
pub fn clang_tidy_config() -> (r: String)
    ensures
        r@ == clang_tidy_text(),
{
    String::from_str(CLANG_TIDY_RULES)
}

/// The build configuration names the project and declares the requested
/// standard, each as a contiguous line of the document.
pub proof fn build_config_declares_project_and_standard(name: Seq<char>, version: nat)
    ensures
        occurs_in(project_decl(name), build_config_text(name, version)),
        occurs_in(standard_decl(version), build_config_text(name, version)),
{
    let head = "cmake_minimum_required(VERSION 3.26.3)\n\n"@;
    let sep = "\n\n"@;
    let text = build_config_text(name, version);
    let p = project_decl(name);
    let s = standard_decl(version);
    let i = head.len() as int;
    let j = i + p.len() + sep.len();
    assert(text.subrange(i, i + p.len()) =~= p);
    assert(text.subrange(j, j + s.len()) =~= s);
}

/// Rendering is a function of the name and the version alone: two renderings
/// of the same inputs are identical.
pub proof fn build_config_is_deterministic(name: Seq<char>, version: nat, first: Seq<char>, second: Seq<char>)
    requires
        first == build_config_text(name, version),
        second == build_config_text(name, version),
    ensures
        first == second,
{
}

} // verus!
