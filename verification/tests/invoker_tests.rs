use yeti::config::ServerConfig;
use yeti::invoker::{
    conclude, library_report, plan, process_arguments, Backend, BuildConfig, BuildPlan,
    CompilerReport, COMPILER_PROGRAM,
};

fn config(stop_on_error: bool, backend: Backend) -> BuildConfig {
    BuildConfig {
        input_path: "main.scss".to_string(),
        output_path: "main.css".to_string(),
        stop_on_error,
        backend,
    }
}

fn lines(texts: &[&str]) -> Vec<String> {
    texts.iter().map(|t| t.to_string()).collect()
}

#[test]
fn arguments_with_the_stop_flag() {
    assert_eq!(
        process_arguments(&config(true, Backend::ExternalProcess)),
        lines(&["--stop-on-error", "main.scss:main.css", "--style=compressed", "--no-source-map"])
    );
}

#[test]
fn arguments_without_the_stop_flag() {
    assert_eq!(
        process_arguments(&config(false, Backend::ExternalProcess)),
        lines(&["main.scss:main.css", "--style=compressed", "--no-source-map"])
    );
}

#[test]
fn the_target_is_kept_even_where_both_paths_are_empty() {
    let empty = BuildConfig {
        input_path: String::new(),
        output_path: String::new(),
        stop_on_error: false,
        backend: Backend::ExternalProcess,
    };
    assert_eq!(
        process_arguments(&empty),
        lines(&[":", "--style=compressed", "--no-source-map"])
    );
}

#[test]
fn the_external_backend_spawns_the_compiler() {
    match plan(&config(true, Backend::ExternalProcess)) {
        BuildPlan::Spawn { program, arguments } => {
            assert_eq!(program, "sass");
            assert_eq!(program, COMPILER_PROGRAM);
            assert_eq!(arguments.len(), 4);
            assert_eq!(arguments[1], "main.scss:main.css");
        }
        other => panic!("unexpected plan {:?}", other),
    }
}

#[test]
fn the_library_backend_compiles_in_process() {
    match plan(&config(true, Backend::InProcessLibrary)) {
        BuildPlan::Compile { input_path, output_path } => {
            assert_eq!(input_path, "main.scss");
            assert_eq!(output_path, "main.css");
        }
        other => panic!("unexpected plan {:?}", other),
    }
}

#[test]
fn settings_select_the_backend() {
    let mut settings = ServerConfig::default_values();
    let external = BuildConfig::from_settings(&settings);
    assert_eq!(external.input_path, "scss/main.scss");
    assert_eq!(external.output_path, "dist/main.css");
    assert!(external.stop_on_error);
    assert_eq!(external.backend, Backend::ExternalProcess);
    settings.experimental = true;
    settings.stop_on_error = false;
    let library = BuildConfig::from_settings(&settings);
    assert!(!library.stop_on_error);
    assert_eq!(library.backend, Backend::InProcessLibrary);
}

#[test]
fn a_diagnostic_fails_a_build_that_stops_on_errors() {
    for exit_code in [Some(0), Some(1), Some(65), Some(-1), None] {
        let report = CompilerReport::ProcessExited {
            diagnostics: lines(&["Error: expected \"}\"."]),
            exit_code,
        };
        let outcome = conclude(true, report, 12);
        assert!(!outcome.succeeded);
        assert_eq!(outcome.diagnostics, lines(&["Error: expected \"}\"."]));
        assert_eq!(outcome.elapsed_millis, 12);
    }
}

#[test]
fn diagnostics_do_not_fail_a_build_that_goes_on() {
    for exit_code in [Some(0), Some(1), Some(65), None] {
        let report = CompilerReport::ProcessExited {
            diagnostics: lines(&["Warning: deprecated", "Error: undefined variable"]),
            exit_code,
        };
        let outcome = conclude(false, report, 1);
        assert!(outcome.succeeded);
        assert_eq!(
            outcome.diagnostics,
            lines(&["Warning: deprecated", "Error: undefined variable"])
        );
    }
}

#[test]
fn a_silent_compiler_has_succeeded() {
    for stop_on_error in [true, false] {
        for exit_code in [Some(0), Some(2), None] {
            let report = CompilerReport::ProcessExited { diagnostics: Vec::new(), exit_code };
            let outcome = conclude(stop_on_error, report, 40);
            assert!(outcome.succeeded);
            assert!(outcome.diagnostics.is_empty());
            assert_eq!(outcome.elapsed_millis, 40);
        }
    }
}

#[test]
fn a_compiler_that_cannot_be_launched_fails_the_build() {
    for stop_on_error in [true, false] {
        let report = CompilerReport::SpawnFailed {
            reason: "No such file or directory (os error 2)".to_string(),
        };
        let outcome = conclude(stop_on_error, report, 0);
        assert!(!outcome.succeeded);
        assert_eq!(outcome.diagnostics, lines(&["No such file or directory (os error 2)"]));
        assert_eq!(outcome.elapsed_millis, 0);
    }
}

#[test]
fn a_library_error_is_the_one_diagnostic() {
    for stop_on_error in [true, false] {
        let report = library_report(Err("Error: Undefined variable.".to_string()));
        let outcome = conclude(stop_on_error, report, 3);
        assert!(!outcome.succeeded);
        assert_eq!(outcome.diagnostics, lines(&["Error: Undefined variable."]));
    }
}

#[test]
fn a_compiled_stylesheet_is_a_success() {
    for stop_on_error in [true, false] {
        let report = library_report(Ok("a{b:c}".to_string()));
        match &report {
            CompilerReport::LibraryCompiled { css } => assert_eq!(css, "a{b:c}"),
            other => panic!("unexpected report {:?}", other),
        }
        let outcome = conclude(stop_on_error, report, u128::MAX);
        assert!(outcome.succeeded);
        assert!(outcome.diagnostics.is_empty());
        assert_eq!(outcome.elapsed_millis, u128::MAX);
    }
}
