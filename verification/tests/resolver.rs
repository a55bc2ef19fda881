use std::collections::HashMap;

use spirv_compiler::resolver::MAX_INCLUDE_DEPTH;
use spirv_compiler::{Compiler, IncludeType, Resolution, ResolveError, ResolvedInclude};

fn files(entries: &[(&str, &str)]) -> HashMap<String, String> {
    entries.iter().map(|(path, text)| (path.to_string(), text.to_string())).collect()
}

fn dirs(names: &[&str]) -> Vec<String> {
    names.iter().map(|name| name.to_string()).collect()
}

/// Runs a resolution against `files`; gives its end and the paths tried.
fn resolve(
    files: &HashMap<String, String>,
    dirs: &[String],
    requested: &str,
    style: IncludeType,
    requesting: &str,
    depth: usize,
) -> (Result<ResolvedInclude, ResolveError>, Vec<String>) {
    let mut tried = Vec::new();
    let mut state = Compiler::include_callback(dirs, requested, style, requesting, depth);
    loop {
        match state {
            Resolution::Done(end) => return (end, tried),
            Resolution::Probe(lookup) => {
                tried.push(lookup.path().to_string());
                let content = files.get(lookup.path()).cloned();
                state = lookup.advance(content);
            }
        }
    }
}

fn found(path: &str, content: &str) -> Result<ResolvedInclude, ResolveError> {
    Ok(ResolvedInclude { resolved_name: path.to_string(), content: content.to_string() })
}

fn not_found(requested: &str) -> Result<ResolvedInclude, ResolveError> {
    Err(ResolveError::NotFound { requested: requested.to_string() })
}

#[test]
fn relative_prefers_the_file_beside_the_source() {
    let files = files(&[
        ("shaders/common.glsl", "beside"),
        ("lib/common.glsl", "library"),
        ("other/common.glsl", "other"),
    ]);
    let (end, tried) = resolve(
        &files,
        &dirs(&["lib", "other"]),
        "common.glsl",
        IncludeType::Relative,
        "shaders/a.vert",
        1,
    );
    assert_eq!(end, found("shaders/common.glsl", "beside"));
    assert_eq!(tried, vec!["shaders/common.glsl"]);
}

#[test]
fn relative_falls_back_to_the_search_path() {
    let files = files(&[("lib/common.glsl", "library"), ("other/common.glsl", "other")]);
    let (end, tried) = resolve(
        &files,
        &dirs(&["lib", "other"]),
        "common.glsl",
        IncludeType::Relative,
        "shaders/a.vert",
        1,
    );
    assert_eq!(end, found("lib/common.glsl", "library"));
    assert_eq!(tried, vec!["shaders/common.glsl", "lib/common.glsl"]);
}

#[test]
fn standard_ignores_the_file_beside_the_source() {
    let files = files(&[("shaders/common.glsl", "beside"), ("lib/common.glsl", "library")]);
    let (end, tried) = resolve(
        &files,
        &dirs(&["lib"]),
        "common.glsl",
        IncludeType::Standard,
        "shaders/a.vert",
        1,
    );
    assert_eq!(end, found("lib/common.glsl", "library"));
    assert_eq!(tried, vec!["lib/common.glsl"]);
}

#[test]
fn standard_takes_the_first_directory_in_configured_order() {
    let files = files(&[("second/x.glsl", "2"), ("third/x.glsl", "3")]);
    let order = dirs(&["first", "second", "third"]);
    let (end, tried) = resolve(&files, &order, "x.glsl", IncludeType::Standard, "a.vert", 1);
    assert_eq!(end, found("second/x.glsl", "2"));
    assert_eq!(tried, vec!["first/x.glsl", "second/x.glsl"]);

    let reversed = dirs(&["third", "second", "first"]);
    let (end, tried) = resolve(&files, &reversed, "x.glsl", IncludeType::Standard, "a.vert", 1);
    assert_eq!(end, found("third/x.glsl", "3"));
    assert_eq!(tried, vec!["third/x.glsl"]);

    for _ in 0..3 {
        let (again, _) = resolve(&files, &order, "x.glsl", IncludeType::Standard, "a.vert", 1);
        assert_eq!(again, found("second/x.glsl", "2"));
    }
}

#[test]
fn missing_file_is_reported_by_its_requested_name() {
    let files = files(&[("lib/other.glsl", "text")]);
    let (end, tried) = resolve(
        &files,
        &dirs(&["lib", "more"]),
        "missing.glsl",
        IncludeType::Relative,
        "shaders/b.vert",
        1,
    );
    assert_eq!(end, not_found("missing.glsl"));
    assert_eq!(tried, vec!["shaders/missing.glsl", "lib/missing.glsl", "more/missing.glsl"]);
    assert_eq!(end.unwrap_err().to_string(), "Could not find file: missing.glsl");
}

#[test]
fn nothing_to_try_is_not_found() {
    let state =
        Compiler::include_callback(&[], "missing.glsl", IncludeType::Standard, "b.vert", 0);
    match state {
        Resolution::Done(end) => assert_eq!(end, not_found("missing.glsl")),
        Resolution::Probe(lookup) => panic!("unexpected probe of {}", lookup.path()),
    }
}

#[test]
fn relative_without_search_path_tries_only_beside_the_source() {
    let (end, tried) =
        resolve(&files(&[]), &[], "missing.glsl", IncludeType::Relative, "b.vert", 1);
    assert_eq!(end, not_found("missing.glsl"));
    assert_eq!(tried, vec!["missing.glsl"]);
}

#[test]
fn source_without_a_directory_has_nothing_beside_it() {
    let files = files(&[("lib/x.glsl", "library"), ("x.glsl", "here")]);
    let (end, tried) = resolve(&files, &dirs(&["lib"]), "x.glsl", IncludeType::Relative, "", 1);
    assert_eq!(end, found("lib/x.glsl", "library"));
    assert_eq!(tried, vec!["lib/x.glsl"]);

    let (end, tried) = resolve(&files, &dirs(&["lib"]), "x.glsl", IncludeType::Relative, "/", 1);
    assert_eq!(end, found("lib/x.glsl", "library"));
    assert_eq!(tried, vec!["lib/x.glsl"]);
}

#[test]
fn depth_bound_refuses_whatever_exists() {
    let files = files(&[("shaders/x.glsl", "beside"), ("lib/x.glsl", "library")]);
    for style in [IncludeType::Relative, IncludeType::Standard] {
        for depth in [32, 33, 1000, usize::MAX] {
            let (end, tried) =
                resolve(&files, &dirs(&["lib"]), "x.glsl", style, "shaders/a.vert", depth);
            assert_eq!(end, Err(ResolveError::DepthExceeded { depth }));
            assert!(tried.is_empty());
        }
    }
    assert_eq!(MAX_INCLUDE_DEPTH, 32);
    assert_eq!(
        ResolveError::DepthExceeded { depth: 32 }.to_string(),
        "Include depth 32 too high!"
    );
}

#[test]
fn depth_below_the_bound_resolves() {
    let files = files(&[("shaders/x.glsl", "beside"), ("lib/x.glsl", "library")]);
    for depth in [0, 1, 31] {
        let (end, _) = resolve(
            &files,
            &dirs(&["lib"]),
            "x.glsl",
            IncludeType::Relative,
            "shaders/a.vert",
            depth,
        );
        assert_eq!(end, found("shaders/x.glsl", "beside"));
        let (end, _) = resolve(
            &files,
            &dirs(&["lib"]),
            "x.glsl",
            IncludeType::Standard,
            "shaders/a.vert",
            depth,
        );
        assert_eq!(end, found("lib/x.glsl", "library"));
    }
}

#[test]
fn candidates_are_directory_and_name_joined() {
    let (_, tried) = resolve(
        &files(&[]),
        &dirs(&["lib", "with/slash/", "/abs"]),
        "sub/x.glsl",
        IncludeType::Relative,
        "shaders/nested/a.vert",
        1,
    );
    assert_eq!(
        tried,
        vec![
            "shaders/nested/sub/x.glsl",
            "lib/sub/x.glsl",
            "with/slash/sub/x.glsl",
            "/abs/sub/x.glsl",
        ]
    );
}

#[test]
fn same_directory_twice_is_tried_twice() {
    let (end, tried) =
        resolve(&files(&[]), &dirs(&["lib", "lib"]), "x.glsl", IncludeType::Standard, "a.vert", 1);
    assert_eq!(end, not_found("x.glsl"));
    assert_eq!(tried, vec!["lib/x.glsl", "lib/x.glsl"]);
}

/// Runs `state` against `files`; gives its end and the paths tried.
fn settle(
    files: &HashMap<String, String>,
    mut state: Resolution,
) -> (Result<ResolvedInclude, ResolveError>, Vec<String>) {
    let mut tried = Vec::new();
    loop {
        match state {
            Resolution::Done(end) => return (end, tried),
            Resolution::Probe(lookup) => {
                tried.push(lookup.path().to_string());
                let content = files.get(lookup.path()).cloned();
                state = lookup.advance(content);
            }
        }
    }
}

#[test]
fn given_paths_are_tried_beside_first_then_in_order() {
    let files = files(&[("C", "c"), ("D", "d")]);
    let state = Resolution::over(
        String::from("name"),
        Some(String::from("A")),
        dirs(&["B", "C", "D"]),
    );
    let (end, tried) = settle(&files, state);
    assert_eq!(end, found("C", "c"));
    assert_eq!(tried, vec!["A", "B", "C"]);
}

#[test]
fn given_path_beside_wins_over_the_search_path() {
    let files = files(&[("A", "a"), ("B", "b")]);
    let state =
        Resolution::over(String::from("name"), Some(String::from("A")), dirs(&["B", "A"]));
    let (end, tried) = settle(&files, state);
    assert_eq!(end, found("A", "a"));
    assert_eq!(tried, vec!["A"]);
}

#[test]
fn given_paths_without_one_beside_start_on_the_search_path() {
    let files = files(&[("A", "a"), ("B", "b")]);
    let state = Resolution::over(String::from("name"), None, dirs(&["B", "A"]));
    let (end, tried) = settle(&files, state);
    assert_eq!(end, found("B", "b"));
    assert_eq!(tried, vec!["B"]);
}

#[test]
fn given_paths_that_are_all_unreadable_end_in_not_found() {
    let state =
        Resolution::over(String::from("name"), Some(String::from("A")), dirs(&["B", "C"]));
    let (end, tried) = settle(&files(&[]), state);
    assert_eq!(end, not_found("name"));
    assert_eq!(tried, vec!["A", "B", "C"]);

    match Resolution::over(String::from("name"), None, Vec::new()) {
        Resolution::Done(end) => assert_eq!(end, not_found("name")),
        Resolution::Probe(lookup) => panic!("unexpected probe of {}", lookup.path()),
    }
}
