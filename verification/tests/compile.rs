use std::collections::HashMap;

use spirv_compiler::{
    CompilationError, Compiler, CompilerBuilder, CompilerError, FileTimes, IncludeType, Reply,
    Resolution, Setting, ShaderKind, Step, TranslateRequest, Translation,
};

/// The one spelling under which the disk knows a file: no repeated
/// separators, no `.` components, no trailing separator.
fn canonical(path: &str) -> String {
    let parts: Vec<&str> = path.split('/').filter(|part| !part.is_empty() && *part != ".").collect();
    if path.starts_with('/') {
        format!("/{}", parts.join("/"))
    } else {
        parts.join("/")
    }
}

/// Files held in memory, each with the time of its last change.
struct Disk {
    files: HashMap<String, (Vec<u8>, i128)>,
    locked: Vec<String>,
    clock: i128,
}

impl Disk {
    fn new() -> Disk {
        Disk { files: HashMap::new(), locked: Vec::new(), clock: 0 }
    }

    fn put(&mut self, path: &str, bytes: &[u8]) {
        self.clock += 1;
        self.files.insert(canonical(path), (bytes.to_vec(), self.clock));
    }

    fn put_text(&mut self, path: &str, text: &str) {
        self.put(path, text.as_bytes());
    }

    fn touch(&mut self, path: &str) {
        self.clock += 1;
        let clock = self.clock;
        self.files.get_mut(&canonical(path)).unwrap().1 = clock;
    }

    fn remove(&mut self, path: &str) {
        self.files.remove(&canonical(path));
    }

    fn has(&self, path: &str) -> bool {
        self.files.contains_key(&canonical(path))
    }

    fn bytes(&self, path: &str) -> Option<Vec<u8>> {
        self.files.get(&canonical(path)).map(|entry| entry.0.clone())
    }

    fn text(&self, path: &str) -> Option<String> {
        self.bytes(path).and_then(|bytes| String::from_utf8(bytes).ok())
    }

    fn modified(&self, path: &str) -> Option<i128> {
        self.files.get(&canonical(path)).map(|entry| entry.1)
    }

    fn write(&mut self, path: &str, bytes: &[u8]) -> Result<(), String> {
        if self.locked.iter().any(|locked| *locked == canonical(path)) {
            return Err(String::from("permission denied"));
        }
        self.put(path, bytes);
        Ok(())
    }
}

/// A disk, and a record of what a compile did with it.
struct Rig {
    disk: Disk,
    translations: usize,
    work: Vec<&'static str>,
    notices: Vec<String>,
}

impl Rig {
    fn new() -> Rig {
        Rig { disk: Disk::new(), translations: 0, work: Vec::new(), notices: Vec::new() }
    }
}

fn resolve(
    disk: &Disk,
    dirs: &[String],
    requested: &str,
    style: IncludeType,
    requesting: &str,
    depth: usize,
) -> Result<(String, String), String> {
    let mut state = Compiler::include_callback(dirs, requested, style, requesting, depth);
    loop {
        match state {
            Resolution::Done(Ok(found)) => return Ok((found.resolved_name, found.content)),
            Resolution::Done(Err(error)) => return Err(error.to_string()),
            Resolution::Probe(lookup) => {
                let content = disk.text(lookup.path());
                state = lookup.advance(content);
            }
        }
    }
}

fn expand(
    disk: &Disk,
    dirs: &[String],
    name: &str,
    text: &str,
    depth: usize,
) -> Result<String, String> {
    let mut out = String::new();
    for line in text.lines() {
        let directive = line.trim();
        if let Some(rest) = directive.strip_prefix("#include ") {
            let rest = rest.trim();
            let (style, requested) = if rest.starts_with('"') {
                (IncludeType::Relative, rest.trim_matches('"'))
            } else {
                (IncludeType::Standard, rest.trim_start_matches('<').trim_end_matches('>'))
            };
            match resolve(disk, dirs, requested, style, name, depth) {
                Ok((resolved, content)) => {
                    out.push_str(&expand(disk, dirs, &resolved, &content, depth + 1)?);
                }
                Err(message) => return Err(format!("{}: error: {}", name, message)),
            }
        } else {
            out.push_str(line);
            out.push('\n');
        }
    }
    Ok(out)
}

/// Stands in for the translator: splices inclusions, rejects upper-case
/// names that no macro defines, counts lines marked as dubious as
/// warnings, and gives back one word per byte of the spliced text.
fn translate(
    disk: &Disk,
    compiler: &Compiler,
    request: &TranslateRequest,
) -> Result<Translation, String> {
    assert_eq!(request.entry_point, "main");
    let config = compiler.configuration();
    let text = expand(disk, config.include_dirs(), &request.name, &request.source, 1)?;
    let mut macros: Vec<String> = Vec::new();
    for setting in config.settings() {
        if let Setting::Macro { name, .. } = setting {
            macros.push(name.clone());
        }
    }
    for token in text.split(|c: char| !(c.is_ascii_alphanumeric() || c == '_')) {
        let shouting = token.len() > 1
            && token.chars().all(|c| c.is_ascii_uppercase() || c == '_')
            && !macros.iter().any(|name| name == token);
        if shouting {
            return Err(format!("{}: error: '{}' : undeclared identifier", request.name, token));
        }
    }
    let dubious: Vec<&str> = text.lines().filter(|line| line.contains("// dubious")).collect();
    let mut words: Vec<u32> = vec![0x0723_0203];
    words.extend(text.bytes().map(|byte| byte as u32));
    Ok(Translation {
        words,
        num_warnings: dubious.len() as u32,
        warning_messages: dubious.join("\n"),
    })
}

fn compile_from_file(
    rig: &mut Rig,
    compiler: &mut Compiler,
    path: &str,
    kind: ShaderKind,
    cache: bool,
) -> Result<Vec<u32>, CompilerError> {
    rig.work.clear();
    let mut step = compiler.compile_from_file(path, &canonical(path), kind, cache);
    loop {
        let reply = match &step {
            Step::Done(_) => break,
            Step::Stat { job, artifact } => {
                rig.work.push("stat");
                Reply::Times(FileTimes {
                    source_modified: rig.disk.modified(&job.path),
                    artifact_modified: rig.disk.modified(artifact),
                })
            }
            Step::Load { artifact, .. } => {
                rig.work.push("load");
                Reply::Artifact(rig.disk.bytes(artifact))
            }
            Step::Read { job } => {
                rig.work.push("read");
                Reply::Source(
                    rig.disk.text(&job.path).ok_or(String::from("No such file or directory")),
                )
            }
            Step::Translate { request, .. } => {
                rig.work.push("translate");
                rig.translations += 1;
                Reply::Translated(translate(&rig.disk, compiler, request))
            }
            Step::Write { artifact, bytes, .. } => {
                rig.work.push("write");
                Reply::Written(rig.disk.write(artifact, bytes))
            }
        };
        let turn = compiler.resume(step, reply);
        if let Some(notice) = turn.notice {
            rig.notices.push(notice);
        }
        step = turn.step;
    }
    match step {
        Step::Done(outcome) => outcome,
        _ => unreachable!(),
    }
}

fn compile_from_string(
    rig: &mut Rig,
    compiler: &Compiler,
    source: &str,
    kind: ShaderKind,
) -> Result<Vec<u32>, CompilerError> {
    let request = compiler.compile_from_string(source, kind);
    rig.translations += 1;
    Compiler::string_outcome(translate(&rig.disk, compiler, &request))
}

fn shader_rig() -> Rig {
    let mut rig = Rig::new();
    rig.disk.put_text("test-spirv/common.glsl", "vec4 origin() { return vec4(0.0); }\n");
    rig.disk.put_text(
        "test-spirv/test-include.vert",
        "#version 450\n#include <common.glsl>\nvoid main() { gl_Position = origin(); }\n",
    );
    rig.disk.put_text(
        "test-spirv/test-include-rel.vert",
        "#version 450\n#include \"common.glsl\"\nvoid main() { gl_Position = origin(); }\n",
    );
    rig.disk.put_text(
        "test-spirv/test-macro.vert",
        "#version 450\nvoid main() { gl_Position = vec4(MY_MACRO); }\n",
    );
    rig
}

#[test]
fn test_include() {
    let mut rig = shader_rig();
    let mut compiler = CompilerBuilder::new().with_include_dir("test-spirv").build();

    let result = compile_from_file(
        &mut rig,
        &mut compiler,
        "test-spirv/test-include.vert",
        ShaderKind::Vertex,
        false,
    );
    assert!(result.is_ok());
}

#[test]
fn test_include_rel() {
    let mut rig = shader_rig();
    let mut compiler = CompilerBuilder::new().with_include_dir("test-spirv").build();

    let result = compile_from_file(
        &mut rig,
        &mut compiler,
        "test-spirv/test-include-rel.vert",
        ShaderKind::Vertex,
        false,
    );
    assert!(result.is_ok());
}

#[test]
fn test_with_macro() {
    let mut rig = shader_rig();
    let mut compiler = CompilerBuilder::new()
        .with_include_dir("test-spirv")
        .with_macro("MY_MACRO", Some("1"))
        .build();

    let result = compile_from_file(
        &mut rig,
        &mut compiler,
        "test-spirv/test-macro.vert",
        ShaderKind::Vertex,
        false,
    );
    assert!(result.is_ok());
}

#[test]
fn test_without_macro() {
    let mut rig = shader_rig();
    let mut compiler = CompilerBuilder::new().with_include_dir("test-spirv").build();

    let result = compile_from_file(
        &mut rig,
        &mut compiler,
        "test-spirv/test-macro.vert",
        ShaderKind::Vertex,
        false,
    );
    assert!(result.is_err());
}

#[test]
fn test_cache() {
    let mut rig = shader_rig();
    let cached = "test-spirv/test-macro.vert.spv";
    if rig.disk.has(cached) {
        rig.disk.remove(cached);
    }

    let mut compiler = CompilerBuilder::new()
        .with_include_dir("test-spirv")
        .with_macro("MY_MACRO", Some("1"))
        .build();

    let result = compile_from_file(
        &mut rig,
        &mut compiler,
        "test-spirv/test-macro.vert",
        ShaderKind::Vertex,
        true,
    );
    assert!(result.is_ok());
    assert!(rig.disk.has(cached));
    rig.disk.remove(cached);
}

#[test]
fn cached_compile_stores_four_bytes_per_word_and_survives_deletion() {
    let mut rig = Rig::new();
    rig.disk.put_text("a.vert", "#version 450\nvoid main(){}");
    let mut compiler = Compiler::new();

    let words = compile_from_file(&mut rig, &mut compiler, "a.vert", ShaderKind::Vertex, true)
        .unwrap();
    assert_eq!(rig.work, vec!["stat", "read", "translate", "write"]);
    let stored = rig.disk.bytes("a.vert.spv").unwrap();
    assert_eq!(stored.len(), 4 * words.len());
    assert_eq!(&stored[0..4], &[0x03, 0x02, 0x23, 0x07]);

    rig.disk.remove("a.vert.spv");
    let again = compile_from_file(&mut rig, &mut compiler, "a.vert", ShaderKind::Vertex, true)
        .unwrap();
    assert_eq!(again, words);
    assert!(rig.work.is_empty());
    assert!(!rig.disk.has("a.vert.spv"));
    assert_eq!(rig.translations, 1);
}

#[test]
fn missing_relative_inclusion_fails_the_compile() {
    let mut rig = Rig::new();
    rig.disk.put_text("b.vert", "#version 450\n#include \"missing.glsl\"\nvoid main(){}");
    let mut compiler = Compiler::new();

    let result = compile_from_file(&mut rig, &mut compiler, "b.vert", ShaderKind::Vertex, false);
    match result {
        Err(CompilerError::Log(CompilationError { file, description })) => {
            assert_eq!(file, Some(String::from("b.vert")));
            assert!(description.contains("missing.glsl"));
            assert!(description.contains("Could not find file: missing.glsl"));
        }
        other => panic!("unexpected result {:?}", other),
    }
    assert_eq!(compiler.cached("b.vert"), None);
}

#[test]
fn second_compile_does_not_translate_again() {
    let mut rig = shader_rig();
    let mut compiler = CompilerBuilder::new().with_include_dir("test-spirv").build();
    let path = "test-spirv/test-include.vert";

    let first = compile_from_file(&mut rig, &mut compiler, path, ShaderKind::Vertex, true);
    assert_eq!(rig.translations, 1);
    let second = compile_from_file(&mut rig, &mut compiler, path, ShaderKind::Vertex, true);
    assert_eq!(rig.translations, 1);
    assert!(first.is_ok());
    assert_eq!(first, second);
}

#[test]
fn memory_hit_ignores_a_changed_source() {
    let mut rig = Rig::new();
    rig.disk.put_text("a.vert", "void main(){}");
    let mut compiler = Compiler::new();
    let first = compile_from_file(&mut rig, &mut compiler, "a.vert", ShaderKind::Vertex, true);

    rig.disk.put_text("a.vert", "void main(){ int changed; }");
    let second = compile_from_file(&mut rig, &mut compiler, "a.vert", ShaderKind::Vertex, true);
    assert_eq!(first, second);
    assert_eq!(rig.translations, 1);
}

#[test]
fn stored_binary_serves_another_compiler() {
    let mut rig = Rig::new();
    rig.disk.put_text("a.vert", "void main(){}");
    let mut first_compiler = Compiler::new();
    let first = compile_from_file(&mut rig, &mut first_compiler, "a.vert", ShaderKind::Vertex, true)
        .unwrap();

    let mut second_compiler = Compiler::new();
    let second =
        compile_from_file(&mut rig, &mut second_compiler, "a.vert", ShaderKind::Vertex, true)
            .unwrap();
    assert_eq!(rig.work, vec!["stat", "load"]);
    assert_eq!(second, first);
    assert_eq!(rig.translations, 1);
    assert_eq!(second_compiler.cached("a.vert"), Some(first));
}

#[test]
fn modified_source_is_translated_again_and_stored_anew() {
    let mut rig = Rig::new();
    rig.disk.put_text("a.vert", "void main(){}");
    let mut first_compiler = Compiler::new();
    compile_from_file(&mut rig, &mut first_compiler, "a.vert", ShaderKind::Vertex, true).unwrap();
    let stored_before = rig.disk.bytes("a.vert.spv").unwrap();
    let stored_at = rig.disk.modified("a.vert.spv").unwrap();

    rig.disk.put_text("a.vert", "void main(){ int changed; }");
    let mut second_compiler = Compiler::new();
    let words =
        compile_from_file(&mut rig, &mut second_compiler, "a.vert", ShaderKind::Vertex, true)
            .unwrap();
    assert_eq!(rig.work, vec!["stat", "read", "translate", "write"]);
    assert_eq!(rig.translations, 2);
    let stored_after = rig.disk.bytes("a.vert.spv").unwrap();
    assert_ne!(stored_after, stored_before);
    assert_eq!(stored_after.len(), 4 * words.len());
    assert!(rig.disk.modified("a.vert.spv").unwrap() > stored_at);
}

#[test]
fn source_as_old_as_the_binary_is_translated_again() {
    let mut rig = Rig::new();
    rig.disk.put_text("a.vert", "void main(){}");
    rig.disk.put("a.vert.spv", &[1, 0, 0, 0]);
    let same = rig.disk.modified("a.vert.spv").unwrap();
    rig.disk.files.get_mut("a.vert").unwrap().1 = same;

    let mut compiler = Compiler::new();
    compile_from_file(&mut rig, &mut compiler, "a.vert", ShaderKind::Vertex, true).unwrap();
    assert_eq!(rig.work, vec!["stat", "read", "translate", "write"]);
}

#[test]
fn touched_source_invalidates_the_binary() {
    let mut rig = Rig::new();
    rig.disk.put_text("a.vert", "void main(){}");
    let mut first_compiler = Compiler::new();
    compile_from_file(&mut rig, &mut first_compiler, "a.vert", ShaderKind::Vertex, true).unwrap();

    rig.disk.touch("a.vert");
    let mut second_compiler = Compiler::new();
    compile_from_file(&mut rig, &mut second_compiler, "a.vert", ShaderKind::Vertex, true).unwrap();
    assert_eq!(rig.translations, 2);
}

#[test]
fn macros_never_use_a_stored_binary() {
    let mut rig = Rig::new();
    rig.disk.put_text("a.vert", "void main(){ int x = WIDTH; }");
    rig.disk.put("a.vert.spv", &[9, 9, 9, 9]);

    let mut compiler = CompilerBuilder::new().with_macro("WIDTH", Some("4")).build();
    let words =
        compile_from_file(&mut rig, &mut compiler, "a.vert", ShaderKind::Vertex, true).unwrap();
    assert_eq!(rig.work, vec!["read", "translate", "write"]);
    assert_eq!(rig.translations, 1);
    assert_ne!(words, vec![0x0909_0909]);
    assert_eq!(words[0], 0x0723_0203);
}

#[test]
fn macro_defined_later_also_bypasses_the_stored_binary() {
    let mut rig = Rig::new();
    rig.disk.put_text("a.vert", "void main(){}");
    rig.disk.put("a.vert.spv", &[9, 9, 9, 9]);

    let mut compiler = Compiler::new();
    compiler.add_macro_definition("FLAG", None);
    compile_from_file(&mut rig, &mut compiler, "a.vert", ShaderKind::Vertex, true).unwrap();
    assert_eq!(rig.work, vec!["read", "translate", "write"]);
}

#[test]
fn stored_binary_without_macros_is_loaded_as_it_is() {
    let mut rig = Rig::new();
    rig.disk.put_text("a.vert", "void main(){}");
    rig.disk.put("a.vert.spv", &[9, 9, 9, 9, 1, 0, 0, 0]);

    let mut compiler = Compiler::new();
    let words =
        compile_from_file(&mut rig, &mut compiler, "a.vert", ShaderKind::Vertex, true).unwrap();
    assert_eq!(words, vec![0x0909_0909, 1]);
    assert_eq!(rig.translations, 0);
}

#[test]
fn stored_binary_of_partial_words_is_not_used() {
    let mut rig = Rig::new();
    rig.disk.put_text("a.vert", "void main(){}");
    rig.disk.put("a.vert.spv", &[9, 9, 9, 9, 1]);

    let mut compiler = Compiler::new();
    let words =
        compile_from_file(&mut rig, &mut compiler, "a.vert", ShaderKind::Vertex, true).unwrap();
    assert_eq!(rig.work, vec!["stat", "load", "read", "translate", "write"]);
    assert_eq!(rig.disk.bytes("a.vert.spv").unwrap().len(), 4 * words.len());
}

#[test]
fn uncached_compile_stores_nothing_but_remembers() {
    let mut rig = Rig::new();
    rig.disk.put_text("a.vert", "void main(){}");
    let mut compiler = Compiler::new();

    let words =
        compile_from_file(&mut rig, &mut compiler, "a.vert", ShaderKind::Vertex, false).unwrap();
    assert_eq!(rig.work, vec!["read", "translate"]);
    assert!(!rig.disk.has("a.vert.spv"));
    assert_eq!(compiler.cached("a.vert"), Some(words.clone()));

    compile_from_file(&mut rig, &mut compiler, "a.vert", ShaderKind::Vertex, false).unwrap();
    assert_eq!(rig.translations, 2);
    let cached =
        compile_from_file(&mut rig, &mut compiler, "a.vert", ShaderKind::Vertex, true).unwrap();
    assert_eq!(cached, words);
    assert_eq!(rig.translations, 2);
}

#[test]
fn unreadable_source_is_a_load_error() {
    let mut rig = Rig::new();
    let mut compiler = Compiler::new();
    let result = compile_from_file(&mut rig, &mut compiler, "gone.vert", ShaderKind::Vertex, true);
    assert_eq!(result, Err(CompilerError::LoadError(String::from("No such file or directory"))));
    assert_eq!(rig.translations, 0);
    assert_eq!(
        result.unwrap_err().to_string(),
        "Error: could not load file: No such file or directory"
    );
}

#[test]
fn rejected_source_is_a_log_error_with_the_path() {
    let mut rig = shader_rig();
    let mut compiler = Compiler::new();
    let path = "test-spirv/test-macro.vert";
    let result = compile_from_file(&mut rig, &mut compiler, path, ShaderKind::Vertex, true);
    let description =
        String::from("test-spirv/test-macro.vert: error: 'MY_MACRO' : undeclared identifier");
    assert_eq!(
        result,
        Err(CompilerError::Log(CompilationError {
            file: Some(String::from(path)),
            description: description.clone(),
        }))
    );
    assert!(!rig.disk.has("test-spirv/test-macro.vert.spv"));
    assert_eq!(compiler.cached(path), None);
    assert_eq!(
        result.unwrap_err().to_string(),
        format!("Error: file: {}, description: {}", path, description)
    );
}

#[test]
fn failed_store_is_a_write_error_and_nothing_is_remembered() {
    let mut rig = Rig::new();
    rig.disk.put_text("a.vert", "void main(){}");
    rig.disk.locked.push(String::from("a.vert.spv"));
    let mut compiler = Compiler::new();

    let result = compile_from_file(&mut rig, &mut compiler, "a.vert", ShaderKind::Vertex, true);
    assert_eq!(result, Err(CompilerError::WriteError(String::from("permission denied"))));
    assert_eq!(compiler.cached("a.vert"), None);
    assert_eq!(rig.translations, 1);
    assert_eq!(
        result.unwrap_err().to_string(),
        "Error: could not write file: permission denied"
    );
}

#[test]
fn warnings_give_a_notice_and_leave_the_result_alone() {
    let mut rig = Rig::new();
    rig.disk.put_text("w.vert", "void main(){}\nint a; // dubious\nint b; // dubious\n");
    rig.disk.put_text("quiet.vert", "void main(){}\nint a;\nint b;\n");
    let mut compiler = Compiler::new();

    let words =
        compile_from_file(&mut rig, &mut compiler, "w.vert", ShaderKind::Vertex, true).unwrap();
    assert_eq!(
        rig.notices,
        vec![String::from(
            "File w.vert produced 2 warnings: int a; // dubious\nint b; // dubious"
        )]
    );
    assert_eq!(words.len(), 1 + "void main(){}\nint a; // dubious\nint b; // dubious\n".len());

    compile_from_file(&mut rig, &mut compiler, "quiet.vert", ShaderKind::Vertex, true).unwrap();
    assert_eq!(rig.notices.len(), 1);
}

#[test]
fn source_as_text_is_never_cached() {
    let mut rig = Rig::new();
    let compiler = Compiler::new();
    let request = compiler.compile_from_string("void main(){}", ShaderKind::Fragment);
    assert_eq!(
        request,
        TranslateRequest {
            source: String::from("void main(){}"),
            kind: ShaderKind::Fragment,
            name: String::from("memory"),
            entry_point: String::from("main"),
        }
    );

    let first = compile_from_string(&mut rig, &compiler, "void main(){}", ShaderKind::Fragment);
    let second = compile_from_string(&mut rig, &compiler, "void main(){}", ShaderKind::Fragment);
    assert!(first.is_ok());
    assert_eq!(first, second);
    assert_eq!(rig.translations, 2);
    assert_eq!(compiler.cached("memory"), None);
}

#[test]
fn rejected_text_is_a_log_error_without_a_file() {
    let mut rig = Rig::new();
    let compiler = Compiler::new();
    let result = compile_from_string(&mut rig, &compiler, "int x = UNKNOWN;", ShaderKind::Vertex);
    let description = String::from("memory: error: 'UNKNOWN' : undeclared identifier");
    assert_eq!(
        result,
        Err(CompilerError::Log(CompilationError { file: None, description: description.clone() }))
    );
    assert_eq!(
        result.unwrap_err().to_string(),
        format!("Error: description: {}", description)
    );
}

#[test]
fn reply_to_another_step_changes_nothing() {
    let mut compiler = Compiler::new();
    let step = compiler.compile_from_file("a.vert", "a.vert", ShaderKind::Vertex, true);
    let expected = compiler.compile_from_file("a.vert", "a.vert", ShaderKind::Vertex, true);
    let turn = compiler.resume(step, Reply::Written(Ok(())));
    assert_eq!(turn.step, expected);
    assert_eq!(turn.notice, None);

    let turn = compiler.resume(Step::Done(Ok(vec![1, 2])), Reply::Artifact(Some(vec![0; 4])));
    assert_eq!(turn.step, Step::Done(Ok(vec![1, 2])));
    assert_eq!(compiler.cached("a.vert"), None);
}

#[test]
fn times_decide_between_load_and_read() {
    let cases: Vec<(Option<i128>, Option<i128>, bool)> = vec![
        (Some(1), Some(2), true),
        (Some(2), Some(2), false),
        (Some(3), Some(2), false),
        (None, Some(2), false),
        (Some(1), None, false),
        (None, None, false),
        (Some(-5), Some(-4), true),
        (Some(i128::MIN), Some(i128::MAX), true),
    ];
    for (source_modified, artifact_modified, loads) in cases {
        let mut compiler = Compiler::new();
        let step = compiler.compile_from_file("a.vert", "/work/a.vert", ShaderKind::Vertex, true);
        let times = FileTimes { source_modified, artifact_modified };
        let turn = compiler.resume(step, Reply::Times(times));
        match turn.step {
            Step::Load { artifact, job } => {
                assert!(loads);
                assert_eq!(artifact, "a.vert.spv");
                assert_eq!(job.path, "a.vert");
                assert_eq!(job.key, "/work/a.vert");
            }
            Step::Read { job } => {
                assert!(!loads);
                assert_eq!(job.path, "a.vert");
                assert_eq!(job.key, "/work/a.vert");
            }
            other => panic!("unexpected step {:?}", other),
        }
    }
}

#[test]
fn two_spellings_of_one_file_share_one_entry() {
    let mut rig = Rig::new();
    rig.disk.put_text("a/b.vert", "void main(){ int x = WIDTH; }");
    let mut compiler = CompilerBuilder::new().with_macro("WIDTH", Some("4")).build();

    let first = compile_from_file(&mut rig, &mut compiler, "a//b.vert", ShaderKind::Vertex, true)
        .unwrap();
    assert_eq!(rig.work, vec!["read", "translate", "write"]);
    assert_eq!(rig.translations, 1);

    for spelling in ["a/b.vert", "./a/b.vert", "a/./b.vert", "a//b.vert", "a///b.vert"] {
        let again = compile_from_file(&mut rig, &mut compiler, spelling, ShaderKind::Vertex, true)
            .unwrap();
        assert_eq!(again, first);
        assert!(rig.work.is_empty());
    }
    assert_eq!(rig.translations, 1);
    assert_eq!(compiler.cached("a/b.vert"), Some(first));
    assert_eq!(compiler.cached("a//b.vert"), None);
}

#[test]
fn spelling_of_the_request_names_source_and_stored_binary() {
    let mut rig = Rig::new();
    rig.disk.put_text("a/b.vert", "int x = MISSING;");
    let mut compiler = Compiler::new();

    let step = compiler.compile_from_file("a//b.vert", "/work/a/b.vert", ShaderKind::Vertex, true);
    match &step {
        Step::Stat { job, artifact } => {
            assert_eq!(job.path, "a//b.vert");
            assert_eq!(job.key, "/work/a/b.vert");
            assert_eq!(artifact, "a//b.vert.spv");
        }
        other => panic!("unexpected step {:?}", other),
    }
    let result = compile_from_file(&mut rig, &mut compiler, "a//b.vert", ShaderKind::Vertex, true);
    match result {
        Err(CompilerError::Log(CompilationError { file, description })) => {
            assert_eq!(file, Some(String::from("a//b.vert")));
            assert!(description.starts_with("a//b.vert: error:"));
        }
        other => panic!("unexpected result {:?}", other),
    }
}

#[test]
fn same_spelling_of_different_files_has_different_entries() {
    let mut compiler = Compiler::new();
    let translation = |word: u32| Translation {
        words: vec![word],
        num_warnings: 0,
        warning_messages: String::new(),
    };
    for (key, word) in [("/one/a.vert", 1), ("/two/a.vert", 2)] {
        let step = compiler.compile_from_file("a.vert", key, ShaderKind::Vertex, false);
        let turn = compiler.resume(step, Reply::Source(Ok(String::from("void main(){}"))));
        let turn = compiler.resume(turn.step, Reply::Translated(Ok(translation(word))));
        assert_eq!(turn.step, Step::Done(Ok(vec![word])));
    }
    assert_eq!(compiler.cached("/one/a.vert"), Some(vec![1]));
    assert_eq!(compiler.cached("/two/a.vert"), Some(vec![2]));
    assert_eq!(compiler.cached("a.vert"), None);
    assert_eq!(
        compiler.compile_from_file("a.vert", "/one/a.vert", ShaderKind::Vertex, true),
        Step::Done(Ok(vec![1]))
    );
    assert_eq!(
        compiler.compile_from_file("a.vert", "/two/a.vert", ShaderKind::Vertex, true),
        Step::Done(Ok(vec![2]))
    );
}
