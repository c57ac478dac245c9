use lince_site::compiler::{
    compile_blog_body, html_compile_args, CompileError, CompilerOutput, COMPILER_MISSING,
    HTML_COMPILER,
};
use lince_site::pipeline::{begin, step, Action, Event, Stage};
use lince_site::sidecar::{
    needs_regeneration, sidecar_path_for, svg_compile_args, tinymist_sidecar_path, FileTimes,
    COMPONENTS_PATH, SVG_COMPILER,
};

const STEM: &str = "20240101-a";
const SOURCE: &str = "output/assets/blog/posts/20240101-a.typ";
const SIDECAR: &str = "<svg id=\"typst-svg-resources\"></svg><svg class=\"typst-doc\"><g/></svg>";

fn times(sidecar: Option<i128>, source: Option<i128>, components: Option<i128>) -> FileTimes {
    FileTimes {
        sidecar,
        source,
        components,
    }
}

fn output(success: bool, stdout: &str, stderr: &str) -> Option<CompilerOutput> {
    Some(CompilerOutput {
        success,
        stdout: stdout.to_string(),
        stderr: stderr.to_string(),
    })
}

#[test]
fn sidecar_later_than_its_inputs_is_fresh() {
    let t: i128 = 1_700_000_000_000_000_000;
    assert!(!needs_regeneration(&times(Some(t), Some(t - 1), Some(t - 1))));
    assert!(!needs_regeneration(&times(Some(t), Some(t), Some(t))));
}

#[test]
fn later_source_or_components_make_the_sidecar_stale() {
    let t: i128 = 1_700_000_000_000_000_000;
    assert!(needs_regeneration(&times(Some(t), Some(t + 1), Some(t - 1))));
    assert!(needs_regeneration(&times(Some(t), Some(t - 1), Some(t + 1))));
    assert!(needs_regeneration(&times(Some(-5), Some(-4), None)));
}

#[test]
fn missing_sidecar_is_stale_and_unreadable_inputs_are_not_newer() {
    assert!(needs_regeneration(&times(None, None, None)));
    assert!(needs_regeneration(&times(None, Some(1), Some(1))));
    assert!(!needs_regeneration(&times(Some(10), None, None)));
    assert!(!needs_regeneration(&times(Some(10), None, Some(9))));
    assert!(needs_regeneration(&times(Some(10), None, Some(11))));
}

#[test]
fn sidecar_lies_beside_the_posts() {
    assert_eq!(
        sidecar_path_for(STEM),
        "output/assets/blog/posts/20240101-a.tinymist.html"
    );
    assert_eq!(
        tinymist_sidecar_path(STEM, true),
        Some("output/assets/blog/posts/20240101-a.tinymist.html".to_string())
    );
    assert_eq!(tinymist_sidecar_path(STEM, false), None);
    assert_eq!(COMPONENTS_PATH, "output/assets/blog/components.typ");
}

#[test]
fn compilers_are_called_with_these_arguments() {
    assert_eq!(SVG_COMPILER, "tinymist");
    assert_eq!(
        svg_compile_args(SOURCE, "out/a.tinymist.html"),
        vec!["compile", SOURCE, "out/a.tinymist.html", "--root", ".", "--format", "svg"]
    );
    assert_eq!(HTML_COMPILER, "typst");
    assert_eq!(
        html_compile_args(SOURCE),
        vec!["compile", SOURCE, "--root", ".", "--format", "html", "--features", "html", "-"]
    );
}

#[test]
fn html_body_comes_from_a_good_compilation() {
    assert_eq!(
        compile_blog_body(SOURCE, output(true, "<html><body> <p>x</p> </body></html>", "")),
        Ok("<p>x</p>".to_string())
    );
    assert_eq!(
        compile_blog_body(SOURCE, output(true, "no markers", "warning")),
        Ok("no markers".to_string())
    );
}

#[test]
fn html_compilation_errors() {
    let missing = compile_blog_body(SOURCE, None).unwrap_err();
    assert_eq!(missing, CompileError::CompilerMissing);
    assert_eq!(
        missing.message(),
        "Typst CLI not found. Install it with 'cargo install typst-cli'"
    );
    assert_eq!(missing.message(), COMPILER_MISSING);

    let failed = compile_blog_body(SOURCE, output(false, "<body>x</body>", "error: boom"))
        .unwrap_err();
    assert_eq!(
        failed,
        CompileError::CompileFailed {
            source_path: SOURCE.to_string(),
            diagnostic: "error: boom".to_string(),
        }
    );
    assert_eq!(
        failed.message(),
        "Typst Error in output/assets/blog/posts/20240101-a.typ: error: boom"
    );
}

#[test]
fn a_post_starts_with_the_modification_times() {
    assert_eq!(begin(), (Stage::Probing, Action::ReadTimes));
}

#[test]
fn fresh_sidecar_is_read_without_compiling() {
    let event = Event::Times {
        times: times(Some(10), Some(9), Some(9)),
    };
    assert_eq!(
        step(STEM, SOURCE, Stage::Probing, event),
        (Stage::ReadingSidecar, Action::ReadSidecar)
    );
}

#[test]
fn stale_sidecar_is_compiled() {
    let event = Event::Times {
        times: times(Some(10), Some(11), Some(9)),
    };
    assert_eq!(
        step(STEM, SOURCE, Stage::Probing, event),
        (Stage::CompilingSvg, Action::CompileSvg)
    );
    let event = Event::Times {
        times: times(None, Some(1), Some(1)),
    };
    assert_eq!(
        step(STEM, SOURCE, Stage::Probing, event),
        (Stage::CompilingSvg, Action::CompileSvg)
    );
}

#[test]
fn second_check_after_a_compilation_is_fresh() {
    // First check: stale, so the compiler runs and writes the sidecar at 12.
    let first = times(Some(5), Some(11), Some(9));
    assert_eq!(
        step(STEM, SOURCE, Stage::Probing, Event::Times { times: first }).1,
        Action::CompileSvg
    );
    let second = times(Some(12), first.source, first.components);
    assert_eq!(
        step(STEM, SOURCE, Stage::Probing, Event::Times { times: second }).1,
        Action::ReadSidecar
    );
    // And a third look at unchanged files says the same.
    assert_eq!(
        step(STEM, SOURCE, Stage::Probing, Event::Times { times: second }).1,
        Action::ReadSidecar
    );
}

#[test]
fn failed_sidecar_compilation_falls_back() {
    assert_eq!(
        step(STEM, SOURCE, Stage::CompilingSvg, Event::SvgCompiled { success: true }),
        (Stage::ReadingSidecar, Action::ReadSidecar)
    );
    assert_eq!(
        step(STEM, SOURCE, Stage::CompilingSvg, Event::SvgCompiled { success: false }),
        (Stage::CheckingSidecar, Action::CheckSidecar)
    );
    assert_eq!(
        step(STEM, SOURCE, Stage::CheckingSidecar, Event::SidecarChecked { on_disk: true }),
        (Stage::ReadingSidecar, Action::ReadSidecar)
    );
    assert_eq!(
        step(STEM, SOURCE, Stage::CheckingSidecar, Event::SidecarChecked { on_disk: false }),
        (Stage::CompilingHtml, Action::CompileHtml)
    );
}

#[test]
fn sidecar_with_a_document_gives_the_body() {
    let event = Event::SidecarRead {
        text: Some(SIDECAR.to_string()),
    };
    let (stage, action) = step(STEM, SOURCE, Stage::ReadingSidecar, event);
    assert_eq!(stage, Stage::Finished);
    match action {
        Action::Emit { body } => {
            assert!(body.contains("id=\"tinymist-native-20240101-a\""));
            assert!(body.contains("<svg class=\"typst-doc\"><g/></svg>"));
        }
        other => panic!("unexpected action {:?}", other),
    }
}

#[test]
fn sidecar_without_a_document_falls_back_to_html() {
    let event = Event::SidecarRead {
        text: Some("<p>broken</p>".to_string()),
    };
    assert_eq!(
        step(STEM, SOURCE, Stage::ReadingSidecar, event),
        (Stage::CompilingHtml, Action::CompileHtml)
    );
    assert_eq!(
        step(STEM, SOURCE, Stage::ReadingSidecar, Event::SidecarRead { text: None }),
        (Stage::CompilingHtml, Action::CompileHtml)
    );
}

#[test]
fn html_compilation_ends_the_post() {
    let event = Event::HtmlCompiled {
        output: output(true, "<body>hello</body>", ""),
    };
    assert_eq!(
        step(STEM, SOURCE, Stage::CompilingHtml, event),
        (
            Stage::Finished,
            Action::Emit {
                body: "hello".to_string()
            }
        )
    );
    let event = Event::HtmlCompiled {
        output: output(false, "", "bad"),
    };
    assert_eq!(
        step(STEM, SOURCE, Stage::CompilingHtml, event),
        (
            Stage::Finished,
            Action::Abort {
                error: CompileError::CompileFailed {
                    source_path: SOURCE.to_string(),
                    diagnostic: "bad".to_string(),
                }
            }
        )
    );
    assert_eq!(
        step(STEM, SOURCE, Stage::CompilingHtml, Event::HtmlCompiled { output: None }),
        (
            Stage::Finished,
            Action::Abort {
                error: CompileError::CompilerMissing
            }
        )
    );
}

#[test]
fn events_that_are_not_waited_for_change_nothing() {
    assert_eq!(
        step(STEM, SOURCE, Stage::Probing, Event::SvgCompiled { success: true }),
        (Stage::Probing, Action::Wait)
    );
    assert_eq!(
        step(STEM, SOURCE, Stage::CompilingSvg, Event::HtmlCompiled { output: None }),
        (Stage::CompilingSvg, Action::Wait)
    );
    assert_eq!(
        step(
            STEM,
            SOURCE,
            Stage::Finished,
            Event::Times {
                times: times(None, None, None)
            }
        ),
        (Stage::Finished, Action::Wait)
    );
}

#[test]
fn a_whole_run_with_a_failing_sidecar_compiler() {
    let (stage, action) = begin();
    assert_eq!(action, Action::ReadTimes);
    let (stage, action) = step(
        STEM,
        SOURCE,
        stage,
        Event::Times {
            times: times(None, Some(3), Some(2)),
        },
    );
    assert_eq!(action, Action::CompileSvg);
    let (stage, action) = step(STEM, SOURCE, stage, Event::SvgCompiled { success: false });
    assert_eq!(action, Action::CheckSidecar);
    let (stage, action) = step(STEM, SOURCE, stage, Event::SidecarChecked { on_disk: false });
    assert_eq!(action, Action::CompileHtml);
    let (stage, action) = step(
        STEM,
        SOURCE,
        stage,
        Event::HtmlCompiled {
            output: output(true, "<body>\n<h1>T</h1>\n</body>", ""),
        },
    );
    assert_eq!(stage, Stage::Finished);
    assert_eq!(
        action,
        Action::Emit {
            body: "<h1>T</h1>".to_string()
        }
    );
}
