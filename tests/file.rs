use mktex::file::{
    add_template_resource_version, cache_path, cache_step, directory_step, DirectoryStep, join, plan_cache_update,
    should_write_cache, should_write_template, sourced_files, template_step, CacheStep,
    LocalResource, LocalTemplate, TemplateStep,
};
use mktex::resource::ResourceLocation;
use mktex::sync::SyncVerdict;

#[test]
fn stamp_after_plain_declaration() {
    assert_eq!(
        add_template_resource_version("\\documentclass{article}\nhello", "abc1234"),
        "\\documentclass{article}  % class version abc1234\nhello"
    );
}

#[test]
fn stamp_after_declaration_with_options() {
    assert_eq!(
        add_template_resource_version("x\n\\documentclass[12pt]{arteacle}\ny", "h"),
        "x\n\\documentclass[12pt]{arteacle}  % class version h\ny"
    );
}

#[test]
fn stamp_only_first_declaration() {
    assert_eq!(
        add_template_resource_version("\\documentclass{a}\n\\documentclass{b}\n", "h"),
        "\\documentclass{a}  % class version h\n\\documentclass{b}\n"
    );
}

#[test]
fn stamp_without_declaration_changes_nothing() {
    let t = "hello\n\\usepackage{x}\n\\documentclass{}\n";
    assert_eq!(add_template_resource_version(t, "h"), t);
}

#[test]
fn empty_cache_writes_then_keeps() {
    let canonical = "\\documentclass{article}\nhello";
    let first = plan_cache_update(None, canonical, false);
    assert_eq!(first, CacheStep::Write);
    assert!(should_write_cache(first, false));
    let second = plan_cache_update(Some(canonical.as_bytes()), canonical, false);
    assert_eq!(second, CacheStep::Keep);
    assert!(!should_write_cache(second, true));
    let t = add_template_resource_version(canonical, "abc1234");
    assert_eq!(t, "\\documentclass{article}  % class version abc1234\nhello");
}

#[test]
fn stale_cache_dry_run_and_declined() {
    let dry = plan_cache_update(Some(b"old"), "new", true);
    assert_eq!(dry, CacheStep::ReportStale);
    assert!(!should_write_cache(dry, true));
    let live = plan_cache_update(Some(b"old"), "new", false);
    assert_eq!(live, CacheStep::ConfirmUpdate);
    assert!(!should_write_cache(live, false));
    assert!(should_write_cache(live, true));
}

#[test]
fn cache_steps_for_each_verdict() {
    assert_eq!(cache_step(SyncVerdict::Absent, true), CacheStep::ReportWrite);
    assert_eq!(cache_step(SyncVerdict::Absent, false), CacheStep::Write);
    assert_eq!(cache_step(SyncVerdict::InSync, true), CacheStep::Keep);
    assert_eq!(cache_step(SyncVerdict::Stale, false), CacheStep::ConfirmUpdate);
    assert_eq!(cache_step(SyncVerdict::Stale, true), CacheStep::ReportStale);
}

#[test]
fn template_steps() {
    assert_eq!(template_step(true, true), TemplateStep::ReportWrite);
    assert_eq!(template_step(true, false), TemplateStep::ConfirmOverwrite);
    assert_eq!(template_step(false, false), TemplateStep::Write);
    assert!(!should_write_template(TemplateStep::ConfirmOverwrite, false));
    assert!(should_write_template(TemplateStep::ConfirmOverwrite, true));
    assert!(!should_write_template(TemplateStep::ReportWrite, true));
}

#[test]
fn paths_join_like_a_path_buffer() {
    assert_eq!(join("out", "doc.tex"), "out/doc.tex");
    assert_eq!(join("out/", "doc.tex"), "out/doc.tex");
    assert_eq!(join("", "doc.tex"), "doc.tex");
    assert_eq!(join("out", "/abs/doc.tex"), "/abs/doc.tex");
    let t = LocalTemplate {
        template_path: "templates/arteacle.tex".to_string(),
        out_dir: ".".to_string(),
        out_file: "document.tex".to_string(),
    };
    assert_eq!(t.out_file(), "./document.tex");
}

#[test]
fn cache_path_uses_normal_form() {
    assert_eq!(
        cache_path("/tex/mktex", "jakewilliami/tex-macros/class/teamer/x.sty"),
        "/tex/mktex/teamer/x.sty"
    );
    assert_eq!(cache_path("/tex/mktex", "class//x.sty"), "/tex/mktex/x.sty");
    assert_eq!(cache_path("/tex/mktex", "/abs.sty"), "/tex/mktex/abs.sty");
    assert_eq!(cache_path("/tex/mktex", "class/class/a.sty"), "/tex/mktex/a.sty");
    assert_eq!(cache_path("/tex/mktex", "a.sty"), "/tex/mktex/a.sty");
}

#[test]
fn sourced_files_are_qualified_children() {
    let cls = LocalResource {
        resource_path: "class/arteacle.cls".to_string(),
        resource_location: ResourceLocation::Remote,
        template: None,
    };
    let kids = sourced_files(&cls, "\\input{class/a.tex}\n\\input{jakewilliami/tex-macros/b.tex}");
    assert_eq!(kids.len(), 2);
    assert_eq!(kids[0].resource_path, "jakewilliami/tex-macros/class/a.tex");
    assert_eq!(kids[1].resource_path, "jakewilliami/tex-macros/b.tex");
    assert_eq!(kids[1].resource_location, ResourceLocation::Remote);
    assert!(kids[0].template.is_none());
}

#[test]
fn directory_steps() {
    assert_eq!(directory_step(true, false), DirectoryStep::Exists);
    assert_eq!(directory_step(true, true), DirectoryStep::Exists);
    assert_eq!(directory_step(false, true), DirectoryStep::ReportCreate);
    assert_eq!(directory_step(false, false), DirectoryStep::Create);
}
