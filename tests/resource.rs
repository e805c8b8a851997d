use mktex::resource::{
    fetch_resource, fetch_resource_local, fetch_resource_remote, normalize_identifier,
    FetchRequest, ResourceLocation,
};

#[test]
fn normalize_strips_repository_and_class_directory() {
    assert_eq!(normalize_identifier("jakewilliami/tex-macros/class/arteacle.cls"), "arteacle.cls");
    assert_eq!(normalize_identifier("class/teamer/beamerthemetea.sty"), "teamer/beamerthemetea.sty");
    assert_eq!(normalize_identifier("templates/arteacle.tex"), "templates/arteacle.tex");
    assert_eq!(normalize_identifier(""), "");
}

#[test]
fn normalize_strips_repeated_prefixes() {
    assert_eq!(normalize_identifier("class/class/a.sty"), "a.sty");
    assert_eq!(
        normalize_identifier("jakewilliami/tex-macros/jakewilliami/tex-macros/a"),
        "a"
    );
    assert_eq!(normalize_identifier("class/jakewilliami/tex-macros/class/a"), "a");
    assert_eq!(normalize_identifier("classy/a"), "classy/a");
}

#[test]
fn fetch_strips_repeated_qualifiers() {
    assert_eq!(
        fetch_resource_remote("jakewilliami/tex-macros/jakewilliami/tex-macros/a"),
        "a"
    );
    assert_eq!(
        fetch_resource_local("jakewilliami/tex-macros/jakewilliami/tex-macros//class/a"),
        "class/a"
    );
}

#[test]
fn normalize_is_idempotent_on_examples() {
    for id in [
        "jakewilliami/tex-macros/class/arteacle.cls",
        "class/lettear.cls",
        "templates/letter/lettear.tex",
        "jakewilliami/tex-macros/templates/teamer.tex",
        "classy/x.sty",
        "class/class/a.sty",
        "jakewilliami/tex-macros/jakewilliami/tex-macros/a",
        "class/jakewilliami/tex-macros/b",
        "",
    ] {
        let once = normalize_identifier(id);
        assert_eq!(normalize_identifier(&once), once);
    }
}

#[test]
fn fetch_local_trims_qualifier_and_leading_slashes() {
    assert_eq!(fetch_resource_local("jakewilliami/tex-macros/class/a.cls"), "class/a.cls");
    assert_eq!(fetch_resource_local("//class/a.cls"), "class/a.cls");
    assert_eq!(fetch_resource_local("class/a.cls"), "class/a.cls");
}

#[test]
fn fetch_remote_trims_qualifier_only() {
    assert_eq!(fetch_resource_remote("jakewilliami/tex-macros/class/a.cls"), "class/a.cls");
    assert_eq!(fetch_resource_remote("/class/a.cls"), "/class/a.cls");
}

#[test]
fn fetch_dispatches_on_location() {
    match fetch_resource("jakewilliami/tex-macros/class/a.cls", &ResourceLocation::Local) {
        FetchRequest::LocalFile(p) => assert_eq!(p, "class/a.cls"),
        FetchRequest::RemoteFile(_) => panic!("expected a local request"),
    }
    match fetch_resource("/class/a.cls", &ResourceLocation::Remote) {
        FetchRequest::RemoteFile(p) => assert_eq!(p, "/class/a.cls"),
        FetchRequest::LocalFile(_) => panic!("expected a remote request"),
    }
}
