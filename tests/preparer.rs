use aheadlibex_rs::dll::ExportEntry;
use aheadlibex_rs::prepare::{prepare_exports, PreparedExport};
use aheadlibex_rs::text::sanitize_identifier;

fn entry(name: &str, ordinal: u16) -> ExportEntry {
    ExportEntry { name: name.to_string(), ordinal, forwarder: None }
}

fn summary(ps: &[PreparedExport]) -> Vec<(String, u16, Option<String>, String, String)> {
    ps.iter()
        .map(|p| {
            (
                p.raw_name.to_string(),
                p.ordinal,
                p.forwarder.map(|f| f.to_string()),
                p.label.clone(),
                p.stub.clone(),
            )
        })
        .collect()
}

#[test]
fn permutations_prepare_identically() {
    let a = vec![
        entry("Zeta", 3),
        ExportEntry { name: "Alpha".to_string(), ordinal: 1, forwarder: Some("KERNEL32!HeapAlloc".to_string()) },
        entry("#9", 9),
        entry("Beta", 2),
        entry("Gamma", 2),
    ];
    let mut b = a.clone();
    b.reverse();
    let mut c = a.clone();
    c.rotate_left(2);
    let pa = summary(&prepare_exports(&a));
    assert_eq!(pa, summary(&prepare_exports(&b)));
    assert_eq!(pa, summary(&prepare_exports(&c)));
    let order: Vec<(u16, &str)> = pa.iter().map(|p| (p.1, p.0.as_str())).collect();
    assert_eq!(order, vec![(1, "Alpha"), (2, "Beta"), (2, "Gamma"), (3, "Zeta"), (9, "#9")]);
    assert_eq!(pa[0].2.as_deref(), Some("KERNEL32!HeapAlloc"));
}

#[test]
fn colliding_stubs_get_the_ordinal_suffix() {
    let exports = vec![entry("a@b", 2), entry("a?b", 1)];
    let ps = prepare_exports(&exports);
    assert_eq!(ps[0].raw_name, "a?b");
    assert_eq!(ps[0].stub, "a_b");
    assert_eq!(ps[1].raw_name, "a@b");
    assert_eq!(ps[1].stub, "a_b_2");
    assert_eq!(ps[1].label, "a@b");
}

#[test]
fn stubs_are_unique_in_a_mixed_table() {
    let exports = vec![
        entry("f?", 1),
        entry("f@", 2),
        entry("f!", 3),
        entry("Unnamed4", 5),
        entry("#4", 4),
    ];
    let ps = prepare_exports(&exports);
    let stubs: Vec<&str> = ps.iter().map(|p| p.stub.as_str()).collect();
    assert_eq!(stubs, vec!["f_", "f__2", "f__3", "Unnamed4", "Unnamed4_5"]);
}

#[test]
fn sanitizing_clean_identifiers_keeps_them() {
    assert_eq!(sanitize_identifier("Foo_Bar9"), "Foo_Bar9");
    assert_eq!(sanitize_identifier("_"), "_");
    assert_eq!(sanitize_identifier(&sanitize_identifier("?x@y")), "_x_y");
}

#[test]
fn sanitizing_never_gives_an_empty_identifier() {
    assert_eq!(sanitize_identifier(""), "_");
    assert_eq!(sanitize_identifier("@@"), "__");
    assert_eq!(sanitize_identifier("é"), "_");
}

#[test]
fn noname_exports_get_label_and_stub() {
    let exports = vec![entry("#7", 7)];
    let ps = prepare_exports(&exports);
    assert_eq!(ps.len(), 1);
    assert_eq!(ps[0].label, "Noname7");
    assert_eq!(ps[0].stub, "Unnamed7");
    assert_eq!(ps[0].raw_name, "#7");
}

#[test]
fn empty_table_prepares_to_nothing() {
    assert!(prepare_exports(&[]).is_empty());
}
