use rhythm::utils::is_path;

fn spelled(words: &[&str]) -> Vec<String> {
    words.iter().map(|word| (*word).to_owned()).collect()
}

#[test]
fn is_path_test() {
    assert!(is_path(
        &spelled(&["rhythmc", "marker"]),
        &spelled(&["rhythmc", "marker"])
    ));
    assert!(!is_path(
        &spelled(&["rhythmc", "ignore"]),
        &spelled(&["rhythmc", "marker"])
    ));
    assert!(!is_path(
        &spelled(&["rhythmc"]),
        &spelled(&["rhythmc", "marker"])
    ));
    assert!(is_path(&spelled(&[]), &spelled(&[])));
}

use rhythm::utils::resolve_module_path_segment;
use rhythm::utils::LookFor;
use rhythm::utils::ModuleItem;

fn plain(name: &str) -> ModuleItem {
    ModuleItem {
        name: name.to_owned(),
        marked: false,
        content: None,
    }
}

fn inline(name: &str, marked: bool, content: Vec<ModuleItem>) -> ModuleItem {
    ModuleItem {
        name: name.to_owned(),
        marked,
        content: Some(content),
    }
}

#[test]
fn resolve_segment_marker_test() {
    let tree = vec![
        plain("other"),
        inline(
            "outer",
            false,
            vec![inline("inner", false, vec![inline("target", true, vec![])])],
        ),
    ];
    assert_eq!(
        resolve_module_path_segment(&tree, &LookFor::Marker),
        Some("outer::inner::target".to_owned())
    );
}

#[test]
fn resolve_segment_module_test() {
    let tree = vec![
        inline("outer", false, vec![plain("needle")]),
        plain("needle"),
    ];
    assert_eq!(
        resolve_module_path_segment(&tree, &LookFor::Module("needle".to_owned())),
        Some("outer::needle".to_owned())
    );
    assert_eq!(
        resolve_module_path_segment(&tree, &LookFor::Module("missing".to_owned())),
        None
    );
    assert_eq!(resolve_module_path_segment(&tree, &LookFor::Marker), None);
}
