use path_update::{LookupError, Path, PathItem, Platform};

const EMPTY_PATH: &str = "";
const WINDOWS_ONE_ITEM_PATH: &str = "C:\\Users\\bnhei\\source\\path-update";
const UNIX_ONE_ITEM_PATH: &str = "/usr/bin";

fn literals(path: &Path) -> Vec<String> {
    let mut texts = Vec::new();
    for item in path.items() {
        match item {
            PathItem::Path(text) => texts.push(text.clone()),
            PathItem::Variable(var) => panic!("not a directory: {var:?}"),
        }
    }
    texts
}

fn describe(path: &Path) -> Vec<String> {
    let mut texts = Vec::new();
    for item in path.items() {
        match item {
            PathItem::Path(text) => texts.push(format!("path {text}")),
            PathItem::Variable(var) => texts.push(format!("var {}", var.name())),
        }
    }
    texts
}

#[test]
fn empty_path() {
    for platform in [Platform::unix(), Platform::windows()] {
        let path = Path::from_str(EMPTY_PATH, platform);

        let path = match path {
            Ok(path) => path,
            Err(err) => panic!("Should have succeeded but got: {err}"),
        };

        assert_eq!(path.items().len(), 0)
    }
}

#[test]
fn path_with_one_path_item_returns_path_with_one_path_item() {
    for (platform, text) in [
        (Platform::unix(), UNIX_ONE_ITEM_PATH),
        (Platform::windows(), WINDOWS_ONE_ITEM_PATH),
    ] {
        let path = Path::from_str(text, platform);

        let path = match path {
            Ok(path) => path,
            Err(err) => panic!("Should have succeeded but got: {err}"),
        };

        assert_eq!(path.items().len(), 1);

        let item = path
            .items()
            .first()
            .expect("Expected there to be one path item");

        let path = match item {
            PathItem::Path(path) => path,
            PathItem::Variable(var) => {
                let var = var.display(platform);
                panic!("Should have gotten a path, but got a var: {var}")
            }
        };

        assert_eq!(path, text);
    }
}

#[test]
fn two_directories_in_order() {
    let path = Path::from_str("/usr/bin:/usr/local/bin", Platform::unix()).unwrap();
    assert_eq!(literals(&path), ["/usr/bin", "/usr/local/bin"]);

    let path = Path::from_str("C:\\Windows;C:\\Tools", Platform::windows()).unwrap();
    assert_eq!(literals(&path), ["C:\\Windows", "C:\\Tools"]);
}

#[test]
fn one_entry_more_than_separators() {
    let path = Path::from_str("a:b:c:d", Platform::unix()).unwrap();
    assert_eq!(literals(&path), ["a", "b", "c", "d"]);
    let path = Path::from_str("a:b:c:d", Platform::windows()).unwrap();
    assert_eq!(literals(&path), ["a:b:c:d"]);
}

#[test]
fn empty_segments_are_kept() {
    let path = Path::from_str("a::b", Platform::unix()).unwrap();
    assert_eq!(literals(&path), ["a", "", "b"]);
    let path = Path::from_str(":a", Platform::unix()).unwrap();
    assert_eq!(literals(&path), ["", "a"]);
    let path = Path::from_str("a:", Platform::unix()).unwrap();
    assert_eq!(literals(&path), ["a", ""]);
    let path = Path::from_str(":", Platform::unix()).unwrap();
    assert_eq!(literals(&path), ["", ""]);
    let path = Path::from_str(";;", Platform::windows()).unwrap();
    assert_eq!(literals(&path), ["", "", ""]);
}

#[test]
fn references_among_directories() {
    let path = Path::from_str("$HOME:/usr/bin:$CARGO_HOME", Platform::unix()).unwrap();
    assert_eq!(
        describe(&path),
        ["var HOME", "path /usr/bin", "var CARGO_HOME"]
    );

    let path = Path::from_str("%SystemRoot%;C:\\Tools;%JAVA%", Platform::windows()).unwrap();
    assert_eq!(
        describe(&path),
        ["var SystemRoot", "path C:\\Tools", "var JAVA"]
    );
}

#[test]
fn a_reference_is_the_whole_entry() {
    let path = Path::from_str("$HOME/bin:/opt/$X", Platform::unix()).unwrap();
    assert_eq!(describe(&path), ["var HOME/bin", "path /opt/$X"]);

    let path = Path::from_str("%HOME%\\bin;%A%\\%B%", Platform::windows()).unwrap();
    assert_eq!(describe(&path), ["path %HOME%\\bin", "var A%\\%B"]);
}

#[test]
fn tag_alone_is_a_directory() {
    let path = Path::from_str("$", Platform::unix()).unwrap();
    assert_eq!(describe(&path), ["path $"]);
    let path = Path::from_str("%", Platform::windows()).unwrap();
    assert_eq!(describe(&path), ["path %"]);
    let path = Path::from_str("%%", Platform::windows()).unwrap();
    assert_eq!(describe(&path), ["path %%"]);
    let path = Path::from_str("/bin:$:$A", Platform::unix()).unwrap();
    assert_eq!(describe(&path), ["path /bin", "path $", "var A"]);
}

#[test]
fn wide_chars_in_a_path() {
    let path = Path::from_str("/家/bin:$変数:/usr/bin", Platform::unix()).unwrap();
    assert_eq!(describe(&path), ["path /家/bin", "var 変数", "path /usr/bin"]);
    let path = Path::from_str("%変数%;C:\\家", Platform::windows()).unwrap();
    assert_eq!(describe(&path), ["var 変数", "path C:\\家"]);
}

#[test]
fn path_item_from_str() {
    let item = PathItem::from_str("/usr/bin", Platform::unix()).unwrap();
    assert!(matches!(&item, PathItem::Path(text) if text == "/usr/bin"));
    let item = PathItem::from_str("$HOME", Platform::unix()).unwrap();
    assert!(matches!(&item, PathItem::Variable(var) if var.name() == "HOME"));
    let item = PathItem::from_str("", Platform::unix()).unwrap();
    assert!(matches!(&item, PathItem::Path(text) if text.is_empty()));
    let item = PathItem::from_str("a:b", Platform::unix()).unwrap();
    assert!(matches!(&item, PathItem::Path(text) if text == "a:b"));
    let item = PathItem::from_str("%HOME", Platform::windows()).unwrap();
    assert!(matches!(&item, PathItem::Path(text) if text == "%HOME"));
    let item = PathItem::from_str("%HOME%", Platform::windows()).unwrap();
    assert!(matches!(&item, PathItem::Variable(var) if var.name() == "HOME"));
}

#[test]
fn process_path() {
    let path = Path::for_process(None, Platform::unix()).unwrap();
    assert_eq!(path.items().len(), 0);
    let path = Path::for_process(Some(""), Platform::unix()).unwrap();
    assert_eq!(path.items().len(), 0);
    let path = Path::for_process(Some("/bin:$HOME"), Platform::unix()).unwrap();
    assert_eq!(describe(&path), ["path /bin", "var HOME"]);
    let path = Path::for_process(Some("C:\\bin;%HOME%"), Platform::windows()).unwrap();
    assert_eq!(describe(&path), ["path C:\\bin", "var HOME"]);
}

#[test]
fn other_lookups_say_that_they_are_missing() {
    assert_eq!(Path::for_user().err(), Some(LookupError::NotImplemented));
    assert_eq!(Path::for_shell().err(), Some(LookupError::NotImplemented));
    assert_eq!(Path::for_system().err(), Some(LookupError::NotImplemented));
}

#[test]
fn long_path() {
    let mut text = String::new();
    for i in 0..500 {
        if i > 0 {
            text.push(':');
        }
        text.push_str("/directory/");
        text.push_str(&i.to_string());
    }
    let path = Path::from_str(&text, Platform::unix()).unwrap();
    let texts = literals(&path);
    assert_eq!(texts.len(), 500);
    assert_eq!(texts[0], "/directory/0");
    assert_eq!(texts[499], "/directory/499");
    assert_eq!(texts.join(":"), text);
}
