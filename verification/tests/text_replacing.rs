use extension_hub::error::HubError;
use extension_hub::strings::{str_concat, str_contains, str_eq, str_replace};
use extension_hub::text_replace::{
    file_type, map_file_config, map_files, Client, FileConfig, FileWrite, Setting, SourceFile, YamlConfig,
};

fn setting(old: &str, new: &str, types: &[&str]) -> Setting {
    Setting {
        old_web_prefix: old.to_string(),
        new_web_prefix: new.to_string(),
        exclude_path: None,
        source_path: "/base/plug".to_string(),
        output_path: "/base/plug".to_string(),
        file_types: Some(types.iter().map(|t| t.to_string()).collect()),
    }
}

fn file(path: &str, content: &str) -> SourceFile {
    SourceFile { relative_path: path.to_string(), content: content.to_string() }
}

fn pairs(list: &[FileWrite]) -> Vec<(String, String)> {
    list.iter().map(|w| (w.path.clone(), w.content.clone())).collect()
}

#[test]
fn replaces_every_occurrence_from_the_left() {
    assert_eq!(str_replace("log(x)", "log", "warn"), "warn(x)");
    assert_eq!(str_replace("log log log", "log", "l"), "l l l");
    assert_eq!(str_replace("aaaa", "aa", "b"), "bb");
    assert_eq!(str_replace("aaa", "aa", "b"), "ba");
    assert_eq!(str_replace("abc", "x", "y"), "abc");
    assert_eq!(str_replace("", "x", "y"), "");
    assert_eq!(str_replace("abc", "abc", ""), "");
    assert_eq!(str_replace("abc", "abcd", "z"), "abc");
    assert_eq!(str_replace("/old/a /old/b", "/old", "/new/er"), "/new/er/a /new/er/b");
    assert_eq!(str_replace("前缀/页面", "前缀", "新"), "新/页面");
}

#[test]
fn an_empty_pattern_stands_before_every_character_and_at_the_end() {
    assert_eq!(str_replace("ab", "", "-"), "-a-b-");
    assert_eq!(str_replace("", "", "x"), "x");
    assert_eq!(str_replace("é天", "", "|"), "|é|天|");
}

#[test]
fn replacement_may_bring_the_old_text_back() {
    assert_eq!(str_replace("aab", "ab", "b"), "ab");
    assert_eq!(str_replace("aabb", "ab", ""), "ab");
    assert_eq!(str_replace("log", "log", "logger"), "logger");
}

#[test]
fn replacing_agrees_with_the_standard_library() {
    let texts = ["", "a", "aa", "aaa", "abab", "ababab", "xyz", "log(x); log(y)", "ééé", "a.b.c", "aXbXc", "XX", "日本語日本"];
    let olds = ["", "a", "aa", "ab", "ba", "X", "é", "日本", "log", "zzzz", "."];
    let news = ["", "b", "ab", "a", "warn", "XX", "语"];
    for t in texts {
        for o in olds {
            assert_eq!(str_contains(t, o), t.contains(o), "{:?} contains {:?}", t, o);
            for n in news {
                assert_eq!(str_replace(t, o, n), t.replace(o, n), "{:?}.replace({:?}, {:?})", t, o, n);
            }
        }
    }
}

#[test]
fn strings_compare_and_concatenate() {
    assert!(str_eq("abc", "abc"));
    assert!(!str_eq("abc", "abd"));
    assert!(!str_eq("abc", "ab"));
    assert!(str_eq("", ""));
    assert_eq!(str_concat("ab", "cd"), "abcd");
    assert_eq!(str_concat("", ""), "");
}

#[test]
fn file_type_is_the_extension_of_the_last_component() {
    assert_eq!(file_type("a.js"), "js");
    assert_eq!(file_type("dir/sub/a.min.js"), "js");
    assert_eq!(file_type("a"), "");
    assert_eq!(file_type(".bashrc"), "");
    assert_eq!(file_type(".config.toml"), "toml");
    assert_eq!(file_type("a."), "");
    assert_eq!(file_type("dir.d/file"), "");
    assert_eq!(file_type(""), "");
    assert_eq!(file_type(".."), "");
    assert_eq!(file_type("a.js/"), "js");
    assert_eq!(file_type("/"), "");
}

#[test]
fn file_type_agrees_with_the_standard_library() {
    for p in ["a.js", "a", ".a", "a.", "a.b.c", "x/y.z", "x.y/z", "..", ".", "", "a/..", "x/.hidden.txt", "a..b", "...", "x/", "x.tar.gz"] {
        let expected = std::path::Path::new(p)
            .extension()
            .unwrap_or_default()
            .to_str()
            .unwrap_or_default()
            .to_string();
        assert_eq!(file_type(p), expected, "for {:?}", p);
    }
}

#[test]
fn only_files_of_the_named_types_with_the_old_text_are_written() {
    let s = setting("log", "warn", &["js"]);
    let files = vec![
        file("a.js", "log(x)"),
        file("a.txt", "log(x)"),
        file("b.js", "print(x)"),
        file("sub/c.js", "log(1); log(2)"),
        file("js", "log"),
    ];
    let out = map_files(&s, &files).unwrap();
    assert_eq!(
        pairs(&out),
        vec![
            ("/base/plug/a.js".to_string(), "warn(x)".to_string()),
            ("/base/plug/sub/c.js".to_string(), "warn(1); warn(2)".to_string()),
        ]
    );
    let again = s.text_replace(&files).unwrap();
    assert_eq!(pairs(&again), pairs(&out));
}

#[test]
fn files_are_written_below_the_output_root() {
    let mut s = setting("a", "b", &["txt"]);
    s.output_path = "/out/".to_string();
    let out = map_files(&s, &vec![file("x/y.txt", "banana")]).unwrap();
    assert_eq!(pairs(&out), vec![("/out/x/y.txt".to_string(), "bbnbnb".to_string())]);
}

#[test]
fn without_file_types_nothing_is_written() {
    let mut s = setting("a", "b", &[]);
    assert!(map_files(&s, &vec![file("x.txt", "a")]).unwrap().is_empty());
    s.file_types = None;
    assert!(map_files(&s, &vec![file("x.txt", "a"), file("x", "a")]).unwrap().is_empty());
    s.file_types = Some(vec!["".to_string()]);
    assert_eq!(pairs(&map_files(&s, &vec![file("x.txt", "a"), file("x", "a")]).unwrap()), vec![("/base/plug/x".to_string(), "b".to_string())]);
}

#[test]
fn excluded_files_are_left_as_they_are() {
    let mut s = setting("a", "b", &["js"]);
    s.exclude_path = Some(vec!["*.min.js".to_string(), "vendor/**".to_string()]);
    assert_eq!(s.excludes("x.min.js").unwrap(), true);
    assert_eq!(s.excludes("x.js").unwrap(), false);
    assert_eq!(s.excludes("vendor/lib/x.js").unwrap(), true);
    assert_eq!(s.excludes("").unwrap(), false);
    let out = map_files(&s, &vec![file("x.min.js", "a"), file("x.js", "a"), file("vendor/lib/x.js", "a")]).unwrap();
    assert_eq!(pairs(&out), vec![("/base/plug/x.js".to_string(), "b".to_string())]);
}

#[test]
fn the_built_in_pattern_is_a_glob() {
    let s = setting("a", "b", &["js"]);
    assert_eq!(s.excludes(".git").unwrap(), false);
    assert_eq!(s.excludes(".git$").unwrap(), true);
    assert_eq!(s.excludes("x/.git").unwrap(), false);
}

#[test]
fn a_pattern_that_does_not_compile_is_a_configure_error() {
    let mut s = setting("a", "b", &["js"]);
    s.exclude_path = Some(vec!["*.js".to_string(), "[".to_string()]);
    assert_eq!(s.excludes("x.js").unwrap(), true);
    match s.excludes("x.txt") {
        Err(HubError::ConfigureError(p)) => assert_eq!(p, "["),
        other => panic!("{:?}", other),
    }
    match map_files(&s, &vec![file("x.js", "a"), file("y.txt", "a"), file("z.js", "a")]) {
        Err(HubError::ConfigureError(p)) => assert_eq!(p, "["),
        other => panic!("{:?}", other.map(|l| pairs(&l))),
    }
    assert_eq!(pairs(&map_files(&s, &vec![file("x.js", "a")]).unwrap()), Vec::<(String, String)>::new());
}

#[test]
fn rewrite_skips_texts_without_the_old_text() {
    let s = setting("log", "warn", &["js"]);
    assert_eq!(s.rewrite("log(x)"), Some("warn(x)".to_string()));
    assert_eq!(s.rewrite("print(x)"), None);
    assert_eq!(s.rewrite(""), None);
    assert!(s.selects("a.js"));
    assert!(!s.selects("a.txt"));
    assert!(!s.selects("a"));
}

fn written(new: Option<&str>) -> FileConfig {
    FileConfig {
        old_web_prefix: "/old".to_string(),
        new_web_prefix: new.map(|s| s.to_string()),
        local_config_path: Some("local.yaml".to_string()),
        config_path: Some("shared.yaml".to_string()),
        exclude_path: Some(vec!["*.map".to_string()]),
        source_path: "src".to_string(),
        output_path: "out".to_string(),
        file_types: Some(vec!["js".to_string()]),
    }
}

fn yaml(prefix: &str) -> Option<YamlConfig> {
    Some(YamlConfig { client: Client { web_prefix: prefix.to_string() } })
}

#[test]
fn a_named_new_text_stands() {
    let s = map_file_config(written(Some("/new")), yaml("/local"), yaml("/shared")).unwrap();
    assert_eq!(s.new_web_prefix, "/new");
    assert_eq!(s.old_web_prefix, "/old");
    assert_eq!(s.source_path, "src");
    assert_eq!(s.output_path, "out");
    assert_eq!(s.exclude_path, Some(vec!["*.map".to_string()]));
    assert_eq!(s.file_types, Some(vec!["js".to_string()]));
}

#[test]
fn the_local_configuration_goes_before_the_shared_one() {
    assert_eq!(map_file_config(written(None), yaml("/local"), yaml("/shared")).unwrap().new_web_prefix, "/local");
    assert_eq!(map_file_config(written(None), None, yaml("/shared")).unwrap().new_web_prefix, "/shared");
    assert_eq!(map_file_config(written(None), yaml("/local"), None).unwrap().new_web_prefix, "/local");
    assert_eq!(map_file_config(written(None), None, None).unwrap().new_web_prefix, "");
}

#[test]
fn a_root_prefix_counts_as_nothing() {
    assert_eq!(map_file_config(written(None), yaml("/"), yaml("/shared")).unwrap().new_web_prefix, "");
    assert_eq!(map_file_config(written(None), None, yaml("/")).unwrap().new_web_prefix, "");
    assert_eq!(map_file_config(written(None), yaml("//"), None).unwrap().new_web_prefix, "//");
    assert_eq!(map_file_config(written(Some("/")), None, None).unwrap().new_web_prefix, "/");
}

#[test]
fn nothing_of_the_old_text_is_left_where_the_texts_share_no_character() {
    for text in ["log(x)", "loglog", "llogog", "xlogylogz", "logloglog", "lo", "", "glog"] {
        let out = str_replace(text, "log", "warn");
        assert!(!str_contains(&out, "log"), "{:?} gave {:?}", text, out);
    }
    for text in ["aXbXc", "XX", "X", "abc"] {
        let out = str_replace(text, "X", "--");
        assert!(!str_contains(&out, "X"));
        assert_eq!(out.replace("--", "X"), text);
    }
}

#[test]
fn what_is_not_replaced_is_kept_in_place() {
    let text = "head log middle log tail";
    let out = str_replace(text, "log", "warning");
    let kept: Vec<&str> = text.split("log").collect();
    assert_eq!(kept, vec!["head ", " middle ", " tail"]);
    assert_eq!(out, kept.join("warning"));
    assert_eq!(str_replace("no match here", "log", "warn"), "no match here");
}

#[test]
fn a_pattern_that_gives_no_matcher_is_a_configure_error() {
    let deep = format!("{}a{}", "{".repeat(300), "}".repeat(300));
    let mut s = setting("a", "b", &["js"]);
    s.exclude_path = Some(vec![deep.clone()]);
    match s.excludes("a") {
        Err(HubError::ConfigureError(p)) => assert_eq!(p, deep),
        other => panic!("{:?}", other),
    }
    for bad in ["[", "a{b", "a**b/**c{", "\\"] {
        s.exclude_path = Some(vec![bad.to_string()]);
        match s.excludes("a") {
            Err(HubError::ConfigureError(p)) => assert_eq!(p, bad),
            other => panic!("{:?} gave {:?}", bad, other),
        }
    }
}

#[test]
fn patterns_match_as_globs() {
    let mut s = setting("a", "b", &["js"]);
    let cases = [
        ("*.js", "x.js", true),
        ("*.js", "dir/x.js", true),
        ("*.js", "x.jsx", false),
        ("**/node_modules", "a/b/node_modules", true),
        ("**/node_modules", "node_modules", true),
        ("**/node_modules", "a/node_modules/b", false),
        ("src/*", "src/x", true),
        ("src/*", "lib/x", false),
        ("{a,b}.txt", "b.txt", true),
        ("{a,b}.txt", "c.txt", false),
        ("[ab]c", "bc", true),
        ("?c", "c", false),
        ("literal", "literal", true),
        ("literal", "literal2", false),
        ("\\*", "*", true),
        ("\\*", "x", false),
    ];
    for (pattern, path, expected) in cases {
        s.exclude_path = Some(vec![pattern.to_string()]);
        assert_eq!(s.excludes(path).unwrap(), expected, "{:?} on {:?}", pattern, path);
        let matcher = globset::Glob::new(pattern).unwrap().compile_matcher();
        assert_eq!(matcher.is_match(path), expected, "{:?} on {:?}", pattern, path);
    }
}

#[test]
fn configuration_files_are_read_only_where_they_count() {
    assert_eq!(written(Some("/new")).local_config_to_read(), None);
    assert_eq!(written(Some("/new")).shared_config_to_read(false), None);
    assert_eq!(written(None).local_config_to_read(), Some("local.yaml".to_string()));
    assert_eq!(written(None).shared_config_to_read(true), None);
    assert_eq!(written(None).shared_config_to_read(false), Some("shared.yaml".to_string()));
    let mut bare = written(None);
    bare.local_config_path = None;
    bare.config_path = None;
    assert_eq!(bare.local_config_to_read(), None);
    assert_eq!(bare.shared_config_to_read(false), None);
}

#[test]
fn one_file_is_written_or_left() {
    let s = setting("log", "warn", &["js"]);
    let write = s.map_file(&file("a.js", "log(x)")).unwrap();
    assert_eq!(write.path, "/base/plug/a.js");
    assert_eq!(write.content, "warn(x)");
    assert!(s.map_file(&file("a.txt", "log(x)")).is_none());
    assert!(s.map_file(&file("b.js", "print(x)")).is_none());
    assert!(s.map_file(&file("js", "log")).is_none());
}
