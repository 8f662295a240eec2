use adpt::pyproject::{
    file_extension, is_default_ignored_extension, is_default_ignored_file, should_ignore,
    should_ignore_name, AdaptiveConfig, PyProject, RecipeConfig, ToolConfig,
};

fn recipe(path: &str) -> RecipeConfig {
    RecipeConfig { recipe_path: Some(path.to_string()), recipe_key: None, use_case: None }
}

fn project() -> PyProject {
    PyProject {
        tool: Some(ToolConfig {
            adaptive: Some(AdaptiveConfig {
                use_case: Some("demo".to_string()),
                ignore_files: vec!["secret.txt".to_string()],
                ignore_extensions: vec![".log".to_string()],
                recipes: vec![
                    ("train".to_string(), recipe("recipes/train")),
                    ("eval".to_string(), recipe("recipes/eval")),
                ],
            }),
        }),
    }
}

#[test]
fn a_default_project_has_no_adaptive_table() {
    let empty = PyProject::default();
    assert!(empty.tool.is_none());
    assert!(empty.adaptive_config().is_none());
    assert!(empty.get_recipe("train").is_none());
    assert!(empty.list_recipes().is_empty());
    let no_adaptive = PyProject { tool: Some(ToolConfig::default()) };
    assert!(no_adaptive.adaptive_config().is_none());
    assert!(no_adaptive.list_recipes().is_empty());
}

#[test]
fn a_default_adaptive_table_is_empty() {
    let config = AdaptiveConfig::default();
    assert!(config.use_case.is_none());
    assert!(config.ignore_files.is_empty());
    assert!(config.ignore_extensions.is_empty());
    assert!(config.recipes.is_empty());
}

#[test]
fn the_adaptive_table_is_found() {
    let project = project();
    let config = project.adaptive_config().unwrap();
    assert_eq!(config.use_case.as_deref(), Some("demo"));
    assert_eq!(config.recipes.len(), 2);
}

#[test]
fn a_recipe_is_found_by_its_name() {
    let project = project();
    assert_eq!(
        project.get_recipe("eval").unwrap().recipe_path.as_deref(),
        Some("recipes/eval")
    );
    assert_eq!(
        project.get_recipe("train").unwrap().recipe_path.as_deref(),
        Some("recipes/train")
    );
    assert!(project.get_recipe("trai").is_none());
    assert!(project.get_recipe("").is_none());
}

#[test]
fn recipes_are_listed_in_the_order_of_the_file() {
    let project = project();
    let listed = project.list_recipes();
    assert_eq!(listed.len(), 2);
    assert_eq!(listed[0].0, "train");
    assert_eq!(listed[0].1.recipe_path.as_deref(), Some("recipes/train"));
    assert_eq!(listed[1].0, "eval");
    assert_eq!(listed[1].1.recipe_path.as_deref(), Some("recipes/eval"));
}

#[test]
fn the_extension_follows_the_last_dot() {
    assert_eq!(file_extension("model.pyc"), Some("pyc".to_string()));
    assert_eq!(file_extension("archive.tar.gz"), Some("gz".to_string()));
    assert_eq!(file_extension("trailing."), Some(String::new()));
    assert_eq!(file_extension("..a"), Some("a".to_string()));
    assert_eq!(file_extension("README"), None);
    assert_eq!(file_extension(".gitignore"), None);
    assert_eq!(file_extension(".."), None);
    assert_eq!(file_extension(""), None);
    assert_eq!(file_extension("."), None);
}

#[test]
fn the_extension_agrees_with_the_standard_library() {
    for name in ["a.b", "a", ".a", "a.", "a.b.c", "..a", "x.tar.gz", ".a.b", "é.ñ"] {
        let expected = std::path::Path::new(name)
            .extension()
            .and_then(|e| e.to_str())
            .map(|e| e.to_string());
        assert_eq!(file_extension(name), expected);
    }
}

#[test]
fn default_names_and_extensions_are_ignored() {
    for name in [
        "__pycache__",
        ".ipynb_checkpoints",
        ".venv",
        ".git",
        ".gitignore",
        ".vscode",
        ".ruff_cache",
        ".hypothesis",
        ".pytest_cache",
        "node_modules",
        ".DS_Store",
    ] {
        assert!(is_default_ignored_file(name));
        assert!(should_ignore_name(Some(name), &[], &[]));
    }
    assert!(!is_default_ignored_file("main.py"));
    assert!(!is_default_ignored_file(".Git"));
    assert!(is_default_ignored_extension(".pyc"));
    assert!(is_default_ignored_extension(".ipynb"));
    assert!(!is_default_ignored_extension("pyc"));
    assert!(!is_default_ignored_extension(".py"));
}

#[test]
fn a_name_is_ignored_by_list_or_extension() {
    let files = vec!["secret.txt".to_string()];
    let extensions = vec![".log".to_string()];
    assert!(should_ignore_name(Some("secret.txt"), &files, &extensions));
    assert!(should_ignore_name(Some("run.log"), &files, &extensions));
    assert!(should_ignore_name(Some("cache.pyc"), &files, &extensions));
    assert!(should_ignore_name(Some("notes.ipynb"), &[], &[]));
    assert!(!should_ignore_name(Some("main.py"), &files, &extensions));
    assert!(!should_ignore_name(Some("log"), &files, &extensions));
    assert!(!should_ignore_name(Some(".log"), &files, &extensions));
    assert!(!should_ignore_name(Some("run.log"), &files, &["log".to_string()]));
    assert!(!should_ignore_name(None, &files, &extensions));
}

#[test]
fn a_path_is_judged_by_its_last_component() {
    let files = vec!["secret.txt".to_string()];
    let extensions = vec![".log".to_string()];
    assert!(should_ignore("project/__pycache__", &files, &extensions));
    assert!(should_ignore("project/__pycache__/", &files, &extensions));
    assert!(should_ignore("a/b/model.pyc", &files, &extensions));
    assert!(should_ignore("notebook.ipynb", &files, &extensions));
    assert!(should_ignore("deep/down/secret.txt", &files, &extensions));
    assert!(should_ignore("out/run.log", &files, &extensions));
    assert!(should_ignore(".gitignore", &files, &extensions));
    assert!(!should_ignore("src/main.py", &files, &extensions));
    assert!(!should_ignore("__pycache__/main.py", &files, &extensions));
    assert!(!should_ignore("secret.txt/readme", &files, &extensions));
    assert!(!should_ignore("foo/..", &files, &extensions));
    assert!(!should_ignore("/", &files, &extensions));
    assert!(!should_ignore("", &files, &extensions));
}
