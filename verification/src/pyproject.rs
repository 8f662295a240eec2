//! The `[tool.adaptive]` table of a `pyproject.toml`, and which files are
//! left out when a recipe directory is packaged.

use crate::text::{is_listed, listed, same_text};
use std::path::Path;
use vstd::prelude::*;
use vstd::string::{StrSliceExecFns, StringExecFns};

verus! {

/// A project file, as far as this tool reads it.
#[derive(Debug)]
pub struct PyProject {
    pub tool: Option<ToolConfig>,
}

/// The `[tool]` table.
#[derive(Debug)]
pub struct ToolConfig {
    pub adaptive: Option<AdaptiveConfig>,
}

/// The `[tool.adaptive]` table.
///
/// `recipes` holds the named recipes in the order of the file. A name occurs
/// once: see [`AdaptiveConfig::wf`].
#[derive(Debug)]
pub struct AdaptiveConfig {
    pub use_case: Option<String>,
    pub ignore_files: Vec<String>,
    pub ignore_extensions: Vec<String>,
    pub recipes: Vec<(String, RecipeConfig)>,
}

/// One entry of `[tool.adaptive.recipes]`.
#[derive(Debug, Clone)]
pub struct RecipeConfig {
    pub recipe_path: Option<String>,
    pub recipe_key: Option<String>,
    pub use_case: Option<String>,
}

impl Default for PyProject {
    fn default() -> (r: Self)
        ensures
            r.tool is None,
    {
        PyProject { tool: None }
    }
}

impl Default for ToolConfig {
    fn default() -> (r: Self)
        ensures
            r.adaptive is None,
    {
        ToolConfig { adaptive: None }
    }
}

impl Default for AdaptiveConfig {
    fn default() -> (r: Self)
        ensures
            r.use_case is None,
            r.ignore_files@.len() == 0,
            r.ignore_extensions@.len() == 0,
            r.recipes@.len() == 0,
            r.wf(),
    {
        AdaptiveConfig {
            use_case: None,
            ignore_files: Vec::new(),
            ignore_extensions: Vec::new(),
            recipes: Vec::new(),
        }
    }
}

/// Whether entry `index` is the first of `recipes` under `name`.
pub open spec fn is_first_named(
    recipes: Seq<(String, RecipeConfig)>,
    name: Seq<char>,
    index: int,
) -> bool {
    &&& 0 <= index < recipes.len()
    &&& recipes[index].0@ == name
    &&& forall|earlier: int| 0 <= earlier < index ==> (#[trigger] recipes[earlier]).0@ != name
}

impl AdaptiveConfig {
    /// No two recipes have the same name.
    pub open spec fn wf(&self) -> bool {
        forall|i: int, j: int|
            0 <= i < j < self.recipes@.len() ==> (#[trigger] self.recipes@[i]).0@ != (
            #[trigger] self.recipes@[j]).0@
    }
}

/// Where no name occurs twice, an entry is the first of its name: a recipe
/// is found by its name whichever place it has.
pub proof fn lemma_named_once(config: AdaptiveConfig, index: int)
    requires
        config.wf(),
        0 <= index < config.recipes@.len(),
    ensures
        is_first_named(config.recipes@, config.recipes@[index].0@, index),
{
}

impl PyProject {
    /// The `[tool.adaptive]` table, if the file has one.
    pub open spec fn spec_adaptive_config(&self) -> Option<AdaptiveConfig> {
        match self.tool {
            Some(tool) => tool.adaptive,
            None => None,
        }
    }

    /// The `[tool.adaptive]` table, if the file has one.
    pub fn adaptive_config(&self) -> (config: Option<&AdaptiveConfig>)
        ensures
            config matches Some(found) ==> self.spec_adaptive_config() == Some(*found),
            config is None ==> self.spec_adaptive_config() is None,
    {
        match &self.tool {
            Some(tool) => match &tool.adaptive {
                Some(adaptive) => Some(adaptive),
                None => None,
            },
            None => None,
        }
    }

    /// The recipe stored under `name`: the first entry of that name in the
    /// `[tool.adaptive]` table, and none where the file has no such table or
    /// the table no such entry.
    pub fn get_recipe(&self, name: &str) -> (recipe: Option<&RecipeConfig>)
        ensures
            match self.spec_adaptive_config() {
                None => recipe is None,
                Some(config) => match recipe {
                    Some(found) => exists|index: int| #[trigger]
                        is_first_named(config.recipes@, name@, index) && config.recipes@[index].1
                            == *found,
                    None => forall|index: int|
                        0 <= index < config.recipes@.len() ==> (#[trigger] config.recipes@[index]).0@
                            != name@,
                },
            },
    {
        match self.adaptive_config() {
            None => None,
            Some(config) => {
                let mut index: usize = 0;
                while index < config.recipes.len()
                    invariant
                        self.spec_adaptive_config() == Some(*config),
                        index <= config.recipes@.len(),
                        forall|earlier: int|
                            0 <= earlier < index ==> (#[trigger] config.recipes@[earlier]).0@
                                != name@,
                    decreases config.recipes@.len() - index,
                {
                    if same_text(config.recipes[index].0.as_str(), name) {
                        assert(is_first_named(config.recipes@, name@, index as int));
                        return Some(&config.recipes[index].1);
                    }
                    index += 1;
                }
                None
            },
        }
    }

    /// All recipes with their names, in the order of the file; none when the
    /// file has no `[tool.adaptive]` table.
    pub fn list_recipes(&self) -> (recipes: Vec<(&String, &RecipeConfig)>)
        ensures
            self.spec_adaptive_config() is None ==> recipes@.len() == 0,
            self.spec_adaptive_config() matches Some(config) ==> {
                &&& recipes@.len() == config.recipes@.len()
                &&& forall|index: int|
                    0 <= index < recipes@.len() ==> *(#[trigger] recipes@[index]).0
                        == config.recipes@[index].0 && *recipes@[index].1
                        == config.recipes@[index].1
            },
    {
        let mut recipes: Vec<(&String, &RecipeConfig)> = Vec::new();
        match self.adaptive_config() {
            None => {},
            Some(config) => {
                let mut index: usize = 0;
                while index < config.recipes.len()
                    invariant
                        self.spec_adaptive_config() == Some(*config),
                        index <= config.recipes@.len(),
                        recipes@.len() == index,
                        forall|earlier: int|
                            0 <= earlier < index ==> *(#[trigger] recipes@[earlier]).0
                                == config.recipes@[earlier].0 && *recipes@[earlier].1
                                == config.recipes@[earlier].1,
                    decreases config.recipes@.len() - index,
                {
                    recipes.push((&config.recipes[index].0, &config.recipes[index].1));
                    index += 1;
                }
            },
        }
        recipes
    }
}

/// Names of files and directories that are never packaged.
pub open spec fn default_ignore_files() -> Seq<Seq<char>> {
    seq![
        "__pycache__"@,
        ".ipynb_checkpoints"@,
        ".venv"@,
        ".git"@,
        ".gitignore"@,
        ".vscode"@,
        ".ruff_cache"@,
        ".hypothesis"@,
        ".pytest_cache"@,
        "node_modules"@,
        ".DS_Store"@,
    ]
}

/// Extensions, with their dot, of files that are never packaged.
pub open spec fn default_ignore_extensions() -> Seq<Seq<char>> {
    seq![".pyc"@, ".ipynb"@]
}

/// Whether `name` is one of [`default_ignore_files`].
pub fn is_default_ignored_file(name: &str) -> (ignored: bool)
    ensures
        ignored == default_ignore_files().contains(name@),
{
    let ignored = same_text(name, "__pycache__") || same_text(name, ".ipynb_checkpoints")
        || same_text(name, ".venv") || same_text(name, ".git") || same_text(name, ".gitignore")
        || same_text(name, ".vscode") || same_text(name, ".ruff_cache") || same_text(
        name,
        ".hypothesis",
    ) || same_text(name, ".pytest_cache") || same_text(name, "node_modules") || same_text(
        name,
        ".DS_Store",
    );
    proof {
        let all = default_ignore_files();
        if ignored {
            let at = choose|index: int| 0 <= index < all.len() && all[index] == name@;
            assert(all[at] == name@);
        }
        assert(all.contains(name@) ==> ignored);
    }
    ignored
}

/// Whether `extension`, dot included, is one of
/// [`default_ignore_extensions`].
pub fn is_default_ignored_extension(extension: &str) -> (ignored: bool)
    ensures
        ignored == default_ignore_extensions().contains(extension@),
{
    let ignored = same_text(extension, ".pyc") || same_text(extension, ".ipynb");
    proof {
        let all = default_ignore_extensions();
        if ignored {
            let at = choose|index: int| 0 <= index < all.len() && all[index] == extension@;
            assert(all[at] == extension@);
        }
        assert(all.contains(extension@) ==> ignored);
    }
    ignored
}

/// Whether `index` is where the last dot of `name` stands.
pub open spec fn is_last_dot(name: Seq<char>, index: int) -> bool {
    &&& 0 <= index < name.len()
    &&& name[index] == '.'
    &&& forall|later: int| index < later < name.len() ==> name[later] != '.'
}

/// The extension of a file name, without its dot: what follows the last
/// dot. A name without a dot has none, nor has one whose only dot is its
/// first character, nor has `..`.
pub open spec fn extension_of(name: Seq<char>) -> Option<Seq<char>> {
    if name == seq!['.', '.'] {
        None
    } else if exists|index: int| is_last_dot(name, index) {
        let dot = choose|index: int| is_last_dot(name, index);
        if dot == 0 {
            None
        } else {
            Some(name.subrange(dot + 1, name.len() as int))
        }
    } else {
        None
    }
}

/// The extension of a file name, without its dot.
pub fn file_extension(name: &str) -> (extension: Option<String>)
    ensures
        extension matches Some(text) ==> extension_of(name@) == Some(text@),
        extension is None ==> extension_of(name@) is None,
{
    let len: usize = name.unicode_len();
    if len == 2 && name.get_char(0) == '.' && name.get_char(1) == '.' {
        assert(name@ =~= seq!['.', '.']);
        return None;
    }
    assert(name@ != seq!['.', '.']) by {
        if name@ == seq!['.', '.'] {
            assert(name@.len() == 2 && name@[0] == '.' && name@[1] == '.');
        }
    }
    let mut index: usize = len;
    while index > 0
        invariant
            name@ != seq!['.', '.'],
            index <= len == name@.len(),
            forall|later: int| index <= later < len ==> name@[later] != '.',
        decreases index,
    {
        index -= 1;
        if name.get_char(index) == '.' {
            assert(is_last_dot(name@, index as int));
            assert forall|other: int| is_last_dot(name@, other) implies other == index by {}
            if index == 0 {
                return None;
            }
            return Some(name.substring_char(index + 1, len).to_owned());
        }
    }
    assert forall|other: int| !is_last_dot(name@, other) by {}
    None
}

/// Whether a file or directory of the given name is left out of a package.
///
/// A path without a file name is never left out. A name is left out when it
/// is listed in `ignore_files` or among the defaults, or when its extension,
/// written with its dot, is listed in `ignore_extensions` or among the
/// defaults.
pub open spec fn ignored(
    name: Option<Seq<char>>,
    ignore_files: Seq<String>,
    ignore_extensions: Seq<String>,
) -> bool {
    match name {
        None => false,
        Some(name) => {
            ||| listed(ignore_files, name)
            ||| default_ignore_files().contains(name)
            ||| (extension_of(name) matches Some(extension) && (listed(
                ignore_extensions,
                seq!['.'] + extension,
            ) || default_ignore_extensions().contains(seq!['.'] + extension)))
        },
    }
}

/// Decides for a file name, as [`ignored`] defines it, whether the file is
/// left out of a package.
pub fn should_ignore_name(
    name: Option<&str>,
    ignore_files: &[String],
    ignore_extensions: &[String],
) -> (r: bool)
    ensures
        r == ignored(
            match name {
                Some(text) => Some(text@),
                None => None,
            },
            ignore_files@,
            ignore_extensions@,
        ),
{
    match name {
        None => false,
        Some(name) => {
            if is_listed(ignore_files, name) {
                return true;
            }
            if is_default_ignored_file(name) {
                return true;
            }
            match file_extension(name) {
                None => false,
                Some(extension) => {
                    proof {
                        reveal_strlit(".");
                    }
                    let mut dotted: String = String::from_str(".");
                    dotted.append(extension.as_str());
                    assert(dotted@ =~= seq!['.'] + extension@);
                    if is_listed(ignore_extensions, dotted.as_str()) {
                        return true;
                    }
                    is_default_ignored_extension(dotted.as_str())
                },
            }
        },
    }
}

/// The final component of a path, by the rules of the platform. Calls
/// `std::path::Path::file_name`, and claims nothing of what it returns: the
/// separators, and with them the answer, differ from platform to platform.
#[verifier::external_body]
fn path_file_name(path: &str) -> (name: Option<String>) {
    match Path::new(path).file_name() {
        Some(name) => match name.to_str() {
            Some(text) => Some(text.to_owned()),
            None => None,
        },
        None => None,
    }
}

/// Whether the file or directory at `path` is left out of a package: the
/// decision of [`should_ignore_name`] on the path's final component, as the
/// platform determines it.
pub fn should_ignore(path: &str, ignore_files: &[String], ignore_extensions: &[String]) -> (r:
    bool)
    ensures
        exists|name: Option<Seq<char>>| r == #[trigger] ignored(
            name,
            ignore_files@,
            ignore_extensions@,
        ),
{
    let name: Option<String> = path_file_name(path);
    match &name {
        Some(text) => {
            let r = should_ignore_name(Some(text.as_str()), ignore_files, ignore_extensions);
            assert(r == ignored(Some(text@), ignore_files@, ignore_extensions@));
            r
        },
        None => {
            let r = should_ignore_name(None, ignore_files, ignore_extensions);
            assert(r == ignored(None, ignore_files@, ignore_extensions@));
            r
        },
    }
}

} // verus!
