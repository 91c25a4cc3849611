//! Text substitution over the files of a tree.
//!
//! A [`Setting`] says which text is replaced by which, in files of which
//! types, and which paths are left out. The tree itself is read and written
//! by the caller: it hands over the files that its walk has visited and gets
//! back the files to write.

use vstd::prelude::*;
use vstd::string::*;
use globset::Glob;
use globset::GlobSetBuilder;
use crate::error::{outcome, HubError, HubErrorView};
use crate::file::{components, join, joined, parse_components, views_of, Component, PathComponent};
use crate::strings::{chars_contain, chars_of, chars_replace, contains, replaced, str_eq, string_of_range};

verus! {

/// The client section of a deployment's configuration file.
#[derive(Debug, Clone)]
pub struct Client {
    pub web_prefix: String,
}

/// A deployment's configuration file, as far as the replacer reads it.
#[derive(Debug, Clone)]
pub struct YamlConfig {
    pub client: Client,
}

/// What to replace, where, and what to leave out.
#[derive(Debug)]
pub struct Setting {
    pub old_web_prefix: String,
    pub new_web_prefix: String,
    pub exclude_path: Option<Vec<String>>,
    pub source_path: String,
    pub output_path: String,
    pub file_types: Option<Vec<String>>,
}

/// A setting as it is written down, before the new text is settled.
#[derive(Debug)]
pub struct FileConfig {
    pub old_web_prefix: String,
    pub new_web_prefix: Option<String>,
    pub local_config_path: Option<String>,
    pub config_path: Option<String>,
    pub exclude_path: Option<Vec<String>>,
    pub source_path: String,
    pub output_path: String,
    pub file_types: Option<Vec<String>>,
}

/// A file that the walk of the source tree has visited: its path below the
/// root of the tree, and its text.
#[derive(Debug)]
pub struct SourceFile {
    pub relative_path: String,
    pub content: String,
}

/// A file to write: its path, and its new text.
#[derive(Debug)]
pub struct FileWrite {
    pub path: String,
    pub content: String,
}

impl View for SourceFile {
    type V = (Seq<char>, Seq<char>);

    open spec fn view(&self) -> (Seq<char>, Seq<char>) {
        (self.relative_path@, self.content@)
    }
}

impl View for FileWrite {
    type V = (Seq<char>, Seq<char>);

    open spec fn view(&self) -> (Seq<char>, Seq<char>) {
        (self.path@, self.content@)
    }
}

/// The texts of a list of strings.
pub open spec fn texts(list: Seq<String>) -> Seq<Seq<char>> {
    list.map_values(|s: String| s@)
}

/// The texts of a list of strings that may be missing.
pub open spec fn optional_texts(list: Option<Vec<String>>) -> Option<Seq<Seq<char>>> {
    match list {
        Some(l) => Some(texts(l@)),
        None => None,
    }
}

/// A [`Setting`] in contracts.
pub ghost struct SettingView {
    pub old_web_prefix: Seq<char>,
    pub new_web_prefix: Seq<char>,
    pub exclude_path: Option<Seq<Seq<char>>>,
    pub source_path: Seq<char>,
    pub output_path: Seq<char>,
    pub file_types: Option<Seq<Seq<char>>>,
}

impl View for Setting {
    type V = SettingView;

    open spec fn view(&self) -> SettingView {
        SettingView {
            old_web_prefix: self.old_web_prefix@,
            new_web_prefix: self.new_web_prefix@,
            exclude_path: optional_texts(self.exclude_path),
            source_path: self.source_path@,
            output_path: self.output_path@,
            file_types: optional_texts(self.file_types),
        }
    }
}

/// The source files of a list, in contracts.
pub open spec fn sources(list: Seq<SourceFile>) -> Seq<(Seq<char>, Seq<char>)> {
    list.map_values(|f: SourceFile| f@)
}

/// The files to write of a list, in contracts.
pub open spec fn writes(list: Seq<FileWrite>) -> Seq<(Seq<char>, Seq<char>)> {
    list.map_values(|w: FileWrite| w@)
}

/// Whether `pattern` compiles to a matcher: it parses as a glob, and a
/// matcher can be built from what was parsed.
pub uninterp spec fn glob_is_valid(pattern: Seq<char>) -> bool;

/// Whether the matcher built from the glob `pattern` matches `path`.
pub uninterp spec fn glob_matches(pattern: Seq<char>, path: Seq<char>) -> bool;

/// Parses `pattern` with `globset::Glob::new`, builds a matcher for it with
/// `GlobSetBuilder::new`, `GlobSetBuilder::add` and `GlobSetBuilder::build`,
/// and asks the matcher whether `path` matches (`GlobSet::is_match`). Both
/// the parsing and the building hand a failure back; either one gives
/// nothing here. On one target platform the outcome depends on the two texts
/// alone. Between platforms it may differ: whether `\` escapes the next
/// character of a pattern, and which characters of a path count as
/// separators, is settled by the platform's path separators. Where `/` is
/// the only separator, as the hub takes it to be, `\` escapes.
#[verifier::external_body]
fn glob_match(pattern: &str, path: &str) -> (m: Option<bool>)
    ensures
        m is Some <==> glob_is_valid(pattern@),
        m matches Some(b) ==> b == glob_matches(pattern@, path@),
{
    match Glob::new(pattern) {
        Ok(glob) => match GlobSetBuilder::new().add(glob).build() {
            Ok(set) => Some(set.is_match(path)),
            Err(_) => None,
        },
        Err(_) => None,
    }
}

/// The pattern that every walk leaves out, whatever the setting says.
pub open spec fn always_excluded() -> Seq<char> {
    "\\.git$"@
}

/// What trying `patterns` in order on `path` gives: the first pattern that
/// does not compile, if it is reached before a match; else whether one matches.
pub open spec fn excluded_by(patterns: Seq<Seq<char>>, path: Seq<char>) -> Result<bool, Seq<char>>
    decreases patterns.len(),
{
    if patterns.len() == 0 {
        Ok(false)
    } else if !glob_is_valid(patterns[0]) {
        Err(patterns[0])
    } else if glob_matches(patterns[0], path) {
        Ok(true)
    } else {
        excluded_by(patterns.skip(1), path)
    }
}

/// The index of the last `.` in `name`, or -1 where it has none.
pub open spec fn last_dot(name: Seq<char>) -> int
    decreases name.len(),
{
    if name.len() == 0 {
        -1
    } else if name.last() == '.' {
        name.len() - 1
    } else {
        last_dot(name.drop_last())
    }
}

/// The extension of a file name: what stands behind its last `.`, and
/// nothing where it has no `.` or only one, at its start.
pub open spec fn extension_of_name(name: Seq<char>) -> Seq<char> {
    let at = last_dot(name);
    if 0 < at < name.len() {
        name.skip(at + 1)
    } else {
        Seq::empty()
    }
}

/// The type of the file at `path`: the extension of its last component, and
/// nothing where the path does not end in an ordinary name.
pub open spec fn file_type_of(path: Seq<char>) -> Seq<char> {
    let parts = components(path);
    if parts.len() > 0 {
        match parts.last() {
            Component::Normal(name) => extension_of_name(name),
            _ => Seq::empty(),
        }
    } else {
        Seq::empty()
    }
}

/// No `.` stands behind the last one.
proof fn lemma_last_dot(name: Seq<char>, at: int)
    requires
        -1 <= at < name.len(),
        at >= 0 ==> name[at] == '.',
        forall|j: int| at < j < name.len() ==> name[j] != '.',
    ensures
        last_dot(name) == at,
    decreases name.len(),
{
    if name.len() > 0 && at < name.len() - 1 {
        lemma_last_dot(name.drop_last(), at);
    }
}

/// The extension of a file name.
fn extension_of(name: &str) -> (ext: String)
    ensures
        ext@ == extension_of_name(name@),
{
    let chars = chars_of(name);
    let mut at: usize = chars.len();
    while at > 0 && chars[at - 1] != '.'
        invariant
            at <= chars.len(),
            forall|j: int| at <= j < chars.len() ==> chars@[j] != '.',
        decreases at,
    {
        at -= 1;
    }
    proof {
        lemma_last_dot(chars@, at - 1);
    }
    if at > 1 {
        let ext = string_of_range(&chars, at, chars.len());
        assert(chars@.skip(at as int) =~= chars@.subrange(at as int, chars.len() as int));
        ext
    } else {
        String::new()
    }
}

/// The type of the file at `path`.
pub fn file_type(path: &str) -> (ext: String)
    ensures
        ext@ == file_type_of(path@),
{
    let parts = parse_components(path);
    if parts.len() == 0 {
        assert(views_of(parts@).len() == 0);
        return String::new();
    }
    assert(views_of(parts@).last() == parts@[parts@.len() - 1]@);
    match &parts[parts.len() - 1] {
        PathComponent::Normal(name) => extension_of(name.as_str()),
        _ => String::new(),
    }
}

/// Whether `list` holds `text`.
pub fn list_contains(list: &Vec<String>, text: &str) -> (found: bool)
    ensures
        found == texts(list@).contains(text@),
{
    let mut i: usize = 0;
    while i < list.len()
        invariant
            i <= list.len(),
            forall|j: int| 0 <= j < i ==> texts(list@)[j] != text@,
        decreases list.len() - i,
    {
        if str_eq(list[i].as_str(), text) {
            assert(texts(list@)[i as int] == text@);
            return true;
        }
        i += 1;
    }
    false
}

impl SettingView {
    /// The file types that the setting names.
    pub open spec fn suffixes(self) -> Seq<Seq<char>> {
        match self.file_types {
            Some(list) => list,
            None => Seq::empty(),
        }
    }

    /// The patterns that the setting leaves out, in the order in which they
    /// are tried: its own, then the one that is always left out.
    pub open spec fn exclusions(self) -> Seq<Seq<char>> {
        match self.exclude_path {
            Some(list) => list.push(always_excluded()),
            None => seq![always_excluded()],
        }
    }

    /// Whether a file at `path` is one that the setting rewrites: its type is
    /// among the setting's file types.
    pub open spec fn selects_path(self, path: Seq<char>) -> bool {
        self.suffixes().contains(file_type_of(path))
    }

    /// What the setting makes of a text: nothing where the old text does not
    /// stand in it, else the text with the old replaced by the new.
    pub open spec fn rewritten(self, content: Seq<char>) -> Option<Seq<char>> {
        if contains(content, self.old_web_prefix) {
            Some(replaced(content, self.old_web_prefix, self.new_web_prefix))
        } else {
            None
        }
    }

    /// What the setting makes of one visited file: the file to write, if there is one.
    pub open spec fn write_for(self, file: (Seq<char>, Seq<char>)) -> Option<
        (Seq<char>, Seq<char>),
    > {
        if self.selects_path(file.0) {
            match self.rewritten(file.1) {
                Some(text) => Some((joined(self.output_path, file.0), text)),
                None => None,
            }
        } else {
            None
        }
    }

    /// What the setting makes of the visited files, in their order: for every
    /// file that is not left out, has one of the file types and holds the old
    /// text, the file to write below the output root. A pattern that does not
    /// compile, once it is reached, ends the run with that pattern.
    pub open spec fn writes_for(self, files: Seq<(Seq<char>, Seq<char>)>) -> Result<
        Seq<(Seq<char>, Seq<char>)>,
        Seq<char>,
    >
        decreases files.len(),
    {
        if files.len() == 0 {
            Ok(Seq::empty())
        } else {
            match self.writes_for(files.drop_last()) {
                Err(pattern) => Err(pattern),
                Ok(before) => match excluded_by(self.exclusions(), files.last().0) {
                    Err(pattern) => Err(pattern),
                    Ok(true) => Ok(before),
                    Ok(false) => match self.write_for(files.last()) {
                        Some(w) => Ok(before.push(w)),
                        None => Ok(before),
                    },
                },
            }
        }
    }
}

impl Setting {
    /// Whether the walk leaves out the entry at `relative_path`, a path below
    /// the root of the source tree. The setting's patterns are tried in order,
    /// then the one that is always left out. A pattern that does not compile
    /// is a configure error that names it.
    pub fn excludes(&self, relative_path: &str) -> (r: Result<bool, HubError>)
        ensures
            match excluded_by(self@.exclusions(), relative_path@) {
                Ok(b) => r == Ok::<bool, HubError>(b),
                Err(pattern) => r matches Err(e) && e@ == HubErrorView::ConfigureError(pattern),
            },
    {
        let ghost all = self@.exclusions();
        let ghost last = seq![always_excluded()];
        match &self.exclude_path {
            Some(list) => {
                let mut i: usize = 0;
                assert(all.skip(0) =~= all);
                while i < list.len()
                    invariant
                        i <= list.len(),
                        all == self@.exclusions(),
                        all == texts(list@).push(always_excluded()),
                        excluded_by(all.skip(i as int), relative_path@) == excluded_by(
                            all,
                            relative_path@,
                        ),
                    decreases list.len() - i,
                {
                    let ghost rest = all.skip(i as int);
                    assert(rest[0] == list@[i as int]@);
                    assert(rest.skip(1) =~= all.skip(i + 1));
                    match glob_match(list[i].as_str(), relative_path) {
                        None => {
                            return Err(HubError::ConfigureError(list[i].clone()));
                        },
                        Some(true) => {
                            return Ok(true);
                        },
                        Some(false) => {},
                    }
                    i += 1;
                }
                assert(all.skip(i as int) =~= last);
            },
            None => {},
        }
        assert(excluded_by(last, relative_path@) == excluded_by(all, relative_path@));
        assert(last.skip(1) =~= Seq::<Seq<char>>::empty());
        assert(excluded_by(last.skip(1), relative_path@) == Ok::<bool, Seq<char>>(false));
        match glob_match("\\.git$", relative_path) {
            None => Err(HubError::ConfigureError(String::from_str("\\.git$"))),
            Some(b) => Ok(b),
        }
    }

    /// Whether a file at `path` is one that the setting rewrites.
    pub fn selects(&self, path: &str) -> (b: bool)
        ensures
            b == self@.selects_path(path@),
    {
        let ext = file_type(path);
        match &self.file_types {
            Some(list) => list_contains(list, ext.as_str()),
            None => false,
        }
    }

    /// The new text of a file, or nothing where the file stays as it is.
    pub fn rewrite(&self, content: &str) -> (r: Option<String>)
        ensures
            match self@.rewritten(content@) {
                Some(text) => r matches Some(s) && s@ == text,
                None => r is None,
            },
    {
        let text = chars_of(content);
        let old = chars_of(self.old_web_prefix.as_str());
        if !chars_contain(&text, &old) {
            return None;
        }
        let new = chars_of(self.new_web_prefix.as_str());
        Some(chars_replace(&text, &old, &new))
    }

    /// What the setting makes of one visited file that is not left out: the
    /// file to write, where its type is among the setting's file types and
    /// the old text stands in it, and nothing for any other file. Whether
    /// the file is left out is asked before, with [`Setting::excludes`].
    pub fn map_file(&self, file: &SourceFile) -> (r: Option<FileWrite>)
        ensures
            match self@.write_for(file@) {
                Some(w) => r matches Some(out) && out@ == w,
                None => r is None,
            },
    {
        if !self.selects(file.relative_path.as_str()) {
            return None;
        }
        match self.rewrite(file.content.as_str()) {
            Some(content) => {
                let path = join(self.output_path.as_str(), file.relative_path.as_str());
                Some(FileWrite { path, content })
            },
            None => None,
        }
    }

    /// Rewrites the visited files: see [`map_files`].
    pub fn text_replace(&self, files: &Vec<SourceFile>) -> (r: Result<Vec<FileWrite>, HubError>)
        ensures
            match self@.writes_for(sources(files@)) {
                Ok(list) => r matches Ok(out) && writes(out@) == list,
                Err(pattern) => r matches Err(e) && e@ == HubErrorView::ConfigureError(pattern),
            },
    {
        map_files(self, files)
    }
}

/// Decides, for the files that a walk of the source tree has visited, what
/// to write: every file that the setting does not leave out, whose type is
/// among its file types and that holds the old text, is written below the
/// output root with every occurrence of the old text replaced by the new.
/// Every other file is left as it is.
pub fn map_files(setting: &Setting, files: &Vec<SourceFile>) -> (r: Result<
    Vec<FileWrite>,
    HubError,
>)
    ensures
        match setting@.writes_for(sources(files@)) {
            Ok(list) => r matches Ok(out) && writes(out@) == list,
            Err(pattern) => r matches Err(e) && e@ == HubErrorView::ConfigureError(pattern),
        },
{
    let mut out: Vec<FileWrite> = Vec::new();
    let mut i: usize = 0;
    assert(sources(files@).take(0) =~= Seq::empty());
    assert(writes(out@) =~= Seq::empty());
    while i < files.len()
        invariant
            i <= files.len(),
            setting@.writes_for(sources(files@).take(i as int)) == Ok::<
                Seq<(Seq<char>, Seq<char>)>,
                Seq<char>,
            >(writes(out@)),
        decreases files.len() - i,
    {
        let file = &files[i];
        let ghost upto = sources(files@).take(i + 1);
        proof {
            assert(upto.drop_last() =~= sources(files@).take(i as int));
            assert(upto.last() == file@);
        }
        let ghost before = writes(out@);
        match setting.excludes(file.relative_path.as_str()) {
            Err(e) => {
                proof {
                    lemma_writes_for_fails(setting@, sources(files@), i + 1);
                }
                return Err(e);
            },
            Ok(true) => {},
            Ok(false) => {
                match setting.map_file(file) {
                    Some(write) => {
                        out.push(write);
                        assert(writes(out@) =~= before.push(setting@.write_for(file@).unwrap()));
                    },
                    None => {},
                }
            },
        }
        i += 1;
    }
    assert(sources(files@).take(i as int) =~= sources(files@));
    Ok(out)
}

/// Once a run over the first files has failed, the run over all files fails alike.
proof fn lemma_writes_for_fails(setting: SettingView, files: Seq<(Seq<char>, Seq<char>)>, upto: int)
    requires
        0 <= upto <= files.len(),
        setting.writes_for(files.take(upto)) is Err,
    ensures
        setting.writes_for(files) == setting.writes_for(files.take(upto)),
    decreases files.len() - upto,
{
    if upto < files.len() {
        assert(files.take(upto + 1).drop_last() =~= files.take(upto));
        lemma_writes_for_fails(setting, files, upto + 1);
    } else {
        assert(files.take(upto) =~= files);
    }
}

/// The text of a path that may be missing.
pub open spec fn optional_text(path: Option<String>) -> Option<Seq<char>> {
    match path {
        Some(p) => Some(p@),
        None => None,
    }
}

impl FileConfig {
    /// The configuration file to read first, if any: the local one, where
    /// the setting names one and does not name its new text.
    pub open spec fn local_config_wanted(&self) -> Option<Seq<char>> {
        if self.new_web_prefix is None {
            optional_text(self.local_config_path)
        } else {
            None
        }
    }

    /// The configuration file to read next, if any: the shared one, where
    /// the setting names one and does not name its new text, and the local
    /// file is not at hand.
    pub open spec fn shared_config_wanted(&self, local_at_hand: bool) -> Option<Seq<char>> {
        if self.new_web_prefix is None && !local_at_hand {
            optional_text(self.config_path)
        } else {
            None
        }
    }

    /// The path of the configuration file to read first, if there is one to read.
    pub fn local_config_to_read(&self) -> (path: Option<String>)
        ensures
            optional_text(path) == self.local_config_wanted(),
    {
        match (&self.new_web_prefix, &self.local_config_path) {
            (None, Some(path)) => Some(path.clone()),
            _ => None,
        }
    }

    /// The path of the configuration file to read next, if there is one to
    /// read. `local_at_hand` says whether the local file was named and
    /// could be read.
    pub fn shared_config_to_read(&self, local_at_hand: bool) -> (path: Option<String>)
        ensures
            optional_text(path) == self.shared_config_wanted(local_at_hand),
    {
        if local_at_hand {
            return None;
        }
        match (&self.new_web_prefix, &self.config_path) {
            (None, Some(path)) => Some(path.clone()),
            _ => None,
        }
    }
}

/// A configuration file that is not asked for is not missed: where the
/// setting names its new text, neither file counts, and where the local
/// file is at hand, the shared one does not count.
pub proof fn lemma_unread_config_is_not_missed(
    file_config: FileConfig,
    local_config: Option<YamlConfig>,
    shared_config: Option<YamlConfig>,
)
    ensures
        file_config.new_web_prefix is Some ==> file_config.local_config_wanted() is None
            && file_config.shared_config_wanted(false) is None && settled_prefix(
            file_config,
            local_config,
            shared_config,
        ) == settled_prefix(file_config, None, None),
        local_config is Some ==> file_config.shared_config_wanted(true) is None
            && settled_prefix(file_config, local_config, shared_config) == settled_prefix(
            file_config,
            local_config,
            None,
        ),
{
}

/// Settles the new text of a written-down setting.
///
/// Where the setting names its new text, that text stands. Else it is the
/// web prefix of the local configuration file, or, where that file is not
/// at hand, of the shared one, or nothing where neither is; a prefix `/`
/// counts as nothing. `local_config` and `shared_config` hold what was read
/// from the files that the setting points to, or nothing for a file that is
/// not named or could not be read.
pub fn map_file_config(
    file_config: FileConfig,
    local_config: Option<YamlConfig>,
    shared_config: Option<YamlConfig>,
) -> (r: Result<Setting, HubError>)
    ensures
        outcome(r) == Ok::<SettingView, HubErrorView>(
            settled(file_config, local_config, shared_config),
        ),
{
    let FileConfig {
        old_web_prefix,
        new_web_prefix,
        local_config_path: _,
        config_path: _,
        exclude_path,
        source_path,
        output_path,
        file_types,
    } = file_config;
    let prefix = match new_web_prefix {
        Some(text) => text,
        None => {
            let found = match local_config {
                Some(config) => Some(config),
                None => shared_config,
            };
            match found {
                Some(config) => {
                    if str_eq(config.client.web_prefix.as_str(), "/") {
                        String::new()
                    } else {
                        config.client.web_prefix
                    }
                },
                None => String::new(),
            }
        },
    };
    Ok(
        Setting {
            old_web_prefix,
            new_web_prefix: prefix,
            exclude_path,
            source_path,
            output_path,
            file_types,
        },
    )
}

/// The setting that [`map_file_config`] settles on: the written-down
/// setting with its new text settled.
pub open spec fn settled(
    file_config: FileConfig,
    local_config: Option<YamlConfig>,
    shared_config: Option<YamlConfig>,
) -> SettingView {
    SettingView {
        old_web_prefix: file_config.old_web_prefix@,
        new_web_prefix: settled_prefix(file_config, local_config, shared_config),
        exclude_path: optional_texts(file_config.exclude_path),
        source_path: file_config.source_path@,
        output_path: file_config.output_path@,
        file_types: optional_texts(file_config.file_types),
    }
}

/// The new text that [`map_file_config`] settles on.
pub open spec fn settled_prefix(
    file_config: FileConfig,
    local_config: Option<YamlConfig>,
    shared_config: Option<YamlConfig>,
) -> Seq<char> {
    match file_config.new_web_prefix {
        Some(text) => text@,
        None => {
            let found = match local_config {
                Some(config) => Some(config),
                None => shared_config,
            };
            match found {
                Some(config) => if config.client.web_prefix@ == "/"@ {
                    Seq::empty()
                } else {
                    config.client.web_prefix@
                },
                None => Seq::empty(),
            }
        },
    }
}

/// Whether `write` is what the setting writes for the visited file `file`:
/// the file is not left out, its type is among the setting's file types,
/// the old text stands in it, and `write` holds its text with the old
/// replaced by the new, under its path below the output root.
pub open spec fn is_write_of(
    setting: SettingView,
    file: (Seq<char>, Seq<char>),
    write: (Seq<char>, Seq<char>),
) -> bool {
    &&& excluded_by(setting.exclusions(), file.0) == Ok::<bool, Seq<char>>(false)
    &&& setting.selects_path(file.0)
    &&& contains(file.1, setting.old_web_prefix)
    &&& write.0 == joined(setting.output_path, file.0)
    &&& write.1 == replaced(file.1, setting.old_web_prefix, setting.new_web_prefix)
}

/// Nothing is written but the rewritten text of a visited file: every
/// file to write belongs to a visited file that is not left out, has one of
/// the file types and holds the old text. A file of another type, a file
/// that is left out and a file without the old text are left as they are.
pub proof fn lemma_writes_belong_to_files(
    setting: SettingView,
    files: Seq<(Seq<char>, Seq<char>)>,
)
    ensures
        setting.writes_for(files) matches Ok(list) ==> forall|i: int|
            0 <= i < list.len() ==> exists|j: int|
                0 <= j < files.len() && is_write_of(setting, files[j], #[trigger] list[i]),
    decreases files.len(),
{
    if files.len() > 0 {
        let before = files.drop_last();
        lemma_writes_belong_to_files(setting, before);
        match setting.writes_for(files) {
            Ok(list) => {
                let earlier = setting.writes_for(before)->Ok_0;
                assert forall|i: int| 0 <= i < list.len() implies exists|j: int|
                    0 <= j < files.len() && is_write_of(setting, files[j], #[trigger] list[i]) by {
                    if i < earlier.len() {
                        assert(list[i] == earlier[i]);
                        let j = choose|j: int|
                            0 <= j < before.len() && is_write_of(setting, before[j], earlier[i]);
                        assert(before[j] == files[j]);
                        assert(is_write_of(setting, files[j], list[i]));
                    } else {
                        assert(is_write_of(setting, files[files.len() - 1], list[i]));
                    }
                }
            },
            Err(_) => {},
        }
    }
}

/// Every visited file that is not left out, has one of the file types and
/// holds the old text is written, in the order of the visit: where the run
/// over all files succeeds, it is the run over the earlier files, followed
/// by what the setting makes of the last.
pub proof fn lemma_writes_follow_the_visit(
    setting: SettingView,
    files: Seq<(Seq<char>, Seq<char>)>,
    last: (Seq<char>, Seq<char>),
)
    requires
        setting.writes_for(files.push(last)) is Ok,
    ensures
        setting.writes_for(files) matches Ok(before) && setting.writes_for(files.push(last)) == Ok::<
            Seq<(Seq<char>, Seq<char>)>,
            Seq<char>,
        >(
            if excluded_by(setting.exclusions(), last.0) == Ok::<bool, Seq<char>>(false)
                && setting.write_for(last) is Some {
                before.push(setting.write_for(last)->0)
            } else {
                before
            },
        ),
{
    assert(files.push(last).drop_last() =~= files);
}

} // verus!
