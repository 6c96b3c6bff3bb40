//! Finding the plugins under the plugin root.
//!
//! The host lists the root and reads the files; what it found comes in as
//! plain values, in the order in which the file system gave the entries, and
//! the plugins come out in that order: nothing is sorted.
//!
//! Two plugins may bear the same name. Both are kept, and both are run.
//!
//! Discovery fails only where the host has no configuration directory to
//! look under. Whatever else goes wrong on the way (a root that cannot be
//! listed, an entry that cannot be read, a directory that holds no plugin)
//! costs the plugins concerned and a line of diagnostics, nothing more.

use vstd::prelude::*;
use crate::plugins::manifest::{
    parsed_manifest,
    Manifest,
    ManifestFault,
    ManifestFaultView,
    ManifestView,
};
use crate::views::result_view;

verus! {

/// The directory of the application under the per-user configuration directory.
pub const APP_NAME: &'static str = "github-bot";

/// The directory of the plugins under that of the application.
pub const PLUGINS_DIR: &'static str = "plugins";

/// The manifest file of a plugin.
pub const MANIFEST_FILENAME: &'static str = "manifest.toml";

/// The script file of a plugin.
pub const SCRIPT_FILENAME: &'static str = "run.rhai";

/// What came of reading a file.
#[derive(Debug, Clone)]
pub enum FileRead {
    /// The text of the file.
    Content(String),
    /// The file could not be read; the reason.
    Failed(String),
}

pub enum FileReadView {
    Content(Seq<char>),
    Failed(Seq<char>),
}

impl View for FileRead {
    type V = FileReadView;

    open spec fn view(&self) -> FileReadView {
        match *self {
            FileRead::Content(text) => FileReadView::Content(text@),
            FileRead::Failed(reason) => FileReadView::Failed(reason@),
        }
    }
}

/// What the host found in one directory under the plugin root.
#[derive(Debug, Clone)]
pub struct PluginDir {
    /// The directory.
    pub path: String,
    /// Where the script of the plugin has to be.
    pub script_path: String,
    /// Whether there is something at `script_path`.
    pub script_found: bool,
    /// Where the manifest of the plugin has to be.
    pub manifest_path: String,
    /// What reading the manifest gave.
    pub manifest: FileRead,
}

pub struct PluginDirView {
    pub path: Seq<char>,
    pub script_path: Seq<char>,
    pub script_found: bool,
    pub manifest_path: Seq<char>,
    pub manifest: FileReadView,
}

impl View for PluginDir {
    type V = PluginDirView;

    open spec fn view(&self) -> PluginDirView {
        PluginDirView {
            path: self.path@,
            script_path: self.script_path@,
            script_found: self.script_found,
            manifest_path: self.manifest_path@,
            manifest: self.manifest@,
        }
    }
}

/// A loaded plugin: its manifest, its directory and its script.
#[derive(Debug)]
pub struct Plugin {
    pub manifest: Manifest,
    pub path: String,
    pub script_path: String,
}

pub struct PluginView {
    pub manifest: ManifestView,
    pub path: Seq<char>,
    pub script_path: Seq<char>,
}

impl View for Plugin {
    type V = PluginView;

    open spec fn view(&self) -> PluginView {
        PluginView { manifest: self.manifest@, path: self.path@, script_path: self.script_path@ }
    }
}

impl DeepView for Plugin {
    type V = PluginView;

    open spec fn deep_view(&self) -> PluginView {
        self@
    }
}

/// Why a directory is no plugin.
#[derive(Debug)]
pub enum LoadError {
    /// There is no script.
    MissingScript { script_path: String },
    /// The manifest could not be read.
    ManifestUnreadable { manifest_path: String, reason: String },
    /// The manifest file holds no manifest.
    ManifestInvalid { manifest_path: String, fault: ManifestFault },
}

pub enum LoadErrorView {
    MissingScript { script_path: Seq<char> },
    ManifestUnreadable { manifest_path: Seq<char>, reason: Seq<char> },
    ManifestInvalid { manifest_path: Seq<char>, fault: ManifestFaultView },
}

impl View for LoadError {
    type V = LoadErrorView;

    open spec fn view(&self) -> LoadErrorView {
        match *self {
            LoadError::MissingScript { script_path } => LoadErrorView::MissingScript {
                script_path: script_path@,
            },
            LoadError::ManifestUnreadable {
                manifest_path,
                reason,
            } => LoadErrorView::ManifestUnreadable {
                manifest_path: manifest_path@,
                reason: reason@,
            },
            LoadError::ManifestInvalid { manifest_path, fault } => LoadErrorView::ManifestInvalid {
                manifest_path: manifest_path@,
                fault: fault@,
            },
        }
    }
}

/// A message followed by what caused it.
pub open spec fn caused_by(message: Seq<char>, cause: Seq<char>) -> Seq<char> {
    message + "\n\nCaused by:\n    "@ + cause
}

impl LoadErrorView {
    /// What went wrong, in one line.
    pub open spec fn message(self) -> Seq<char> {
        match self {
            LoadErrorView::MissingScript { script_path } => "Missing required script: "@
                + script_path,
            LoadErrorView::ManifestUnreadable { manifest_path, .. } =>
                "Failed to read manifest file: "@ + manifest_path,
            LoadErrorView::ManifestInvalid { manifest_path, .. } =>
                "Failed to parse TOML manifest: "@ + manifest_path,
        }
    }

    /// What went wrong, with its cause.
    pub open spec fn report(self) -> Seq<char> {
        match self {
            LoadErrorView::MissingScript { .. } => self.message(),
            LoadErrorView::ManifestUnreadable { reason, .. } => caused_by(self.message(), reason),
            LoadErrorView::ManifestInvalid { fault, .. } => caused_by(
                self.message(),
                fault.diagnostic(),
            ),
        }
    }
}

impl LoadError {
    /// What went wrong, in one line.
    pub fn message(&self) -> (text: String)
        ensures
            text@ == self@.message(),
    {
        match self {
            LoadError::MissingScript { script_path } => "Missing required script: ".to_owned().concat(
                script_path.as_str(),
            ),
            LoadError::ManifestUnreadable { manifest_path, .. } =>
                "Failed to read manifest file: ".to_owned().concat(manifest_path.as_str()),
            LoadError::ManifestInvalid { manifest_path, .. } =>
                "Failed to parse TOML manifest: ".to_owned().concat(manifest_path.as_str()),
        }
    }

    /// What went wrong, with its cause.
    pub fn report(&self) -> (text: String)
        ensures
            text@ == self@.report(),
    {
        let message = self.message();
        match self {
            LoadError::MissingScript { .. } => message,
            LoadError::ManifestUnreadable { reason, .. } => message.concat(
                "\n\nCaused by:\n    ",
            ).concat(reason.as_str()),
            LoadError::ManifestInvalid { fault, .. } => {
                let cause = fault.diagnostic();
                message.concat("\n\nCaused by:\n    ").concat(cause.as_str())
            },
        }
    }
}

/// What a directory amounts to: a plugin where it has a script and a
/// manifest file that holds a manifest, otherwise the first thing found
/// wanting, the script before the manifest.
pub open spec fn load(dir: PluginDirView) -> Result<PluginView, LoadErrorView> {
    if !dir.script_found {
        Err(LoadErrorView::MissingScript { script_path: dir.script_path })
    } else {
        match dir.manifest {
            FileReadView::Failed(reason) => Err(
                LoadErrorView::ManifestUnreadable { manifest_path: dir.manifest_path, reason },
            ),
            FileReadView::Content(content) => match parsed_manifest(content) {
                Err(fault) => Err(
                    LoadErrorView::ManifestInvalid { manifest_path: dir.manifest_path, fault },
                ),
                Ok(manifest) => Ok(
                    PluginView { manifest, path: dir.path, script_path: dir.script_path },
                ),
            },
        }
    }
}

impl Plugin {
    /// Loads the plugin that a directory holds.
    pub fn from_dir(dir: &PluginDir) -> (loaded: Result<Plugin, LoadError>)
        ensures
            result_view(loaded) == load(dir@),
    {
        if !dir.script_found {
            return Err(LoadError::MissingScript { script_path: dir.script_path.clone() });
        }
        match &dir.manifest {
            FileRead::Failed(reason) => Err(
                LoadError::ManifestUnreadable {
                    manifest_path: dir.manifest_path.clone(),
                    reason: reason.clone(),
                },
            ),
            FileRead::Content(content) => match Manifest::parse(content.as_str()) {
                Err(fault) => Err(
                    LoadError::ManifestInvalid { manifest_path: dir.manifest_path.clone(), fault },
                ),
                Ok(manifest) => Ok(
                    Plugin {
                        manifest,
                        path: dir.path.clone(),
                        script_path: dir.script_path.clone(),
                    },
                ),
            },
        }
    }
}

/// One entry of the plugin root.
#[derive(Debug, Clone)]
pub enum RootEntry {
    /// A directory, with what was found in it.
    Directory(PluginDir),
    /// Anything else.
    NotADirectory,
    /// An entry that could not be read; the reason.
    Unreadable(String),
}

pub enum RootEntryView {
    Directory(PluginDirView),
    NotADirectory,
    Unreadable(Seq<char>),
}

impl View for RootEntry {
    type V = RootEntryView;

    open spec fn view(&self) -> RootEntryView {
        match *self {
            RootEntry::Directory(dir) => RootEntryView::Directory(dir@),
            RootEntry::NotADirectory => RootEntryView::NotADirectory,
            RootEntry::Unreadable(reason) => RootEntryView::Unreadable(reason@),
        }
    }
}

impl DeepView for RootEntry {
    type V = RootEntryView;

    open spec fn deep_view(&self) -> RootEntryView {
        self@
    }
}

/// What the host found where the plugins are kept.
#[derive(Debug, Clone)]
pub enum PluginRoot {
    /// The per-user configuration directory could not be determined.
    NoConfigDir,
    /// There is no plugin root.
    Absent,
    /// The plugin root could not be listed; the reason.
    Unreadable(String),
    /// The entries of the plugin root, in the order of the listing.
    Listing(Vec<RootEntry>),
}

pub enum PluginRootView {
    NoConfigDir,
    Absent,
    Unreadable(Seq<char>),
    Listing(Seq<RootEntryView>),
}

impl View for PluginRoot {
    type V = PluginRootView;

    open spec fn view(&self) -> PluginRootView {
        match *self {
            PluginRoot::NoConfigDir => PluginRootView::NoConfigDir,
            PluginRoot::Absent => PluginRootView::Absent,
            PluginRoot::Unreadable(reason) => PluginRootView::Unreadable(reason@),
            PluginRoot::Listing(entries) => PluginRootView::Listing(entries.deep_view()),
        }
    }
}

/// Why no discovery took place. Nothing but a missing configuration
/// directory stops discovery.
#[derive(Debug)]
pub enum DiscoverError {
    /// The per-user configuration directory could not be determined.
    NoConfigDir,
}

pub enum DiscoverErrorView {
    NoConfigDir,
}

impl View for DiscoverError {
    type V = DiscoverErrorView;

    open spec fn view(&self) -> DiscoverErrorView {
        match *self {
            DiscoverError::NoConfigDir => DiscoverErrorView::NoConfigDir,
        }
    }
}

impl DiscoverErrorView {
    pub open spec fn message(self) -> Seq<char> {
        match self {
            DiscoverErrorView::NoConfigDir => "Could not determine config directory."@,
        }
    }
}

impl DiscoverError {
    /// What went wrong, in one line.
    pub fn message(&self) -> (text: String)
        ensures
            text@ == self@.message(),
    {
        match self {
            DiscoverError::NoConfigDir => "Could not determine config directory.".to_owned(),
        }
    }
}

/// What discovery found: the plugins, and a diagnostic for each directory
/// that is no plugin and for whatever could not be read.
#[derive(Debug)]
pub struct Discovery {
    pub plugins: Vec<Plugin>,
    pub diagnostics: Vec<String>,
}

pub struct DiscoveryView {
    pub plugins: Seq<PluginView>,
    pub diagnostics: Seq<Seq<char>>,
}

impl View for Discovery {
    type V = DiscoveryView;

    open spec fn view(&self) -> DiscoveryView {
        DiscoveryView {
            plugins: self.plugins.deep_view(),
            diagnostics: self.diagnostics.deep_view(),
        }
    }
}

/// Whether an entry is a directory that holds a plugin.
pub open spec fn is_well_formed(entry: RootEntryView) -> bool {
    entry matches RootEntryView::Directory(dir) && load(dir) is Ok
}

/// Whether an entry is a directory that holds no plugin.
pub open spec fn is_malformed(entry: RootEntryView) -> bool {
    entry matches RootEntryView::Directory(dir) && load(dir) is Err
}

/// The plugin that a well-formed entry holds.
pub open spec fn plugin_in(entry: RootEntryView) -> PluginView {
    load(entry->Directory_0)->Ok_0
}

/// The line that is logged for a directory that is no plugin.
pub open spec fn load_diagnostic(path: Seq<char>, error: LoadErrorView) -> Seq<char> {
    "  [ERROR] Failed to load plugin at "@ + path + ": "@ + error.report()
}

/// The line that is logged for an entry of the root that could not be read.
pub open spec fn entry_diagnostic(reason: Seq<char>) -> Seq<char> {
    "  [ERROR] Failed to read an entry of the plugin directory: "@ + reason
}

/// The line that is logged for a plugin root that could not be listed.
pub open spec fn root_diagnostic(reason: Seq<char>) -> Seq<char> {
    "  [ERROR] Failed to read the plugin directory: "@ + reason
}

/// Whether a diagnostic is logged for an entry: it is a directory that holds
/// no plugin, or it could not be read.
pub open spec fn is_rejected(entry: RootEntryView) -> bool {
    is_malformed(entry) || entry is Unreadable
}

/// The line that is logged for a rejected entry.
pub open spec fn diagnostic_for(entry: RootEntryView) -> Seq<char> {
    match entry {
        RootEntryView::Unreadable(reason) => entry_diagnostic(reason),
        _ => load_diagnostic(entry->Directory_0.path, load(entry->Directory_0)->Err_0),
    }
}

/// The plugins among the entries of the root, in the order of the entries.
pub open spec fn loaded(entries: Seq<RootEntryView>) -> Seq<PluginView> {
    entries.filter(|entry: RootEntryView| is_well_formed(entry)).map_values(
        |entry: RootEntryView| plugin_in(entry),
    )
}

/// The diagnostics for the entries of the root, in the order of the entries.
pub open spec fn rejected(entries: Seq<RootEntryView>) -> Seq<Seq<char>> {
    entries.filter(|entry: RootEntryView| is_rejected(entry)).map_values(
        |entry: RootEntryView| diagnostic_for(entry),
    )
}

/// What discovery gives for a plugin root. A root that does not exist holds
/// no plugins, which is no error; a root that cannot be listed holds none
/// either, and the reason is logged; a directory that is no plugin, and an
/// entry that cannot be read, is passed over with a diagnostic. Discovery
/// fails only where there is no configuration directory to look under.
pub open spec fn discovery(root: PluginRootView) -> Result<DiscoveryView, DiscoverErrorView> {
    match root {
        PluginRootView::NoConfigDir => Err(DiscoverErrorView::NoConfigDir),
        PluginRootView::Absent => Ok(DiscoveryView { plugins: seq![], diagnostics: seq![] }),
        PluginRootView::Unreadable(reason) => Ok(
            DiscoveryView { plugins: seq![], diagnostics: seq![root_diagnostic(reason)] },
        ),
        PluginRootView::Listing(entries) => Ok(
            DiscoveryView { plugins: loaded(entries), diagnostics: rejected(entries) },
        ),
    }
}

proof fn lemma_loaded_step(entries: Seq<RootEntryView>, i: int)
    requires
        0 <= i < entries.len(),
    ensures
        loaded(entries.take(i + 1)) == if is_well_formed(entries[i]) {
            loaded(entries.take(i)).push(plugin_in(entries[i]))
        } else {
            loaded(entries.take(i))
        },
        rejected(entries.take(i + 1)) == if is_rejected(entries[i]) {
            rejected(entries.take(i)).push(diagnostic_for(entries[i]))
        } else {
            rejected(entries.take(i))
        },
{
    assert(entries.take(i + 1).drop_last() =~= entries.take(i));
    reveal(Seq::filter);
}

/// Finds the plugins under the plugin root.
pub fn discover_plugins(root: &PluginRoot) -> (found: Result<Discovery, DiscoverError>)
    ensures
        result_view(found) == discovery(root@),
{
    match root {
        PluginRoot::NoConfigDir => Err(DiscoverError::NoConfigDir),
        PluginRoot::Absent => {
            let found = Discovery { plugins: Vec::new(), diagnostics: Vec::new() };
            assert(found@.plugins =~= Seq::<PluginView>::empty());
            assert(found@.diagnostics =~= Seq::<Seq<char>>::empty());
            Ok(found)
        },
        PluginRoot::Unreadable(reason) => {
            let line = "  [ERROR] Failed to read the plugin directory: ".to_owned().concat(
                reason.as_str(),
            );
            let found = Discovery { plugins: Vec::new(), diagnostics: vec![line] };
            assert(found@.plugins =~= Seq::<PluginView>::empty());
            assert(found@.diagnostics =~= seq![root_diagnostic(reason@)]);
            Ok(found)
        },
        PluginRoot::Listing(entries) => {
            let ghost all = entries.deep_view();
            let mut plugins: Vec<Plugin> = Vec::new();
            let mut diagnostics: Vec<String> = Vec::new();
            let mut i: usize = 0;
            proof {
                reveal(Seq::filter);
            }
            while i < entries.len()
                invariant
                    i <= entries.len(),
                    all == entries.deep_view(),
                    plugins.deep_view() == loaded(all.take(i as int)),
                    diagnostics.deep_view() == rejected(all.take(i as int)),
                decreases entries.len() - i,
            {
                proof {
                    lemma_loaded_step(all, i as int);
                }
                match &entries[i] {
                    RootEntry::NotADirectory => {},
                    RootEntry::Unreadable(reason) => {
                        let line = "  [ERROR] Failed to read an entry of the plugin directory: "
                            .to_owned().concat(reason.as_str());
                        diagnostics.push(line);
                    },
                    RootEntry::Directory(dir) => match Plugin::from_dir(dir) {
                        Ok(plugin) => {
                            plugins.push(plugin);
                        },
                        Err(error) => {
                            let line = "  [ERROR] Failed to load plugin at ".to_owned().concat(
                                dir.path.as_str(),
                            ).concat(": ").concat(error.report().as_str());
                            diagnostics.push(line);
                        },
                    },
                }
                i += 1;
            }
            assert(all.take(i as int) =~= all);
            Ok(Discovery { plugins, diagnostics })
        },
    }
}

} // verus!
