//! The settings of the helper.

use vstd::prelude::*;

verus! {

/// The settings that the helper keeps between runs.
#[derive(Debug, Clone)]
pub struct Config {
    pub lastuser: Option<String>,
    pub quiet: bool,
    pub nocolor: bool,
    pub editor: Option<String>,
    /// The organization that owns what the helper creates, if not the user.
    pub org: Option<String>,
}

pub struct ConfigView {
    pub lastuser: Option<Seq<char>>,
    pub quiet: bool,
    pub nocolor: bool,
    pub editor: Option<Seq<char>>,
    pub org: Option<Seq<char>>,
}

impl View for Config {
    type V = ConfigView;

    open spec fn view(&self) -> ConfigView {
        ConfigView {
            lastuser: self.lastuser.deep_view(),
            quiet: self.quiet,
            nocolor: self.nocolor,
            editor: self.editor.deep_view(),
            org: self.org.deep_view(),
        }
    }
}

/// A flag as the settings show it.
pub open spec fn flag_text(flag: bool) -> Seq<char> {
    if flag {
        "true"@
    } else {
        "false"@
    }
}

/// Whether a text switches a flag on.
pub open spec fn is_on(value: Seq<char>) -> bool {
    value == "true"@ || value == "1"@
}

impl ConfigView {
    /// The settings of a first run.
    pub open spec fn initial() -> ConfigView {
        ConfigView { lastuser: None, quiet: false, nocolor: false, editor: None, org: None }
    }

    /// The setting under `key` as a text, where `key` names a setting that
    /// has a value.
    pub open spec fn get(self, key: Seq<char>) -> Option<Seq<char>> {
        if key == "quiet"@ {
            Some(flag_text(self.quiet))
        } else if key == "nocolor"@ {
            Some(flag_text(self.nocolor))
        } else if key == "editor"@ {
            self.editor
        } else if key == "lastuser"@ {
            self.lastuser
        } else {
            None
        }
    }

    /// Whether `key` names a setting that can be set.
    pub open spec fn can_set(key: Seq<char>) -> bool {
        key == "quiet"@ || key == "nocolor"@ || key == "editor"@
    }

    /// The settings after `key` was set to `value`: unchanged where `key`
    /// names no setting that can be set.
    pub open spec fn set(self, key: Seq<char>, value: Seq<char>) -> ConfigView {
        if key == "quiet"@ {
            ConfigView { quiet: is_on(value), ..self }
        } else if key == "nocolor"@ {
            ConfigView { nocolor: is_on(value), ..self }
        } else if key == "editor"@ {
            ConfigView { editor: Some(value), ..self }
        } else {
            self
        }
    }
}

/// A key that names no setting that can be set.
#[derive(Debug)]
pub struct UnknownSetting {
    pub key: String,
}

impl View for UnknownSetting {
    type V = Seq<char>;

    open spec fn view(&self) -> Seq<char> {
        self.key@
    }
}

impl UnknownSetting {
    /// The error in words.
    pub fn message(&self) -> (text: String)
        ensures
            text@ == "Unknown setting: "@ + self@,
    {
        "Unknown setting: ".to_owned().concat(self.key.as_str())
    }
}

fn flag_to_string(flag: bool) -> (text: String)
    ensures
        text@ == flag_text(flag),
{
    if flag {
        "true".to_owned()
    } else {
        "false".to_owned()
    }
}

fn parse_flag(value: &str) -> (on: bool)
    ensures
        on == is_on(value@),
{
    value.eq("true") || value.eq("1")
}

impl Default for Config {
    fn default() -> (config: Config)
        ensures
            config@ == ConfigView::initial(),
    {
        Config { lastuser: None, quiet: false, nocolor: false, editor: None, org: None }
    }
}

impl Config {
    /// The same settings once more.
    pub fn duplicate(&self) -> (copy: Config)
        ensures
            copy@ == self@,
    {
        Config {
            lastuser: self.lastuser.clone(),
            quiet: self.quiet,
            nocolor: self.nocolor,
            editor: self.editor.clone(),
            org: self.org.clone(),
        }
    }

    /// The setting under `key`, as a text.
    pub fn get(&self, key: &str) -> (value: Option<String>)
        ensures
            value.deep_view() == self@.get(key@),
    {
        if key.eq("quiet") {
            Some(flag_to_string(self.quiet))
        } else if key.eq("nocolor") {
            Some(flag_to_string(self.nocolor))
        } else if key.eq("editor") {
            self.editor.clone()
        } else if key.eq("lastuser") {
            self.lastuser.clone()
        } else {
            None
        }
    }

    /// Sets the setting under `key`. The settings are unchanged where the
    /// key names none that can be set. Writing them out is left to the host.
    pub fn set(&mut self, key: &str, value: &str) -> (result: Result<(), UnknownSetting>)
        ensures
            result is Ok <==> ConfigView::can_set(key@),
            result matches Err(unknown) ==> unknown@ == key@,
            final(self)@ == old(self)@.set(key@, value@),
    {
        if key.eq("quiet") {
            self.quiet = parse_flag(value);
        } else if key.eq("nocolor") {
            self.nocolor = parse_flag(value);
        } else if key.eq("editor") {
            self.editor = Some(value.to_owned());
        } else {
            return Err(UnknownSetting { key: key.to_owned() });
        }
        Ok(())
    }
}

/// Whether this is the first run: whether no file of settings was found.
pub fn isfirstrun(config_found: bool) -> (first: bool)
    ensures
        first == !config_found,
{
    !config_found
}

} // verus!
