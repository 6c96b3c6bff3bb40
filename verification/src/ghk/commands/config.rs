//! Shows or changes the settings.

use vstd::prelude::*;
use crate::ghk::config::{flag_text, Config, ConfigView};
use crate::ghk::flow::{
    blank,
    fail,
    need,
    said,
    silence,
    succeed,
    Facts,
    FactsView,
    MessageView,
    Progress,
    ProgressView,
    Request,
    RequestView,
    Speech,
    Tone,
};

verus! {

/// All settings, and where they are kept.
pub open spec fn overview(cfg: ConfigView, path: Seq<char>) -> Seq<MessageView> {
    silence().push(blank()).push(said(Tone::Info, "Current settings:"@)).push(
        said(Tone::Dim, "  quiet   = "@ + flag_text(cfg.quiet)),
    ).push(said(Tone::Dim, "  nocolor = "@ + flag_text(cfg.nocolor))).push(
        said(
            Tone::Dim,
            "  editor  = "@ + (match cfg.editor {
                Some(editor) => editor,
                None => "(default)"@,
            }),
        ),
    ).push(
        said(
            Tone::Dim,
            "  org  = "@ + (match cfg.org {
                Some(org) => org,
                None => ""@,
            }),
        ),
    ).push(blank()).push(said(Tone::Dim, "Config file: "@ + path)).push(blank())
}

/// The course of the command: without a key all settings are shown, with a
/// key that setting, and with a value besides the setting is changed and
/// the settings are written out.
pub open spec fn plan(
    cfg: ConfigView,
    path: Seq<char>,
    key: Option<Seq<char>>,
    value: Option<Seq<char>>,
    facts: FactsView,
) -> ProgressView {
    match (key, value) {
        (None, None) => succeed(overview(cfg, path)),
        (Some(key), None) => match cfg.get(key) {
            Some(value) => succeed(silence().push(said(Tone::Plain, value))),
            None => succeed(silence().push(said(Tone::Warning, "Unknown setting: "@ + key))),
        },
        (Some(key), Some(value)) => if !ConfigView::can_set(key) {
            fail(silence(), "Unknown setting: "@ + key)
        } else {
            match facts.done {
                None => need(silence(), RequestView::SaveConfig(cfg.set(key, value))),
                Some(Err(reason)) => fail(silence(), reason),
                Some(Ok(_)) => succeed(silence().push(said(Tone::Success, key + " = "@ + value))),
            }
        },
        (None, Some(_)) => succeed(silence()),
    }
}

fn flag(on: bool) -> (text: &'static str)
    ensures
        text@ == flag_text(on),
{
    if on {
        "true"
    } else {
        "false"
    }
}

/// Where the command stands, given the settings, where they are kept, and
/// what is known.
pub fn run(
    cfg: &Config,
    path: &str,
    key: &Option<String>,
    value: &Option<String>,
    facts: &Facts,
) -> (progress: Progress)
    ensures
        progress@ == plan(cfg@, path@, key.deep_view(), value.deep_view(), facts@),
{
    let mut speech = Speech::new();
    match (key, value) {
        (None, None) => {
            speech.blank();
            speech.say(Tone::Info, "Current settings:".to_owned());
            speech.say(Tone::Dim, "  quiet   = ".to_owned().concat(flag(cfg.quiet)));
            speech.say(Tone::Dim, "  nocolor = ".to_owned().concat(flag(cfg.nocolor)));
            let editor = match &cfg.editor {
                Some(editor) => editor.as_str(),
                None => "(default)",
            };
            speech.say(Tone::Dim, "  editor  = ".to_owned().concat(editor));
            let org = match &cfg.org {
                Some(org) => org.as_str(),
                None => "",
            };
            speech.say(Tone::Dim, "  org  = ".to_owned().concat(org));
            speech.blank();
            speech.say(Tone::Dim, "Config file: ".to_owned().concat(path));
            speech.blank();
            speech.succeed()
        },
        (Some(key), None) => {
            match cfg.get(key.as_str()) {
                Some(value) => speech.say(Tone::Plain, value),
                None => speech.say(
                    Tone::Warning,
                    "Unknown setting: ".to_owned().concat(key.as_str()),
                ),
            }
            speech.succeed()
        },
        (Some(key), Some(value)) => {
            let mut changed = cfg.duplicate();
            match changed.set(key.as_str(), value.as_str()) {
                Err(unknown) => speech.fail(unknown.message()),
                Ok(_) => match &facts.done {
                    None => speech.need(Request::SaveConfig(changed)),
                    Some(Err(reason)) => speech.fail(reason.clone()),
                    Some(Ok(_)) => {
                        speech.say(
                            Tone::Success,
                            key.clone().concat(" = ").concat(value.as_str()),
                        );
                        speech.succeed()
                    },
                },
            }
        },
        (None, Some(_)) => speech.succeed(),
    }
}

} // verus!
