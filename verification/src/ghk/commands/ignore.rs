//! Adds a template to `.gitignore`.

use vstd::prelude::*;
use crate::ghk::flow::{
    fail,
    need,
    said,
    silence,
    succeed,
    Facts,
    FactsView,
    FileToWrite,
    Progress,
    ProgressView,
    Request,
    RequestView,
    Speech,
    Tone,
};
use crate::text::{contains, first_line, head_line, occurs_in, trim, trimmed};

verus! {

/// The file that the templates go to.
pub const GITIGNORE: &'static str = ".gitignore";

/// What every template is followed by.
pub const BASE_TEMPLATE: &'static str = "\n# base: core-dumps\n*.core/\n";

/// The names of the templates, in the order in which they are offered.
pub open spec fn template_names() -> Seq<Seq<char>> {
    seq![
        "node"@,
        "python"@,
        "rust"@,
        "go"@,
        "java"@,
        "web"@,
        "macos"@,
        "windows"@,
        "linux"@,
        "ide"@,
    ]
}

/// The template of a name.
pub open spec fn template(name: Seq<char>) -> Option<Seq<char>> {
    if name == "node"@ {
        Some("node_modules/\nnpm-debug.log\n.env\ndist/\n"@)
    } else if name == "python"@ {
        Some("__pycache__/\n*.py[cod]\n.env\nvenv/\n.venv/\n"@)
    } else if name == "rust"@ {
        Some("target/\nCargo.lock\n"@)
    } else if name == "go"@ {
        Some("bin/\npkg/\n*.exe\n"@)
    } else if name == "java"@ {
        Some("*.class\n*.jar\ntarget/\n.idea/\n"@)
    } else if name == "web"@ {
        Some("node_modules/\ndist/\n.env\n*.log\n"@)
    } else if name == "macos"@ {
        Some(".DS_Store\n.AppleDouble\n.LSOverride\n"@)
    } else if name == "windows"@ {
        Some("Thumbs.db\nehthumbs.db\nDesktop.ini\n"@)
    } else if name == "linux"@ {
        Some("*~\n.fuse_hidden*\n.nfs*\n"@)
    } else if name == "ide"@ {
        Some(".idea/\n.vscode/\n*.swp\n*.swo\n.project\n"@)
    } else {
        None
    }
}

/// The names of the templates.
pub fn names() -> (all: Vec<String>)
    ensures
        all.deep_view() == template_names(),
{
    let mut all: Vec<String> = Vec::new();
    all.push("node".to_owned());
    all.push("python".to_owned());
    all.push("rust".to_owned());
    all.push("go".to_owned());
    all.push("java".to_owned());
    all.push("web".to_owned());
    all.push("macos".to_owned());
    all.push("windows".to_owned());
    all.push("linux".to_owned());
    all.push("ide".to_owned());
    all
}

/// The template of a name.
pub fn find_template(name: &str) -> (content: Option<&'static str>)
    ensures
        match content {
            Some(content) => template(name@) == Some(content@),
            None => template(name@) is None,
        },
{
    if name.eq("node") {
        Some("node_modules/\nnpm-debug.log\n.env\ndist/\n")
    } else if name.eq("python") {
        Some("__pycache__/\n*.py[cod]\n.env\nvenv/\n.venv/\n")
    } else if name.eq("rust") {
        Some("target/\nCargo.lock\n")
    } else if name.eq("go") {
        Some("bin/\npkg/\n*.exe\n")
    } else if name.eq("java") {
        Some("*.class\n*.jar\ntarget/\n.idea/\n")
    } else if name.eq("web") {
        Some("node_modules/\ndist/\n.env\n*.log\n")
    } else if name.eq("macos") {
        Some(".DS_Store\n.AppleDouble\n.LSOverride\n")
    } else if name.eq("windows") {
        Some("Thumbs.db\nehthumbs.db\nDesktop.ini\n")
    } else if name.eq("linux") {
        Some("*~\n.fuse_hidden*\n.nfs*\n")
    } else if name.eq("ide") {
        Some(".idea/\n.vscode/\n*.swp\n*.swo\n.project\n")
    } else {
        None
    }
}

/// What is added for a template: the template under its name, and the
/// base template.
pub open spec fn addition(name: Seq<char>, content: Seq<char>) -> Seq<char> {
    "# "@ + name + "\n"@ + content + BASE_TEMPLATE@
}

/// What `.gitignore` holds once a template was added to what it held
/// before.
pub open spec fn merged(existing: Seq<char>, name: Seq<char>, content: Seq<char>) -> Seq<char> {
    if trimmed(existing).len() == 0 {
        addition(name, content)
    } else {
        trimmed(existing) + "\n"@ + addition(name, content)
    }
}

/// What `.gitignore` holds once a template was added.
pub fn merge(existing: &str, name: &str, content: &str) -> (text: String)
    ensures
        text@ == merged(existing@, name@, content@),
{
    let combined = "# ".to_owned().concat(name).concat("\n").concat(content).concat(BASE_TEMPLATE);
    let kept = trim(existing);
    if kept.unicode_len() == 0 {
        combined
    } else {
        kept.to_owned().concat("\n").concat(combined.as_str())
    }
}

/// Whether `.gitignore` has a template already: whether it holds the first
/// line of the template.
pub open spec fn has_template(existing: Seq<char>, content: Seq<char>) -> bool {
    occurs_in(first_line(content), existing)
}

/// What the user is asked where no template was named.
pub open spec fn choice() -> RequestView {
    RequestView::Select { prompt: "Choose template"@, items: template_names() }
}

/// What `.gitignore` was found to hold: nothing where it could not be
/// read.
pub open spec fn existing(facts: FactsView) -> Seq<char> {
    match facts.file {
        Some(Some(text)) => text,
        _ => Seq::empty(),
    }
}

/// The course of the command for the template of a name.
pub open spec fn extend(name: Seq<char>, facts: FactsView) -> ProgressView {
    match template(name) {
        None => succeed(
            silence().push(said(Tone::Failure, "Unknown template: "@ + name)).push(
                said(
                    Tone::Dim,
                    "Available: node, python, rust, go, java, web, macos, windows, linux, ide"@,
                ),
            ),
        ),
        Some(content) => match facts.file {
            None => need(silence(), RequestView::ReadFile(GITIGNORE@)),
            Some(_) => if has_template(existing(facts), content) {
                succeed(silence().push(said(Tone::Warning, "Already has this template"@)))
            } else {
                match facts.done {
                    None => need(
                        silence(),
                        RequestView::WriteFile {
                            path: GITIGNORE@,
                            content: merged(existing(facts), name, content),
                        },
                    ),
                    Some(Err(reason)) => fail(silence(), reason),
                    Some(Ok(_)) => succeed(
                        silence().push(
                            said(
                                Tone::Success,
                                "Added "@ + name + " template (with base templates) to .gitignore"@,
                            ),
                        ),
                    ),
                }
            },
        },
    }
}

/// The course of the command: it needs a repository, and the name of a
/// template, from the command line or from the user.
pub open spec fn plan(named: Option<Seq<char>>, facts: FactsView) -> ProgressView {
    match facts.is_repo {
        None => need(silence(), RequestView::IsRepo),
        Some(false) => fail(
            silence().push(said(Tone::Failure, "Not a git repository"@)).push(
                said(Tone::Dim, "Run 'ghk init' first"@),
            ),
            "Not a git repository"@,
        ),
        Some(true) => match named {
            Some(name) => extend(name, facts),
            None => match facts.selected {
                None => need(silence(), choice()),
                Some(Err(reason)) => fail(silence(), reason),
                Some(Ok(index)) => extend(template_names()[index as int], facts),
            },
        },
    }
}

/// Where the command stands, given what is known. The user can only have
/// chosen among the templates that were offered.
pub fn run(named: &Option<String>, facts: &Facts) -> (progress: Progress)
    requires
        facts.selected matches Some(Ok(index)) ==> index < template_names().len(),
    ensures
        progress@ == plan(named.deep_view(), facts@),
{
    let mut speech = Speech::new();
    match facts.is_repo {
        None => { return speech.need(Request::IsRepo); },
        Some(false) => {
            speech.say(Tone::Failure, "Not a git repository".to_owned());
            speech.say(Tone::Dim, "Run 'ghk init' first".to_owned());
            return speech.fail("Not a git repository".to_owned());
        },
        Some(true) => {},
    }
    let name = match named {
        Some(name) => name.clone(),
        None => match &facts.selected {
            None => {
                return speech.need(
                    Request::Select { prompt: "Choose template".to_owned(), items: names() },
                );
            },
            Some(Err(reason)) => { return speech.fail(reason.clone()); },
            Some(Ok(index)) => {
                let all = names();
                all[*index].clone()
            },
        },
    };
    let content = match find_template(name.as_str()) {
        None => {
            speech.say(Tone::Failure, "Unknown template: ".to_owned().concat(name.as_str()));
            speech.say(
                Tone::Dim,
                "Available: node, python, rust, go, java, web, macos, windows, linux, ide".to_owned(),
            );
            return speech.succeed();
        },
        Some(content) => content,
    };
    let found = match &facts.file {
        None => { return speech.need(Request::ReadFile(GITIGNORE.to_owned())); },
        Some(Some(text)) => text.clone(),
        Some(None) => String::new(),
    };
    if contains(found.as_str(), head_line(content)) {
        speech.say(Tone::Warning, "Already has this template".to_owned());
        return speech.succeed();
    }
    match &facts.done {
        None => speech.need(
            Request::WriteFile(
                FileToWrite {
                    path: GITIGNORE.to_owned(),
                    content: merge(found.as_str(), name.as_str(), content),
                },
            ),
        ),
        Some(Err(reason)) => speech.fail(reason.clone()),
        Some(Ok(_)) => {
            speech.say(
                Tone::Success,
                "Added ".to_owned().concat(name.as_str()).concat(
                    " template (with base templates) to .gitignore",
                ),
            );
            speech.succeed()
        },
    }
}

} // verus!
