//! Saves the changes to GitHub.

use vstd::prelude::*;
use crate::ghk::flow::{
    blank,
    fail,
    need,
    said,
    silence,
    succeed,
    summarized,
    Facts,
    FactsView,
    MessageView,
    Progress,
    ProgressView,
    Request,
    RequestView,
    Speech,
    Tone,
};
use crate::text::{contains, lowercase, occurs_in, to_lowercase};

verus! {

/// How many of the files that give pause are named.
pub const SHOWN_SCARY: usize = 5;

/// How many of the changed files are named.
pub const SHOWN_CHANGES: usize = 10;

/// The message of the commit where the user gives none.
pub const DEFAULT_MESSAGE: &'static str = "Update";

/// What marks a file as one that is better not saved: secrets, what tools
/// build or fetch, and what editors and systems leave behind.
pub open spec fn scary_patterns() -> Seq<Seq<char>> {
    seq![
        ".env"@,
        "node_modules"@,
        "target"@,
        "dist"@,
        "venv"@,
        ".venv"@,
        "env"@,
        "vendor"@,
        ".DS_Store"@,
        "thumbs.db"@,
        "__pycache__"@,
        "desktop.ini"@,
        ".vscode"@,
        ".idea"@,
        "build"@,
        "out"@,
        "bin"@,
        "obj"@,
        "pyc"@,
        "pyo"@,
        "log"@,
        "tmp"@,
        "bak"@,
        "swp"@,
        "exe"@,
        "dll"@,
        "so"@,
        "dylib"@,
    ]
}

/// Whether one of the patterns stands in a text.
pub open spec fn has_pattern(text: Seq<char>) -> bool {
    exists|k: int| 0 <= k < scary_patterns().len() && occurs_in(#[trigger] scary_patterns()[k], text)
}

/// Whether a file gives pause: whether its name in lowercase holds one of
/// the patterns.
pub open spec fn is_scary(file: Seq<char>) -> bool {
    has_pattern(lowercase(file))
}

/// The files that give pause, in their order.
pub open spec fn scary(files: Seq<Seq<char>>) -> Seq<Seq<char>> {
    files.filter(|file: Seq<char>| is_scary(file))
}

fn patterns() -> (all: Vec<&'static str>)
    ensures
        all@.len() == scary_patterns().len(),
        forall|k: int| 0 <= k < all@.len() ==> (#[trigger] all@[k])@ == scary_patterns()[k],
{
    vec![
        ".env",
        "node_modules",
        "target",
        "dist",
        "venv",
        ".venv",
        "env",
        "vendor",
        ".DS_Store",
        "thumbs.db",
        "__pycache__",
        "desktop.ini",
        ".vscode",
        ".idea",
        "build",
        "out",
        "bin",
        "obj",
        "pyc",
        "pyo",
        "log",
        "tmp",
        "bak",
        "swp",
        "exe",
        "dll",
        "so",
        "dylib",
    ]
}

/// Whether one of the patterns stands in a text.
pub fn matches_pattern(text: &str) -> (found: bool)
    ensures
        found == has_pattern(text@),
{
    let all = patterns();
    let mut k: usize = 0;
    while k < all.len()
        invariant
            k <= all.len(),
            all@.len() == scary_patterns().len(),
            forall|j: int| 0 <= j < all@.len() ==> (#[trigger] all@[j])@ == scary_patterns()[j],
            forall|j: int| 0 <= j < k ==> !occurs_in(#[trigger] scary_patterns()[j], text@),
        decreases all.len() - k,
    {
        if contains(text, all[k]) {
            return true;
        }
        k += 1;
    }
    false
}

/// The files that give pause, in their order.
pub fn scary_files(files: &Vec<String>) -> (found: Vec<String>)
    ensures
        found.deep_view() == scary(files.deep_view()),
{
    let ghost all = files.deep_view();
    let mut found: Vec<String> = Vec::new();
    let mut i: usize = 0;
    proof {
        reveal(Seq::filter);
    }
    while i < files.len()
        invariant
            i <= files.len(),
            all == files.deep_view(),
            found.deep_view() == scary(all.take(i as int)),
        decreases files.len() - i,
    {
        proof {
            reveal(Seq::filter);
            assert(all.take(i + 1).drop_last() =~= all.take(i as int));
        }
        let lower = to_lowercase(files[i].as_str());
        if matches_pattern(lower.as_str()) {
            found.push(files[i].clone());
        }
        i += 1;
    }
    assert(all.take(i as int) =~= all);
    found
}

/// What the user is asked before files that give pause are saved.
pub open spec fn sure() -> RequestView {
    RequestView::Confirm { prompt: "Are you sure you want to save these files?"@, default: false }
}

/// What the user is asked about the changes.
pub open spec fn what_changed() -> RequestView {
    RequestView::Input { prompt: "What did you change?"@, initial: Some(DEFAULT_MESSAGE@) }
}

/// The warning about files that give pause.
pub open spec fn warned(doubtful: Seq<Seq<char>>) -> Seq<MessageView> {
    summarized(
        silence().push(
            said(Tone::Warning, "Wait! Potential sensitive or temporary files detected:"@),
        ),
        doubtful,
        SHOWN_SCARY,
    )
}

/// The warning, with a tip where there is no `.gitignore`.
pub open spec fn tipped(doubtful: Seq<Seq<char>>, has_gitignore: bool) -> Seq<MessageView> {
    if has_gitignore {
        warned(doubtful)
    } else {
        warned(doubtful).push(said(Tone::Info, "Tip: You don't have a .gitignore file."@)).push(
            said(Tone::Dim, "Run 'ghk ignore' to add a template for your project."@),
        )
    }
}

/// What is said of the changes that are saved.
pub open spec fn announced(before: Seq<MessageView>, files: Seq<Seq<char>>) -> Seq<MessageView> {
    summarized(before.push(said(Tone::Info, "Changes to save:"@)), files, SHOWN_CHANGES)
}

/// The course of the saving itself: the user says what changed, and the
/// changes are staged, committed and pushed.
pub open spec fn save(before: Seq<MessageView>, files: Seq<Seq<char>>, facts: FactsView) -> ProgressView {
    let shown = announced(before, files);
    match facts.input {
        None => need(shown, what_changed()),
        Some(Err(reason)) => fail(shown, reason),
        Some(Ok(message)) => {
            let saving = shown.push(said(Tone::Info, "Saving..."@));
            match facts.staged {
                None => need(saving, RequestView::AddAll),
                Some(Err(reason)) => fail(saving, reason),
                Some(Ok(_)) => match facts.committed {
                    None => need(saving, RequestView::Commit(message)),
                    Some(Err(reason)) => fail(saving, reason),
                    Some(Ok(_)) => match facts.done {
                        None => need(saving, RequestView::Push),
                        Some(Err(reason)) => fail(saving, reason),
                        Some(Ok(_)) => succeed(
                            saving.push(said(Tone::Success, "Saved to GitHub!"@)),
                        ),
                    },
                },
            }
        },
    }
}

/// The course of the command once the changed files are known: files that
/// give pause are saved only if the user agrees.
pub open spec fn review(files: Seq<Seq<char>>, facts: FactsView) -> ProgressView {
    let doubtful = scary(files);
    if doubtful.len() == 0 {
        save(silence(), files, facts)
    } else {
        match facts.file_exists {
            None => need(warned(doubtful), RequestView::FileExists(".gitignore"@)),
            Some(has_gitignore) => match facts.confirmed {
                None => need(tipped(doubtful, has_gitignore), sure()),
                Some(Err(reason)) => fail(tipped(doubtful, has_gitignore), reason),
                Some(Ok(false)) => succeed(
                    tipped(doubtful, has_gitignore).push(
                        said(
                            Tone::Info,
                            "Cancelled. Clean up your files or add them to .gitignore."@,
                        ),
                    ),
                ),
                Some(Ok(true)) => save(tipped(doubtful, has_gitignore).push(blank()), files, facts),
            },
        }
    }
}

/// The course of the command: it needs a repository with a remote and a
/// login, and changes to save.
pub open spec fn plan(facts: FactsView) -> ProgressView {
    match facts.is_repo {
        None => need(silence(), RequestView::IsRepo),
        Some(false) => fail(
            silence().push(said(Tone::Failure, "Not a git repository"@)).push(
                said(Tone::Dim, "Run 'ghk init' first"@),
            ),
            "Not a git repository"@,
        ),
        Some(true) => match facts.logged_in {
            None => need(silence(), RequestView::LoggedIn),
            Some(false) => fail(
                silence().push(said(Tone::Failure, "Not logged in to GitHub"@)).push(
                    said(Tone::Dim, "Run 'ghk login' first"@),
                ),
                "Not logged in"@,
            ),
            Some(true) => match facts.has_remote {
                None => need(silence(), RequestView::HasRemote),
                Some(false) => fail(
                    silence().push(said(Tone::Failure, "Not connected to GitHub"@)).push(
                        said(Tone::Dim, "Run 'ghk create' first to create a repository"@),
                    ),
                    "No remote configured"@,
                ),
                Some(true) => match facts.changes {
                    None => need(silence(), RequestView::Changes),
                    Some(Err(reason)) => fail(silence(), reason),
                    Some(Ok(false)) => succeed(
                        silence().push(said(Tone::Success, "Already up to date"@)).push(
                            said(Tone::Dim, "No changes to save"@),
                        ),
                    ),
                    Some(Ok(true)) => match facts.files {
                        None => need(silence(), RequestView::Files),
                        Some(Err(reason)) => fail(silence(), reason),
                        Some(Ok(files)) => review(files, facts),
                    },
                },
            },
        },
    }
}

fn save_changes(speech: Speech, files: &Vec<String>, facts: &Facts) -> (progress: Progress)
    ensures
        progress@ == save(speech@, files.deep_view(), facts@),
{
    let mut speech = speech;
    speech.say(Tone::Info, "Changes to save:".to_owned());
    speech.summarize(files, SHOWN_CHANGES);
    let message = match &facts.input {
        None => {
            return speech.need(
                Request::Input {
                    prompt: "What did you change?".to_owned(),
                    initial: Some(DEFAULT_MESSAGE.to_owned()),
                },
            );
        },
        Some(Err(reason)) => { return speech.fail(reason.clone()); },
        Some(Ok(message)) => message,
    };
    speech.say(Tone::Info, "Saving...".to_owned());
    match &facts.staged {
        None => { return speech.need(Request::AddAll); },
        Some(Err(reason)) => { return speech.fail(reason.clone()); },
        Some(Ok(_)) => {},
    }
    match &facts.committed {
        None => { return speech.need(Request::Commit(message.clone())); },
        Some(Err(reason)) => { return speech.fail(reason.clone()); },
        Some(Ok(_)) => {},
    }
    match &facts.done {
        None => speech.need(Request::Push),
        Some(Err(reason)) => speech.fail(reason.clone()),
        Some(Ok(_)) => {
            speech.say(Tone::Success, "Saved to GitHub!".to_owned());
            speech.succeed()
        },
    }
}

/// Where the command stands, given what is known.
pub fn run(facts: &Facts) -> (progress: Progress)
    ensures
        progress@ == plan(facts@),
{
    let mut speech = Speech::new();
    match facts.is_repo {
        None => { return speech.need(Request::IsRepo); },
        Some(false) => {
            speech.say(Tone::Failure, "Not a git repository".to_owned());
            speech.say(Tone::Dim, "Run 'ghk init' first".to_owned());
            return speech.fail("Not a git repository".to_owned());
        },
        Some(true) => {},
    }
    match facts.logged_in {
        None => { return speech.need(Request::LoggedIn); },
        Some(false) => {
            speech.say(Tone::Failure, "Not logged in to GitHub".to_owned());
            speech.say(Tone::Dim, "Run 'ghk login' first".to_owned());
            return speech.fail("Not logged in".to_owned());
        },
        Some(true) => {},
    }
    match facts.has_remote {
        None => { return speech.need(Request::HasRemote); },
        Some(false) => {
            speech.say(Tone::Failure, "Not connected to GitHub".to_owned());
            speech.say(Tone::Dim, "Run 'ghk create' first to create a repository".to_owned());
            return speech.fail("No remote configured".to_owned());
        },
        Some(true) => {},
    }
    match &facts.changes {
        None => { return speech.need(Request::Changes); },
        Some(Err(reason)) => { return speech.fail(reason.clone()); },
        Some(Ok(false)) => {
            speech.say(Tone::Success, "Already up to date".to_owned());
            speech.say(Tone::Dim, "No changes to save".to_owned());
            return speech.succeed();
        },
        Some(Ok(true)) => {},
    }
    let files = match &facts.files {
        None => { return speech.need(Request::Files); },
        Some(Err(reason)) => { return speech.fail(reason.clone()); },
        Some(Ok(files)) => files,
    };
    let doubtful = scary_files(files);
    if doubtful.len() == 0 {
        return save_changes(speech, files, facts);
    }
    speech.say(
        Tone::Warning,
        "Wait! Potential sensitive or temporary files detected:".to_owned(),
    );
    speech.summarize(&doubtful, SHOWN_SCARY);
    match facts.file_exists {
        None => { return speech.need(Request::FileExists(".gitignore".to_owned())); },
        Some(false) => {
            speech.say(Tone::Info, "Tip: You don't have a .gitignore file.".to_owned());
            speech.say(
                Tone::Dim,
                "Run 'ghk ignore' to add a template for your project.".to_owned(),
            );
        },
        Some(true) => {},
    }
    match &facts.confirmed {
        None => speech.need(
            Request::Confirm {
                prompt: "Are you sure you want to save these files?".to_owned(),
                default: false,
            },
        ),
        Some(Err(reason)) => speech.fail(reason.clone()),
        Some(Ok(false)) => {
            speech.say(
                Tone::Info,
                "Cancelled. Clean up your files or add them to .gitignore.".to_owned(),
            );
            speech.succeed()
        },
        Some(Ok(true)) => {
            speech.blank();
            save_changes(speech, files, facts)
        },
    }
}

} // verus!
