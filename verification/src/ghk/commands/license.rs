//! Adds a license file.

use vstd::prelude::*;
use crate::cli::LicenseKind;
use crate::ghk::flow::{
    fail,
    need,
    said,
    silence,
    succeed,
    Facts,
    FactsView,
    FileToWrite,
    Progress,
    ProgressView,
    Request,
    RequestView,
    Speech,
    Tone,
};
use crate::text::{signed_decimal, to_signed_decimal};

verus! {

/// The file that the license goes to.
pub const LICENSE_FILE: &'static str = "LICENSE";

/// The author where the account could not be found out.
pub const FALLBACK_AUTHOR: &'static str = "Your Name";

/// What follows the copyright line of the MIT license.
pub const MIT_TERMS: &'static str =
    "\n\nPermission is hereby granted, free of charge, to any person obtaining a copy\nof this software and associated documentation files (the \"Software\"), to deal\nin the Software without restriction, including without limitation the rights\nto use, copy, modify, merge, publish, distribute, sublicense, and/or sell\ncopies of the Software, and to permit persons to whom the Software is\nfurnished to do so, subject to the following conditions:\n\nThe above copyright notice and this permission notice shall be included in all\ncopies or substantial portions of the Software.\n\nTHE SOFTWARE IS PROVIDED \"AS IS\", WITHOUT WARRANTY OF ANY KIND, EXPRESS OR\nIMPLIED, INCLUDING BUT NOT LIMITED TO THE WARRANTIES OF MERCHANTABILITY,\nFITNESS FOR A PARTICULAR PURPOSE AND NONINFRINGEMENT. IN NO EVENT SHALL THE\nAUTHORS OR COPYRIGHT HOLDERS BE LIABLE FOR ANY CLAIM, DAMAGES OR OTHER\nLIABILITY, WHETHER IN AN ACTION OF CONTRACT, TORT OR OTHERWISE, ARISING FROM,\nOUT OF OR IN CONNECTION WITH THE SOFTWARE OR THE USE OR OTHER DEALINGS IN THE\nSOFTWARE.\n";

/// What follows the copyright line of the Apache license.
pub const APACHE_TERMS: &'static str =
    "\n\nLicensed under the Apache License, Version 2.0 (the \"License\");\nyou may not use this file except in compliance with the License.\nYou may obtain a copy of the License at\n\nhttp://www.apache.org/licenses/LICENSE-2.0\n\nUnless required by applicable law or agreed to in writing, software\ndistributed under the License is distributed on an \"AS IS\" BASIS,\nWITHOUT WARRANTIES OR CONDITIONS OF ANY KIND, either express or implied.\nSee the License for the specific language governing permissions and\nlimitations under the License.\n";

/// What follows the copyright line of the GNU General Public License.
pub const GPL_TERMS: &'static str =
    "\n\nThis program is free software: you can redistribute it and/or modify\nit under the terms of the GNU General Public License as published by\nthe Free Software Foundation, either version 3 of the License, or\n(at your option) any later version.\n\nThis program is distributed in the hope that it will be useful,\nbut WITHOUT ANY WARRANTY; without even the implied warranty of\nMERCHANTABILITY or FITNESS FOR A PARTICULAR PURPOSE. See the\nGNU General Public License for more details.\n\nYou should have received a copy of the GNU General Public License\nalong with this program. If not, see <https://www.gnu.org/licenses/>.\n";

/// The Unlicense.
pub const UNLICENSE: &'static str =
    "This is free and unencumbered software released into the public domain.\n\nAnyone is free to copy, modify, publish, use, compile, sell, or\ndistribute this software, either in source code form or as a compiled\nbinary, for any purpose, commercial or non-commercial, and by any means.\n\nIn jurisdictions that recognize copyright laws, the author or authors\nof this software dedicate any and all copyright interest in the\nsoftware to the public domain.\n\nTHE SOFTWARE IS PROVIDED \"AS IS\", WITHOUT WARRANTY OF ANY KIND.\n";

/// The text of a license for an author in a year. The Unlicense names
/// neither.
pub open spec fn license_text(kind: LicenseKind, year: i32, author: Seq<char>) -> Seq<char> {
    match kind {
        LicenseKind::Mit => "MIT License\n\nCopyright (c) "@ + signed_decimal(year as int) + " "@
            + author + MIT_TERMS@,
        LicenseKind::Apache => "Copyright "@ + signed_decimal(year as int) + " "@ + author
            + APACHE_TERMS@,
        LicenseKind::Gpl => "Copyright (C) "@ + signed_decimal(year as int) + " "@ + author
            + GPL_TERMS@,
        LicenseKind::Unlicense => UNLICENSE@,
    }
}

/// The text of a license for an author in a year.
pub fn text(kind: LicenseKind, year: i32, author: &str) -> (content: String)
    ensures
        content@ == license_text(kind, year, author@),
{
    let year = to_signed_decimal(year as i64);
    match kind {
        LicenseKind::Mit => "MIT License\n\nCopyright (c) ".to_owned().concat(year.as_str()).concat(
            " ",
        ).concat(author).concat(MIT_TERMS),
        LicenseKind::Apache => "Copyright ".to_owned().concat(year.as_str()).concat(" ").concat(
            author,
        ).concat(APACHE_TERMS),
        LicenseKind::Gpl => "Copyright (C) ".to_owned().concat(year.as_str()).concat(" ").concat(
            author,
        ).concat(GPL_TERMS),
        LicenseKind::Unlicense => UNLICENSE.to_owned(),
    }
}

/// The licenses as they are offered, in this order.
pub open spec fn offers() -> Seq<Seq<char>> {
    seq!["MIT"@, "Apache 2.0"@, "GPL 3.0"@, "Unlicense"@]
}

/// The license that stands at a place among the offers.
pub open spec fn offered(index: usize) -> LicenseKind {
    if index == 0 {
        LicenseKind::Mit
    } else if index == 1 {
        LicenseKind::Apache
    } else if index == 2 {
        LicenseKind::Gpl
    } else {
        LicenseKind::Unlicense
    }
}

/// What the user is asked where no license was named.
pub open spec fn choice() -> RequestView {
    RequestView::Select { prompt: "Choose license"@, items: offers() }
}

/// The author of the license: the account that is logged in.
pub open spec fn author(facts: FactsView) -> Seq<char> {
    match facts.user {
        Some(Ok(name)) => name,
        _ => FALLBACK_AUTHOR@,
    }
}

/// The course of the command for a license.
pub open spec fn write(kind: LicenseKind, facts: FactsView) -> ProgressView {
    match facts.year {
        None => need(silence(), RequestView::Year),
        Some(year) => match facts.user {
            None => need(silence(), RequestView::WhoAmI),
            Some(_) => match facts.done {
                None => need(
                    silence(),
                    RequestView::WriteFile {
                        path: LICENSE_FILE@,
                        content: license_text(kind, year, author(facts)),
                    },
                ),
                Some(Err(reason)) => fail(silence(), reason),
                Some(Ok(_)) => succeed(silence().push(said(Tone::Success, "Created LICENSE file"@))),
            },
        },
    }
}

/// The course of the command: it needs a repository without a license
/// file, and a license, from the command line or from the user.
pub open spec fn plan(kind: Option<LicenseKind>, facts: FactsView) -> ProgressView {
    match facts.is_repo {
        None => need(silence(), RequestView::IsRepo),
        Some(false) => fail(
            silence().push(said(Tone::Failure, "Not a git repository"@)),
            "Not a git repository"@,
        ),
        Some(true) => match facts.file_exists {
            None => need(silence(), RequestView::FileExists(LICENSE_FILE@)),
            Some(true) => succeed(
                silence().push(said(Tone::Warning, "LICENSE file already exists"@)),
            ),
            Some(false) => match kind {
                Some(kind) => write(kind, facts),
                None => match facts.selected {
                    None => need(silence(), choice()),
                    Some(Err(reason)) => fail(silence(), reason),
                    Some(Ok(index)) => write(offered(index), facts),
                },
            },
        },
    }
}

fn offer_names() -> (all: Vec<String>)
    ensures
        all.deep_view() == offers(),
{
    let mut all: Vec<String> = Vec::new();
    all.push("MIT".to_owned());
    all.push("Apache 2.0".to_owned());
    all.push("GPL 3.0".to_owned());
    all.push("Unlicense".to_owned());
    all
}

/// Where the command stands, given what is known.
pub fn run(kind: Option<LicenseKind>, facts: &Facts) -> (progress: Progress)
    ensures
        progress@ == plan(kind, facts@),
{
    let mut speech = Speech::new();
    match facts.is_repo {
        None => { return speech.need(Request::IsRepo); },
        Some(false) => {
            speech.say(Tone::Failure, "Not a git repository".to_owned());
            return speech.fail("Not a git repository".to_owned());
        },
        Some(true) => {},
    }
    match facts.file_exists {
        None => { return speech.need(Request::FileExists(LICENSE_FILE.to_owned())); },
        Some(true) => {
            speech.say(Tone::Warning, "LICENSE file already exists".to_owned());
            return speech.succeed();
        },
        Some(false) => {},
    }
    let license = match kind {
        Some(kind) => kind,
        None => match &facts.selected {
            None => {
                return speech.need(
                    Request::Select { prompt: "Choose license".to_owned(), items: offer_names() },
                );
            },
            Some(Err(reason)) => { return speech.fail(reason.clone()); },
            Some(Ok(index)) => if *index == 0 {
                LicenseKind::Mit
            } else if *index == 1 {
                LicenseKind::Apache
            } else if *index == 2 {
                LicenseKind::Gpl
            } else {
                LicenseKind::Unlicense
            },
        },
    };
    let year = match facts.year {
        None => { return speech.need(Request::Year); },
        Some(year) => year,
    };
    let name = match &facts.user {
        None => { return speech.need(Request::WhoAmI); },
        Some(Ok(name)) => name.clone(),
        Some(Err(_)) => FALLBACK_AUTHOR.to_owned(),
    };
    match &facts.done {
        None => speech.need(
            Request::WriteFile(
                FileToWrite {
                    path: LICENSE_FILE.to_owned(),
                    content: text(license, year, name.as_str()),
                },
            ),
        ),
        Some(Err(reason)) => speech.fail(reason.clone()),
        Some(Ok(_)) => {
            speech.say(Tone::Success, "Created LICENSE file".to_owned());
            speech.succeed()
        },
    }
}

} // verus!
