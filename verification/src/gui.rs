//! The front end: the two pages it shows, what it can say to the
//! controller, and the calls by which it is told what to show.

use vstd::prelude::*;
use vstd::string::StringExecFns;
use crate::controller::{Action, Controller, Event, EventView, Model};
use crate::extraction::ExtractionError;
use crate::request::{text_of, InstallRequest};
use crate::store::ArchivePayload;
use crate::text::{
    begins_with, decimal, decimal_text, replace_all, replaced, same_text, starts_with,
};
use crate::validator::ValidationError;

verus! {

/// The page on which the user chooses the destination. Its scripts define
/// every call that [`script`] and [`folder_script`] write.
pub const ROOT_PAGE: &'static str = "<!doctype html>
<html>
<head>
<meta charset=\"utf-8\">
<title>Install</title>
<style>
body { font-family: sans-serif; margin: 2em; }
#warning { color: #b00020; min-height: 1.5em; }
progress { width: 100%; }
</style>
</head>
<body>
<div id=\"page\">
<h1>Install</h1>
<p>Choose the folder to install into.</p>
<input id=\"folder\" type=\"text\" size=\"48\">
<button onclick=\"external.invoke('open_file')\">Browse</button>
<p id=\"warning\"></p>
<button onclick=\"external.invoke('next_page:' + document.getElementById('folder').value)\">Install</button>
<button onclick=\"external.invoke('exit')\">Cancel</button>
</div>
<script>
function update_folder(path) {
  document.getElementById('folder').value = path;
}
function no_file() {
  document.getElementById('warning').textContent = 'The folder that should hold the destination does not exist.';
}
function yes_file() {
  document.getElementById('warning').textContent = 'The destination exists already and is not empty.';
}
function move_page(html) {
  document.getElementById('page').innerHTML = html;
}
function update_size(percent) {
  document.getElementById('bar').value = percent;
  document.getElementById('percent').textContent = percent + '%';
}
function install_failed(reason) {
  document.getElementById('message').textContent = 'The installation failed: ' + reason + '.';
  document.getElementById('done').disabled = false;
}
function enable_btn() {
  document.getElementById('done').disabled = false;
}
</script>
</body>
</html>
";

/// The page that shows the progress of the installation. It is put into the
/// root page by a call written between single quotes, and so holds none.
pub const NEXT_PAGE: &'static str = "<h1>Installing</h1>
<progress id=\"bar\" max=\"100\" value=\"0\"></progress>
<p id=\"percent\">0%</p>
<p id=\"message\"></p>
<button id=\"done\" disabled onclick=\"external.invoke(&quot;exit&quot;)\">Continue</button>
";

/// The root HTML.
pub fn root() -> (page: &'static str)
    ensures
        page@ == ROOT_PAGE@,
{
    ROOT_PAGE
}

/// The final page HTML.
pub fn next_page() -> (page: &'static str)
    ensures
        page@ == NEXT_PAGE@,
{
    NEXT_PAGE
}

/// Starts the workflow for installing `payload`: a controller with no
/// request at hand, to be driven by the events of a view that shows
/// [`root`].
pub fn start(payload: ArchivePayload) -> (controller: Controller)
    ensures
        controller@ == Model::initial(payload@),
        controller.wf(),
{
    Controller::new(payload)
}

/// What a message of the front end says, as plain values.
pub enum Word {
    /// It asks for the folder picker.
    PickFolder,
    /// It closes the view.
    CancelView,
    /// It submits this destination.
    Confirm(Seq<char>),
}

/// What the message `arg` of the front end says; nothing if it is none of
/// the three messages that the pages send.
pub open spec fn word_of(arg: Seq<char>) -> Option<Word> {
    if arg == "open_file"@ {
        Some(Word::PickFolder)
    } else if arg == "exit"@ {
        Some(Word::CancelView)
    } else if begins_with(arg, "next_page:"@) {
        Some(Word::Confirm(replaced(arg, "next_page:"@, ""@)))
    } else {
        None
    }
}

/// Reads a message of the front end.
///
/// A submitted destination becomes a request with the parent directory that
/// the path itself names; a request for the empty path has none.
pub fn parse_event(arg: &str) -> (r: Option<Event>)
    ensures
        match word_of(arg@) {
            Some(Word::PickFolder) => r is Some && r.unwrap()@ == EventView::PickFolder,
            Some(Word::CancelView) => r is Some && r.unwrap()@ == EventView::CancelView,
            Some(Word::Confirm(path)) => r is Some && r.unwrap()@ is Confirm && (
            r.unwrap()@->Confirm_0).destination == path && (path.len() == 0 ==> (
            r.unwrap()@->Confirm_0).parent is None),
            None => r is None,
        },
{
    if same_text(arg, "open_file") {
        Some(Event::PickFolder)
    } else if same_text(arg, "exit") {
        Some(Event::CancelView)
    } else if starts_with(arg, "next_page:") {
        let path = replace_all(arg, "next_page:", "");
        Some(Event::Confirm(InstallRequest::new(path.as_str())))
    } else {
        None
    }
}

/// The call that shows that `percent` percent are done.
pub open spec fn progress_call(percent: u8) -> Seq<char> {
    "update_size("@ + decimal_text(percent as nat) + ")"@
}

/// The call that shows the folder that the user picked, with each backslash
/// in its path turned into a slash.
pub open spec fn folder_call(path: Seq<char>) -> Seq<char> {
    "update_folder(\""@ + replaced(path, "\\"@, "/"@) + "\")"@
}

/// The call that moves the view on to `page`, written on one line: carriage
/// returns are left out, and each line feed is written as a backslash and
/// an `n`.
pub open spec fn page_call(page: Seq<char>) -> Seq<char> {
    "move_page('"@ + replaced(replaced(page, "\r"@, ""@), "\n"@, "\\n"@) + "')"@
}

/// The call that tells the user why the installation was given up.
pub open spec fn failure_call(error: ExtractionError) -> Seq<char> {
    match error {
        ExtractionError::Io => "install_failed('a file could not be read or written')"@,
        ExtractionError::Corrupt => "install_failed('the archive is damaged')"@,
        ExtractionError::DestinationConflict =>
            "install_failed('the destination is no longer empty')"@,
    }
}

/// The call by which the view carries out `action`; none for an action that
/// is not the view's to carry out.
pub open spec fn script_of(action: Action) -> Option<Seq<char>> {
    match action {
        Action::ShowWarning(ValidationError::Unreachable) => Some("no_file()"@),
        Action::ShowWarning(ValidationError::Conflict) => Some("yes_file()"@),
        Action::ShowTerminalView => Some(page_call(NEXT_PAGE@)),
        Action::UpdateProgress(percent) => Some(progress_call(percent)),
        Action::ReportFailure(error) => Some(failure_call(error)),
        Action::EnableContinue => Some("enable_btn()"@),
        _ => None,
    }
}

/// Writes the call that shows the folder that the user picked.
pub fn folder_script(path: &str) -> (r: String)
    ensures
        r@ == folder_call(path@),
{
    let shown = replace_all(path, "\\", "/");
    "update_folder(\"".to_owned().concat(shown.as_str()).concat("\")")
}

/// Writes the call that moves the view on to `page`.
pub fn page_script(page: &str) -> (r: String)
    ensures
        r@ == page_call(page@),
{
    let kept = replace_all(page, "\r", "");
    let line = replace_all(kept.as_str(), "\n", "\\n");
    "move_page('".to_owned().concat(line.as_str()).concat("')")
}

/// Writes the call that shows that `percent` percent are done.
pub fn progress_script(percent: u8) -> (r: String)
    ensures
        r@ == progress_call(percent),
{
    let number = decimal(percent);
    "update_size(".to_owned().concat(number.as_str()).concat(")")
}

/// Writes the call by which the view carries out `action`, if it is the
/// view's to carry out.
pub fn script(action: Action) -> (r: Option<String>)
    ensures
        text_of(r) == script_of(action),
{
    match action {
        Action::ShowWarning(ValidationError::Unreachable) => Some("no_file()".to_owned()),
        Action::ShowWarning(ValidationError::Conflict) => Some("yes_file()".to_owned()),
        Action::ShowTerminalView => Some(page_script(next_page())),
        Action::UpdateProgress(percent) => Some(progress_script(percent)),
        Action::ReportFailure(error) => Some(
            match error {
                ExtractionError::Io =>
                    "install_failed('a file could not be read or written')".to_owned(),
                ExtractionError::Corrupt => "install_failed('the archive is damaged')".to_owned(),
                ExtractionError::DestinationConflict =>
                    "install_failed('the destination is no longer empty')".to_owned(),
            },
        ),
        Action::EnableContinue => Some("enable_btn()".to_owned()),
        _ => None,
    }
}

} // verus!
