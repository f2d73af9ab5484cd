use vstd::prelude::*;

verus! {

/// Why reading or writing a file failed.
#[derive(Clone, Copy, Debug, PartialEq, Eq, Structural)]
pub enum FileError {
    NotFound,
    PermissionDenied,
    /// The file's bytes are not UTF-8 text.
    InvalidText,
    Other,
}

/// A file that the user picked, with what reading it gave.
pub struct LoadedFile {
    pub path: String,
    pub content: Result<String, FileError>,
}

/// A path that the buffer was written to, with what writing gave.
pub struct WrittenFile {
    pub path: String,
    pub outcome: Result<(), FileError>,
}

/// A folder that the user picked, with its entries; `None` where the folder could not be
/// read, and a `None` entry where the entry failed or its name is not text.
pub struct FolderListing {
    pub path: String,
    pub entries: Option<Vec<Option<String>>>,
}

/// What saving the buffer takes next.
pub enum SaveRequest {
    /// Write `text` over the file at `path`.
    Overwrite { path: String, text: String },
    /// Ask the user where to write `text`.
    ChoosePath { text: String },
}

/// The editor's whole state: the buffer, the file it belongs to, the open folder and its
/// entries, and whether the terminal was launched.
pub struct ApplicationState {
    pub editor_text: String,
    pub file_path: Option<String>,
    pub folder_path: Option<String>,
    pub files_in_folder: Vec<String>,
    pub terminal_started: bool,
}

pub struct StateView {
    pub editor_text: Seq<char>,
    pub file_path: Option<Seq<char>>,
    pub folder_path: Option<Seq<char>>,
    pub files_in_folder: Seq<Seq<char>>,
    pub terminal_started: bool,
}

pub open spec fn opt_text(o: Option<String>) -> Option<Seq<char>> {
    match o {
        Some(s) => Some(s@),
        None => None,
    }
}

pub open spec fn texts(v: Seq<String>) -> Seq<Seq<char>> {
    v.map_values(|s: String| s@)
}

impl View for ApplicationState {
    type V = StateView;

    open spec fn view(&self) -> StateView {
        StateView {
            editor_text: self.editor_text@,
            file_path: opt_text(self.file_path),
            folder_path: opt_text(self.folder_path),
            files_in_folder: texts(self.files_in_folder@),
            terminal_started: self.terminal_started,
        }
    }
}

/// The state after the file at `path` was read as `content`.
pub open spec fn loaded(v: StateView, path: Seq<char>, content: Seq<char>) -> StateView {
    StateView { editor_text: content, file_path: Some(path), ..v }
}

/// The state and result after the file dialog answered `choice`.
pub open spec fn open_file_step(v: StateView, choice: Option<LoadedFile>) -> (StateView, Result<
    (),
    FileError,
>) {
    match choice {
        None => (v, Ok(())),
        Some(f) => match f.content {
            Ok(c) => (loaded(v, f.path@, c@), Ok(())),
            Err(e) => (v, Err(e)),
        },
    }
}

/// Where a save writes (the active file, or a path still to be asked for) and what it writes.
pub open spec fn save_plan(v: StateView) -> (Option<Seq<char>>, Seq<char>) {
    (v.file_path, v.editor_text)
}

/// The state and result after a save that ended in `written`; `None` where the user
/// cancelled the dialog that asks for a path.
pub open spec fn save_step(v: StateView, written: Option<WrittenFile>) -> (StateView, Result<
    (),
    FileError,
>) {
    match written {
        None => (v, Ok(())),
        Some(w) => match w.outcome {
            Ok(()) => (StateView { file_path: Some(w.path@), ..v }, Ok(())),
            Err(e) => (v, Err(e)),
        },
    }
}

/// The entry names that are text, in the order listed.
pub open spec fn kept_names(entries: Seq<Option<String>>) -> Seq<Seq<char>>
    decreases entries.len(),
{
    if entries.len() == 0 {
        Seq::empty()
    } else {
        let rest = kept_names(entries.drop_last());
        match entries.last() {
            Some(name) => rest.push(name@),
            None => rest,
        }
    }
}

/// The names listed for a folder; none where it could not be read.
pub open spec fn listed_names(entries: Option<Vec<Option<String>>>) -> Seq<Seq<char>> {
    match entries {
        Some(es) => kept_names(es@),
        None => Seq::empty(),
    }
}

/// The state after the folder dialog answered `choice`.
pub open spec fn open_folder_step(v: StateView, choice: Option<FolderListing>) -> StateView {
    match choice {
        None => v,
        Some(l) => StateView {
            folder_path: Some(l.path@),
            files_in_folder: listed_names(l.entries),
            ..v
        },
    }
}

/// The path of entry `name` in `folder`.
pub open spec fn joined(folder: Seq<char>, name: Seq<char>) -> Seq<char> {
    folder + "/"@ + name
}

/// The state and result after entry `name` of the open folder was read as `content`.
pub open spec fn open_from_folder_step(
    v: StateView,
    name: Seq<char>,
    content: Result<String, FileError>,
) -> (StateView, Result<(), FileError>) {
    match v.folder_path {
        None => (v, Ok(())),
        Some(folder) => match content {
            Ok(c) => (loaded(v, joined(folder, name), c@), Ok(())),
            Err(e) => (v, Err(e)),
        },
    }
}

/// The state after a click on the terminal button, and whether the click launches it.
pub open spec fn click_step(v: StateView) -> (StateView, bool) {
    (StateView { terminal_started: true, ..v }, !v.terminal_started)
}

/// How many launches `n` clicks on the terminal button make from `v`.
pub open spec fn launches(v: StateView, n: nat) -> nat
    decreases n,
{
    if n == 0 {
        0
    } else {
        let (w, launch) = click_step(v);
        (if launch {
            1nat
        } else {
            0nat
        }) + launches(w, (n - 1) as nat)
    }
}

impl ApplicationState {
    /// The state at startup: an empty buffer, no file, no folder, no terminal.
    pub fn new() -> (r: ApplicationState)
        ensures
            r@.editor_text.len() == 0,
            r@.file_path is None,
            r@.folder_path is None,
            r@.files_in_folder.len() == 0,
            !r@.terminal_started,
    {
        ApplicationState {
            editor_text: String::new(),
            file_path: None,
            folder_path: None,
            files_in_folder: Vec::new(),
            terminal_started: false,
        }
    }

    /// Takes what the file dialog gave: a picked file that could be read becomes the buffer
    /// and the active file; a cancelled dialog or a failed read changes nothing.
    pub fn open_file(&mut self, choice: Option<LoadedFile>) -> (r: Result<(), FileError>)
        ensures
            (final(self)@, r) == open_file_step(old(self)@, choice),
    {
        match choice {
            None => Ok(()),
            Some(f) => match f.content {
                Ok(c) => {
                    self.editor_text = c;
                    self.file_path = Some(f.path);
                    Ok(())
                },
                Err(e) => Err(e),
            },
        }
    }

    /// What saving takes: overwriting the active file, or asking for a path where there is none.
    pub fn save_request(&self) -> (r: SaveRequest)
        ensures
            match r {
                SaveRequest::Overwrite { path, text } => save_plan(self@) == (Some(path@), text@),
                SaveRequest::ChoosePath { text } => save_plan(self@) == (None::<Seq<char>>, text@),
            },
    {
        match &self.file_path {
            Some(p) => SaveRequest::Overwrite { path: p.clone(), text: self.editor_text.clone() },
            None => SaveRequest::ChoosePath { text: self.editor_text.clone() },
        }
    }

    /// Takes how a save ended: a written path becomes the active file; a cancelled dialog or a
    /// failed write changes nothing.
    pub fn save_file(&mut self, written: Option<WrittenFile>) -> (r: Result<(), FileError>)
        ensures
            (final(self)@, r) == save_step(old(self)@, written),
    {
        match written {
            None => Ok(()),
            Some(w) => match w.outcome {
                Ok(()) => {
                    self.file_path = Some(w.path);
                    Ok(())
                },
                Err(e) => Err(e),
            },
        }
    }

    /// Takes what the folder dialog gave: the folder becomes the open one and its text-named
    /// entries, in the order listed, replace the list; a cancelled dialog changes nothing.
    pub fn open_folder(&mut self, choice: Option<FolderListing>)
        ensures
            final(self)@ == open_folder_step(old(self)@, choice),
    {
        match choice {
            None => {},
            Some(l) => {
                let mut files: Vec<String> = Vec::new();
                match &l.entries {
                    Some(es) => {
                        let mut i: usize = 0;
                        while i < es.len()
                            invariant
                                i <= es@.len(),
                                texts(files@) == kept_names(es@.subrange(0, i as int)),
                            decreases es@.len() - i,
                        {
                            proof {
                                assert(es@.subrange(0, i + 1).drop_last() =~= es@.subrange(
                                    0,
                                    i as int,
                                ));
                            }
                            match &es[i] {
                                Some(name) => {
                                    files.push(name.clone());
                                    proof {
                                        assert(texts(files@) =~= kept_names(
                                            es@.subrange(0, i + 1),
                                        ));
                                    }
                                },
                                None => {},
                            }
                            i = i + 1;
                        }
                        proof {
                            assert(es@.subrange(0, es@.len() as int) =~= es@);
                        }
                    },
                    None => {
                        proof {
                            assert(texts(files@) =~= Seq::empty());
                        }
                    },
                }
                self.folder_path = Some(l.path);
                self.files_in_folder = files;
                proof {
                    assert(self@ == open_folder_step(old(self)@, Some(l)));
                }
            },
        }
    }

    /// The path of entry `name` of the open folder, if a folder is open.
    pub fn folder_file_path(&self, name: &str) -> (r: Option<String>)
        ensures
            match self@.folder_path {
                Some(folder) => r matches Some(p) && p@ == joined(folder, name@),
                None => r is None,
            },
    {
        match &self.folder_path {
            Some(folder) => {
                let mut p = folder.clone();
                p.append("/");
                p.append(name);
                Some(p)
            },
            None => None,
        }
    }

    /// Takes what reading entry `name` of the open folder gave: text read becomes the buffer
    /// and its path the active file; a failed read, or no open folder, changes nothing.
    pub fn open_file_from_folder(&mut self, name: &str, content: Result<String, FileError>) -> (r:
        Result<(), FileError>)
        ensures
            (final(self)@, r) == open_from_folder_step(old(self)@, name@, content),
    {
        match self.folder_file_path(name) {
            None => Ok(()),
            Some(p) => match content {
                Ok(c) => {
                    self.editor_text = c;
                    self.file_path = Some(p);
                    Ok(())
                },
                Err(e) => Err(e),
            },
        }
    }

    /// A click on the terminal button: the first click asks for a launch and every later one
    /// asks for none.
    pub fn terminal_click(&mut self) -> (launch: bool)
        ensures
            (final(self)@, launch) == click_step(old(self)@),
    {
        let launch = !self.terminal_started;
        self.terminal_started = true;
        launch
    }
}

/// Saving right after a file was opened, with the buffer unchanged, writes the text that was
/// read back to the file it came from, and a successful write leaves the state as it was.
pub proof fn save_after_open_writes_what_was_read(v: StateView, path: String, content: String)
    ensures
        ({
            let opened = open_file_step(v, Some(LoadedFile { path, content: Ok(content) })).0;
            &&& save_plan(opened) == (Some(path@), content@)
            &&& save_step(opened, Some(WrittenFile { path, outcome: Ok(()) })).0 == opened
        }),
{
}

/// Cancelling the file, save or folder dialog leaves every part of the state as it was.
pub proof fn cancelled_dialog_changes_nothing(v: StateView)
    ensures
        open_file_step(v, None) == (v, Ok::<(), FileError>(())),
        save_step(v, None) == (v, Ok::<(), FileError>(())),
        open_folder_step(v, None) == v,
{
}

/// The terminal is launched by the first click on its button and by no later click: `n`
/// clicks launch it once where it was not started and never where it was.
pub proof fn terminal_launches_once(v: StateView, n: nat)
    ensures
        v.terminal_started ==> launches(v, n) == 0,
        !v.terminal_started && n >= 1 ==> launches(v, n) == 1,
    decreases n,
{
    if n > 0 {
        let w = click_step(v).0;
        terminal_launches_once(w, (n - 1) as nat);
    }
}

} // verus!
