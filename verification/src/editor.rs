use vstd::prelude::*;

use crate::path::{file_name, file_name_of, is_named_part, is_separator, law_file_name_of_joined_path};

verus! {

/// A Cocoa object handle as the front end hands it over; `NIL` stands for nil.
pub type Handle = usize;

/// The nil handle.
pub const NIL: Handle = 0;

/// The code a modal panel returns when its OK button closes it.
pub const MODAL_RESPONSE_OK: i64 = 1;

/// The title of a window that shows no file.
pub open spec fn untitled() -> Seq<char> {
    "Untitled"@
}

/// The window title for the file the editor shows: its file name, the whole path when
/// the path has no file name, and "Untitled" when there is no file.
pub open spec fn title_for(file_path: Option<Seq<char>>) -> Seq<char> {
    match file_path {
        None => untitled(),
        Some(p) => match file_name_of(p) {
            Some(n) => n,
            None => p,
        },
    }
}

/// The alert shown when a file cannot be read.
pub open spec fn open_error_message(error: Seq<char>) -> Seq<char> {
    "Could not open file:\n"@ + error
}

/// The alert shown when a file cannot be written.
pub open spec fn save_error_message(error: Seq<char>) -> Seq<char> {
    "Could not save file:\n"@ + error
}

/// How the open panel lets the user choose.
#[derive(Debug, Clone, Copy, PartialEq, Eq, Structural)]
pub struct OpenPanelSettings {
    pub allows_multiple_selection: bool,
    pub can_choose_directories: bool,
    pub can_choose_files: bool,
}

/// The open panel picks exactly one file: no multiple selection, no directories.
pub open spec fn open_panel_settings() -> OpenPanelSettings {
    OpenPanelSettings {
        allows_multiple_selection: false,
        can_choose_directories: false,
        can_choose_files: true,
    }
}

/// Work the editor hands to the Cocoa front end, in the order it is to be done.
#[derive(Debug, PartialEq, Eq)]
pub enum Command {
    /// Replace the contents of the text view.
    SetText(String),
    /// Set the window title.
    SetTitle(String),
    /// Run the open panel with these settings, then report its response to
    /// `open_panel_closed`.
    RunOpenPanel(OpenPanelSettings),
    /// Read the file chosen in the open panel, then report to `open_finished`.
    ReadChosenFile,
    /// Run the save panel, then report its response to `save_panel_closed`.
    RunSavePanel,
    /// Take the path chosen in the save panel and report it to `save_target_chosen`.
    TakeChosenSavePath,
    /// Write the contents of the text view to the file at this path, then report to
    /// `write_finished`.
    WriteText(String),
    /// Show a modal alert with this message.
    ShowAlert(String),
}

/// A `Command` with its strings taken as sequences of characters.
pub enum CommandView {
    SetText(Seq<char>),
    SetTitle(Seq<char>),
    RunOpenPanel(OpenPanelSettings),
    ReadChosenFile,
    RunSavePanel,
    TakeChosenSavePath,
    WriteText(Seq<char>),
    ShowAlert(Seq<char>),
}

impl View for Command {
    type V = CommandView;

    open spec fn view(&self) -> CommandView {
        match self {
            Command::SetText(s) => CommandView::SetText(s@),
            Command::SetTitle(s) => CommandView::SetTitle(s@),
            Command::RunOpenPanel(p) => CommandView::RunOpenPanel(*p),
            Command::ReadChosenFile => CommandView::ReadChosenFile,
            Command::RunSavePanel => CommandView::RunSavePanel,
            Command::TakeChosenSavePath => CommandView::TakeChosenSavePath,
            Command::WriteText(s) => CommandView::WriteText(s@),
            Command::ShowAlert(s) => CommandView::ShowAlert(s@),
        }
    }
}

/// The views of a list of commands.
pub open spec fn commands_view(cs: Seq<Command>) -> Seq<CommandView> {
    cs.map_values(|c: Command| c@)
}

/// The state of the editor: the text view and window it drives, and the file it shows.
pub struct Editor {
    text_view: Handle,
    window: Handle,
    file_path: Option<String>,
}

/// The editor's state with the file path taken as a sequence of characters.
pub struct EditorView {
    pub text_view: Handle,
    pub window: Handle,
    pub file_path: Option<Seq<char>>,
}

impl View for Editor {
    type V = EditorView;

    closed spec fn view(&self) -> EditorView {
        EditorView {
            text_view: self.text_view,
            window: self.window,
            file_path: match self.file_path {
                Some(p) => Some(p@),
                None => None,
            },
        }
    }
}

/// The state `s` showing the file at `file_path` (or none).
pub open spec fn showing(s: EditorView, file_path: Option<Seq<char>>) -> EditorView {
    EditorView { file_path, ..s }
}

/// Setting the title after a change of state: nothing while there is no window.
pub open spec fn title_commands(s: EditorView) -> Seq<CommandView> {
    if s.window == NIL {
        seq![]
    } else {
        seq![CommandView::SetTitle(title_for(s.file_path))]
    }
}

/// The state after the New command.
pub open spec fn after_new(s: EditorView) -> EditorView {
    if s.text_view == NIL {
        s
    } else {
        showing(s, None)
    }
}

/// The work of the New command: clear the text and retitle, unless there is no text view.
pub open spec fn new_commands(s: EditorView) -> Seq<CommandView> {
    if s.text_view == NIL {
        seq![]
    } else {
        seq![CommandView::SetText(Seq::empty())] + title_commands(after_new(s))
    }
}

/// The work of the Save command: write to the file shown, or ask for one.
pub open spec fn save_commands(s: EditorView) -> Seq<CommandView> {
    match s.file_path {
        Some(p) => seq![CommandView::WriteText(p)],
        None => seq![CommandView::RunSavePanel],
    }
}

/// The state after a read of `path` came back with `contents`.
pub open spec fn after_open(s: EditorView, path: Seq<char>, contents: Result<Seq<char>, Seq<char>>) -> EditorView {
    match contents {
        Ok(_) => showing(s, Some(path)),
        Err(_) => s,
    }
}

/// The work after a read of `path` came back: show the text and retitle, or report the error.
pub open spec fn open_commands(s: EditorView, path: Seq<char>, contents: Result<Seq<char>, Seq<char>>) -> Seq<CommandView> {
    match contents {
        Ok(text) => seq![CommandView::SetText(text)] + title_commands(showing(s, Some(path))),
        Err(e) => seq![CommandView::ShowAlert(open_error_message(e))],
    }
}

/// The work after a save target `path` was chosen: write there, then retitle.
pub open spec fn save_as_commands(s: EditorView, path: Seq<char>) -> Seq<CommandView> {
    seq![CommandView::WriteText(path)] + title_commands(showing(s, Some(path)))
}

/// What a closed panel leads to: `next` after OK, nothing otherwise.
pub open spec fn panel_commands(response: i64, next: CommandView) -> Seq<CommandView> {
    if response == MODAL_RESPONSE_OK {
        seq![next]
    } else {
        seq![]
    }
}

/// The view of the outcome of a read, with strings taken as sequences of characters.
pub open spec fn read_result_view(r: Result<String, String>) -> Result<Seq<char>, Seq<char>> {
    match r {
        Ok(t) => Ok(t@),
        Err(e) => Err(e@),
    }
}

fn concat(prefix: &str, rest: &str) -> (s: String)
    ensures
        s@ == prefix@ + rest@,
{
    let mut s = String::from_str(prefix);
    s.append(rest);
    s
}

/// The window title for `file_path`, as `title_for` states it.
pub fn window_title(file_path: &Option<String>) -> (t: String)
    ensures
        t@ == title_for(
            match file_path {
                Some(p) => Some(p@),
                None => None,
            },
        ),
{
    match file_path {
        None => {
            let t = String::from_str("Untitled");
            t
        },
        Some(p) => match file_name(p.as_str()) {
            Some(n) => n,
            None => p.clone(),
        },
    }
}

impl Editor {
    /// An editor with no window or text view yet and no file.
    pub fn new() -> (e: Editor)
        ensures
            e@ == (EditorView { text_view: NIL, window: NIL, file_path: None }),
    {
        Editor { text_view: NIL, window: NIL, file_path: None }
    }

    /// The handle of the text view (`NIL` when there is none).
    pub fn text_view(&self) -> (h: Handle)
        ensures
            h == self@.text_view,
    {
        self.text_view
    }

    /// The handle of the window (`NIL` when there is none).
    pub fn window(&self) -> (h: Handle)
        ensures
            h == self@.window,
    {
        self.window
    }

    /// The path of the file shown, if any.
    pub fn file_path(&self) -> (p: Option<String>)
        ensures
            match p {
                Some(q) => self@.file_path == Some(q@),
                None => self@.file_path is None,
            },
    {
        match &self.file_path {
            Some(q) => Some(q.clone()),
            None => None,
        }
    }

    fn push_title(&self, cmds: &mut Vec<Command>)
        ensures
            commands_view(final(cmds)@) == commands_view(old(cmds)@) + title_commands(self@),
    {
        let ghost before = cmds@;
        if self.window != NIL {
            let t = window_title(&self.file_path);
            cmds.push(Command::SetTitle(t));
            assert(commands_view(cmds@) =~= commands_view(before) + title_commands(self@));
        } else {
            assert(commands_view(cmds@) =~= commands_view(before) + title_commands(self@));
        }
    }

    /// The new window title: `None` while there is no window, else the title for the file
    /// shown.
    pub fn update_title(&self) -> (t: Option<String>)
        ensures
            match t {
                Some(s) => self@.window != NIL && s@ == title_for(self@.file_path),
                None => self@.window == NIL,
            },
    {
        if self.window == NIL {
            None
        } else {
            Some(window_title(&self.file_path))
        }
    }

    /// The window and text view exist: keep their handles and title the window.
    pub fn window_created(&mut self, text_view: Handle, window: Handle) -> (cmds: Vec<Command>)
        ensures
            final(self)@ == (EditorView { text_view, window, file_path: old(self)@.file_path }),
            commands_view(cmds@) == title_commands(final(self)@),
    {
        self.text_view = text_view;
        self.window = window;
        let mut cmds: Vec<Command> = Vec::new();
        self.push_title(&mut cmds);
        assert(commands_view(cmds@) =~= title_commands(self@));
        cmds
    }

    /// File > New: empty the text view and forget the file, unless there is no text view.
    pub fn new_document(&mut self) -> (cmds: Vec<Command>)
        ensures
            final(self)@ == after_new(old(self)@),
            commands_view(cmds@) == new_commands(old(self)@),
    {
        if self.text_view == NIL {
            let cmds: Vec<Command> = Vec::new();
            assert(commands_view(cmds@) =~= new_commands(old(self)@));
            return cmds;
        }
        self.file_path = None;
        let mut cmds: Vec<Command> = Vec::new();
        cmds.push(Command::SetText(String::new()));
        self.push_title(&mut cmds);
        assert(self@ == after_new(old(self)@));
        assert(commands_view(cmds@) =~= new_commands(old(self)@));
        cmds
    }

    /// File > Open...: run the open panel, which picks exactly one file.
    pub fn open_document(&self) -> (cmds: Vec<Command>)
        ensures
            commands_view(cmds@) == seq![CommandView::RunOpenPanel(open_panel_settings())],
    {
        let settings = OpenPanelSettings {
            allows_multiple_selection: false,
            can_choose_directories: false,
            can_choose_files: true,
        };
        let cmds = vec![Command::RunOpenPanel(settings)];
        assert(commands_view(cmds@) =~= seq![CommandView::RunOpenPanel(open_panel_settings())]);
        cmds
    }

    /// The open panel closed with `response`: read the chosen file after OK, else nothing.
    pub fn open_panel_closed(&self, response: i64) -> (cmds: Vec<Command>)
        ensures
            commands_view(cmds@) == panel_commands(response, CommandView::ReadChosenFile),
    {
        let cmds: Vec<Command> = if response == MODAL_RESPONSE_OK {
            vec![Command::ReadChosenFile]
        } else {
            Vec::new()
        };
        assert(commands_view(cmds@) =~= panel_commands(response, CommandView::ReadChosenFile));
        cmds
    }

    /// The read of `path` came back with `contents` (or the error's text): show the text and
    /// the file, or report the error and change nothing.
    pub fn open_finished(&mut self, path: String, contents: Result<String, String>) -> (cmds: Vec<Command>)
        ensures
            final(self)@ == after_open(old(self)@, path@, read_result_view(contents)),
            commands_view(cmds@) == open_commands(old(self)@, path@, read_result_view(contents)),
    {
        match contents {
            Ok(text) => {
                self.file_path = Some(path);
                let mut cmds: Vec<Command> = Vec::new();
                cmds.push(Command::SetText(text));
                self.push_title(&mut cmds);
                assert(commands_view(cmds@) =~= open_commands(
                    old(self)@,
                    path@,
                    read_result_view(contents),
                ));
                cmds
            },
            Err(e) => {
                let msg = concat("Could not open file:\n", e.as_str());
                let cmds = vec![Command::ShowAlert(msg)];
                assert(commands_view(cmds@) =~= open_commands(
                    old(self)@,
                    path@,
                    read_result_view(contents),
                ));
                cmds
            },
        }
    }

    /// File > Save: write to the file shown, or ask for a file as Save As does.
    pub fn save_document(&self) -> (cmds: Vec<Command>)
        ensures
            commands_view(cmds@) == save_commands(self@),
    {
        match &self.file_path {
            Some(p) => {
                let cmds = vec![Command::WriteText(p.clone())];
                assert(commands_view(cmds@) =~= save_commands(self@));
                cmds
            },
            None => self.save_document_as(),
        }
    }

    /// File > Save As...: run the save panel.
    pub fn save_document_as(&self) -> (cmds: Vec<Command>)
        ensures
            commands_view(cmds@) == seq![CommandView::RunSavePanel],
    {
        let cmds = vec![Command::RunSavePanel];
        assert(commands_view(cmds@) =~= seq![CommandView::RunSavePanel]);
        cmds
    }

    /// The save panel closed with `response`: take the chosen path after OK, else nothing.
    pub fn save_panel_closed(&self, response: i64) -> (cmds: Vec<Command>)
        ensures
            commands_view(cmds@) == panel_commands(response, CommandView::TakeChosenSavePath),
    {
        let cmds: Vec<Command> = if response == MODAL_RESPONSE_OK {
            vec![Command::TakeChosenSavePath]
        } else {
            Vec::new()
        };
        assert(commands_view(cmds@) =~= panel_commands(
            response,
            CommandView::TakeChosenSavePath,
        ));
        cmds
    }

    /// `path` was chosen in the save panel: write there and show that file from now on,
    /// whether or not the write succeeds.
    pub fn save_target_chosen(&mut self, path: String) -> (cmds: Vec<Command>)
        ensures
            final(self)@ == showing(old(self)@, Some(path@)),
            commands_view(cmds@) == save_as_commands(old(self)@, path@),
    {
        let mut cmds: Vec<Command> = Vec::new();
        cmds.push(Command::WriteText(path.clone()));
        self.file_path = Some(path);
        self.push_title(&mut cmds);
        assert(commands_view(cmds@) =~= save_as_commands(old(self)@, path@));
        cmds
    }

    /// A write came back: report its error, if any.
    pub fn write_finished(&self, result: Result<(), String>) -> (cmds: Vec<Command>)
        ensures
            commands_view(cmds@) == (match result {
                Ok(()) => seq![],
                Err(e) => seq![CommandView::ShowAlert(save_error_message(e@))],
            }),
    {
        let cmds: Vec<Command> = match &result {
            Ok(()) => Vec::new(),
            Err(e) => vec![Command::ShowAlert(concat("Could not save file:\n", e.as_str()))],
        };
        assert(commands_view(cmds@) =~= (match result {
            Ok(()) => seq![],
            Err(e) => seq![CommandView::ShowAlert(save_error_message(e@))],
        }));
        cmds
    }

    /// The application quits when its last window closes.
    pub fn should_terminate_after_last_window_closed(&self) -> (b: bool)
        ensures
            b,
    {
        true
    }
}


/// Save after Save As writes to the file chosen in Save As.
pub proof fn law_save_after_save_as_writes_there(s: EditorView, path: Seq<char>)
    ensures
        save_commands(showing(s, Some(path))) == seq![CommandView::WriteText(path)],
{
}

/// Save after a successful Open writes back to the file opened.
pub proof fn law_save_after_open_writes_there(s: EditorView, path: Seq<char>, text: Seq<char>)
    ensures
        save_commands(after_open(s, path, Ok(text))) == seq![CommandView::WriteText(path)],
{
}

/// A failed Open changes nothing: the file shown, and so where Save writes, stay as they were.
pub proof fn law_failed_open_changes_nothing(s: EditorView, path: Seq<char>, error: Seq<char>)
    ensures
        after_open(s, path, Err(error)) == s,
        save_commands(after_open(s, path, Err(error))) == save_commands(s),
{
}

/// After New the document has no file: Save asks for one.
pub proof fn law_save_after_new_asks_for_file(s: EditorView)
    requires
        s.text_view != NIL,
    ensures
        save_commands(after_new(s)) == seq![CommandView::RunSavePanel],
{
}

/// New empties the text and titles the window "Untitled".
pub proof fn law_new_document_is_untitled(s: EditorView)
    requires
        s.text_view != NIL,
        s.window != NIL,
    ensures
        new_commands(s) == seq![
            CommandView::SetText(Seq::empty()),
            CommandView::SetTitle(untitled()),
        ],
{
    assert(new_commands(s) =~= seq![
        CommandView::SetText(Seq::empty()),
        CommandView::SetTitle(untitled()),
    ]);
}

/// A panel closed with anything but OK leads to nothing.
pub proof fn law_cancelled_panel_does_nothing(response: i64, next: CommandView)
    requires
        response != MODAL_RESPONSE_OK,
    ensures
        panel_commands(response, next) == Seq::<CommandView>::empty(),
{
}

/// Showing the file `dir/name` titles the window with just `name`.
pub proof fn law_title_shows_file_name(s: EditorView, dir: Seq<char>, name: Seq<char>)
    requires
        s.window != NIL,
        is_named_part(name),
        name != seq!['.', '.'],
        forall|j: int| 0 <= j < name.len() ==> !is_separator(#[trigger] name[j]),
    ensures
        title_commands(showing(s, Some(dir.push('/') + name))) == seq![CommandView::SetTitle(name)],
{
    law_file_name_of_joined_path(dir, name);
}


/// Save As writes the text to the path chosen, whatever file was shown before; the file
/// shown becomes that path and nothing else about the editor changes; and the window,
/// if any, is then titled for that path.
pub proof fn law_save_as_writes_to_chosen_path(s: EditorView, path: Seq<char>)
    ensures
        save_as_commands(s, path).len() >= 1,
        save_as_commands(s, path)[0] == CommandView::WriteText(path),
        showing(s, Some(path)).file_path == Some(path),
        showing(s, Some(path)).text_view == s.text_view,
        showing(s, Some(path)).window == s.window,
        s.window != NIL ==> save_as_commands(s, path) == seq![
            CommandView::WriteText(path),
            CommandView::SetTitle(title_for(Some(path))),
        ],
        s.window == NIL ==> save_as_commands(s, path) == seq![CommandView::WriteText(path)],
{
    assert(s.window != NIL ==> save_as_commands(s, path) =~= seq![
        CommandView::WriteText(path),
        CommandView::SetTitle(title_for(Some(path))),
    ]);
    assert(s.window == NIL ==> save_as_commands(s, path) =~= seq![CommandView::WriteText(path)]);
}

/// A successful Open shows the file read: its path becomes the file shown, the text read
/// goes into the text view first, and the handles stay as they were.
pub proof fn law_open_shows_file_read(s: EditorView, path: Seq<char>, text: Seq<char>)
    ensures
        after_open(s, path, Ok(text)).file_path == Some(path),
        after_open(s, path, Ok(text)).text_view == s.text_view,
        after_open(s, path, Ok(text)).window == s.window,
        open_commands(s, path, Ok(text)).len() >= 1,
        open_commands(s, path, Ok(text))[0] == CommandView::SetText(text),
{
}

} // verus!
