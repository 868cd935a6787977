//! The launcher's state and its answer to each event: key presses edit the
//! query and re-select the best layout, session snapshots record the current
//! session, and confirming plans the host commands that open the layout.
use vstd::prelude::*;
use crate::editor::{edit_changes_text, edit_step, EditOp, QueryBuffer};
use crate::layouts::{enabled_value, filter_layout_lines, is_enabled_value, is_layout_line, layout_file_path, layout_path};
use crate::matcher::{
    best_match, candidate_scores, is_best_choice, matching_candidates, skim_score, string_views,
};
use crate::session::{find_current, first_current, SessionEntry};

verus! {

/// A key press, as far as the launcher tells keys apart.
#[derive(Clone, Copy, Debug, PartialEq, Eq, Structural)]
pub enum Key {
    Enter,
    Backspace,
    Left,
    Right,
    Esc,
    /// A character key, and whether Ctrl was held.
    Char { c: char, ctrl: bool },
    Other,
}

/// What the host is asked to do after a key press.
#[derive(Debug)]
pub enum KeyResponse {
    /// Nothing to redraw.
    Ignored,
    /// Redraw the view.
    Render,
    /// Close the launcher's pane.
    Close,
    /// Read the layout file at this path and hand its content to
    /// `Launcher::open_layout`.
    OpenLayout(String),
}

/// A call into the host.
#[derive(Debug)]
pub enum HostCommand {
    /// Open the layout as new tabs of the current session.
    NewTabsWithLayout { layout: String },
    /// Rename the current session.
    RenameSession { name: String },
    /// Switch to the session named `session` (a name the host picks when
    /// `None`), creating it from the layout and starting it in `cwd`.
    SwitchSessionWithLayout { session: Option<String>, layout: String, cwd: String },
    /// Kill the named session.
    KillSession { name: String },
    /// Forget the named session once it is dead.
    DeleteDeadSession { name: String },
}

/// A host call over plain sequences of characters.
pub enum HostCall {
    NewTabs(Seq<char>),
    Rename(Seq<char>),
    Switch(Option<Seq<char>>, Seq<char>, Seq<char>),
    Kill(Seq<char>),
    DeleteDead(Seq<char>),
}

pub open spec fn opt_view(o: Option<String>) -> Option<Seq<char>> {
    match o {
        Some(s) => Some(s@),
        None => None,
    }
}

impl View for HostCommand {
    type V = HostCall;

    open spec fn view(&self) -> HostCall {
        match self {
            HostCommand::NewTabsWithLayout { layout } => HostCall::NewTabs(layout@),
            HostCommand::RenameSession { name } => HostCall::Rename(name@),
            HostCommand::SwitchSessionWithLayout { session, layout, cwd } => HostCall::Switch(
                opt_view(*session),
                layout@,
                cwd@,
            ),
            HostCommand::KillSession { name } => HostCall::Kill(name@),
            HostCommand::DeleteDeadSession { name } => HostCall::DeleteDead(name@),
        }
    }
}

pub open spec fn calls_view(cmds: Seq<HostCommand>) -> Seq<HostCall> {
    cmds.map_values(|c: HostCommand| c@)
}

/// The name the current session takes while its replacement starts.
pub open spec fn sentinel_session() -> Seq<char> {
    "zellij_wp_delete_me"@
}

/// The name of the session that replaces the session `name`.
pub open spec fn replacement_name(name: Seq<char>) -> Seq<char> {
    "zwp:"@ + name
}

/// The host calls that open `layout`. In append mode: new tabs. In replace
/// mode with a known current session: rename it away, switch to a new
/// session under the marked name, then kill and forget the renamed one.
/// With no known session: one switch under a name the host picks.
pub open spec fn planned_calls(
    replace: bool,
    session: Option<Seq<char>>,
    layout: Seq<char>,
    dir: Seq<char>,
) -> Seq<HostCall> {
    if !replace {
        seq![HostCall::NewTabs(layout)]
    } else {
        match session {
            Some(s) => seq![
                HostCall::Rename(sentinel_session()),
                HostCall::Switch(Some(replacement_name(s)), layout, dir),
                HostCall::Kill(sentinel_session()),
                HostCall::DeleteDead(sentinel_session()),
            ],
            None => seq![HostCall::Switch(None, layout, dir)],
        }
    }
}

/// The edit a key stands for, if any.
pub open spec fn key_edit(key: Key) -> Option<EditOp> {
    match key {
        Key::Backspace => Some(EditOp::DeleteBeforeCursor),
        Key::Left => Some(EditOp::MoveLeft),
        Key::Right => Some(EditOp::MoveRight),
        Key::Char { c, ctrl } => if ctrl && c == 'c' {
            None
        } else {
            Some(EditOp::Insert(c))
        },
        _ => None,
    }
}

/// Whether a key closes the launcher: Esc, or Ctrl+c.
pub open spec fn is_close_key(key: Key) -> bool {
    match key {
        Key::Esc => true,
        Key::Char { c, ctrl } => ctrl && c == 'c',
        _ => false,
    }
}

/// The launcher's state.
pub struct Launcher {
    error: Option<String>,
    current_session: Option<String>,
    current_dir: String,
    replace_current_session: bool,
    query: QueryBuffer,
    layouts: Vec<String>,
    layout_match: Option<usize>,
}

/// Relies on std's `FromIterator<char>` for `String`: the string holds the
/// characters in their order.
#[verifier::external_body]
fn string_of_chars(chars: &Vec<char>) -> (r: String)
    ensures
        r@ == chars@,
{
    chars.iter().collect()
}

impl Launcher {
    pub closed spec fn text(&self) -> Seq<char> {
        self.query.text()
    }

    pub closed spec fn cursor_pos(&self) -> int {
        self.query.cursor_pos()
    }

    pub closed spec fn candidates(&self) -> Seq<Seq<char>> {
        string_views(self.layouts@)
    }

    pub closed spec fn matched(&self) -> Option<usize> {
        self.layout_match
    }

    pub closed spec fn session(&self) -> Option<Seq<char>> {
        opt_view(self.current_session)
    }

    pub closed spec fn dir(&self) -> Seq<char> {
        self.current_dir@
    }

    pub closed spec fn replace_mode(&self) -> bool {
        self.replace_current_session
    }

    pub closed spec fn last_error(&self) -> Option<Seq<char>> {
        opt_view(self.error)
    }

    /// The query is well formed and a match names a candidate.
    pub closed spec fn wf(&self) -> bool {
        &&& self.query.wf()
        &&& self.layout_match matches Some(i) ==> i < self.layouts@.len()
    }

    /// Whether `self` and `other` agree on what only loading and session
    /// snapshots set.
    pub open spec fn same_setup(&self, other: &Launcher) -> bool {
        &&& self.candidates() == other.candidates()
        &&& self.dir() == other.dir()
        &&& self.replace_mode() == other.replace_mode()
        &&& self.session() == other.session()
    }

    /// Whether `self` and `other` agree on the query and its match.
    pub open spec fn same_query(&self, other: &Launcher) -> bool {
        &&& self.text() == other.text()
        &&& self.cursor_pos() == other.cursor_pos()
        &&& self.matched() == other.matched()
    }

    /// The launcher as loaded: the candidates are the lines of the list that
    /// name a layout, replace mode is on only for the value `"true"`, and
    /// `dir` is where replacement sessions start.
    pub fn new(lines: &Vec<String>, replace_value: Option<&String>, dir: String) -> (r: Launcher)
        ensures
            r.wf(),
            r.candidates() == string_views(lines@).filter(|s: Seq<char>| is_layout_line(s)),
            r.replace_mode() == is_enabled_value(
                match replace_value {
                    Some(s) => Some(s@),
                    None => None,
                },
            ),
            r.dir() == dir@,
            r.session() is None,
            r.last_error() is None,
            r.text() == Seq::<char>::empty(),
            r.cursor_pos() == 0,
            r.matched() is None,
    {
        let layouts = filter_layout_lines(lines);
        let replace = enabled_value(replace_value);
        Launcher {
            error: None,
            current_session: None,
            current_dir: dir,
            replace_current_session: replace,
            query: QueryBuffer::new(),
            layouts,
            layout_match: None,
        }
    }

    /// Selects the best candidate for the current query.
    fn refresh_match(&mut self)
        requires
            old(self).wf(),
        ensures
            final(self).wf(),
            final(self).same_setup(old(self)),
            final(self).last_error() == old(self).last_error(),
            final(self).text() == old(self).text(),
            final(self).cursor_pos() == old(self).cursor_pos(),
            is_best_choice(
                candidate_scores(final(self).candidates(), final(self).text()),
                final(self).matched(),
            ),
    {
        let q = string_of_chars(self.query.chars());
        self.layout_match = best_match(&self.layouts, q.as_str());
    }

    /// Answers a key press. An edit of the text re-selects the best
    /// candidate; a move keeps it. Enter asks for the matched layout's file,
    /// or only redraws where nothing matches.
    pub fn handle_key(&mut self, key: Key) -> (r: KeyResponse)
        requires
            old(self).wf(),
            old(self).text().len() < usize::MAX,
        ensures
            final(self).wf(),
            final(self).same_setup(old(self)),
            final(self).last_error() == old(self).last_error(),
            match key_edit(key) {
                Some(op) => {
                    &&& r is Render
                    &&& (final(self).text(), final(self).cursor_pos()) == edit_step(
                        old(self).text(),
                        old(self).cursor_pos(),
                        op,
                    )
                    &&& if edit_changes_text(old(self).cursor_pos(), op) {
                        is_best_choice(
                            candidate_scores(final(self).candidates(), final(self).text()),
                            final(self).matched(),
                        )
                    } else {
                        final(self).matched() == old(self).matched()
                    }
                },
                None => {
                    &&& final(self).same_query(old(self))
                    &&& if key is Enter {
                        match old(self).matched() {
                            None => r is Render,
                            Some(i) => r matches KeyResponse::OpenLayout(p) && p@
                                == layout_file_path(old(self).candidates()[i as int]),
                        }
                    } else if is_close_key(key) {
                        r is Close
                    } else {
                        r is Ignored
                    }
                },
            },
    {
        let op = match key {
            Key::Enter => {
                return match self.layout_match {
                    Some(i) => KeyResponse::OpenLayout(layout_path(self.layouts[i].as_str())),
                    None => KeyResponse::Render,
                };
            },
            Key::Esc => {
                return KeyResponse::Close;
            },
            Key::Other => {
                return KeyResponse::Ignored;
            },
            Key::Backspace => EditOp::DeleteBeforeCursor,
            Key::Left => EditOp::MoveLeft,
            Key::Right => EditOp::MoveRight,
            Key::Char { c, ctrl } => {
                if ctrl && c == 'c' {
                    return KeyResponse::Close;
                }
                EditOp::Insert(c)
            },
        };
        let changed = self.query.apply(op);
        if changed {
            self.refresh_match();
        }
        KeyResponse::Render
    }

    /// Finishes a confirmation with the result of reading the matched
    /// layout's file. A failed read records its message and plans nothing;
    /// a layout read gives the host calls that open it, after which the
    /// launcher hides.
    pub fn open_layout(&mut self, content: Result<String, String>) -> (r: Option<Vec<HostCommand>>)
        requires
            old(self).wf(),
        ensures
            final(self).wf(),
            final(self).same_setup(old(self)),
            final(self).same_query(old(self)),
            match content {
                Err(e) => r is None && final(self).last_error() == Some(e@),
                Ok(layout) => {
                    &&& final(self).last_error() == old(self).last_error()
                    &&& r matches Some(cmds) && calls_view(cmds@) == planned_calls(
                        old(self).replace_mode(),
                        old(self).session(),
                        layout@,
                        old(self).dir(),
                    )
                },
            },
    {
        let layout = match content {
            Err(e) => {
                self.error = Some(e);
                return None;
            },
            Ok(layout) => layout,
        };
        let mut cmds: Vec<HostCommand> = Vec::new();
        if !self.replace_current_session {
            let ghost l = layout@;
            cmds.push(HostCommand::NewTabsWithLayout { layout });
            assert(calls_view(cmds@) =~= seq![HostCall::NewTabs(l)]);
            return Some(cmds);
        }
        let cwd = self.current_dir.clone();
        match &self.current_session {
            Some(current) => {
                let sentinel = String::from_str("zellij_wp_delete_me");
                let new_name = String::from_str("zwp:").concat(current.as_str());
                let ghost l = layout@;
                let ghost n = new_name@;
                cmds.push(HostCommand::RenameSession { name: sentinel.clone() });
                cmds.push(
                    HostCommand::SwitchSessionWithLayout { session: Some(new_name), layout, cwd },
                );
                cmds.push(HostCommand::KillSession { name: sentinel.clone() });
                cmds.push(HostCommand::DeleteDeadSession { name: sentinel });
                assert(calls_view(cmds@) =~= seq![
                    HostCall::Rename(sentinel_session()),
                    HostCall::Switch(Some(n), l, self.current_dir@),
                    HostCall::Kill(sentinel_session()),
                    HostCall::DeleteDead(sentinel_session()),
                ]);
            },
            None => {
                let ghost l = layout@;
                cmds.push(HostCommand::SwitchSessionWithLayout { session: None, layout, cwd });
                assert(calls_view(cmds@) =~= seq![
                    HostCall::Switch(None, l, self.current_dir@),
                ]);
            },
        }
        Some(cmds)
    }

    /// The message of the last failed layout read, if any.
    pub fn error(&self) -> (r: &Option<String>)
        ensures
            opt_view(*r) == self.last_error(),
    {
        &self.error
    }

    /// The name of the host's current session, once a snapshot gave one.
    pub fn current_session(&self) -> (r: &Option<String>)
        ensures
            opt_view(*r) == self.session(),
    {
        &self.current_session
    }

    /// Whether confirming replaces the current session.
    pub fn replace_current_session(&self) -> (r: bool)
        ensures
            r == self.replace_mode(),
    {
        self.replace_current_session
    }

    /// The query's characters.
    pub fn query(&self) -> (r: &Vec<char>)
        ensures
            r@ == self.text(),
    {
        self.query.chars()
    }

    /// The cursor, as the number of query characters before it.
    pub fn cursor(&self) -> (r: usize)
        ensures
            r == self.cursor_pos(),
    {
        self.query.cursor()
    }

    /// The candidate layouts, in the order of the list.
    pub fn layouts(&self) -> (r: &Vec<String>)
        ensures
            string_views(r@) == self.candidates(),
    {
        &self.layouts
    }

    /// The currently matched layout, if any.
    pub fn matched_layout(&self) -> (r: Option<&String>)
        requires
            self.wf(),
        ensures
            match self.matched() {
                None => r is None,
                Some(i) => r matches Some(l) && l@ == self.candidates()[i as int],
            },
    {
        match self.layout_match {
            Some(i) => Some(&self.layouts[i]),
            None => None,
        }
    }

    /// The candidates that the query occurs in, in list order.
    pub fn visible_layouts(&self) -> (r: Vec<String>)
        ensures
            string_views(r@) == self.candidates().filter(
                |c: Seq<char>| skim_score(c, self.text()) is Some,
            ),
    {
        let q = string_of_chars(self.query.chars());
        matching_candidates(&self.layouts, q.as_str())
    }

    /// Records the first session of a snapshot that is marked current; a
    /// snapshot without one changes nothing.
    pub fn observe_sessions(&mut self, sessions: &Vec<SessionEntry>)
        requires
            old(self).wf(),
        ensures
            final(self).wf(),
            final(self).same_query(old(self)),
            final(self).candidates() == old(self).candidates(),
            final(self).dir() == old(self).dir(),
            final(self).replace_mode() == old(self).replace_mode(),
            final(self).last_error() == old(self).last_error(),
            final(self).session() == match first_current(sessions@) {
                Some(i) => Some(sessions@[i].name@),
                None => old(self).session(),
            },
    {
        if let Some(i) = find_current(sessions) {
            self.current_session = Some(sessions[i].name.clone());
        }
    }
}

} // verus!
