//! The edit session: a state machine that turns abstract input events into
//! buffer and viewport operations and into actions for the caller (redraw,
//! prompt, persist, quit). All I/O is the caller's: it performs the returned
//! action and reports the outcome of a save back through `finish_save`.

use vstd::prelude::*;
use crate::buffer::backspace_spec;
use crate::buffer::insert_char_spec;
use crate::buffer::move_down_spec;
use crate::buffer::move_left_spec;
use crate::buffer::move_right_spec;
use crate::buffer::move_up_spec;
use crate::buffer::split_line_spec;
use crate::buffer::Editor;
use crate::viewport::reconcile;
use crate::viewport::reconcile_spec;

verus! {

/// Which mode the session is in: normal keystroke handling, or one of the
/// two modal prompts.
#[derive(Clone, Copy, PartialEq, Eq, Structural, Debug)]
pub enum SessionState {
    /// Normal keystroke handling.
    Editing,
    /// Awaiting a filename for a save.
    PromptSaveFilename,
    /// Awaiting y/n/c after an exit request with unsaved changes.
    PromptConfirmExit,
}

/// One abstract input event. Modifier resolution happens outside: the
/// session only sees logical codes, plus `Submit` for a line of prompt
/// input.
pub enum InputEvent {
    /// A printable character.
    Chr(char),
    Enter,
    Backspace,
    Left,
    Right,
    Up,
    Down,
    /// Save to the known filename, or prompt for one.
    Save,
    /// Always prompt for a filename.
    SaveAs,
    /// Request to leave the session.
    Exit,
    /// A line of text submitted to the active prompt.
    Submit(Vec<char>),
}

/// What the caller must do after a dispatch.
pub enum SessionAction {
    /// Repaint the screen; nothing else.
    Redraw,
    /// Show the filename prompt and submit its answer.
    AskFilename,
    /// Show the y/n/c save-confirmation prompt and submit its answer.
    AskConfirmExit,
    /// Re-prompt, surfacing an invalid-response notice.
    Notice,
    /// Write the serialized buffer to this name, then call `finish_save`
    /// with the outcome.
    Persist(Vec<char>),
    /// End the session.
    Quit,
}

/// The session: the editor plus the prompt mode and whether a save in
/// flight should end the session once it succeeds.
pub struct EditSession {
    pub editor: Editor,
    pub state: SessionState,
    pub pending_exit: bool,
}

/// Events that edit the buffer or move the cursor, after which the viewport
/// is reconciled with the cursor.
pub open spec fn is_edit_or_move(ev: InputEvent) -> bool {
    ||| ev is Chr
    ||| ev is Enter
    ||| ev is Backspace
    ||| ev is Left
    ||| ev is Right
    ||| ev is Up
    ||| ev is Down
}

impl EditSession {
    /// The session is well-formed when its editor is.
    pub open spec fn wf(&self) -> bool {
        self.editor.wf()
    }

    /// A fresh session: a fresh editor, in editing mode.
    pub fn new() -> (s: EditSession)
        ensures
            s.wf(),
            s.editor.lines() =~= seq![Seq::<char>::empty()],
            s.editor.cursor_position.x == 0,
            s.editor.cursor_position.y == 0,
            s.editor.filename is None,
            !s.editor.modified,
            s.editor.viewport_start == 0,
            s.state is Editing,
            !s.pending_exit,
    {
        EditSession { editor: Editor::new(), state: SessionState::Editing, pending_exit: false }
    }

    /// Processes one input event. `height` is the terminal height in rows,
    /// injected by the caller. Editing events mutate the buffer or cursor,
    /// mark the buffer modified where they change text, and reconcile the
    /// viewport; save and exit events drive the prompt state machine. The
    /// returned action tells the caller what to do next.
    pub fn dispatch(&mut self, ev: InputEvent, height: usize) -> (r: SessionAction)
        requires
            old(self).wf(),
        ensures
            final(self).wf(),
            // Editing events never touch the file name or the prompt state.
            old(self).state is Editing && is_edit_or_move(ev) ==> {
                &&& final(self).editor.filename == old(self).editor.filename
                &&& final(self).state is Editing
                &&& final(self).pending_exit == old(self).pending_exit
                &&& final(self).editor.viewport_start as int == reconcile_spec(
                    final(self).editor.cursor_position.y as int,
                    height as int,
                    old(self).editor.viewport_start as int,
                )
                &&& r is Redraw
            },
            // After an editing event with a real window, the cursor is visible.
            old(self).state is Editing && is_edit_or_move(ev) && height > 0 ==> {
                &&& final(self).editor.viewport_start <= final(self).editor.cursor_position.y
                &&& final(self).editor.cursor_position.y < final(self).editor.viewport_start
                    + height
            },
            old(self).state is Editing ==> match ev {
                InputEvent::Chr(c) => {
                    &&& final(self).editor.lines() == insert_char_spec(
                        old(self).editor.lines(),
                        old(self).editor.cursor_position.x as int,
                        old(self).editor.cursor_position.y as int,
                        c,
                    ).0
                    &&& final(self).editor.cursor_position.x == old(self).editor.cursor_position.x
                        + 1
                    &&& final(self).editor.cursor_position.y == old(self).editor.cursor_position.y
                    &&& final(self).editor.modified
                },
                InputEvent::Enter => {
                    &&& final(self).editor.lines() == split_line_spec(
                        old(self).editor.lines(),
                        old(self).editor.cursor_position.x as int,
                        old(self).editor.cursor_position.y as int,
                    ).0
                    &&& final(self).editor.cursor_position.x == 0
                    &&& final(self).editor.cursor_position.y == old(self).editor.cursor_position.y
                        + 1
                    &&& final(self).editor.modified
                },
                InputEvent::Backspace => {
                    &&& final(self).editor.lines() == backspace_spec(
                        old(self).editor.lines(),
                        old(self).editor.cursor_position.x as int,
                        old(self).editor.cursor_position.y as int,
                    ).0
                    &&& final(self).editor.cursor_position.x as int == backspace_spec(
                        old(self).editor.lines(),
                        old(self).editor.cursor_position.x as int,
                        old(self).editor.cursor_position.y as int,
                    ).1
                    &&& final(self).editor.cursor_position.y as int == backspace_spec(
                        old(self).editor.lines(),
                        old(self).editor.cursor_position.x as int,
                        old(self).editor.cursor_position.y as int,
                    ).2
                    &&& final(self).editor.modified
                },
                InputEvent::Left => {
                    &&& final(self).editor.lines() == old(self).editor.lines()
                    &&& final(self).editor.cursor_position.x as int == move_left_spec(
                        old(self).editor.cursor_position.x as int,
                    )
                    &&& final(self).editor.cursor_position.y == old(self).editor.cursor_position.y
                    &&& final(self).editor.modified == old(self).editor.modified
                },
                InputEvent::Right => {
                    &&& final(self).editor.lines() == old(self).editor.lines()
                    &&& final(self).editor.cursor_position.x as int == move_right_spec(
                        old(self).editor.lines(),
                        old(self).editor.cursor_position.x as int,
                        old(self).editor.cursor_position.y as int,
                    )
                    &&& final(self).editor.cursor_position.y == old(self).editor.cursor_position.y
                    &&& final(self).editor.modified == old(self).editor.modified
                },
                InputEvent::Up => {
                    &&& final(self).editor.lines() == old(self).editor.lines()
                    &&& final(self).editor.cursor_position.x as int == move_up_spec(
                        old(self).editor.lines(),
                        old(self).editor.cursor_position.x as int,
                        old(self).editor.cursor_position.y as int,
                    ).0
                    &&& final(self).editor.cursor_position.y as int == move_up_spec(
                        old(self).editor.lines(),
                        old(self).editor.cursor_position.x as int,
                        old(self).editor.cursor_position.y as int,
                    ).1
                    &&& final(self).editor.modified == old(self).editor.modified
                },
                InputEvent::Down => {
                    &&& final(self).editor.lines() == old(self).editor.lines()
                    &&& final(self).editor.cursor_position.x as int == move_down_spec(
                        old(self).editor.lines(),
                        old(self).editor.cursor_position.x as int,
                        old(self).editor.cursor_position.y as int,
                    ).0
                    &&& final(self).editor.cursor_position.y as int == move_down_spec(
                        old(self).editor.lines(),
                        old(self).editor.cursor_position.x as int,
                        old(self).editor.cursor_position.y as int,
                    ).1
                    &&& final(self).editor.modified == old(self).editor.modified
                },
                InputEvent::Save => {
                    &&& *final(self) == (EditSession {
                        state: if old(self).editor.filename is Some {
                            SessionState::Editing
                        } else {
                            SessionState::PromptSaveFilename
                        },
                        ..*old(self)
                    })
                    &&& (old(self).editor.filename matches Some(f) ==> r matches
                        SessionAction::Persist(n) && n@ == f@)
                    &&& (old(self).editor.filename is None ==> r is AskFilename)
                },
                InputEvent::SaveAs => {
                    &&& *final(self) == (EditSession {
                        state: SessionState::PromptSaveFilename,
                        ..*old(self)
                    })
                    &&& r is AskFilename
                },
                InputEvent::Exit => {
                    &&& *final(self) == (EditSession {
                        state: if old(self).editor.modified {
                            SessionState::PromptConfirmExit
                        } else {
                            SessionState::Editing
                        },
                        ..*old(self)
                    })
                    &&& (old(self).editor.modified ==> r is AskConfirmExit)
                    &&& (!old(self).editor.modified ==> r is Quit)
                },
                InputEvent::Submit(_) => {
                    &&& *final(self) == *old(self)
                    &&& r is Redraw
                },
            },
            old(self).state is PromptSaveFilename ==> match ev {
                InputEvent::Submit(name) => {
                    &&& *final(self) == *old(self)
                    &&& r matches SessionAction::Persist(n) && n@ == name@
                },
                _ => {
                    &&& *final(self) == *old(self)
                    &&& r is Notice
                },
            },
            old(self).state is PromptConfirmExit ==> match ev {
                InputEvent::Submit(resp) => {
                    &&& (resp@ == seq!['y'] ==> {
                        &&& final(self).editor == old(self).editor
                        &&& final(self).pending_exit
                        &&& (old(self).editor.filename matches Some(f) ==> final(self).state is
                            PromptConfirmExit && (r matches SessionAction::Persist(n) && n@ == f@))
                        &&& (old(self).editor.filename is None ==> final(self).state is
                            PromptSaveFilename && r is AskFilename)
                    })
                    &&& (resp@ == seq!['n'] ==> *final(self) == *old(self) && r is Quit)
                    &&& (resp@ == seq!['c'] ==> final(self).editor == old(self).editor
                        && final(self).state is Editing && !final(self).pending_exit && r is Redraw)
                    &&& (resp@ != seq!['y'] && resp@ != seq!['n'] && resp@ != seq!['c']
                        ==> *final(self) == *old(self) && r is Notice)
                },
                _ => {
                    &&& *final(self) == *old(self)
                    &&& r is Notice
                },
            },
    {
        match self.state {
            SessionState::Editing => match ev {
                InputEvent::Chr(c) => {
                    self.editor.insert_char(c);
                    self.editor.modified = true;
                    self.reconcile_viewport(height);
                    SessionAction::Redraw
                },
                InputEvent::Enter => {
                    self.editor.new_line();
                    self.editor.modified = true;
                    self.reconcile_viewport(height);
                    SessionAction::Redraw
                },
                InputEvent::Backspace => {
                    self.editor.backspace();
                    self.editor.modified = true;
                    self.reconcile_viewport(height);
                    SessionAction::Redraw
                },
                InputEvent::Left => {
                    self.editor.move_left();
                    self.reconcile_viewport(height);
                    SessionAction::Redraw
                },
                InputEvent::Right => {
                    self.editor.move_right();
                    self.reconcile_viewport(height);
                    SessionAction::Redraw
                },
                InputEvent::Up => {
                    self.editor.move_up();
                    self.reconcile_viewport(height);
                    SessionAction::Redraw
                },
                InputEvent::Down => {
                    self.editor.move_down();
                    self.reconcile_viewport(height);
                    SessionAction::Redraw
                },
                InputEvent::Save => match &self.editor.filename {
                    Some(name) => {
                        let n = name.clone();
                        proof {
                            assert(n@ =~= name@);
                        }
                        SessionAction::Persist(n)
                    },
                    None => {
                        self.state = SessionState::PromptSaveFilename;
                        SessionAction::AskFilename
                    },
                },
                InputEvent::SaveAs => {
                    self.state = SessionState::PromptSaveFilename;
                    SessionAction::AskFilename
                },
                InputEvent::Exit => {
                    if self.editor.modified {
                        self.state = SessionState::PromptConfirmExit;
                        SessionAction::AskConfirmExit
                    } else {
                        SessionAction::Quit
                    }
                },
                InputEvent::Submit(_) => SessionAction::Redraw,
            },
            SessionState::PromptSaveFilename => match ev {
                InputEvent::Submit(name) => SessionAction::Persist(name),
                _ => SessionAction::Notice,
            },
            SessionState::PromptConfirmExit => match ev {
                InputEvent::Submit(resp) => {
                    if resp.len() == 1 && resp[0] == 'y' {
                        proof {
                            assert(resp@ =~= seq!['y']);
                        }
                        self.pending_exit = true;
                        match &self.editor.filename {
                            Some(name) => {
                                let n = name.clone();
                                proof {
                                    assert(n@ =~= name@);
                                }
                                SessionAction::Persist(n)
                            },
                            None => {
                                self.state = SessionState::PromptSaveFilename;
                                SessionAction::AskFilename
                            },
                        }
                    } else if resp.len() == 1 && resp[0] == 'n' {
                        proof {
                            assert(resp@ =~= seq!['n']);
                        }
                        SessionAction::Quit
                    } else if resp.len() == 1 && resp[0] == 'c' {
                        proof {
                            assert(resp@ =~= seq!['c']);
                        }
                        self.state = SessionState::Editing;
                        self.pending_exit = false;
                        SessionAction::Redraw
                    } else {
                        proof {
                            assert(resp@ != seq!['y'] && resp@ != seq!['n'] && resp@ != seq!['c']);
                        }
                        SessionAction::Notice
                    }
                },
                _ => SessionAction::Notice,
            },
        }
    }

    /// Reports the outcome of the save that a `Persist` action requested.
    /// On success the name becomes the session filename and the buffer is
    /// clean again; on failure nothing is recorded and the dirty flag is
    /// untouched. Either way the session returns to editing mode. Returns
    /// true when the session should now end: the save succeeded and it was
    /// confirming an exit.
    pub fn finish_save(&mut self, name: Vec<char>, ok: bool) -> (quit: bool)
        requires
            old(self).wf(),
        ensures
            final(self).wf(),
            final(self).editor.buffer == old(self).editor.buffer,
            final(self).editor.cursor_position == old(self).editor.cursor_position,
            final(self).editor.viewport_start == old(self).editor.viewport_start,
            ok ==> final(self).editor.filename == Some(name) && !final(self).editor.modified,
            !ok ==> final(self).editor.filename == old(self).editor.filename && final(self).editor.modified
                == old(self).editor.modified,
            final(self).state is Editing,
            !final(self).pending_exit,
            quit == (ok && old(self).pending_exit),
    {
        let quit = ok && self.pending_exit;
        if ok {
            self.editor.filename = Some(name);
            self.editor.modified = false;
        }
        self.state = SessionState::Editing;
        self.pending_exit = false;
        quit
    }

    /// Scrolls the viewport so the cursor is visible within `height` rows.
    fn reconcile_viewport(&mut self, height: usize)
        requires
            old(self).wf(),
        ensures
            final(self).wf(),
            final(self).editor.buffer == old(self).editor.buffer,
            final(self).editor.cursor_position == old(self).editor.cursor_position,
            final(self).editor.filename == old(self).editor.filename,
            final(self).editor.modified == old(self).editor.modified,
            final(self).state == old(self).state,
            final(self).pending_exit == old(self).pending_exit,
            final(self).editor.viewport_start as int == reconcile_spec(
                old(self).editor.cursor_position.y as int,
                height as int,
                old(self).editor.viewport_start as int,
            ),
            height > 0 ==> final(self).editor.viewport_start <= final(self).editor.cursor_position.y
                && final(self).editor.cursor_position.y < final(self).editor.viewport_start + height,
    {
        self.editor.viewport_start = reconcile(
            self.editor.cursor_position.y,
            height,
            self.editor.viewport_start,
        );
    }
}

} // verus!
