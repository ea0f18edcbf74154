//! The key bindings: which command a key stands for in each mode, and what
//! carrying a command out does to the session and the terminal.

use crate::app_interactor::cache_extends;
use crate::app_interactor::AppInteractor;
use crate::app_interactor::AppView;
use crate::app_interactor::Mode;
use crate::display_data::DisplayData;
use crate::error::SessionError;
use crate::filtered_list::FilteredView;
use crate::list_index::Cursor;
use crate::renderer::half_page;
use crate::renderer::half_page_jump;
use crate::service::ServiceTrait;
use crate::terminal_manager::TerminalManage;
use vstd::prelude::*;

verus! {

/// The keys that the session tells apart.
#[derive(Clone, Copy, Debug, PartialEq, Eq, Structural)]
pub enum Key {
    Char(char),
    Backspace,
    Enter,
    Esc,
    Up,
    Down,
    Other,
}

/// The modifier keys held with a key: none, Shift alone, Control alone, or
/// anything else.
#[derive(Clone, Copy, Debug, PartialEq, Eq, Structural)]
pub enum Modifier {
    Plain,
    Shift,
    Control,
    Other,
}

/// What a key asks for.
#[derive(Clone, Copy, Debug, PartialEq, Eq, Structural)]
pub enum Command {
    /// The key means nothing in the active mode.
    Ignore,
    /// Leave the session.
    Quit,
    /// Start typing the name of a new note.
    EnterInsert,
    /// Ask whether the selected note shall be deleted.
    EnterDeleteConfirm,
    /// Start typing a search query.
    EnterSearch,
    SelectNext,
    SelectPrevious,
    HalfPageDown,
    HalfPageUp,
    /// Open the selected note in the editor.
    Edit,
    /// Create a note with the default name.
    CreateUnnamed,
    /// Create a note named after what was typed.
    CreateNamed,
    /// Give up naming a new note.
    CancelInsert,
    /// Append to the name or query being typed.
    Type(char),
    /// Take the last character back.
    Erase,
    /// Delete the selected note.
    ConfirmDelete,
    /// Keep the selected note.
    CancelDelete,
    /// Go on with the filtered list.
    CommitSearch,
    /// Drop the query and show the whole list again.
    CancelSearch,
}

/// The key bindings of normal mode.
pub open spec fn normal_binding(key: Key, modifier: Modifier) -> Command {
    match (key, modifier) {
        (Key::Esc, Modifier::Plain) => Command::Quit,
        (Key::Down, Modifier::Plain) => Command::SelectNext,
        (Key::Up, Modifier::Plain) => Command::SelectPrevious,
        (Key::Char(c), Modifier::Plain) => if c == 'q' {
            Command::Quit
        } else if c == 'j' {
            Command::SelectNext
        } else if c == 'k' {
            Command::SelectPrevious
        } else if c == 'e' {
            Command::Edit
        } else if c == 'n' {
            Command::CreateUnnamed
        } else if c == 'd' {
            Command::EnterDeleteConfirm
        } else if c == '/' {
            Command::EnterSearch
        } else {
            Command::Ignore
        },
        (Key::Char(c), Modifier::Shift) => if c == 'N' {
            Command::EnterInsert
        } else {
            Command::Ignore
        },
        (Key::Char(c), Modifier::Control) => if c == 'd' {
            Command::HalfPageDown
        } else if c == 'u' {
            Command::HalfPageUp
        } else {
            Command::Ignore
        },
        _ => Command::Ignore,
    }
}

/// The key bindings of the two modes in which text is typed; they differ in
/// what Enter and Esc stand for.
pub open spec fn typing_binding(key: Key, modifier: Modifier, commit: Command, cancel: Command) -> Command {
    match (key, modifier) {
        (Key::Esc, Modifier::Plain) => cancel,
        (Key::Enter, Modifier::Plain) => commit,
        (Key::Backspace, Modifier::Plain) => Command::Erase,
        (Key::Char(c), Modifier::Plain) => Command::Type(c),
        (Key::Char(c), Modifier::Shift) => Command::Type(c),
        _ => Command::Ignore,
    }
}

/// The key bindings of the delete dialogue.
pub open spec fn delete_binding(key: Key, modifier: Modifier) -> Command {
    match (key, modifier) {
        (Key::Esc, Modifier::Plain) => Command::CancelDelete,
        (Key::Char(c), Modifier::Plain) => if c == 'n' {
            Command::CancelDelete
        } else {
            Command::Ignore
        },
        (Key::Char(c), Modifier::Shift) => if c == 'Y' {
            Command::ConfirmDelete
        } else {
            Command::Ignore
        },
        _ => Command::Ignore,
    }
}

/// The command that a key stands for in a mode.
pub open spec fn binding(mode: Mode, key: Key, modifier: Modifier) -> Command {
    match mode {
        Mode::Normal => normal_binding(key, modifier),
        Mode::Insert => typing_binding(key, modifier, Command::CreateNamed, Command::CancelInsert),
        Mode::Search => typing_binding(key, modifier, Command::CommitSearch, Command::CancelSearch),
        Mode::DeleteConfirm => delete_binding(key, modifier),
    }
}

/// The state with the cursor moved.
pub open spec fn with_cursor(state: AppView, cursor: Cursor) -> AppView {
    AppView { filtered: FilteredView { cursor, ..state.filtered }, ..state }
}

/// The state with another cache.
pub open spec fn with_cache(state: AppView, cache: Seq<Option<Seq<char>>>) -> AppView {
    AppView { cache, ..state }
}

/// How a search ends that starts from `typed`: every note was read and the
/// visible list computed anew, or a note could not be read and the visible
/// list stayed.
pub open spec fn searched(typed: AppView, after: AppView, done: Result<(), SessionError>) -> bool {
    &&& cache_extends(typed.cache, after.cache)
    &&& done is Ok <==> after.all_cached()
    &&& done is Ok ==> after == with_cache(typed, after.cache).refilter()
    &&& done is Err ==> after == with_cache(typed, after.cache)
}

/// How work outside the session ends, for which the terminal is given up and
/// taken back: the terminal could not be given up and nothing happened, or
/// the work was tried and the session started over on the list reloaded.
pub open spec fn suspended(before: AppView, after: AppView, done: Result<(), SessionError>) -> bool {
    ||| done is Err && after == before
    ||| after == AppView::reset(after.names, before.exit)
}

/// What carrying out a command may leave behind: the state `after` and the
/// report `done`, from the state `before`.
pub open spec fn carried_out(
    before: AppView,
    command: Command,
    after: AppView,
    done: Result<(), SessionError>,
) -> bool {
    match command {
        Command::Ignore => done is Ok && after == before,
        Command::Quit => match done {
            Ok(_) => after == (AppView { exit: true, ..before }),
            Err(_) => after == before,
        },
        Command::EnterInsert => done is Ok && after == (AppView { mode: Mode::Insert, ..before }),
        Command::EnterDeleteConfirm => done is Ok && after == (AppView {
            mode: Mode::DeleteConfirm,
            ..before
        }),
        Command::EnterSearch => done is Ok && after == (AppView { mode: Mode::Search, ..before }),
        Command::SelectNext => done is Ok && after == with_cursor(
            before,
            before.filtered.cursor.increment(),
        ),
        Command::SelectPrevious => done is Ok && after == with_cursor(
            before,
            before.filtered.cursor.decrement(),
        ),
        Command::HalfPageDown => match done {
            Ok(_) => exists|height: u16|
                after == with_cursor(
                    before,
                    before.filtered.cursor.increment_n(#[trigger] half_page(height as nat)),
                ),
            Err(_) => after == before,
        },
        Command::HalfPageUp => match done {
            Ok(_) => exists|height: u16|
                after == with_cursor(
                    before,
                    before.filtered.cursor.decrement_n(#[trigger] half_page(height as nat)),
                ),
            Err(_) => after == before,
        },
        Command::Edit => if before.selected() is None {
            done is Ok && after == before
        } else {
            suspended(before, after, done)
        },
        Command::CreateUnnamed => suspended(before, after, done),
        Command::CreateNamed => suspended(before, after, done),
        Command::CancelInsert => done is Ok && after == (AppView {
            mode: Mode::Normal,
            ..before.clear_text()
        }),
        Command::Type(c) => if before.mode == Mode::Search {
            searched(before.push_text(c), after, done)
        } else {
            done is Ok && after == before.push_text(c)
        },
        Command::Erase => if before.mode == Mode::Search {
            searched(before.pop_text(), after, done)
        } else {
            done is Ok && after == before.pop_text()
        },
        Command::ConfirmDelete => if before.selected() is None {
            done == Err::<(), SessionError>(SessionError::NoSelection) && after == before
        } else {
            suspended(before, after, done)
        },
        Command::CancelDelete => done is Ok && after == (AppView { mode: Mode::Normal, ..before }),
        Command::CommitSearch => done is Ok && after == (AppView { mode: Mode::Normal, ..before }),
        Command::CancelSearch => {
            &&& cache_extends(before.cache, after.cache)
            &&& done is Ok <==> after.all_cached()
            &&& done is Ok ==> after == (AppView {
                mode: Mode::Normal,
                ..with_cache(before.clear_text(), after.cache).refilter()
            })
            &&& done is Err ==> after == with_cache(before.clear_text(), after.cache)
        },
    }
}

/// The command that a key stands for in a mode.
pub fn decide(mode: Mode, key: Key, modifier: Modifier) -> (command: Command)
    ensures
        command == binding(mode, key, modifier),
{
    match mode {
        Mode::Normal => match (key, modifier) {
            (Key::Esc, Modifier::Plain) => Command::Quit,
            (Key::Down, Modifier::Plain) => Command::SelectNext,
            (Key::Up, Modifier::Plain) => Command::SelectPrevious,
            (Key::Char(c), Modifier::Plain) => if c == 'q' {
                Command::Quit
            } else if c == 'j' {
                Command::SelectNext
            } else if c == 'k' {
                Command::SelectPrevious
            } else if c == 'e' {
                Command::Edit
            } else if c == 'n' {
                Command::CreateUnnamed
            } else if c == 'd' {
                Command::EnterDeleteConfirm
            } else if c == '/' {
                Command::EnterSearch
            } else {
                Command::Ignore
            },
            (Key::Char(c), Modifier::Shift) => if c == 'N' {
                Command::EnterInsert
            } else {
                Command::Ignore
            },
            (Key::Char(c), Modifier::Control) => if c == 'd' {
                Command::HalfPageDown
            } else if c == 'u' {
                Command::HalfPageUp
            } else {
                Command::Ignore
            },
            _ => Command::Ignore,
        },
        Mode::Insert => decide_typing(key, modifier, Command::CreateNamed, Command::CancelInsert),
        Mode::Search => decide_typing(key, modifier, Command::CommitSearch, Command::CancelSearch),
        Mode::DeleteConfirm => match (key, modifier) {
            (Key::Esc, Modifier::Plain) => Command::CancelDelete,
            (Key::Char(c), Modifier::Plain) => if c == 'n' {
                Command::CancelDelete
            } else {
                Command::Ignore
            },
            (Key::Char(c), Modifier::Shift) => if c == 'Y' {
                Command::ConfirmDelete
            } else {
                Command::Ignore
            },
            _ => Command::Ignore,
        },
    }
}

/// The command that a key stands for while text is typed.
fn decide_typing(key: Key, modifier: Modifier, commit: Command, cancel: Command) -> (command:
    Command)
    ensures
        command == typing_binding(key, modifier, commit, cancel),
{
    match (key, modifier) {
        (Key::Esc, Modifier::Plain) => cancel,
        (Key::Enter, Modifier::Plain) => commit,
        (Key::Backspace, Modifier::Plain) => Command::Erase,
        (Key::Char(c), Modifier::Plain) => Command::Type(c),
        (Key::Char(c), Modifier::Shift) => Command::Type(c),
        _ => Command::Ignore,
    }
}

/// The first failure of two steps, if any.
fn first_failure(first: Result<(), SessionError>, second: Result<(), SessionError>) -> (both:
    Result<(), SessionError>)
    ensures
        both == match first {
            Ok(_) => second,
            Err(e) => Err::<(), SessionError>(e),
        },
{
    match first {
        Ok(_) => second,
        Err(e) => Err(e),
    }
}

/// Takes the terminal back after work outside the session, wipes it, and
/// starts over on the reloaded list. Every step is taken whatever came before
/// it failed; the report is of the first failure, that of the work included.
fn resume<T: TerminalManage, S: ServiceTrait>(
    work: Result<(), SessionError>,
    terminal_manager: &mut T,
    app_interactor: &mut AppInteractor<'_, S>,
) -> (done: Result<(), SessionError>)
    ensures
        final(app_interactor).wf(),
        final(app_interactor)@ == AppView::reset(
            final(app_interactor)@.names,
            old(app_interactor)@.exit,
        ),
        work is Err ==> done == work,
{
    let entered = terminal_manager.enter_app_screen();
    let cleared = terminal_manager.clear_app_screen();
    let reloaded = app_interactor.reload();
    first_failure(work, first_failure(entered, first_failure(cleared, reloaded)))
}

/// The storage's answer without the name: the success, or the failure as it is.
pub fn without_name(outcome: Result<String, SessionError>) -> (done: Result<(), SessionError>)
    ensures
        done == match outcome {
            Ok(_) => Ok::<(), SessionError>(()),
            Err(e) => Err::<(), SessionError>(e),
        },
{
    match outcome {
        Ok(_) => Ok(()),
        Err(e) => Err(e),
    }
}

/// Carries out what the key stands for in the active mode. A key that stands
/// for nothing is ignored. Work on the stored notes is done with the terminal
/// given back, and the terminal is taken back and the list reloaded whether
/// or not the work succeeded.
pub fn handle_input<T: TerminalManage, S: ServiceTrait>(
    key_code: Key,
    key_modifier: Modifier,
    terminal_manager: &mut T,
    app_interactor: &mut AppInteractor<'_, S>,
) -> (done: Result<(), SessionError>)
    requires
        old(app_interactor).wf(),
    ensures
        final(app_interactor).wf(),
        carried_out(
            old(app_interactor)@,
            binding(old(app_interactor)@.mode, key_code, key_modifier),
            final(app_interactor)@,
            done,
        ),
{
    let mode = *app_interactor.get_mode();
    match decide(mode, key_code, key_modifier) {
        Command::Ignore => Ok(()),
        Command::Quit => {
            match terminal_manager.exit_app_screen() {
                Ok(_) => {
                    app_interactor.exit();
                    Ok(())
                },
                Err(e) => Err(e),
            }
        },
        Command::EnterInsert => {
            app_interactor.enter_mode(Mode::Insert);
            Ok(())
        },
        Command::EnterDeleteConfirm => {
            app_interactor.enter_mode(Mode::DeleteConfirm);
            Ok(())
        },
        Command::EnterSearch => {
            app_interactor.enter_mode(Mode::Search);
            Ok(())
        },
        Command::SelectNext => {
            app_interactor.select_next();
            Ok(())
        },
        Command::SelectPrevious => {
            app_interactor.select_previous();
            Ok(())
        },
        Command::HalfPageDown => {
            match terminal_manager.get_terminal_height() {
                Ok(height) => {
                    app_interactor.select_next_n(half_page_jump(height));
                    Ok(())
                },
                Err(e) => Err(e),
            }
        },
        Command::HalfPageUp => {
            match terminal_manager.get_terminal_height() {
                Ok(height) => {
                    app_interactor.select_previous_n(half_page_jump(height));
                    Ok(())
                },
                Err(e) => Err(e),
            }
        },
        Command::Edit => {
            if app_interactor.is_kakisute_selected() {
                match terminal_manager.exit_app_screen() {
                    Ok(_) => {
                        let edited = without_name(app_interactor.edit_kakisute());
                        resume(edited, terminal_manager, app_interactor)
                    },
                    Err(e) => Err(e),
                }
            } else {
                Ok(())
            }
        },
        Command::CreateUnnamed => {
            match terminal_manager.exit_app_screen() {
                Ok(_) => {
                    let created = app_interactor.create_new_kakisute();
                    resume(created, terminal_manager, app_interactor)
                },
                Err(e) => Err(e),
            }
        },
        Command::CreateNamed => {
            match terminal_manager.exit_app_screen() {
                Ok(_) => {
                    let created = app_interactor.create_new_kakisute_with_file_name();
                    resume(created, terminal_manager, app_interactor)
                },
                Err(e) => Err(e),
            }
        },
        Command::CancelInsert => {
            app_interactor.clear_text_input();
            app_interactor.enter_mode(Mode::Normal);
            Ok(())
        },
        Command::Type(c) => {
            app_interactor.push_text_input(c);
            match mode {
                Mode::Search => app_interactor.filter(),
                _ => Ok(()),
            }
        },
        Command::Erase => {
            app_interactor.pop_text_input();
            match mode {
                Mode::Search => app_interactor.filter(),
                _ => Ok(()),
            }
        },
        Command::ConfirmDelete => {
            if app_interactor.is_kakisute_selected() {
                match terminal_manager.exit_app_screen() {
                    Ok(_) => {
                        let deleted = without_name(app_interactor.delete_kakisute());
                        resume(deleted, terminal_manager, app_interactor)
                    },
                    Err(e) => Err(e),
                }
            } else {
                Err(SessionError::NoSelection)
            }
        },
        Command::CancelDelete => {
            app_interactor.enter_mode(Mode::Normal);
            Ok(())
        },
        Command::CommitSearch => {
            app_interactor.enter_mode(Mode::Normal);
            Ok(())
        },
        Command::CancelSearch => {
            app_interactor.clear_text_input();
            match app_interactor.filter() {
                Ok(_) => {
                    app_interactor.enter_mode(Mode::Normal);
                    Ok(())
                },
                Err(e) => Err(e),
            }
        },
    }
}

/// Draws the session as it stands. Reading the selected note for the frame
/// may fill the cache; nothing else of the session changes.
pub fn render_frame<T: TerminalManage, S: ServiceTrait>(
    terminal_manager: &mut T,
    app_interactor: &mut AppInteractor<'_, S>,
) -> (done: Result<(), SessionError>)
    requires
        old(app_interactor).wf(),
    ensures
        final(app_interactor).wf(),
        final(app_interactor)@ == with_cache(old(app_interactor)@, final(app_interactor)@.cache),
        cache_extends(old(app_interactor)@.cache, final(app_interactor)@.cache),
        crate::app_interactor::selected_read(
            old(app_interactor)@.cache,
            final(app_interactor)@.cache,
            old(app_interactor)@.selected(),
        ),
{
    let info = app_interactor.generate_info();
    terminal_manager.draw_frame(DisplayData::new(info))
}

/// Leaving a search by dropping the query shows the whole list again: with an
/// empty query, computing the visible list anew makes every note visible, in
/// the list's order, and selects the first.
pub proof fn lemma_empty_query_shows_all(state: AppView)
    requires
        state.search_query.len() == 0,
    ensures
        state.refilter().filtered == FilteredView::identity(state.names.len()),
        state.refilter() == (AppView {
            filtered: FilteredView::identity(state.names.len()),
            ..state
        }),
{
    crate::filtered_list::lemma_empty_query_selects_all(state.search_query, state.corpus());
}

} // verus!
