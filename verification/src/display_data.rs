//! What a frame shows, computed from a snapshot of the session.

use crate::app_interactor::Mode;
use vstd::prelude::*;
use vstd::string::*;

verus! {

pub const DELETE_MODAL_BODY: &'static str = "Are you sure you want to delete? (Y/n)";

pub const DELETE_MODAL_TITLE: &'static str = "Confirm Modal";

pub const KAKISUTE_LIST_TITLE: &'static str = "List";

pub const NO_FILE_BODY: &'static str = "<No file is selected>";

pub const CONTENT_TITLE: &'static str = "Content";

pub const NEW_FILE_NAME_MODAL_TITLE: &'static str = "Input new file name";

pub const SEARCH_MODAL_TITLE: &'static str = "Input search query";

pub const HELP_NORMAL_BODY: &'static str =
    "esc/q: Quit, j: Down, k: Up, ^d: Down 1/2 screen, ^u: Up 1/2 screen, e: Edit, n: Create new, N: Create new with file name, d: Delete";

pub const HELP_INSERT_BODY: &'static str = "esc: Enter normal mode, Enter: Open editor";

pub const HELP_DELETE_BODY: &'static str = "esc/n: Cancel, Y: delete";

pub const HELP_SEARCH_BODY: &'static str = "esc/n: Cancel, Y: delete";

pub const HELP_TITLE: &'static str = "Help";

/// A snapshot of the session for drawing.
pub struct Info {
    pub index: Option<usize>,
    pub mode: Mode,
    pub kakisute_list: Vec<String>,
    pub content: Option<String>,
    pub new_filename: String,
    pub search_query: String,
}

/// One box of the screen: what it holds and what stands on its border.
pub struct BlockData<T> {
    pub body: T,
    pub title: String,
}

impl<T> BlockData<T> {
    /// A box with the given body and title.
    pub fn new(body: T, title: &str) -> (block: BlockData<T>)
        ensures
            block.body == body,
            block.title@ == title@,
    {
        BlockData { body, title: String::from_str(title) }
    }
}

/// Everything that one frame shows.
pub struct DisplayData {
    pub index: Option<usize>,
    pub mode: Mode,
    pub kakisute_list: BlockData<Vec<String>>,
    pub content: BlockData<String>,
    pub new_filename: BlockData<String>,
    pub search_query: BlockData<String>,
    pub help: BlockData<String>,
    pub delete_modal: BlockData<&'static str>,
    pub need_search_box: bool,
}

/// The character of one decimal digit.
pub open spec fn digit(d: nat) -> char {
    if d == 0 {
        '0'
    } else if d == 1 {
        '1'
    } else if d == 2 {
        '2'
    } else if d == 3 {
        '3'
    } else if d == 4 {
        '4'
    } else if d == 5 {
        '5'
    } else if d == 6 {
        '6'
    } else if d == 7 {
        '7'
    } else if d == 8 {
        '8'
    } else {
        '9'
    }
}

/// A number written in decimal, without leading zeros.
pub open spec fn decimal_text(n: nat) -> Seq<char>
    decreases n,
{
    if n < 10 {
        seq![digit(n)]
    } else {
        decimal_text(n / 10).push(digit(n % 10))
    }
}

/// The title of the list box: the word alone when nothing is selected, else
/// followed by the selected entry's number, counted from one, and the number
/// of entries.
pub open spec fn list_title(index: Option<usize>, count: nat) -> Seq<char> {
    match index {
        Some(i) => KAKISUTE_LIST_TITLE@ + " ("@ + decimal_text((i + 1) as nat) + "/"@ + decimal_text(
            count,
        ) + ")"@,
        None => KAKISUTE_LIST_TITLE@,
    }
}

/// The body of the content box: the note's content, or a notice when no note
/// is selected or readable.
pub open spec fn content_body(content: Option<Seq<char>>) -> Seq<char> {
    match content {
        Some(text) => text,
        None => NO_FILE_BODY@,
    }
}

/// The keys that the help box lists in each mode.
pub open spec fn help_body(mode: Mode) -> Seq<char> {
    match mode {
        Mode::Normal => HELP_NORMAL_BODY@,
        Mode::Insert => HELP_INSERT_BODY@,
        Mode::DeleteConfirm => HELP_DELETE_BODY@,
        Mode::Search => HELP_SEARCH_BODY@,
    }
}

/// The search box is shown while a query is typed and as long as one is set.
pub open spec fn needs_search_box(search_query: Seq<char>, mode: Mode) -> bool {
    search_query.len() != 0 || mode == Mode::Search
}

/// The character of the decimal digit `d`.
pub(crate) fn digit_char(d: u128) -> (c: char)
    requires
        d < 10,
    ensures
        c == digit(d as nat),
{
    if d == 0 {
        '0'
    } else if d == 1 {
        '1'
    } else if d == 2 {
        '2'
    } else if d == 3 {
        '3'
    } else if d == 4 {
        '4'
    } else if d == 5 {
        '5'
    } else if d == 6 {
        '6'
    } else if d == 7 {
        '7'
    } else if d == 8 {
        '8'
    } else {
        '9'
    }
}

/// Writes a number in decimal.
pub fn decimal(n: u128) -> (text: String)
    ensures
        text@ == decimal_text(n as nat),
    decreases n,
{
    if n < 10 {
        let mut text = String::new();
        text.push(digit_char(n));
        assert(text@ =~= seq![digit(n as nat)]);
        text
    } else {
        let mut text = decimal(n / 10);
        text.push(digit_char(n % 10));
        text
    }
}

impl DisplayData {
    /// Lays a snapshot out in boxes: the list with its title, the content,
    /// the two input boxes, the help for the mode and the delete dialogue.
    pub fn new(info: Info) -> (data: DisplayData)
        ensures
            data.index == info.index,
            data.mode == info.mode,
            data.kakisute_list.body == info.kakisute_list,
            data.kakisute_list.title@ == list_title(info.index, info.kakisute_list@.len()),
            data.content.body@ == content_body(
                match info.content {
                    Some(text) => Some(text@),
                    None => None,
                },
            ),
            data.content.title@ == CONTENT_TITLE@,
            data.new_filename.body@ == info.new_filename@,
            data.new_filename.title@ == NEW_FILE_NAME_MODAL_TITLE@,
            data.search_query.body@ == info.search_query@,
            data.search_query.title@ == SEARCH_MODAL_TITLE@,
            data.help.body@ == help_body(info.mode),
            data.help.title@ == HELP_TITLE@,
            data.delete_modal.body@ == DELETE_MODAL_BODY@,
            data.delete_modal.title@ == DELETE_MODAL_TITLE@,
            data.need_search_box == needs_search_box(info.search_query@, info.mode),
    {
        let need_search_box = !info.search_query.as_str().is_empty() || info.mode == Mode::Search;
        let kakisute_list = DisplayData::create_kakisute_list(info.kakisute_list, info.index);
        let content = DisplayData::create_content(info.content);
        let new_filename = DisplayData::create_new_filename_modal(info.new_filename.as_str());
        let search_query = DisplayData::create_search_query_modal(info.search_query.as_str());
        let help = DisplayData::create_help(&info.mode);
        let delete_modal = BlockData::new(DELETE_MODAL_BODY, DELETE_MODAL_TITLE);
        DisplayData {
            index: info.index,
            mode: info.mode,
            kakisute_list,
            content,
            new_filename,
            search_query,
            help,
            delete_modal,
            need_search_box,
        }
    }

    /// The list box.
    pub fn create_kakisute_list(kakisute_list: Vec<String>, index: Option<usize>) -> (block:
        BlockData<Vec<String>>)
        ensures
            block.body == kakisute_list,
            block.title@ == list_title(index, kakisute_list@.len()),
    {
        let mut title = String::from_str(KAKISUTE_LIST_TITLE);
        if let Some(index) = index {
            let number = decimal(index as u128 + 1);
            let count = decimal(kakisute_list.len() as u128);
            title.append(" (");
            title.append(number.as_str());
            title.append("/");
            title.append(count.as_str());
            title.append(")");
        }
        BlockData::new(kakisute_list, title.as_str())
    }

    /// The content box.
    pub fn create_content(kakisute_content: Option<String>) -> (block: BlockData<String>)
        ensures
            block.body@ == content_body(
                match kakisute_content {
                    Some(text) => Some(text@),
                    None => None,
                },
            ),
            block.title@ == CONTENT_TITLE@,
    {
        let content_body = match kakisute_content {
            Some(kakisute_content) => kakisute_content,
            None => String::from_str(NO_FILE_BODY),
        };
        BlockData::new(content_body, CONTENT_TITLE)
    }

    /// The box in which the name of a new note is typed.
    pub fn create_new_filename_modal(user_input: &str) -> (block: BlockData<String>)
        ensures
            block.body@ == user_input@,
            block.title@ == NEW_FILE_NAME_MODAL_TITLE@,
    {
        BlockData::new(String::from_str(user_input), NEW_FILE_NAME_MODAL_TITLE)
    }

    /// The box in which the search query is typed.
    pub fn create_search_query_modal(user_input: &str) -> (block: BlockData<String>)
        ensures
            block.body@ == user_input@,
            block.title@ == SEARCH_MODAL_TITLE@,
    {
        BlockData::new(String::from_str(user_input), SEARCH_MODAL_TITLE)
    }

    /// The help box of a mode.
    pub fn create_help(mode: &Mode) -> (block: BlockData<String>)
        ensures
            block.body@ == help_body(*mode),
            block.title@ == HELP_TITLE@,
    {
        let help_body = match mode {
            Mode::Normal => HELP_NORMAL_BODY,
            Mode::Insert => HELP_INSERT_BODY,
            Mode::DeleteConfirm => HELP_DELETE_BODY,
            Mode::Search => HELP_SEARCH_BODY,
        };
        BlockData::new(String::from_str(help_body), HELP_TITLE)
    }
}

} // verus!
