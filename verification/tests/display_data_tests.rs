use kakisute::app_interactor::Mode;
use kakisute::display_data::{
    decimal, BlockData, DisplayData, Info, CONTENT_TITLE, DELETE_MODAL_BODY, DELETE_MODAL_TITLE,
    HELP_DELETE_BODY, HELP_INSERT_BODY, HELP_NORMAL_BODY, HELP_SEARCH_BODY, HELP_TITLE,
    NEW_FILE_NAME_MODAL_TITLE, NO_FILE_BODY, SEARCH_MODAL_TITLE,
};
use kakisute::error::SessionError;
use kakisute::renderer::{half_page_jump, list_height};

fn info_with(index: Option<usize>, mode: Mode, names: &[&str], query: &str) -> Info {
    Info {
        index,
        mode,
        kakisute_list: names.iter().map(|name| name.to_string()).collect(),
        content: None,
        new_filename: String::new(),
        search_query: query.to_string(),
    }
}

#[test]
fn create_help_returns_normal_help_in_normal_mode() {
    let res = DisplayData::create_help(&Mode::Normal);
    assert_eq!(res.body, HELP_NORMAL_BODY);
    assert_eq!(res.title, HELP_TITLE);
}

#[test]
fn create_help_returns_insert_help_in_insert_mode() {
    let res = DisplayData::create_help(&Mode::Insert);
    assert_eq!(res.body, HELP_INSERT_BODY);
}

#[test]
fn create_help_returns_delete_help_in_delete_mode() {
    let res = DisplayData::create_help(&Mode::DeleteConfirm);
    assert_eq!(res.body, HELP_DELETE_BODY);
}

#[test]
fn create_help_returns_search_help_in_search_mode() {
    let res = DisplayData::create_help(&Mode::Search);
    assert_eq!(res.body, HELP_SEARCH_BODY);
}

#[test]
fn create_content_returns_the_content_when_it_exists() {
    let res = DisplayData::create_content(Some("content".to_string()));
    assert_eq!(res.body, "content");
    assert_eq!(res.title, CONTENT_TITLE);
}

#[test]
fn create_content_returns_a_notice_when_there_is_none() {
    let res = DisplayData::create_content(None);
    assert_eq!(res.body, NO_FILE_BODY);
    assert_eq!(res.body, "<No file is selected>");
}

#[test]
fn list_title_counts_from_one() {
    let names: Vec<String> = (0..12).map(|k| format!("n{}", k)).collect();
    let block = DisplayData::create_kakisute_list(names.clone(), Some(0));
    assert_eq!(block.title, "List (1/12)");
    let block = DisplayData::create_kakisute_list(names.clone(), Some(9));
    assert_eq!(block.title, "List (10/12)");
    assert_eq!(block.body, names);
    let block = DisplayData::create_kakisute_list(Vec::new(), None);
    assert_eq!(block.title, "List");
    let block = DisplayData::create_kakisute_list(Vec::new(), Some(usize::MAX));
    assert_eq!(block.title, format!("List ({}/0)", usize::MAX as u128 + 1));
}

#[test]
fn decimal_writes_numbers_as_std_does() {
    for n in [0u128, 1, 9, 10, 11, 99, 100, 101, 1234567890, u64::MAX as u128, u128::MAX] {
        assert_eq!(decimal(n), n.to_string());
    }
    assert_eq!(decimal(0), "0");
    assert_eq!(decimal(4070), "4070");
}

#[test]
fn block_data_keeps_body_and_title() {
    let block = BlockData::new(7u8, "seven");
    assert_eq!(block.body, 7);
    assert_eq!(block.title, "seven");
}

#[test]
fn display_data_lays_a_snapshot_out() {
    let mut info = info_with(Some(1), Mode::Insert, &["a", "b"], "");
    info.content = Some("body".to_string());
    info.new_filename = "draft".to_string();
    let data = DisplayData::new(info);
    assert_eq!(data.index, Some(1));
    assert_eq!(data.mode, Mode::Insert);
    assert_eq!(data.kakisute_list.body, vec!["a".to_string(), "b".to_string()]);
    assert_eq!(data.kakisute_list.title, "List (2/2)");
    assert_eq!(data.content.body, "body");
    assert_eq!(data.new_filename.body, "draft");
    assert_eq!(data.new_filename.title, NEW_FILE_NAME_MODAL_TITLE);
    assert_eq!(data.search_query.body, "");
    assert_eq!(data.search_query.title, SEARCH_MODAL_TITLE);
    assert_eq!(data.help.body, HELP_INSERT_BODY);
    assert_eq!(data.delete_modal.body, DELETE_MODAL_BODY);
    assert_eq!(data.delete_modal.title, DELETE_MODAL_TITLE);
    assert!(!data.need_search_box);
}

#[test]
fn search_box_is_shown_in_search_mode_or_with_a_query() {
    assert!(!DisplayData::new(info_with(None, Mode::Normal, &[], "")).need_search_box);
    assert!(DisplayData::new(info_with(None, Mode::Search, &[], "")).need_search_box);
    assert!(DisplayData::new(info_with(None, Mode::Normal, &[], "q")).need_search_box);
    assert!(DisplayData::new(info_with(None, Mode::DeleteConfirm, &[], "q")).need_search_box);
    assert!(!DisplayData::new(info_with(None, Mode::Insert, &[], "")).need_search_box);
}

#[test]
fn list_rows_are_what_help_and_margins_leave() {
    assert_eq!(list_height(24), 17);
    assert_eq!(list_height(7), 0);
    assert_eq!(list_height(8), 1);
    assert_eq!(list_height(0), 0);
    assert_eq!(list_height(u16::MAX), u16::MAX - 7);
    assert_eq!(half_page_jump(24), 8);
    assert_eq!(half_page_jump(9), 1);
    assert_eq!(half_page_jump(8), 0);
    assert_eq!(half_page_jump(3), 0);
}

#[test]
fn every_error_has_a_message() {
    assert_eq!(SessionError::NoSelection.message(), "no note is selected");
    assert_eq!(SessionError::NoTextInput.message(), "no text input is active");
    assert_eq!(SessionError::NotFound.message(), "file not found");
    assert_eq!(SessionError::Io.message(), "storage operation failed");
    assert_eq!(SessionError::Terminal.message(), "terminal operation failed");
}
