use kakisute::app_interactor::{AppInteractor, Mode};
use kakisute::error::SessionError;
use kakisute::kakisute_list::KakisuteList;
use kakisute::service::ServiceTrait;
use std::cell::RefCell;

struct ServiceMock {
    kakisute_list: KakisuteList,
}

impl ServiceMock {
    fn new(kakisute_list: KakisuteList) -> Self {
        ServiceMock { kakisute_list }
    }
}

impl ServiceTrait for ServiceMock {
    fn create_kakisute(&self, _: Option<String>) -> Result<String, SessionError> {
        Ok("Ok".to_string())
    }

    fn edit_by_index(&self, _: usize) -> Result<String, SessionError> {
        Ok("ok".to_string())
    }

    fn delete_by_index(&self, _: usize) -> Result<String, SessionError> {
        Ok("ok".to_string())
    }

    fn get_content_by_index(&self, _: usize) -> Result<String, SessionError> {
        Ok("Ok".to_string())
    }

    fn reload(&self) {}

    fn get_kakisute_list(&self) -> Vec<String> {
        self.kakisute_list.get_kakisute_file_name_list()
    }
}

/// Notes kept in memory: what is stored, what was listed last, and what was
/// asked of the storage.
struct Shelf {
    stored: RefCell<Vec<(String, String)>>,
    listed: RefCell<Vec<String>>,
    unreadable: RefCell<Vec<String>>,
    calls: RefCell<Vec<String>>,
}

impl Shelf {
    fn with(notes: &[(&str, &str)]) -> Self {
        let shelf = Shelf {
            stored: RefCell::new(
                notes.iter().map(|(name, content)| (name.to_string(), content.to_string())).collect(),
            ),
            listed: RefCell::new(Vec::new()),
            unreadable: RefCell::new(Vec::new()),
            calls: RefCell::new(Vec::new()),
        };
        shelf.reload();
        shelf.calls.borrow_mut().clear();
        shelf
    }

    fn calls(&self) -> Vec<String> {
        self.calls.borrow().clone()
    }
}

impl ServiceTrait for Shelf {
    fn create_kakisute(&self, file_name: Option<String>) -> Result<String, SessionError> {
        let name = match file_name {
            Some(suffix) => format!("2022_01_10_16_30_15_{}", suffix),
            None => "2022_01_10_16_30_15.txt".to_string(),
        };
        self.calls.borrow_mut().push(format!("create {}", name));
        self.stored.borrow_mut().push((name.clone(), String::new()));
        Ok(name)
    }

    fn edit_by_index(&self, index: usize) -> Result<String, SessionError> {
        let name = self.listed.borrow().get(index).cloned().ok_or(SessionError::NotFound)?;
        self.calls.borrow_mut().push(format!("edit {}", name));
        Ok(name)
    }

    fn delete_by_index(&self, index: usize) -> Result<String, SessionError> {
        let name = self.listed.borrow().get(index).cloned().ok_or(SessionError::NotFound)?;
        self.calls.borrow_mut().push(format!("delete {}", name));
        self.stored.borrow_mut().retain(|(stored, _)| *stored != name);
        Ok(name)
    }

    fn get_content_by_index(&self, index: usize) -> Result<String, SessionError> {
        let name = self.listed.borrow().get(index).cloned().ok_or(SessionError::NotFound)?;
        self.calls.borrow_mut().push(format!("read {}", name));
        if self.unreadable.borrow().contains(&name) {
            return Err(SessionError::Io);
        }
        let stored = self.stored.borrow();
        let found = stored.iter().find(|(stored, _)| *stored == name);
        found.map(|(_, content)| content.clone()).ok_or(SessionError::Io)
    }

    fn reload(&self) {
        self.calls.borrow_mut().push("reload".to_string());
        let mut names: Vec<String> =
            self.stored.borrow().iter().map(|(name, _)| name.clone()).collect();
        names.sort();
        *self.listed.borrow_mut() = names;
    }

    fn get_kakisute_list(&self) -> Vec<String> {
        self.listed.borrow().clone()
    }
}

fn three_notes() -> Shelf {
    Shelf::with(&[
        ("2022_01_10_16_30_15_b.txt", "banana\nsplit"),
        ("2021_12_31_23_59_59_a.sql", "select apple"),
        ("2022_02_01_08_00_00.txt", "cherry"),
    ])
}

#[test]
fn test_empty_app_interactor() {
    let mut service = ServiceMock::new(KakisuteList::new());
    let mut app_interactor = AppInteractor::new(&mut service);
    assert!(!app_interactor.is_kakisute_selected());
    assert!(app_interactor.edit_kakisute().is_err());
    assert!(app_interactor.delete_kakisute().is_err());
    assert!(app_interactor.get_selected_kakisute_content().is_none());
    assert_eq!(*app_interactor.get_mode(), Mode::Normal);
    assert_eq!(app_interactor.generate_info().new_filename, "");
    assert!(!app_interactor.is_exited());
}

#[test]
fn test_mode_switch() {
    let mut service = ServiceMock::new(KakisuteList::new());
    let mut app_interactor = AppInteractor::new(&mut service);
    app_interactor.enter_mode(Mode::Insert);
    assert_eq!(*app_interactor.get_mode(), Mode::Insert);
    app_interactor.enter_mode(Mode::Normal);
    assert_eq!(*app_interactor.get_mode(), Mode::Normal);
    app_interactor.enter_mode(Mode::DeleteConfirm);
    assert_eq!(*app_interactor.get_mode(), Mode::DeleteConfirm);
}

#[test]
fn empty_session_reports_no_selection() {
    let service = Shelf::with(&[]);
    let app_interactor = AppInteractor::new(&service);
    assert_eq!(app_interactor.edit_kakisute(), Err(SessionError::NoSelection));
    assert_eq!(app_interactor.delete_kakisute(), Err(SessionError::NoSelection));
    assert_eq!(service.calls(), Vec::<String>::new());
}

#[test]
fn new_session_shows_the_whole_list() {
    let service = three_notes();
    let mut app_interactor = AppInteractor::new(&service);
    let info = app_interactor.generate_info();
    assert_eq!(info.index, Some(0));
    assert_eq!(info.mode, Mode::Normal);
    assert_eq!(
        info.kakisute_list,
        vec![
            "2021_12_31_23_59_59_a.sql".to_string(),
            "2022_01_10_16_30_15_b.txt".to_string(),
            "2022_02_01_08_00_00.txt".to_string(),
        ]
    );
    assert_eq!(info.content, Some("select apple".to_string()));
    assert_eq!(info.new_filename, "");
    assert_eq!(info.search_query, "");
    assert!(app_interactor.is_kakisute_selected());
    assert!(!app_interactor.is_exited());
}

#[test]
fn selected_content_is_read_once() {
    let service = three_notes();
    let mut app_interactor = AppInteractor::new(&service);
    app_interactor.select_next();
    assert_eq!(app_interactor.get_selected_kakisute_content(), Some("banana\nsplit".to_string()));
    assert_eq!(app_interactor.get_selected_kakisute_content(), Some("banana\nsplit".to_string()));
    assert_eq!(service.calls(), vec!["read 2022_01_10_16_30_15_b.txt".to_string()]);
}

#[test]
fn unreadable_content_is_none_and_not_cached() {
    let service = three_notes();
    service.unreadable.borrow_mut().push("2021_12_31_23_59_59_a.sql".to_string());
    let mut app_interactor = AppInteractor::new(&service);
    assert_eq!(app_interactor.get_selected_kakisute_content(), None);
    service.unreadable.borrow_mut().clear();
    assert_eq!(app_interactor.get_selected_kakisute_content(), Some("select apple".to_string()));
}

#[test]
fn edit_and_delete_reach_the_selected_note() {
    let service = three_notes();
    let mut app_interactor = AppInteractor::new(&service);
    app_interactor.select_next_n(5);
    assert_eq!(app_interactor.edit_kakisute(), Ok("2022_02_01_08_00_00.txt".to_string()));
    app_interactor.select_previous();
    assert_eq!(app_interactor.delete_kakisute(), Ok("2022_01_10_16_30_15_b.txt".to_string()));
    assert_eq!(
        service.calls(),
        vec![
            "edit 2022_02_01_08_00_00.txt".to_string(),
            "delete 2022_01_10_16_30_15_b.txt".to_string(),
        ]
    );
}

#[test]
fn create_hands_the_typed_name_to_the_storage() {
    let service = Shelf::with(&[]);
    let mut app_interactor = AppInteractor::new(&service);
    app_interactor.enter_mode(Mode::Insert);
    for c in "foo.sql".chars() {
        app_interactor.push_text_input(c);
    }
    assert_eq!(app_interactor.create_new_kakisute_with_file_name(), Ok(()));
    assert_eq!(app_interactor.create_new_kakisute(), Ok(()));
    assert_eq!(
        service.calls(),
        vec![
            "create 2022_01_10_16_30_15_foo.sql".to_string(),
            "create 2022_01_10_16_30_15.txt".to_string(),
        ]
    );
}

#[test]
fn text_goes_to_the_buffer_of_the_mode() {
    let service = three_notes();
    let mut app_interactor = AppInteractor::new(&service);
    app_interactor.push_text_input('x');
    app_interactor.pop_text_input();
    app_interactor.clear_text_input();
    assert_eq!(app_interactor.get_current_text_input().err(), Some(SessionError::NoTextInput));
    app_interactor.enter_mode(Mode::DeleteConfirm);
    app_interactor.push_text_input('x');
    assert_eq!(app_interactor.get_current_text_input().err(), Some(SessionError::NoTextInput));
    assert_eq!(app_interactor.generate_info().new_filename, "");
    assert_eq!(app_interactor.generate_info().search_query, "");

    app_interactor.enter_mode(Mode::Insert);
    app_interactor.push_text_input('a');
    app_interactor.push_text_input('b');
    assert_eq!(app_interactor.get_current_text_input().unwrap().get(), "ab");
    app_interactor.enter_mode(Mode::Search);
    app_interactor.push_text_input('q');
    assert_eq!(app_interactor.get_current_text_input().unwrap().get(), "q");
    app_interactor.pop_text_input();
    app_interactor.pop_text_input();
    let info = app_interactor.generate_info();
    assert_eq!(info.new_filename, "ab");
    assert_eq!(info.search_query, "");
    app_interactor.enter_mode(Mode::Insert);
    app_interactor.clear_text_input();
    assert_eq!(app_interactor.generate_info().new_filename, "");
}

#[test]
fn filter_searches_names_and_contents() {
    let service = three_notes();
    let mut app_interactor = AppInteractor::new(&service);
    app_interactor.enter_mode(Mode::Search);
    for c in "sql|cherry".chars() {
        app_interactor.push_text_input(c);
    }
    assert_eq!(app_interactor.filter(), Ok(()));
    let info = app_interactor.generate_info();
    assert_eq!(
        info.kakisute_list,
        vec!["2021_12_31_23_59_59_a.sql".to_string(), "2022_02_01_08_00_00.txt".to_string()]
    );
    assert_eq!(info.index, Some(0));
    app_interactor.select_next();
    assert_eq!(app_interactor.get_selected_kakisute_content(), Some("cherry".to_string()));
    assert_eq!(app_interactor.edit_kakisute(), Ok("2022_02_01_08_00_00.txt".to_string()));
}

#[test]
fn filter_matches_across_name_and_content() {
    let service = Shelf::with(&[("n1", "abc"), ("n2", "xyz")]);
    let mut app_interactor = AppInteractor::new(&service);
    app_interactor.enter_mode(Mode::Search);
    for c in "^n1abc$".chars() {
        app_interactor.push_text_input(c);
    }
    assert_eq!(app_interactor.filter(), Ok(()));
    assert_eq!(app_interactor.generate_info().kakisute_list, vec!["n1".to_string()]);
}

#[test]
fn filter_with_no_match_leaves_nothing_selected() {
    let service = three_notes();
    let mut app_interactor = AppInteractor::new(&service);
    app_interactor.enter_mode(Mode::Search);
    for c in "no such text".chars() {
        app_interactor.push_text_input(c);
    }
    assert_eq!(app_interactor.filter(), Ok(()));
    let info = app_interactor.generate_info();
    assert_eq!(info.kakisute_list.len(), 0);
    assert_eq!(info.index, None);
    assert_eq!(info.content, None);
    assert!(!app_interactor.is_kakisute_selected());
    assert_eq!(app_interactor.get_selected_kakisute_content(), None);
    assert_eq!(app_interactor.edit_kakisute(), Err(SessionError::NoSelection));
}

#[test]
fn filter_stops_at_a_note_that_cannot_be_read() {
    let service = three_notes();
    service.unreadable.borrow_mut().push("2022_01_10_16_30_15_b.txt".to_string());
    let mut app_interactor = AppInteractor::new(&service);
    app_interactor.enter_mode(Mode::Search);
    for c in "cherry".chars() {
        app_interactor.push_text_input(c);
    }
    assert_eq!(app_interactor.filter(), Err(SessionError::Io));
    assert_eq!(app_interactor.generate_info().kakisute_list.len(), 3);
    service.unreadable.borrow_mut().clear();
    assert_eq!(app_interactor.filter(), Ok(()));
    assert_eq!(app_interactor.generate_info().kakisute_list, vec!["2022_02_01_08_00_00.txt".to_string()]);
}

#[test]
fn filter_with_an_invalid_query_keeps_the_view() {
    let service = three_notes();
    let mut app_interactor = AppInteractor::new(&service);
    app_interactor.enter_mode(Mode::Search);
    app_interactor.push_text_input('b');
    assert_eq!(app_interactor.filter(), Ok(()));
    assert_eq!(app_interactor.generate_info().kakisute_list.len(), 1);
    app_interactor.push_text_input('(');
    assert_eq!(app_interactor.filter(), Ok(()));
    assert_eq!(
        app_interactor.generate_info().kakisute_list,
        vec!["2022_01_10_16_30_15_b.txt".to_string()]
    );
}

#[test]
fn reload_starts_over() {
    let service = three_notes();
    let mut app_interactor = AppInteractor::new(&service);
    app_interactor.enter_mode(Mode::Search);
    app_interactor.push_text_input('b');
    assert_eq!(app_interactor.filter(), Ok(()));
    app_interactor.exit();
    service.stored.borrow_mut().push(("2023_01_01_00_00_00.txt".to_string(), "new".to_string()));
    assert_eq!(app_interactor.reload(), Ok(()));
    let info = app_interactor.generate_info();
    assert_eq!(info.mode, Mode::Normal);
    assert_eq!(info.search_query, "");
    assert_eq!(info.kakisute_list.len(), 4);
    assert_eq!(info.index, Some(0));
    assert!(app_interactor.is_exited());
}

#[test]
fn reload_twice_lists_the_same_notes() {
    let service = three_notes();
    let mut app_interactor = AppInteractor::new(&service);
    assert_eq!(app_interactor.reload(), Ok(()));
    let first = app_interactor.generate_info().kakisute_list;
    assert_eq!(app_interactor.reload(), Ok(()));
    let second = app_interactor.generate_info().kakisute_list;
    assert_eq!(first, second);
    assert_eq!(first.len(), 3);
}

#[test]
fn reload_forgets_cached_content() {
    let service = three_notes();
    let mut app_interactor = AppInteractor::new(&service);
    assert_eq!(app_interactor.get_selected_kakisute_content(), Some("select apple".to_string()));
    service.stored.borrow_mut()[1].1 = "select pear".to_string();
    assert_eq!(app_interactor.get_selected_kakisute_content(), Some("select apple".to_string()));
    assert_eq!(app_interactor.reload(), Ok(()));
    assert_eq!(app_interactor.get_selected_kakisute_content(), Some("select pear".to_string()));
}

#[test]
fn a_note_that_vanished_is_reported_as_not_found() {
    let service = three_notes();
    let mut app_interactor = AppInteractor::new(&service);
    service.listed.borrow_mut().clear();
    assert_eq!(app_interactor.edit_kakisute(), Err(SessionError::NotFound));
    assert_eq!(app_interactor.delete_kakisute(), Err(SessionError::NotFound));
    assert_eq!(app_interactor.get_selected_kakisute_content(), None);
    assert_eq!(app_interactor.filter(), Err(SessionError::NotFound));
    assert_eq!(app_interactor.generate_info().kakisute_list.len(), 3);
    assert_eq!(app_interactor.reload(), Ok(()));
    assert_eq!(app_interactor.generate_info().kakisute_list.len(), 3);
}
