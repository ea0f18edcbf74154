use kakisute::error::SessionError;
use kakisute::filtered_list::FilteredList;

fn corpus_of(entries: &[&str]) -> Vec<String> {
    entries.iter().map(|entry| entry.to_string()).collect()
}

fn mapping_of(filtered_list: &mut FilteredList, size: usize) -> Vec<usize> {
    let labels: Vec<String> = (0..size).map(|position| position.to_string()).collect();
    let names: Vec<&str> = labels.iter().map(|label| label.as_str()).collect();
    filtered_list
        .get_kakisute_file_name_list(names)
        .iter()
        .map(|label| label.parse::<usize>().unwrap())
        .collect()
}

#[test]
fn empty_filtered_list_has_no_selection() {
    let filtered_list = FilteredList::new(0);
    assert!(!filtered_list.is_some());
    assert_eq!(filtered_list.get_index(), Err(SessionError::NoSelection));
    assert_eq!(filtered_list.get_original_index(), Err(SessionError::NoSelection));
}

#[test]
fn empty_filtered_list_shows_nothing() {
    let filtered_list = FilteredList::new(0);
    assert_eq!(filtered_list.get_kakisute_file_name_list(vec!["a", "b"]).len(), 0);
}

#[test]
fn new_maps_every_position_to_itself() {
    let mut filtered_list = FilteredList::new(4);
    assert_eq!(mapping_of(&mut filtered_list, 4), vec![0, 1, 2, 3]);
    assert_eq!(filtered_list.get_index(), Ok(0));
    assert_eq!(filtered_list.get_original_index(), Ok(0));
}

#[test]
fn empty_query_covers_all_positions_in_order() {
    let corpus = corpus_of(&["alpha", "", "beta\ngamma", "\u{0}", "delta", ""]);
    let mut filtered_list = FilteredList::new(6);
    assert_eq!(filtered_list.filter("b", corpus.clone()), Ok(()));
    assert_eq!(mapping_of(&mut filtered_list, 6), vec![2]);
    assert_eq!(filtered_list.filter("", corpus), Ok(()));
    assert_eq!(mapping_of(&mut filtered_list, 6), vec![0, 1, 2, 3, 4, 5]);
    assert_eq!(filtered_list.get_index(), Ok(0));
}

#[test]
fn query_matching_positions_2_and_5_of_6() {
    let corpus = corpus_of(&["one", "two", "needle a", "four", "five", "b needle"]);
    let mut filtered_list = FilteredList::new(6);
    filtered_list.select_next();
    filtered_list.select_next();
    filtered_list.select_next();
    assert_eq!(filtered_list.filter("needle", corpus), Ok(()));
    assert_eq!(mapping_of(&mut filtered_list, 6), vec![2, 5]);
    assert_eq!(filtered_list.get_index(), Ok(0));
    assert_eq!(filtered_list.get_original_index(), Ok(2));
    filtered_list.select_next();
    assert_eq!(filtered_list.get_index(), Ok(1));
    assert_eq!(filtered_list.get_original_index(), Ok(5));
    filtered_list.select_next();
    assert_eq!(filtered_list.get_original_index(), Ok(2));
}

#[test]
fn query_is_read_as_a_regular_expression() {
    let corpus = corpus_of(&["2022_01_10.txt", "note.sql", "2023_05_01_x.sql", "abc"]);
    let mut filtered_list = FilteredList::new(4);
    assert_eq!(filtered_list.filter("^2.*sql$", corpus.clone()), Ok(()));
    assert_eq!(mapping_of(&mut filtered_list, 4), vec![2]);
    assert_eq!(filtered_list.filter("a|q", corpus.clone()), Ok(()));
    assert_eq!(mapping_of(&mut filtered_list, 4), vec![1, 2, 3]);
    assert_eq!(filtered_list.filter("\\d{4}_\\d{2}", corpus), Ok(()));
    assert_eq!(mapping_of(&mut filtered_list, 4), vec![0, 2]);
}

#[test]
fn query_matches_inside_the_content_lines() {
    let corpus = corpus_of(&["a.txtfirst line\nsecond line", "b.txtnothing here"]);
    let mut filtered_list = FilteredList::new(2);
    assert_eq!(filtered_list.filter("second", corpus), Ok(()));
    assert_eq!(mapping_of(&mut filtered_list, 2), vec![0]);
}

#[test]
fn invalid_query_keeps_the_previous_view() {
    let corpus = corpus_of(&["one", "two", "three"]);
    let mut filtered_list = FilteredList::new(3);
    assert_eq!(filtered_list.filter("t", corpus.clone()), Ok(()));
    filtered_list.select_next();
    assert_eq!(mapping_of(&mut filtered_list, 3), vec![1, 2]);
    assert_eq!(filtered_list.filter("(", corpus.clone()), Ok(()));
    assert_eq!(mapping_of(&mut filtered_list, 3), vec![1, 2]);
    assert_eq!(filtered_list.get_index(), Ok(1));
    assert_eq!(filtered_list.get_original_index(), Ok(2));
    assert_eq!(filtered_list.filter("[a-", corpus), Ok(()));
    assert_eq!(mapping_of(&mut filtered_list, 3), vec![1, 2]);
}

#[test]
fn query_matching_nothing_leaves_no_selection() {
    let corpus = corpus_of(&["one", "two", "three"]);
    let mut filtered_list = FilteredList::new(3);
    assert_eq!(filtered_list.filter("zzz", corpus), Ok(()));
    assert_eq!(mapping_of(&mut filtered_list, 3), Vec::<usize>::new());
    assert!(!filtered_list.is_some());
    assert_eq!(filtered_list.get_index(), Err(SessionError::NoSelection));
    assert_eq!(filtered_list.get_original_index(), Err(SessionError::NoSelection));
    filtered_list.select_next();
    filtered_list.select_previous_n(3);
    assert!(!filtered_list.is_some());
}

#[test]
fn filter_on_an_empty_corpus_shows_nothing() {
    let mut filtered_list = FilteredList::new(0);
    assert_eq!(filtered_list.filter("", Vec::new()), Ok(()));
    assert!(!filtered_list.is_some());
}

#[test]
fn selection_moves_inside_the_filtered_view() {
    let mut filtered_list = FilteredList::new(5);
    filtered_list.select_next_n(3);
    assert_eq!(filtered_list.get_index(), Ok(3));
    filtered_list.select_next_n(3);
    assert_eq!(filtered_list.get_index(), Ok(4));
    filtered_list.select_previous_n(2);
    assert_eq!(filtered_list.get_index(), Ok(2));
    filtered_list.select_previous();
    assert_eq!(filtered_list.get_original_index(), Ok(1));
    filtered_list.select_previous_n(9);
    assert_eq!(filtered_list.get_index(), Ok(0));
    filtered_list.select_previous();
    assert_eq!(filtered_list.get_index(), Ok(4));
}

#[test]
fn names_outside_the_given_list_are_left_out() {
    let filtered_list = FilteredList::new(4);
    assert_eq!(filtered_list.get_kakisute_file_name_list(vec!["a", "b"]), vec!["a", "b"]);
}
