use mountui::app::Tab;

#[test]
fn tab_index_round_trip() {
    assert_eq!(Tab::from_index(Tab::Bookmarks.index()), Tab::Bookmarks);
}

#[test]
fn all_tabs_in_bar_order() {
    assert_eq!(Tab::ALL.len(), 3);
    for (i, t) in Tab::ALL.iter().enumerate() {
        assert_eq!(t.index(), i);
        assert_eq!(Tab::from_index(i), *t);
    }
    assert_eq!(Tab::ALL[2].title(), "Mount Points");
}
