use defmthost::gui::window::binary::event::Event;
use defmthost::gui::window::binary::inspection::{size_unit, CurrentView, Inspection, InspectionView, SizeUnit};
use defmthost::gui::window::binary::object::{BinaryObject, SectionHeader, Symbol, SymbolKind};
use defmthost::gui::window::binary::search::index::SubstringIndex;
use defmthost::gui::window::binary::search::sort::sort_entries;
use defmthost::gui::window::binary::search::{substrings, SearchEngine};
use defmthost::gui::window::binary::{BinaryWindow, BinaryWindowComponent};
use defmthost::gui::Message;
use std::sync::Arc;

fn section(name: &str) -> SectionHeader {
    SectionHeader { name: name.to_string(), filesize: 16, vaddr: 0x2000_0000 }
}

fn symbol(name: &str, kind: SymbolKind) -> Symbol {
    Symbol {
        name: name.to_string(),
        kind,
        typename: String::from("t"),
        value: 0x0800_0100,
        size: 4,
        bind: String::from("GLOBAL"),
    }
}

fn object() -> BinaryObject {
    BinaryObject {
        architecture: String::from("ARM"),
        os: String::from("None"),
        endianness: String::from("Little"),
        programs: 2,
        sections: vec![section(""), section(".text"), section(".data"), section(".bss")],
        symbols: vec![
            symbol("", SymbolKind::Other),
            symbol("main", SymbolKind::Function),
            symbol("BUFFER", SymbolKind::Object),
            symbol("main_loop", SymbolKind::Function),
            symbol("$d", SymbolKind::Other),
        ],
    }
}

fn names(v: &[(usize, String)]) -> Vec<(usize, &str)> {
    v.iter().map(|(i, n)| (*i, n.as_str())).collect()
}

fn get(index: &SubstringIndex, key: &str) -> Option<Vec<usize>> {
    index.get(key).cloned()
}

#[test]
fn substrings_index_every_substring_of_two_chars_or_more() {
    let index = substrings(&vec![String::new(), String::from("Text"), String::from("data")]);
    assert_eq!(get(&index, "te"), Some(vec![1]));
    assert_eq!(get(&index, "ext"), Some(vec![1]));
    assert_eq!(get(&index, "text"), Some(vec![1]));
    assert_eq!(get(&index, "at"), Some(vec![2]));
    assert_eq!(get(&index, "ata"), Some(vec![2]));
    assert_eq!(get(&index, "t"), None);
    assert_eq!(get(&index, ""), None);
    assert_eq!(get(&index, "xd"), None);
}

#[test]
fn substrings_are_lower_cased() {
    let index = substrings(&vec![String::from("ABc")]);
    assert_eq!(get(&index, "ab"), Some(vec![0]));
    assert_eq!(get(&index, "abc"), Some(vec![0]));
    assert_eq!(get(&index, "AB"), None);
}

#[test]
fn substrings_list_a_name_once_per_occurrence() {
    let index = substrings(&vec![String::from("aaa"), String::from("xaa")]);
    assert_eq!(get(&index, "aa"), Some(vec![0, 0, 1]));
    assert_eq!(get(&index, "aaa"), Some(vec![0]));
}

#[test]
fn substring_index_push_and_get() {
    let mut index = SubstringIndex::new();
    assert_eq!(get(&index, "k"), None);
    index.push(String::from("k"), 3);
    index.push(String::from("j"), 1);
    index.push(String::from("k"), 2);
    assert_eq!(get(&index, "k"), Some(vec![3, 2]));
    assert_eq!(get(&index, "j"), Some(vec![1]));
}

#[test]
fn sort_entries_orders_by_name_then_position() {
    let v = vec![(2, String::from("b")), (1, String::from("a")), (0, String::from("b")), (5, String::from("B"))];
    let out = sort_entries(&v);
    assert_eq!(names(&out), vec![(5, "B"), (1, "a"), (0, "b"), (2, "b")]);
}

#[test]
fn empty_query_lists_every_section_but_the_first() {
    let engine = SearchEngine::new(7, Arc::new(object()));
    assert_eq!(engine.id, 7);
    assert!(engine.input.is_empty());
    assert_eq!(names(&engine.section_results()), vec![(3, ".bss"), (2, ".data"), (1, ".text")]);
    assert_eq!(
        names(&engine.symbol_results()),
        vec![(4, "$d"), (2, "BUFFER"), (1, "main"), (3, "main_loop")]
    );
}

#[test]
fn query_finds_the_names_that_hold_it() {
    let mut engine = SearchEngine::new(0, Arc::new(object()));
    engine.input = String::from("ta");
    assert_eq!(names(&engine.section_results()), vec![(2, ".data")]);
    engine.input = String::from("ai");
    assert_eq!(names(&engine.symbol_results()), vec![(1, "main"), (3, "main_loop")]);
    engine.input = String::from("buf");
    assert_eq!(names(&engine.symbol_results()), vec![(2, "BUFFER")]);
}

#[test]
fn query_is_not_lower_cased() {
    let mut engine = SearchEngine::new(0, Arc::new(object()));
    engine.input = String::from("TA");
    assert!(engine.section_results().is_empty());
    engine.input = String::from("t");
    assert!(engine.section_results().is_empty());
}

#[test]
fn symbol_filters_hide_kinds() {
    let mut engine = SearchEngine::new(0, Arc::new(object()));
    engine.symfunctions = false;
    assert_eq!(names(&engine.symbol_results()), vec![(4, "$d"), (2, "BUFFER")]);
    engine.symother = false;
    engine.symfunctions = true;
    engine.symobjects = false;
    assert_eq!(names(&engine.symbol_results()), vec![(1, "main"), (3, "main_loop")]);
    engine.input = String::from("ma");
    engine.symfunctions = false;
    assert!(engine.symbol_results().is_empty());
}

#[test]
fn repeated_substring_lists_the_name_twice() {
    let mut obj = object();
    obj.sections.push(section("aaa"));
    let mut engine = SearchEngine::new(0, Arc::new(obj));
    engine.input = String::from("aa");
    assert_eq!(names(&engine.section_results()), vec![(4, "aaa"), (4, "aaa")]);
}

#[test]
fn object_names() {
    let obj = object();
    assert_eq!(obj.section_names(), vec!["", ".text", ".data", ".bss"]);
    assert_eq!(obj.symbol_names(), vec!["", "main", "BUFFER", "main_loop", "$d"]);
}

#[test]
fn size_units_at_their_bounds() {
    assert_eq!(size_unit(0), SizeUnit::Bytes);
    assert_eq!(size_unit(1023), SizeUnit::Bytes);
    assert_eq!(size_unit(1024), SizeUnit::KiB);
    assert_eq!(size_unit(1048576), SizeUnit::KiB);
    assert_eq!(size_unit(1048577), SizeUnit::MiB);
    assert_eq!(size_unit(1073741824), SizeUnit::MiB);
    assert_eq!(size_unit(1073741825), SizeUnit::GiB);
    assert_eq!(SizeUnit::Bytes.divisor(), 1);
    assert_eq!(SizeUnit::KiB.divisor(), 1024);
    assert_eq!(SizeUnit::MiB.divisor(), 1048576);
    assert_eq!(SizeUnit::GiB.divisor(), 1073741824);
    assert_eq!(SizeUnit::Bytes.suffix(), "B");
    assert_eq!(SizeUnit::KiB.suffix(), "kiB");
    assert_eq!(SizeUnit::MiB.suffix(), "MiB");
    assert_eq!(SizeUnit::GiB.suffix(), "GiB");
}

#[test]
fn inspection_follows_open_and_close() {
    let mut view = InspectionView::new(1, Arc::new(object()));
    assert_eq!(view.inspection(), Inspection::Nothing);
    view.opensection(1);
    assert_eq!(view.selected, Some(CurrentView::Section(1)));
    assert_eq!(view.inspection(), Inspection::MissingSection);
    view.addsection(1);
    assert_eq!(view.inspection(), Inspection::Section(1));
    view.closesection(1);
    assert_eq!(view.inspection(), Inspection::MissingSection);
    view.addsymbol(2);
    view.opensymbol(2);
    assert_eq!(view.inspection(), Inspection::Symbol(2, SymbolKind::Object));
    view.closesymbol(2);
    assert_eq!(view.inspection(), Inspection::MissingSymbol);
}

#[test]
fn closing_undoes_opening() {
    let mut view = InspectionView::new(1, Arc::new(object()));
    view.addsection(3);
    let before = view.sections.clone();
    view.addsection(2);
    view.closesection(2);
    assert_eq!(view.sections, before);
}

#[test]
fn window_routes_events() {
    let mut w = BinaryWindow::new(4, Arc::new(object()), String::from("/tmp/fw.elf"));
    assert_eq!(w.search.id, 4);
    assert_eq!(w.inspection.id, 4);
    w.update(Event::SearchInput(String::from("da")));
    assert_eq!(w.search.input, "da");
    assert_eq!(names(&w.search.section_results()), vec![(2, ".data")]);
    w.update(Event::SetSymObjects(false));
    w.update(Event::SetSymFunctions(false));
    w.update(Event::SetSymOther(false));
    assert!(!w.search.symobjects && !w.search.symfunctions && !w.search.symother);
    w.update(Event::OpenSection(2));
    w.update(Event::ViewSection(2));
    assert_eq!(w.inspection.inspection(), Inspection::Section(2));
    w.update(Event::OpenSymbol(1));
    w.update(Event::ViewSymbol(1));
    assert_eq!(w.inspection.inspection(), Inspection::Symbol(1, SymbolKind::Function));
    w.update(Event::CloseSymbol(1));
    assert_eq!(w.inspection.inspection(), Inspection::MissingSymbol);
    w.update(Event::CloseSection(2));
    assert!(w.inspection.sections.is_empty());
    assert_eq!(w.path, "/tmp/fw.elf");
}

#[test]
fn event_global_wraps_in_window_message() {
    match Event::ViewSection(3).global(9) {
        Message::BinaryWindow(9, Event::ViewSection(3)) => {},
        other => panic!("unexpected {:?}", other),
    }
    assert_ne!(BinaryWindowComponent::Info, BinaryWindowComponent::Search);
}

#[test]
fn search_entries_open_their_element_in_the_window() {
    let mut engine = SearchEngine::new(7, Arc::new(object()));
    let sections = engine.section_entries();
    let found: Vec<(usize, &str)> = sections.iter().map(|(i, n, _)| (*i, n.as_str())).collect();
    assert_eq!(found, vec![(3, ".bss"), (2, ".data"), (1, ".text")]);
    for (i, _, m) in &sections {
        assert!(matches!(m, Message::BinaryWindow(7, Event::OpenSection(j)) if j == i));
    }
    engine.input = String::from("ai");
    let symbols = engine.symbol_entries();
    let found: Vec<(usize, &str)> = symbols.iter().map(|(i, n, _)| (*i, n.as_str())).collect();
    assert_eq!(found, vec![(1, "main"), (3, "main_loop")]);
    assert!(matches!(symbols[0].2, Message::BinaryWindow(7, Event::OpenSymbol(1))));
    assert!(matches!(symbols[1].2, Message::BinaryWindow(7, Event::OpenSymbol(3))));
}

#[test]
fn open_rows_inspect_and_close_their_element() {
    let mut view = InspectionView::new(5, Arc::new(object()));
    assert!(view.section_rows().is_empty());
    view.addsection(1);
    view.addsection(3);
    let mut rows = view.section_rows();
    rows.sort_by_key(|r| r.0);
    assert_eq!(rows.len(), 2);
    assert_eq!((rows[0].0, rows[0].1.as_str()), (1, ".text"));
    assert_eq!((rows[1].0, rows[1].1.as_str()), (3, ".bss"));
    assert!(matches!(rows[0].2, Message::BinaryWindow(5, Event::ViewSection(1))));
    assert!(matches!(rows[0].3, Message::BinaryWindow(5, Event::CloseSection(1))));
    assert!(matches!(rows[1].3, Message::BinaryWindow(5, Event::CloseSection(3))));
    view.addsymbol(2);
    let rows = view.symbol_rows();
    assert_eq!(rows.len(), 1);
    assert_eq!((rows[0].0, rows[0].1.as_str()), (2, "BUFFER"));
    assert!(matches!(rows[0].2, Message::BinaryWindow(5, Event::ViewSymbol(2))));
    assert!(matches!(rows[0].3, Message::BinaryWindow(5, Event::CloseSymbol(2))));
}
