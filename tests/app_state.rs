use fltk_app::{FontTable, Scheme, LOADED_FONT_INDEX};

#[test]
fn scheme_names() {
    assert_eq!(Scheme::Base.name(), "base");
    assert_eq!(Scheme::Gtk.name(), "gtk+");
    assert_eq!(Scheme::Gleam.name(), "gleam");
    assert_eq!(Scheme::Plastic.name(), "plastic");
}

#[test]
fn scheme_codes() {
    assert_eq!(Scheme::from_code(0), Some(Scheme::Base));
    assert_eq!(Scheme::from_code(1), Some(Scheme::Gtk));
    assert_eq!(Scheme::from_code(2), Some(Scheme::Gleam));
    assert_eq!(Scheme::from_code(3), Some(Scheme::Plastic));
    assert_eq!(Scheme::from_code(4), None);
    assert_eq!(Scheme::from_code(-1), None);
}

#[test]
fn builtin_fonts() {
    let table = FontTable::builtin();
    assert_eq!(table.font_count(), 16);
    assert_eq!(table.font_name(0), Some(String::from("Helvetica")));
    assert_eq!(table.font_name(15), Some(String::from("Zapfdingbats")));
    assert_eq!(table.font_name(16), None);
    assert_eq!(table.font_index("Courier"), Some(4));
    assert_eq!(table.font_index("Nope"), None);
    assert_eq!(table.fonts().len(), 16);
    assert_eq!(table.fonts()[8], "Times");
}

#[test]
fn loaded_font_takes_index_sixteen() {
    let mut table = FontTable::builtin();
    table.register_loaded(String::from("Fira"));
    assert_eq!(table.font_count(), 17);
    assert_eq!(table.font_index("Fira"), Some(LOADED_FONT_INDEX));
    table.register_loaded(String::from("Noto"));
    assert_eq!(table.font_count(), 17);
    assert_eq!(table.font_name(16), Some(String::from("Noto")));
    assert_eq!(table.font_index("Fira"), None);
}

#[test]
fn system_font_table() {
    let names = vec![String::from("A"), String::from("B"), String::from("A")];
    let mut table = FontTable::from_names(names);
    assert_eq!(table.font_index("A"), Some(0));
    assert_eq!(table.font_index("B"), Some(1));
    table.register_loaded(String::from("C"));
    assert_eq!(table.font_index("C"), Some(3));
}
