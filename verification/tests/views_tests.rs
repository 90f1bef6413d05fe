use marty::floppy_manager::{
    has_image_extension, name_before_or_equal, DirEntryInfo, FloppyError, FloppyManager,
};
use marty::pit_viewer::{PitStateEntry, PitViewerControl};
use marty::syntax_token::{fade_from_age, SyntaxToken, SyntaxTokenize, TOKEN_MAX_AGE};
use marty::token_listview::{
    is_ascii_of_selected, token_style, Advance, Rgb, TokenListView, TokenText,
};

fn hex(addr: u32, value: u8, age: u8) -> SyntaxToken {
    SyntaxToken::MemoryByteHexValue(addr, value, format!("{:02X}", value), false, age)
}

fn ascii(addr: u32, value: u8, age: u8) -> SyntaxToken {
    SyntaxToken::MemoryByteAsciiValue(addr, value, format!("{}", value as char), age)
}

fn age_of(t: &SyntaxToken) -> Option<u8> {
    match t {
        SyntaxToken::MemoryByteHexValue(_, _, _, _, a) => Some(*a),
        SyntaxToken::MemoryByteAsciiValue(_, _, _, a) => Some(*a),
        SyntaxToken::StateString(_, _, a) => Some(*a),
        _ => None,
    }
}

#[test]
fn default_token_is_null() {
    assert!(matches!(SyntaxToken::default(), SyntaxToken::NullToken));
    assert_eq!(TOKEN_MAX_AGE, 255);
    assert_eq!(fade_from_age(0), 255);
    assert_eq!(fade_from_age(255), 0);
    assert_eq!(fade_from_age(100), 155);
}

struct Pair(u8, u8);

impl SyntaxTokenize for Pair {
    fn tokenize(&self) -> Vec<SyntaxToken> {
        vec![hex(0, self.0, 0), SyntaxToken::Comma, hex(1, self.1, 0)]
    }
}

#[test]
fn tokenize_trait_can_be_implemented() {
    let row = Pair(1, 2).tokenize();
    assert_eq!(row.len(), 3);
    assert!(matches!(row[1], SyntaxToken::Comma));
}

#[test]
fn new_list_view() {
    let v = TokenListView::new();
    assert_eq!(v.row, 0);
    assert_eq!(v.previous_row, 0);
    assert_eq!(v.visible_rows, 16);
    assert_eq!(v.max_rows, 0);
    assert!(v.contents.is_empty());
    assert_eq!(v.hover_text, "");
}

#[test]
fn setters() {
    let mut v = TokenListView::new();
    v.set_visible(8);
    v.set_capacity(4096);
    v.set_hover_text("byte".to_string());
    assert_eq!(v.visible_rows, 8);
    assert_eq!(v.max_rows, 4096);
    assert_eq!(v.hover_text, "byte");
    assert_eq!(v.rows_to_show(), 0);
    v.set_contents(vec![vec![], vec![], vec![]]);
    assert_eq!(v.rows_to_show(), 3);
    v.set_visible(2);
    assert_eq!(v.rows_to_show(), 2);
}

#[test]
fn contents_of_a_new_size_get_the_maximum_age() {
    let mut v = TokenListView::new();
    v.set_contents(vec![vec![
        SyntaxToken::MemoryAddressFlat(0, "00000".to_string()),
        hex(0, 0x41, 7),
        ascii(0, 0x41, 9),
        SyntaxToken::StateString("x".to_string(), false, 3),
    ]]);
    assert_eq!(age_of(&v.contents[0][1]), Some(255));
    assert_eq!(age_of(&v.contents[0][2]), Some(255));
    assert_eq!(age_of(&v.contents[0][3]), Some(3));
    assert!(matches!(v.contents[0][0], SyntaxToken::MemoryAddressFlat(0, _)));
}

#[test]
fn unchanged_bytes_age_by_two_and_changed_bytes_keep_their_age() {
    let mut v = TokenListView::new();
    v.set_contents(vec![vec![hex(0, 1, 0), hex(1, 2, 0), ascii(0, 1, 0), hex(3, 3, 0)]]);
    // All at 255 now. Same size next: ages are taken from what is shown.
    v.set_contents(vec![vec![hex(0, 1, 0), hex(1, 9, 0), ascii(0, 1, 4), hex(7, 3, 10)]]);
    assert_eq!(age_of(&v.contents[0][0]), Some(255));
    assert_eq!(age_of(&v.contents[0][1]), Some(0));
    assert_eq!(age_of(&v.contents[0][2]), Some(255));
    assert_eq!(age_of(&v.contents[0][3]), Some(255));
    v.set_contents(vec![vec![hex(0, 1, 0), hex(1, 9, 0), ascii(0, 2, 4), hex(7, 3, 10)]]);
    assert_eq!(age_of(&v.contents[0][0]), Some(255));
    assert_eq!(age_of(&v.contents[0][1]), Some(2));
    assert_eq!(age_of(&v.contents[0][2]), Some(4));
    assert_eq!(age_of(&v.contents[0][3]), Some(255));
    v.set_contents(vec![vec![hex(0, 1, 0), hex(1, 9, 0), ascii(0, 2, 0)]]);
    assert_eq!(age_of(&v.contents[0][1]), Some(4));
    assert_eq!(age_of(&v.contents[0][2]), Some(6));
    assert_eq!(v.contents[0].len(), 3);
}

#[test]
fn tokens_of_different_kinds_are_left_alone() {
    let mut v = TokenListView::new();
    v.set_contents(vec![vec![hex(0, 1, 0), SyntaxToken::Comma]]);
    v.set_contents(vec![vec![ascii(0, 1, 5), hex(1, 1, 6), hex(2, 2, 7)]]);
    assert_eq!(age_of(&v.contents[0][0]), Some(5));
    assert_eq!(age_of(&v.contents[0][1]), Some(6));
    assert_eq!(age_of(&v.contents[0][2]), Some(7));
}

#[test]
fn age_against_and_max_age_on_single_tokens() {
    let mut t = hex(5, 1, 0);
    t.age_against(&hex(5, 1, 254));
    assert_eq!(age_of(&t), Some(255));
    let mut t = hex(5, 1, 0);
    t.age_against(&hex(5, 1, 10));
    assert_eq!(age_of(&t), Some(12));
    let mut t = SyntaxToken::Text("a".to_string());
    t.set_max_age();
    assert!(matches!(t, SyntaxToken::Text(_)));
    let mut s = SyntaxToken::StateString("a".to_string(), true, 9);
    assert_eq!(s.state_age(), Some((true, 9)));
    s.set_state_age(1);
    assert_eq!(s.state_age(), Some((true, 1)));
    assert_eq!(hex(0, 0, 0).state_age(), None);
}

#[test]
fn scrolling_places_the_window_and_asks_for_contents() {
    let mut v = TokenListView::new();
    v.set_capacity(100);
    v.set_visible(16);
    assert_eq!(v.scroll_to(0, 17), None);
    assert_eq!(v.row, 0);
    assert_eq!(v.scroll_to(37, 54), Some(32));
    assert_eq!(v.row, 37);
    assert_eq!(v.previous_row, 37);
    assert_eq!(v.scroll_to(37, 54), None);
    // The window may not start beyond row 84.
    assert_eq!(v.scroll_to(95, 112), Some(80));
    assert_eq!(v.row, 84);
    assert_eq!(v.scroll_to(16, 33), Some(16));
    assert_eq!(v.scroll_to(15, 32), Some(0));
    assert_eq!(v.row, 15);
}

#[test]
fn token_styles() {
    let s = token_style(&hex(0, 0, 0));
    assert_eq!(s.color, Rgb { r: 160, g: 160, b: 160 });
    assert_eq!(s.fade_to, Some(Rgb { r: 0, g: 255, b: 255 }));
    assert_eq!(s.advance, Advance::LabelWidth(7));
    assert!(s.hoverable);
    let s = token_style(&ascii(0, 65, 0));
    assert_eq!(s.color, Rgb { r: 220, g: 220, b: 220 });
    assert_eq!(s.advance, Advance::AfterText(2));
    assert!(!s.hoverable);
    let s = token_style(&SyntaxToken::Mnemonic("mov".to_string()));
    assert_eq!(s.color, Rgb { r: 128, g: 255, b: 158 });
    assert_eq!(s.advance, Advance::FromStart(45));
    let s = token_style(&SyntaxToken::MemoryAddressFlat(0, String::new()));
    assert_eq!(s.advance, Advance::AfterText(10));
    assert_eq!(s.text, TokenText::Own);
    let s = token_style(&SyntaxToken::Comma);
    assert_eq!((s.text, s.advance), (TokenText::Comma, Advance::AfterText(6)));
    let s = token_style(&SyntaxToken::OpenBracket);
    assert_eq!((s.text, s.advance), (TokenText::OpenBracket, Advance::AfterText(1)));
    assert_eq!(s.color, Rgb { r: 228, g: 214, b: 116 });
    let s = token_style(&SyntaxToken::CloseBracket);
    assert_eq!((s.text, s.advance), (TokenText::CloseBracket, Advance::AfterText(2)));
    let s = token_style(&SyntaxToken::Register("ax".to_string()));
    assert_eq!(s.color, Rgb { r: 245, g: 138, b: 52 });
    let s = token_style(&SyntaxToken::InstructionBytes(String::new()));
    assert_eq!(s.color, Rgb { r: 6, g: 152, b: 255 });
    let s = token_style(&SyntaxToken::Prefix(String::new()));
    assert_eq!(s.color, Rgb { r: 116, g: 228, b: 227 });
    let s = token_style(&SyntaxToken::HexValue(String::new()));
    assert_eq!(s.color, Rgb { r: 96, g: 200, b: 210 });
    let s = token_style(&SyntaxToken::Displacement(String::new()));
    assert_eq!(s.color, Rgb { r: 96, g: 200, b: 210 });
    let s = token_style(&SyntaxToken::ErrorString(String::new()));
    assert_eq!(s.color, Rgb { r: 255, g: 0, b: 0 });
    let s = token_style(&SyntaxToken::NullToken);
    assert_eq!((s.text, s.color), (TokenText::Missing, Rgb { r: 255, g: 255, b: 255 }));
    let s = token_style(&SyntaxToken::ErrorText(String::new()));
    assert_eq!(s.text, TokenText::Missing);
    let s = token_style(&SyntaxToken::PlusSign);
    assert_eq!(s.text, TokenText::Plus);
    let s = token_style(&SyntaxToken::Colon);
    assert_eq!(s.text, TokenText::Colon);
}

#[test]
fn ascii_column_of_the_selected_byte() {
    assert!(is_ascii_of_selected(17, 1));
    assert!(!is_ascii_of_selected(17, 2));
    assert!(!is_ascii_of_selected(3, 32));
    assert!(is_ascii_of_selected(16, 0));
}

fn entry(key: &str, text: &str, dirty: bool, age: u8) -> PitStateEntry {
    PitStateEntry {
        key: key.to_string(),
        token: SyntaxToken::StateString(text.to_string(), dirty, age),
    }
}

#[test]
fn pit_state_ages() {
    let mut v = PitViewerControl::new();
    assert!(v.pit_state().is_empty());
    v.update_state(vec![vec![entry("mode", "2", false, 9), entry("count", "10", true, 9)]]);
    // Nothing was shown: the clean value keeps its age, the dirty one starts.
    assert_eq!(age_of(&v.pit_state()[0][0].token), Some(9));
    assert_eq!(age_of(&v.pit_state()[0][1].token), Some(0));
    v.update_state(vec![
        vec![entry("count", "10", false, 77), entry("mode", "2", false, 77)],
        vec![entry("mode", "3", false, 5)],
    ]);
    assert_eq!(age_of(&v.pit_state()[0][0].token), Some(2));
    assert_eq!(age_of(&v.pit_state()[0][1].token), Some(11));
    assert_eq!(age_of(&v.pit_state()[1][0].token), Some(5));
    v.update_state(vec![vec![
        entry("gate", "1", false, 40),
        PitStateEntry { key: "mode".to_string(), token: SyntaxToken::Comma },
    ]]);
    assert_eq!(age_of(&v.pit_state()[0][0].token), Some(40));
    assert!(matches!(v.pit_state()[0][1].token, SyntaxToken::Comma));
    assert_eq!(v.pit_state().len(), 1);
}

#[test]
fn pit_state_age_stops_at_255() {
    let mut v = PitViewerControl::new();
    v.update_state(vec![vec![entry("a", "1", false, 254)]]);
    v.update_state(vec![vec![entry("a", "1", false, 0)]]);
    assert_eq!(age_of(&v.pit_state()[0][0].token), Some(255));
}

#[test]
fn pit_channel_data() {
    let mut v = PitViewerControl::new();
    v.update_channel_data(1, &[1, 0, 1]);
    v.update_channel_data(2, &[7]);
    assert_eq!(v.channel_data(0), &Vec::<u8>::new());
    assert_eq!(v.channel_data(1), &vec![1, 0, 1]);
    assert_eq!(v.channel_data(2), &vec![7]);
    v.update_channel_data(1, &[]);
    assert!(v.channel_data(1).is_empty());
}

fn file(name: &str, size: u64) -> DirEntryInfo {
    DirEntryInfo { name: name.to_string(), path: format!("/floppy/{}", name), is_file: true, size }
}

#[test]
fn image_names() {
    for good in ["a.img", "A.IMG", "disk.Ima", "x.y.iMg", "..img", "dos 3.3.IMA"] {
        assert!(has_image_extension(&good.to_string()), "{}", good);
    }
    for bad in [".img", "img", "a.im", "a.imgs", "a.imx", "aimg", "", "a.img ", "a.jmg"] {
        assert!(!has_image_extension(&bad.to_string()), "{}", bad);
    }
}

#[test]
fn scan_lists_image_files_only() {
    let mut m = FloppyManager::new();
    let mut dir = file("sub.img", 0);
    dir.is_file = false;
    let r = m.scan_dir(Some(vec![
        file("dos.img", 368640),
        file("readme.txt", 10),
        dir,
        file("GAME.IMA", 737280),
    ]));
    assert_eq!(r, Ok(true));
    assert_eq!(m.get_floppy_names(), vec!["dos.img".to_string(), "GAME.IMA".to_string()]);
    let img = m.find_image(&"GAME.IMA".to_string()).unwrap();
    assert_eq!(img.size(), 737280);
    assert_eq!(img.path(), "/floppy/GAME.IMA");
    assert!(m.find_image(&"readme.txt".to_string()).is_none());
    assert!(m.find_image(&"game.ima".to_string()).is_none());
}

#[test]
fn scan_of_a_missing_directory_keeps_the_lists() {
    let mut m = FloppyManager::new();
    m.scan_dir(Some(vec![file("a.img", 1)])).unwrap();
    assert_eq!(m.scan_dir(None), Err(FloppyError::DirNotFound));
    assert_eq!(m.get_floppy_names(), vec!["a.img".to_string()]);
    assert_eq!(m.scan_dir(Some(vec![])), Ok(true));
    assert!(m.get_floppy_names().is_empty());
}

#[test]
fn names_are_sorted_without_regard_to_case() {
    let mut m = FloppyManager::new();
    m.scan_dir(Some(vec![
        file("zork.img", 1),
        file("Alpha.img", 2),
        file("beta.IMG", 3),
        file("alpha2.img", 4),
        file("Beta.ima", 5),
        file("_x.img", 6),
    ]))
    .unwrap();
    assert_eq!(
        m.get_floppy_names(),
        vec!["Alpha.img", "alpha2.img", "Beta.ima", "beta.IMG", "zork.img", "_x.img"]
    );
    assert!(name_before_or_equal(&"abc".to_string(), &"ABD".to_string()));
    assert!(name_before_or_equal(&"ABC".to_string(), &"abc".to_string()));
    assert!(name_before_or_equal(&"ab".to_string(), &"abc".to_string()));
    assert!(!name_before_or_equal(&"abc".to_string(), &"ab".to_string()));
    assert!(!name_before_or_equal(&"b".to_string(), &"A".to_string()));
    assert!(name_before_or_equal(&"".to_string(), &"".to_string()));
}

#[test]
fn a_name_seen_twice_stands_for_the_last_image() {
    let mut m = FloppyManager::new();
    m.scan_dir(Some(vec![file("a.img", 1), file("b.img", 2), file("a.img", 3)])).unwrap();
    assert_eq!(m.get_floppy_names(), vec!["a.img", "b.img"]);
    assert_eq!(m.find_image(&"a.img".to_string()).unwrap().size(), 3);
}

#[test]
fn loading_image_data() {
    let mut m = FloppyManager::new();
    m.scan_dir(Some(vec![file("a.img", 3)])).unwrap();
    let name = "a.img".to_string();
    assert_eq!(m.load_floppy_data(&name, Some(vec![1, 2, 3])), Ok(vec![1, 2, 3]));
    assert_eq!(m.load_floppy_data(&name, None), Err(FloppyError::FileReadError));
    let other = "b.img".to_string();
    assert_eq!(m.load_floppy_data(&other, None), Ok(vec![]));
    assert_eq!(m.load_floppy_data(&other, Some(vec![9])), Ok(vec![]));
}

#[test]
fn error_messages() {
    assert_eq!(FloppyError::DirNotFound.message(), "Couldn't find the requested directory.");
    assert_eq!(FloppyError::FileReadError.message(), "A file read error occurred.");
}
