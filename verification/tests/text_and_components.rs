use javelin::adapter::components::data_table::DataTable;
use javelin::adapter::components::event_log::{EventLog, LogLevel};
use javelin::adapter::components::event_viewer::{EventInfo, EventViewer};
use javelin::adapter::components::form::Form;
use javelin::adapter::components::input_field::{InputBoxStyle, InputField};
use javelin::adapter::components::list_selector::{ListItemData, ListSelector};
use javelin::adapter::components::loading_spinner::LoadingSpinner;
use javelin::adapter::components::menu::Menu;
use javelin::adapter::components::table::Table;
use javelin::adapter::input_mode::ModifyInputType;
use javelin::text::{format_fixed1, format_fixed2, format_i64, format_u64, group_digits, text_eq};

#[test]
fn integers_are_written_in_decimal() {
    assert_eq!(format_u64(0), "0");
    assert_eq!(format_u64(7), "7");
    assert_eq!(format_u64(1234567890), "1234567890");
    assert_eq!(format_u64(u64::MAX), "18446744073709551615");
    assert_eq!(format_i64(-42), "-42");
    assert_eq!(format_i64(i64::MIN), "-9223372036854775808");
    assert_eq!(format_i64(100000), "100000");
}

#[test]
fn fixed_point_numbers_keep_their_decimals() {
    assert_eq!(format_fixed2(1234), "12.34");
    assert_eq!(format_fixed2(-5), "-0.05");
    assert_eq!(format_fixed2(150), "1.50");
    assert_eq!(format_fixed2(0), "0.00");
    assert_eq!(format_fixed1(306), "30.6");
    assert_eq!(format_fixed1(-5), "-0.5");
}

#[test]
fn digits_are_grouped_by_thousands() {
    assert_eq!(group_digits("1234567"), "1,234,567");
    assert_eq!(group_digits("123"), "123");
    assert_eq!(group_digits("1234"), "1,234");
    assert_eq!(group_digits("123456"), "123,456");
    assert_eq!(group_digits(""), "");
    assert_eq!(InputField::format_number_with_commas("1000000"), "1,000,000");
    assert_eq!(InputField::format_number_with_commas(""), "");
    // grouping only inserts separators
    assert_eq!(group_digits("9876543210").replace(',', ""), "9876543210");
}

#[test]
fn texts_compare_by_characters() {
    assert!(text_eq("資産", "資産"));
    assert!(!text_eq("Asset", "Assets"));
    assert!(!text_eq("abc", "abd"));
    assert!(text_eq("", ""));
}

#[test]
fn input_field_respects_its_length_limit_in_characters() {
    let mut field = InputField::new("摘要".to_string()).with_max_length(3);
    field.set_value("あいう".to_string());
    assert_eq!(field.value(), "あいう");
    field.set_value("あいうえ".to_string());
    assert_eq!(field.value(), "あいう");
    field.start_modify();
    field.append_to_buffer('x');
    assert_eq!(field.temp_buffer(), "あいう");
    field.backspace_buffer();
    field.append_to_buffer('x');
    assert_eq!(field.temp_buffer(), "あいx");
    field.commit_buffer();
    assert_eq!(field.value(), "あいx");
}

#[test]
fn input_field_edit_cycle() {
    let mut field = InputField::new("金額".to_string()).with_value("100".to_string());
    field.start_modify();
    assert_eq!(field.temp_buffer(), "100");
    field.clear_buffer();
    assert_eq!(field.temp_buffer(), "");
    assert_eq!(field.value(), "100");
    field.backspace_buffer();
    assert_eq!(field.temp_buffer(), "");
    field.append_to_buffer('5');
    field.commit_buffer();
    assert_eq!(field.value(), "5");
}

#[test]
fn input_field_display() {
    let mut field = InputField::new("金額".to_string())
        .with_input_type(ModifyInputType::NumberOnly)
        .with_placeholder("0".to_string())
        .required();
    assert_eq!(field.input_type(), ModifyInputType::NumberOnly);
    assert!(field.is_required());
    assert_eq!(field.display_text(false), "0");
    field.set_value("1234567".to_string());
    assert_eq!(field.display_text(false), "1,234,567");
    assert_eq!(field.box_style(false), InputBoxStyle::Plain);
    assert_eq!(field.cursor(), "");
    field.set_focused(true);
    assert_eq!(field.box_style(false), InputBoxStyle::Focused);
    assert_eq!(field.box_style(true), InputBoxStyle::Editing);
    assert_eq!(field.cursor(), "_");
    field.start_modify();
    field.append_to_buffer('8');
    assert_eq!(field.display_text(true), "12,345,678");
    let ro = InputField::new("番号".to_string()).readonly();
    assert_eq!(ro.box_style(true), InputBoxStyle::Readonly);
    assert_eq!(ro.label(), "番号");
    let plain = InputField::new("x".to_string()).with_value("1234".to_string());
    assert_eq!(plain.display_text(false), "1234");
}

#[test]
fn form_lines() {
    let form = Form::new("仕訳".to_string())
        .add_field("日付".to_string(), "2024-01-15".to_string(), true)
        .add_field("摘要".to_string(), "売上".to_string(), false);
    let lines = form.lines();
    assert_eq!(lines.len(), 4);
    assert_eq!(lines[0].text, "日付: 2024-01-15");
    assert!(lines[0].highlighted);
    assert_eq!(lines[1].text, "");
    assert_eq!(lines[2].text, "摘要: 売上");
    assert!(!lines[2].highlighted);
}

#[test]
fn menu_lines() {
    let menu = Menu::new("メニュー".to_string())
        .add_item("仕訳入力".to_string(), '1')
        .add_item("元帳".to_string(), '2')
        .selected_index(Some(1));
    let lines = menu.lines();
    assert_eq!(lines.len(), 2);
    assert_eq!(lines[0].text, "[1] 仕訳入力");
    assert!(!lines[0].highlighted);
    assert_eq!(lines[1].text, "[2] 元帳");
    assert!(lines[1].highlighted);
}

#[test]
fn table_columns_share_the_width() {
    let table = Table::new("t".to_string())
        .headers(vec!["a".to_string(), "b".to_string(), "c".to_string()])
        .rows(vec![vec!["1".to_string(), "2".to_string(), "3".to_string()]])
        .selected_row(Some(0));
    assert_eq!(table.column_percentage(), 33);
    assert!(table.is_highlighted(0));
    assert!(!table.is_highlighted(1));
}

#[test]
fn event_viewer_wraps_long_actions() {
    let viewer = EventViewer::new();
    let event = EventInfo::new(
        "2024-01-01 10:00".to_string(),
        "user1".to_string(),
        "HomePage".to_string(),
        "abcdefghij".to_string(),
    );
    let lines = viewer.event_lines(&event, 4);
    assert_eq!(lines, vec!["2024-01-01 10:00", "👤 user1 @ HomePage", "abcd", "efgh", "ij", ""]);
    let lines = viewer.event_lines(&event, 10);
    assert_eq!(lines, vec!["2024-01-01 10:00", "👤 user1 @ HomePage", "abcdefghij", ""]);
    // byte length decides whether to wrap; the pieces are counted in characters
    let jp = EventInfo::new("t".to_string(), "u".to_string(), "l".to_string(), "あいう".to_string());
    let lines = viewer.event_lines(&jp, 4);
    assert_eq!(lines, vec!["t", "👤 u @ l", "あいう", ""]);
    assert_eq!(EventViewer::split_into_chunks("abcde", 2), vec!["ab", "cd", "e"]);
    assert!(EventViewer::split_into_chunks("", 3).is_empty());
}

#[test]
fn data_table_selection_stays_on_rows() {
    let mut t = DataTable::new("t".to_string(), vec!["h".to_string()]).with_column_widths(vec![10]);
    t.select_next();
    assert_eq!(t.selected(), None);
    t.set_data(vec![vec!["a".to_string()], vec!["b".to_string()]]);
    assert_eq!(t.selected(), Some(0));
    t.select_previous();
    assert_eq!(t.selected(), Some(0));
    t.select_next();
    assert_eq!(t.selected(), Some(1));
    t.select_next();
    assert_eq!(t.selected(), Some(1));
    t.set_data(vec![]);
    assert_eq!(t.selected(), None);
    assert_eq!(t.row_count(), 0);
}

#[test]
fn list_selector_moves_within_its_items() {
    let items = vec![
        ListItemData::new("1".to_string(), "a".to_string(), "x".to_string()),
        ListItemData::new("2".to_string(), "b".to_string(), "y".to_string()),
    ];
    let mut s = ListSelector::new("m".to_string(), items);
    assert_eq!(s.selected_index(), Some(0));
    s.select_previous();
    assert_eq!(s.selected_index(), Some(0));
    s.select_next();
    s.select_next();
    assert_eq!(s.selected_index(), Some(1));
    s.set_active(true);
    let empty = ListSelector::new("e".to_string(), vec![]);
    assert_eq!(empty.selected_index(), None);
}

#[test]
fn spinner_and_log() {
    let mut sp = LoadingSpinner::new();
    for _ in 0..10 {
        sp.tick();
    }
    assert_eq!(sp.frame(), 0);
    sp.tick();
    assert_eq!(sp.frame(), 1);
    let mut log = EventLog::new();
    log.add_info("a".to_string());
    log.add_error("b".to_string());
    assert_eq!(log.len(), 2);
    assert_eq!(log.entry(1).level, LogLevel::Error);
    assert_eq!(log.entry(1).message, "b");
}
