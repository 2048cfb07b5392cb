use pomodoro::filesys::{ini_contents, ini_file_name};

#[test]
fn ini_name_appends_without_a_dot() {
    assert_eq!(ini_file_name("settings.".to_string()), "settings.ini");
    assert_eq!(ini_file_name("settings".to_string()), "settingsini");
    assert_eq!(ini_file_name(String::new()), "ini");
}

#[test]
fn ini_contents_is_a_general_section() {
    assert_eq!(ini_contents(), "[General]\n\n");
}

