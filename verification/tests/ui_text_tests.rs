use ifecaro::choice_options::action_inputs_disabled;
use ifecaro::language_context::{interface_locale, LanguageState};
use ifecaro::language_selector::{available_languages, display_language, filter_languages, language_name};
use ifecaro::navbar::{current_language_name, debugmode_url, navbar_debugmode_enabled};
use ifecaro::style::NavbarStyle;
use ifecaro::toast::{toast_bg_class, Toast, ToastManager, ToastType};
use ifecaro::translations::Translations;

#[test]
fn test_toast_creation_with_all_types() {
    let success_toast = Toast::new("Success message".to_string(), ToastType::Success, 5000);
    assert_eq!(success_toast.message, "Success message");
    assert_eq!(success_toast.toast_type, ToastType::Success);
    assert_eq!(success_toast.duration, 5000);

    let error_toast = Toast::new("Error message".to_string(), ToastType::Error, 3000);
    assert_eq!(error_toast.message, "Error message");
    assert_eq!(error_toast.toast_type, ToastType::Error);
    assert_eq!(error_toast.duration, 3000);

    let warning_toast = Toast::new("Warning message".to_string(), ToastType::Warning, 4000);
    assert_eq!(warning_toast.message, "Warning message");
    assert_eq!(warning_toast.toast_type, ToastType::Warning);
    assert_eq!(warning_toast.duration, 4000);

    let info_toast = Toast::new("Info message".to_string(), ToastType::Info, 2000);
    assert_eq!(info_toast.message, "Info message");
    assert_eq!(info_toast.toast_type, ToastType::Info);
    assert_eq!(info_toast.duration, 2000);
}

#[test]
fn test_toast_type_matching() {
    assert_eq!(toast_bg_class(ToastType::Success), "bg-green-500");
    assert_eq!(toast_bg_class(ToastType::Error), "bg-red-500");
    assert_eq!(toast_bg_class(ToastType::Warning), "bg-yellow-500");
    assert_eq!(toast_bg_class(ToastType::Info), "bg-blue-500");
}

#[test]
fn toast_manager_shows_and_dismisses() {
    let mut m = ToastManager::new();
    assert_eq!(m.get_toasts().len(), 0);
    m.show("one".to_string(), ToastType::Info, 100);
    m.show("two".to_string(), ToastType::Error, 200);
    m.show("three".to_string(), ToastType::Success, 300);
    assert_eq!(m.get_toasts().len(), 3);
    assert_eq!(m.get_toasts()[1].message, "two");
    let id = m.get_toasts()[1].id;
    let others: Vec<u32> = m.get_toasts().iter().map(|t| t.id).filter(|x| *x != id).collect();
    m.dismiss(id);
    let left: Vec<u32> = m.get_toasts().iter().map(|t| t.id).collect();
    assert_eq!(left, others);
    assert!(m.get_toasts().iter().all(|t| t.id != id));
}

#[test]
fn toast_ids_come_from_the_random_source() {
    let ids: Vec<u32> = (0..8).map(|_| Toast::new(String::new(), ToastType::Info, 1).id).collect();
    assert!(ids.iter().any(|x| *x != ids[0]));
}

#[test]
fn translations_per_language() {
    let en = Translations::get("en-US");
    assert_eq!(en.add, "Add");
    assert_eq!(en.paragraph_content, "Paragraph Content");
    assert!(Translations::get("en-GB") == en);
    assert!(Translations::get("xx") == en);
    let es = Translations::get("es-ES");
    assert_eq!(es.add, "Añadir");
    assert_eq!(es.submit_success, "¡Enviado con éxito!");
    let cl = Translations::get("es-CL");
    assert_eq!(cl.add, "Agregar");
    assert!(!(cl == es));
    let tw = Translations::get("zh-TW");
    assert_eq!(tw.settings, "設定");
    assert_eq!(tw.paragraph_title, "段落標題");
}

#[test]
fn navbar_classes() {
    assert!(NavbarStyle::Link.class().ends_with("py-2 pen-texture-text"));
    assert!(NavbarStyle::Dropdown.class().contains("cursor-pointer"));
    assert!(NavbarStyle::DropdownOption.class().starts_with("text-gray-800 dark:text-gray-300"));
}

#[test]
fn navbar_debugmode_reads_second_segment() {
    assert!(navbar_debugmode_enabled("?debugmode=true"));
    assert!(navbar_debugmode_enabled("/path?x=1&debugmode=true"));
    assert!(!navbar_debugmode_enabled("debugmode=true"));
    assert!(!navbar_debugmode_enabled("?debugmode=false"));
    assert!(!navbar_debugmode_enabled(""));
    assert_eq!(debugmode_url("/zh-TW"), "/zh-TW?debugmode=true");
}

#[test]
fn language_lists_and_search() {
    let langs = available_languages();
    assert_eq!(langs.len(), 178);
    assert_eq!(langs[0].code, "zh-TW");
    assert_eq!(langs[0].name, "繁體中文");
    assert_eq!(display_language(&&langs[2]), "English (US)");
    let english = filter_languages(&langs, "ENGLISH");
    assert!(english.len() >= 2);
    assert!(english.iter().all(|l| l.name.to_lowercase().contains("english") || l.code.to_lowercase().contains("english")));
    let by_code = filter_languages(&langs, "zh-tw");
    assert!(by_code.iter().any(|l| l.code == "zh-TW"));
    assert_eq!(filter_languages(&langs, "").len(), langs.len());
    assert!(filter_languages(&langs, "no such language").is_empty());
    assert_eq!(language_name(&langs, "en-GB", "English"), "English (UK)");
    assert_eq!(language_name(&langs, "xx", "English"), "English");
    assert_eq!(current_language_name(&langs, "zz"), "English");
}

#[test]
fn interface_locales() {
    assert_eq!(interface_locale("zh-TW"), "zh-TW");
    assert_eq!(interface_locale("en-GB"), "en-US");
    assert_eq!(interface_locale("en"), "en-US");
    assert_eq!(interface_locale("es-CL"), "es-ES");
    assert_eq!(interface_locale("ja"), "ja");
    assert_eq!(interface_locale("ru"), "ru");
    assert_eq!(interface_locale("xx"), "en-US");
    let mut s = LanguageState::new();
    assert_eq!(s.current_language, "zh-TW");
    assert_eq!(s.set_language("es"), "es-ES");
    assert_eq!(s.current_language, "es");
}

#[test]
fn story_context_flags() {
    let mut c = ifecaro::story_context::StoryContext::new();
    assert!(!c.is_settings_chapter());
    c.set_is_settings_chapter(true);
    assert!(c.is_settings_chapter());
    assert!(c.target_paragraph_id.is_none());
    let merged = ifecaro::story_content::StoryMergedContext::new();
    assert!(merged.merged_paragraph.is_empty());
}

#[test]
fn navbar_classes_differ_by_the_pointer_cursor() {
    let link = NavbarStyle::Link.class();
    let dropdown = NavbarStyle::Dropdown.class();
    let option = NavbarStyle::DropdownOption.class();
    assert_eq!(dropdown, link.replace(" py-2 pen-texture-text", " py-2 cursor-pointer pen-texture-text"));
    assert!(!link.contains("cursor-pointer"));
    assert!(!option.contains("cursor-pointer"));
    assert!(link.ends_with("pen-texture-text"));
    assert!(dropdown.ends_with("pen-texture-text"));
    assert!(option.ends_with("pen-texture-text"));
}

#[test]
fn action_inputs_wait_for_an_action_type() {
    assert!(action_inputs_disabled(""));
    assert!(!action_inputs_disabled("set"));
    assert!(!action_inputs_disabled(" "));
}
