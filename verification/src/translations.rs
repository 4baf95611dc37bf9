//! The editor's interface strings in each supported language.

use vstd::prelude::*;
use crate::text::str_equal;
use vstd::std_specs::cmp::PartialEqSpec;

verus! {

/// The interface strings of one language.
#[derive(Clone)]
pub struct Translations {
    pub add: &'static str,
    pub choice_id: &'static str,
    pub coming_soon: &'static str,
    pub dashboard: &'static str,
    pub goto_target: &'static str,
    pub options: &'static str,
    pub option_text: &'static str,
    pub caption: &'static str,
    pub paragraph: &'static str,
    pub settings: &'static str,
    pub story: &'static str,
    pub submit: &'static str,
    pub submit_success: &'static str,
    pub select_language: &'static str,
    pub select_chapter: &'static str,
    pub option: &'static str,
    pub action_settings: &'static str,
    pub action_type: &'static str,
    pub action_key: &'static str,
    pub action_value: &'static str,
    pub add_option: &'static str,
    pub paragraph_title: &'static str,
    pub paragraph_content: &'static str,
}

impl View for Translations {
    type V = Seq<Seq<char>>;

    /// The strings, field by field in declaration order.
    open spec fn view(&self) -> Seq<Seq<char>> {
        seq![
            self.add@,
            self.choice_id@,
            self.coming_soon@,
            self.dashboard@,
            self.goto_target@,
            self.options@,
            self.option_text@,
            self.caption@,
            self.paragraph@,
            self.settings@,
            self.story@,
            self.submit@,
            self.submit_success@,
            self.select_language@,
            self.select_chapter@,
            self.option@,
            self.action_settings@,
            self.action_type@,
            self.action_key@,
            self.action_value@,
            self.add_option@,
            self.paragraph_title@,
            self.paragraph_content@,
        ]
    }
}

/// The strings in English (`en-US`, `en-GB`, and the fallback for other languages).
pub open spec fn english_table() -> Seq<Seq<char>> {
    seq![
        "Add"@,
        "Choice ID"@,
        "Coming soon..."@,
        "Dashboard"@,
        "Target Paragraph"@,
        "Options"@,
        "Option Text"@,
        "Caption"@,
        "Paragraph"@,
        "Settings"@,
        "Story"@,
        "Submit"@,
        "Successfully submitted!"@,
        "Select Language"@,
        "Select Chapter"@,
        "Option"@,
        "Action Settings"@,
        "Action Type"@,
        "Action Key"@,
        "Action Value"@,
        "Add Option"@,
        "Paragraph Title"@,
        "Paragraph Content"@,
    ]
}

/// The strings in Spanish as written in Spain (`es-ES`).
pub open spec fn spanish_spain_table() -> Seq<Seq<char>> {
    seq![
        "Añadir"@,
        "ID de Opción"@,
        "Próximamente..."@,
        "Panel de Control"@,
        "Ir a Destino"@,
        "Opciones"@,
        "Texto de Opción"@,
        "Leyenda"@,
        "Párrafo"@,
        "Configuración"@,
        "Historia"@,
        "Enviar"@,
        "¡Enviado con éxito!"@,
        "Seleccionar Idioma"@,
        "Seleccionar Capítulo"@,
        "Opción"@,
        "Configuración de Acción"@,
        "Tipo de Acción"@,
        "Clave de Acción"@,
        "Valor de Acción"@,
        "Añadir Opción"@,
        "Título del Párrafo"@,
        "Contenido del Párrafo"@,
    ]
}

/// The strings in Spanish as written in Chile (`es-CL`).
pub open spec fn spanish_chile_table() -> Seq<Seq<char>> {
    seq![
        "Agregar"@,
        "ID de Opción"@,
        "Próximamente..."@,
        "Panel de Control"@,
        "Ir a Destino"@,
        "Opciones"@,
        "Texto de Opción"@,
        "Leyenda"@,
        "Párrafo"@,
        "Configuración"@,
        "Historia"@,
        "Enviar"@,
        "¡Enviado exitosamente!"@,
        "Seleccionar Idioma"@,
        "Seleccionar Capítulo"@,
        "Opción"@,
        "Configuración de Acción"@,
        "Tipo de Acción"@,
        "Clave de Acción"@,
        "Valor de Acción"@,
        "Agregar Opción"@,
        "Título del Párrafo"@,
        "Contenido del Párrafo"@,
    ]
}

/// The strings in Traditional Chinese as written in Taiwan (`zh-TW`).
pub open spec fn chinese_taiwan_table() -> Seq<Seq<char>> {
    seq![
        "新增"@,
        "選項代號"@,
        "即將推出..."@,
        "儀表板"@,
        "目標段落"@,
        "選項"@,
        "選項文字"@,
        "標題"@,
        "段落"@,
        "設定"@,
        "故事"@,
        "送出"@,
        "資料送出成功！"@,
        "選擇語言"@,
        "選擇章節"@,
        "選項"@,
        "動作設定"@,
        "動作類型"@,
        "動作鍵值"@,
        "動作數值"@,
        "新增選項"@,
        "段落標題"@,
        "段落內容"@,
    ]
}

/// The table that `lang` selects: the four languages with their own strings,
/// and English for every other code.
pub open spec fn table_for(lang: Seq<char>) -> Seq<Seq<char>> {
    if lang == "es-ES"@ {
        spanish_spain_table()
    } else if lang == "es-CL"@ {
        spanish_chile_table()
    } else if lang == "zh-TW"@ {
        chinese_taiwan_table()
    } else {
        english_table()
    }
}

impl Translations {
    /// The strings in English (`en-US`, `en-GB`, and the fallback for other languages).
    fn english() -> (r: Self)
        ensures
            r@ == english_table(),
    {
        Translations {
            add: "Add",
            choice_id: "Choice ID",
            coming_soon: "Coming soon...",
            dashboard: "Dashboard",
            goto_target: "Target Paragraph",
            options: "Options",
            option_text: "Option Text",
            caption: "Caption",
            paragraph: "Paragraph",
            settings: "Settings",
            story: "Story",
            submit: "Submit",
            submit_success: "Successfully submitted!",
            select_language: "Select Language",
            select_chapter: "Select Chapter",
            option: "Option",
            action_settings: "Action Settings",
            action_type: "Action Type",
            action_key: "Action Key",
            action_value: "Action Value",
            add_option: "Add Option",
            paragraph_title: "Paragraph Title",
            paragraph_content: "Paragraph Content",
        }
    }

    /// The strings in Spanish as written in Spain (`es-ES`).
    fn spanish_spain() -> (r: Self)
        ensures
            r@ == spanish_spain_table(),
    {
        Translations {
            add: "Añadir",
            choice_id: "ID de Opción",
            coming_soon: "Próximamente...",
            dashboard: "Panel de Control",
            goto_target: "Ir a Destino",
            options: "Opciones",
            option_text: "Texto de Opción",
            caption: "Leyenda",
            paragraph: "Párrafo",
            settings: "Configuración",
            story: "Historia",
            submit: "Enviar",
            submit_success: "¡Enviado con éxito!",
            select_language: "Seleccionar Idioma",
            select_chapter: "Seleccionar Capítulo",
            option: "Opción",
            action_settings: "Configuración de Acción",
            action_type: "Tipo de Acción",
            action_key: "Clave de Acción",
            action_value: "Valor de Acción",
            add_option: "Añadir Opción",
            paragraph_title: "Título del Párrafo",
            paragraph_content: "Contenido del Párrafo",
        }
    }

    /// The strings in Spanish as written in Chile (`es-CL`).
    fn spanish_chile() -> (r: Self)
        ensures
            r@ == spanish_chile_table(),
    {
        Translations {
            add: "Agregar",
            choice_id: "ID de Opción",
            coming_soon: "Próximamente...",
            dashboard: "Panel de Control",
            goto_target: "Ir a Destino",
            options: "Opciones",
            option_text: "Texto de Opción",
            caption: "Leyenda",
            paragraph: "Párrafo",
            settings: "Configuración",
            story: "Historia",
            submit: "Enviar",
            submit_success: "¡Enviado exitosamente!",
            select_language: "Seleccionar Idioma",
            select_chapter: "Seleccionar Capítulo",
            option: "Opción",
            action_settings: "Configuración de Acción",
            action_type: "Tipo de Acción",
            action_key: "Clave de Acción",
            action_value: "Valor de Acción",
            add_option: "Agregar Opción",
            paragraph_title: "Título del Párrafo",
            paragraph_content: "Contenido del Párrafo",
        }
    }

    /// The strings in Traditional Chinese as written in Taiwan (`zh-TW`).
    fn chinese_taiwan() -> (r: Self)
        ensures
            r@ == chinese_taiwan_table(),
    {
        Translations {
            add: "新增",
            choice_id: "選項代號",
            coming_soon: "即將推出...",
            dashboard: "儀表板",
            goto_target: "目標段落",
            options: "選項",
            option_text: "選項文字",
            caption: "標題",
            paragraph: "段落",
            settings: "設定",
            story: "故事",
            submit: "送出",
            submit_success: "資料送出成功！",
            select_language: "選擇語言",
            select_chapter: "選擇章節",
            option: "選項",
            action_settings: "動作設定",
            action_type: "動作類型",
            action_key: "動作鍵值",
            action_value: "動作數值",
            add_option: "新增選項",
            paragraph_title: "段落標題",
            paragraph_content: "段落內容",
        }
    }

    /// The interface strings for the language code `lang`; codes without a
    /// table of their own get English.
    pub fn get(lang: &str) -> (r: Self)
        ensures
            r@ == table_for(lang@),
    {
        if str_equal(lang, "en-US") || str_equal(lang, "en-GB") {
            proof {
                reveal_strlit("en-US");
                reveal_strlit("en-GB");
                reveal_strlit("es-ES");
                reveal_strlit("es-CL");
                reveal_strlit("zh-TW");
                assert("en-US"@[1] != "es-ES"@[1]);
                assert("en-US"@[1] != "es-CL"@[1]);
                assert("en-US"@[1] != "zh-TW"@[1]);
                assert("en-GB"@[1] != "es-ES"@[1]);
                assert("en-GB"@[1] != "es-CL"@[1]);
                assert("en-GB"@[1] != "zh-TW"@[1]);
            }
            Self::english()
        } else if str_equal(lang, "es-ES") {
            Self::spanish_spain()
        } else if str_equal(lang, "es-CL") {
            Self::spanish_chile()
        } else if str_equal(lang, "zh-TW") {
            Self::chinese_taiwan()
        } else {
            Self::english()
        }
    }
}

impl PartialEq for Translations {
    fn eq(&self, other: &Self) -> (r: bool) {
        str_equal(self.add, other.add) && str_equal(self.choice_id, other.choice_id) && str_equal(self.coming_soon, other.coming_soon) && str_equal(self.dashboard, other.dashboard) && str_equal(self.goto_target, other.goto_target) && str_equal(self.options, other.options) && str_equal(self.option_text, other.option_text) && str_equal(self.caption, other.caption) && str_equal(self.paragraph, other.paragraph) && str_equal(self.settings, other.settings) && str_equal(self.story, other.story) && str_equal(self.submit, other.submit) && str_equal(self.submit_success, other.submit_success) && str_equal(self.select_language, other.select_language) && str_equal(self.select_chapter, other.select_chapter) && str_equal(self.option, other.option) && str_equal(self.action_settings, other.action_settings) && str_equal(self.action_type, other.action_type) && str_equal(self.action_key, other.action_key) && str_equal(self.action_value, other.action_value) && str_equal(self.add_option, other.add_option) && str_equal(self.paragraph_title, other.paragraph_title) && str_equal(self.paragraph_content, other.paragraph_content)
    }
}

impl vstd::std_specs::cmp::PartialEqSpecImpl for Translations {
    open spec fn obeys_eq_spec() -> bool {
        true
    }

    open spec fn eq_spec(&self, other: &Translations) -> bool {
        self.add@ == other.add@ && self.choice_id@ == other.choice_id@ && self.coming_soon@ == other.coming_soon@ && self.dashboard@ == other.dashboard@ && self.goto_target@ == other.goto_target@ && self.options@ == other.options@ && self.option_text@ == other.option_text@ && self.caption@ == other.caption@ && self.paragraph@ == other.paragraph@ && self.settings@ == other.settings@ && self.story@ == other.story@ && self.submit@ == other.submit@ && self.submit_success@ == other.submit_success@ && self.select_language@ == other.select_language@ && self.select_chapter@ == other.select_chapter@ && self.option@ == other.option@ && self.action_settings@ == other.action_settings@ && self.action_type@ == other.action_type@ && self.action_key@ == other.action_key@ && self.action_value@ == other.action_value@ && self.add_option@ == other.add_option@ && self.paragraph_title@ == other.paragraph_title@ && self.paragraph_content@ == other.paragraph_content@
    }
}

/// Two tables compare equal exactly when every string in them is the same.
pub proof fn law_translations_equal_by_strings(a: Translations, b: Translations)
    ensures
        a.eq_spec(&b) <==> a@ == b@,
{
    if a@ == b@ {
        assert(a@[0] == b@[0]);
        assert(a@[1] == b@[1]);
        assert(a@[2] == b@[2]);
        assert(a@[3] == b@[3]);
        assert(a@[4] == b@[4]);
        assert(a@[5] == b@[5]);
        assert(a@[6] == b@[6]);
        assert(a@[7] == b@[7]);
        assert(a@[8] == b@[8]);
        assert(a@[9] == b@[9]);
        assert(a@[10] == b@[10]);
        assert(a@[11] == b@[11]);
        assert(a@[12] == b@[12]);
        assert(a@[13] == b@[13]);
        assert(a@[14] == b@[14]);
        assert(a@[15] == b@[15]);
        assert(a@[16] == b@[16]);
        assert(a@[17] == b@[17]);
        assert(a@[18] == b@[18]);
        assert(a@[19] == b@[19]);
        assert(a@[20] == b@[20]);
        assert(a@[21] == b@[21]);
        assert(a@[22] == b@[22]);
    }
    if a.eq_spec(&b) {
        assert(a@ =~= b@);
    }
}

} // verus!
