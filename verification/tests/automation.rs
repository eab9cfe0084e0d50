use fast_marketplace::domain::error::DomainError;
use fast_marketplace::domain::models::property::{Category, Model};
use fast_marketplace::domain::models::vehicle::{
    BodyStyle, Category as VehicleCategory, Condition, Fuel, Manufacturer,
};
use fast_marketplace::domain::property::Property;
use fast_marketplace::domain::vehicle::Vehicle;
use fast_marketplace::infra::browser::{
    after_launch_attempt, headed_flag_sets, headed_launch_args, headless_flag_sets, path_from_lookup, LaunchOutcome,
    bundled_chrome_path, is_whitespace, lookup_command, lookup_names, next_chrome_probe, system_chrome_paths,
    ChromeProbe, Os, CHROMIUM_DOWNLOAD_TIMEOUT_SECS,
    LaunchStep,
};
use fast_marketplace::infra::forms::{
    after_fill, after_probe, property_form, start_filling, vehicle_form, FieldAction, FillCommand, PROPERTY_ADDRESS_INPUT, PROPERTY_FORM_URL,
    PROPERTY_MODEL_DROPDOWN, PROPERTY_PARKING_DROPDOWN, PROPERTY_PHOTO_INPUT, VEHICLE_FORM_URL,
    VEHICLE_MAKE_DROPDOWN, VEHICLE_MAKE_INPUT, VEHICLE_PHOTO_INPUT, VEHICLE_TYPE_DROPDOWN,
};
use fast_marketplace::infra::marketplace::{
    chrome_not_found_error, element_not_loaded_error, get_option_xpath, left_login_flow,
    publication_confirmed, publication_poll, publication_result, requires_login,
    sanitize_client_id, signin_poll, signout_page, typing_script_error, Poll, SignoutPage,
    after_upload_attempt, photos_to_upload, UploadStep,
};
use fast_marketplace::infra::scripts::{
    UPLOAD_ATTEMPTS, UPLOAD_RETRY_PAUSE_MS, click_script, focus_script, typing_script, CLICK_SUFFIX, FOCUS_SUFFIX, LOCATE_PREFIX,
};
use fast_marketplace::infra::server::{allowed_origins, SERVER_HOST, SERVER_PORT};

fn automation_text(e: DomainError) -> String {
    match e {
        DomainError::AutomationError(m) => m,
        other => panic!("expected an automation failure, got {:?}", other),
    }
}

#[test]
fn client_ids() {
    assert_eq!(sanitize_client_id("cliente_01-A").unwrap(), "cliente_01-A");
    assert_eq!(sanitize_client_id("joão").unwrap(), "joão");
    for bad in ["", "../etc", "a/b", "a\\b", "a.b", "a b", "x;y"] {
        let e = sanitize_client_id(bad).unwrap_err();
        assert_eq!(automation_text(e), "Formato inválido de client_id");
    }
}

#[test]
fn option_xpaths() {
    assert_eq!(
        get_option_xpath("Casa"),
        "//*[@role='option'][contains(., 'Casa') or contains(., 'House')]"
    );
    assert_eq!(
        get_option_xpath("Aluguel"),
        "//*[@role='option'][contains(., 'Aluguel') or contains(., 'rent') or contains(., 'Locação') or contains(., 'Aluguel') or contains(., 'For rent')]"
    );
    assert_eq!(
        get_option_xpath("Carro compacto"),
        "//*[@role='option'][contains(., 'Carro compacto') or contains(., 'Compact') or contains(., 'Compact car')]"
    );
    assert_eq!(get_option_xpath("3"), "//*[@role='option'][contains(., '3')]");
}

#[test]
fn flag_sets() {
    let headed = headed_flag_sets();
    assert_eq!(headed.len(), 3);
    assert_eq!(headed[0].len(), 7);
    assert!(headed[1].contains(&"--no-zygote"));
    assert!(headed[2].contains(&"--single-process"));
    let headless = headless_flag_sets();
    assert_eq!(headless.len(), 3);
    for k in 0..2 {
        for f in &headless[k] {
            assert!(headless[k + 1].contains(f));
        }
    }
    let args = headed_launch_args(&headed[0]);
    assert_eq!(args.len(), 7 + 26);
    assert_eq!(args[0], "--no-sandbox");
    assert_eq!(args[7], "--start-maximized");
    assert_eq!(args[args.len() - 1], "--new-window");
}

#[test]
fn launch_attempts() {
    assert!(matches!(after_launch_attempt(0, 3, LaunchOutcome::Started), LaunchStep::Started));
    assert!(matches!(
        after_launch_attempt(0, 3, LaunchOutcome::Failed),
        LaunchStep::Retry { attempt: 1, pause_ms: 500 }
    ));
    assert!(matches!(
        after_launch_attempt(1, 3, LaunchOutcome::ConfigRejected),
        LaunchStep::Retry { attempt: 2, pause_ms: 0 }
    ));
    match after_launch_attempt(2, 3, LaunchOutcome::TimedOut) {
        LaunchStep::GiveUp { pause_ms, error } => {
            assert_eq!(pause_ms, 0);
            assert_eq!(automation_text(error), automation_text(chrome_not_found_error()));
        }
        other => panic!("unexpected {:?}", other),
    }
}

#[test]
fn failure_texts() {
    assert!(automation_text(chrome_not_found_error())
        .starts_with("Não foi possível iniciar o navegador. Verifique"));
    assert_eq!(
        automation_text(element_not_loaded_error("input[type='file']")),
        "Elemento não carregou na tela: input[type='file']"
    );
    assert_eq!(
        automation_text(typing_script_error("//x", "boom")),
        "Falha ao executar script de digitação (//x): boom"
    );
    assert!(publication_result(true).is_ok());
    assert_eq!(
        automation_text(publication_result(false).unwrap_err()),
        "A publicação falhou, o tempo esgotou ou a janela foi fechada prematuramente."
    );
}

#[test]
fn page_addresses() {
    assert!(requires_login("https://www.facebook.com/login/?next=x"));
    assert!(requires_login("https://www.facebook.com/checkpoint/1"));
    assert!(!requires_login("https://www.facebook.com/marketplace/create/rental"));
    assert!(publication_confirmed("https://www.facebook.com/marketplace/you/selling"));
    assert!(publication_confirmed("https://www.facebook.com/marketplace/you/vehicles?x"));
    assert!(!publication_confirmed("https://www.facebook.com/marketplace/create/vehicle"));
    assert!(left_login_flow("https://www.facebook.com/"));
    assert!(!left_login_flow("https://www.facebook.com/two_factor/"));
    assert!(!left_login_flow("https://www.facebook.com/trust/device"));
    assert_eq!(signout_page("https://www.facebook.com/login"), SignoutPage::SignedOut);
    assert_eq!(signout_page("https://m.facebook.com/logged_out"), SignoutPage::SignedOut);
    assert_eq!(signout_page("https://www.facebook.com/"), SignoutPage::StillOnSite);
    assert_eq!(signout_page("about:blank"), SignoutPage::Elsewhere);
}

#[test]
fn polls() {
    assert_eq!(publication_poll(false, None), Poll::Stop);
    assert_eq!(publication_poll(true, None), Poll::KeepWaiting);
    assert_eq!(publication_poll(true, Some("https://www.facebook.com/marketplace/create")), Poll::KeepWaiting);
    assert_eq!(publication_poll(true, Some("https://www.facebook.com/marketplace/you/selling")), Poll::Confirmed);
    assert_eq!(signin_poll("https://www.facebook.com/", true, false), Poll::Confirmed);
    assert_eq!(signin_poll("https://www.facebook.com/", true, true), Poll::KeepWaiting);
    assert_eq!(signin_poll("https://www.facebook.com/", false, false), Poll::KeepWaiting);
    assert_eq!(signin_poll("https://www.facebook.com/login", true, false), Poll::KeepWaiting);
}

#[test]
fn property_form_plan() {
    let p = Property::new(
        vec![],
        Model::Sale,
        Category::House,
        2,
        1,
        350000,
        "Rua das Flores, 10".to_string(),
        "Casa ampla".to_string(),
        120,
        90,
        0,
        2,
    );
    let form = property_form(&p);
    assert_eq!(form.url, PROPERTY_FORM_URL);
    assert_eq!(form.photo_selector, PROPERTY_PHOTO_INPUT);
    assert_eq!(form.steps.len(), 11);
    assert_eq!(form.steps[0].xpath, PROPERTY_MODEL_DROPDOWN);
    assert_eq!(form.steps[0].action, FieldAction::Select);
    assert_eq!(form.steps[0].value, "À venda");
    assert_eq!(form.steps[1].value, "Casa");
    assert_eq!(form.steps[2].value, "2");
    assert_eq!(form.steps[4].value, "350000");
    assert_eq!(form.steps[5].xpath, PROPERTY_ADDRESS_INPUT);
    assert_eq!(form.steps[5].action, FieldAction::TypeAndPickSuggestion);
    assert_eq!(form.steps[9].value, "0");
    assert_eq!(form.steps[10].xpath, PROPERTY_PARKING_DROPDOWN);
    assert_eq!(form.steps[10].value, "2");
    assert!(form.steps.iter().all(|s| !s.optional));
}

fn vehicle_of(category: VehicleCategory) -> Vehicle {
    Vehicle::new(
        category,
        vec![],
        "Centro".to_string(),
        2020,
        Manufacturer::Adly,
        "Modelo X".to_string(),
        45000,
        BodyStyle::Sedan,
        80000,
        Condition::VeryGood,
        Fuel::Flex,
        "Único dono".to_string(),
    )
}

#[test]
fn vehicle_form_plan() {
    let form = vehicle_form(&vehicle_of(VehicleCategory::CarOrPickup));
    assert_eq!(form.url, VEHICLE_FORM_URL);
    assert_eq!(form.photo_selector, VEHICLE_PHOTO_INPUT);
    assert_eq!(form.steps.len(), 11);
    assert_eq!(form.steps[0].xpath, VEHICLE_TYPE_DROPDOWN);
    assert_eq!(form.steps[0].value, "Carro/picape");
    assert_eq!(form.steps[0].pause_after_ms, 2000);
    assert_eq!(form.steps[1].value, "2020");
    assert_eq!(form.steps[2].xpath, VEHICLE_MAKE_DROPDOWN);
    assert_eq!(form.steps[2].action, FieldAction::Select);
    assert_eq!(form.steps[2].value, "Adly");
    assert_eq!(form.steps[3].value, "Modelo X");
    assert!(form.steps[4].optional);
    assert_eq!(form.steps[4].value, "45000");
    assert_eq!(form.steps[5].value, "Sedã");
    assert_eq!(form.steps[6].value, "Muito bom");
    assert_eq!(form.steps[7].value, "Flex");
    assert!(!form.steps[8].optional);
    assert_eq!(form.steps[8].value, "80000");
    assert_eq!(form.steps[9].action, FieldAction::TypeAndPickSuggestion);
    assert!(form.steps[10].optional);

    let boat = vehicle_form(&vehicle_of(VehicleCategory::Boat));
    assert_eq!(boat.steps[2].xpath, VEHICLE_MAKE_INPUT);
    assert_eq!(boat.steps[2].action, FieldAction::Type);
}

#[test]
fn server_settings() {
    assert_eq!(SERVER_HOST, "127.0.0.1");
    assert_eq!(SERVER_PORT, 15137);
    let origins = allowed_origins();
    assert_eq!(origins.len(), 7);
    assert_eq!(origins[0], "http://localhost:1420");
    assert_eq!(origins[3], "tauri://localhost");
}

#[test]
fn page_scripts_quote_their_arguments() {
    let xpath = "//span[contains(., 'Preço')]";
    assert_eq!(
        click_script(xpath),
        format!("{}\"//span[contains(., 'Preço')]\"{}", LOCATE_PREFIX, CLICK_SUFFIX)
    );
    assert_eq!(
        focus_script(xpath),
        format!("{}\"//span[contains(., 'Preço')]\"{}", LOCATE_PREFIX, FOCUS_SUFFIX)
    );
    let script = typing_script("//input", "diz \"oi\"");
    assert!(script.contains("document.evaluate(\"//input\", document"));
    assert_eq!(script.matches("\"diz \\\"oi\\\"\"").count(), 3);
    assert!(script.ends_with("return true;\n            })()"));
}

#[test]
fn filling_commands() {
    let form = vehicle_form(&vehicle_of(VehicleCategory::CarOrPickup));
    assert!(matches!(start_filling(&form), FillCommand::Fill { index: 0, pause_ms: 0 }));
    // The vehicle type is followed by its pause before the year.
    assert!(matches!(after_fill(&form, 0, Ok(())), FillCommand::Fill { index: 1, pause_ms: 2000 }));
    // A required field that fails ends the filling with its failure.
    match after_fill(&form, 3, Err(DomainError::AutomationError("x".to_string()))) {
        FillCommand::Finish(Err(DomainError::AutomationError(m))) => assert_eq!(m, "x"),
        other => panic!("unexpected {:?}", other),
    }
    // After the model comes the optional mileage, which is probed first.
    assert!(matches!(after_fill(&form, 3, Ok(())), FillCommand::Probe { index: 4, pause_ms: 0 }));
    assert!(matches!(after_probe(&form, 4, true), FillCommand::Fill { index: 4, pause_ms: 0 }));
    assert!(matches!(after_probe(&form, 4, false), FillCommand::Probe { index: 5, pause_ms: 0 }));
    // A failure on an optional field is ignored.
    assert!(matches!(
        after_fill(&form, 7, Err(DomainError::NotFound)),
        FillCommand::Fill { index: 8, pause_ms: 0 }
    ));
    // The last field is optional; once handled, the filling is over.
    assert!(matches!(after_probe(&form, 10, false), FillCommand::Finish(Ok(()))));
    assert!(matches!(after_fill(&form, 10, Err(DomainError::NotFound)), FillCommand::Finish(Ok(()))));
}

#[test]
fn client_ids_ascii() {
    assert_eq!(sanitize_client_id("123").unwrap(), "123");
    assert!(sanitize_client_id("a_B-9").is_ok());
    assert!(sanitize_client_id("").is_err());
    assert!(sanitize_client_id("../evil").is_err());
    assert!(sanitize_client_id("a/b").is_err());
    assert!(sanitize_client_id("a b").is_err());
}

#[test]
fn photos_on_disk() {
    let files = vec!["/tmp/a.jpg".to_string(), "/tmp/b.jpg".to_string()];
    assert_eq!(photos_to_upload(files.clone()).unwrap(), files);
    assert_eq!(
        automation_text(photos_to_upload(Vec::new()).unwrap_err()),
        "Nenhuma foto válida foi encontrada para enviar (os arquivos podem ter falhado no download/otimização)."
    );
}

#[test]
fn upload_retries() {
    assert_eq!(UPLOAD_ATTEMPTS, 5);
    assert_eq!(UPLOAD_RETRY_PAUSE_MS, 800);
    assert!(matches!(after_upload_attempt(1, Ok(())), UploadStep::Done));
    assert!(matches!(after_upload_attempt(5, Ok(())), UploadStep::Done));
    assert!(matches!(
        after_upload_attempt(1, Err("sem nó".to_string())),
        UploadStep::Retry { pause_ms: 800, attempt: 2 }
    ));
    assert!(matches!(
        after_upload_attempt(4, Err("x".to_string())),
        UploadStep::Retry { pause_ms: 800, attempt: 5 }
    ));
    match after_upload_attempt(5, Err("nó obsoleto".to_string())) {
        UploadStep::GiveUp { pause_ms, error } => {
            assert_eq!(pause_ms, 800);
            assert_eq!(automation_text(error), "Falha ao enviar as fotos para o Chromium: nó obsoleto");
        }
        other => panic!("unexpected {:?}", other),
    }
}

#[test]
fn lookup_paths() {
    assert_eq!(path_from_lookup("/usr/bin/chromium\n").as_deref(), Some("/usr/bin/chromium"));
    assert_eq!(
        path_from_lookup("  C:\\Chrome\\chrome.exe \r\nC:\\Other\\chrome.exe\r\n").as_deref(),
        Some("C:\\Chrome\\chrome.exe")
    );
    assert_eq!(path_from_lookup(""), None);
    assert_eq!(path_from_lookup("   \n/usr/bin/chromium"), None);
}

#[test]
fn chrome_places() {
    assert_eq!(bundled_chrome_path(Os::Windows, r"C:\App"), r"C:\App\chrome-win\chrome.exe");
    assert_eq!(bundled_chrome_path(Os::Other, "/opt/app"), "/opt/app/chrome-win/chrome");
    assert_eq!(
        bundled_chrome_path(Os::MacOs, "/Apps/x"),
        "/Apps/x/chrome-win/Google Chrome.app/Contents/MacOS/Google Chrome"
    );
    let linux = system_chrome_paths(Os::Other, Some("/ignored"), None);
    assert_eq!(linux.len(), 7);
    assert_eq!(linux[0], "/usr/bin/google-chrome");
    assert_eq!(linux[6], "/usr/local/bin/google-chrome");
    let windows = system_chrome_paths(Os::Windows, Some(r"C:\Users\a\AppData\Local"), Some(r"C:\Users\a\AppData\Roaming"));
    assert_eq!(windows.len(), 7);
    assert_eq!(windows[0], r"C:\Program Files\Google\Chrome\Application\chrome.exe");
    assert_eq!(windows[5], r"C:\Users\a\AppData\Local\Chromium\Application\chrome.exe");
    assert_eq!(windows[6], r"C:\Users\a\AppData\Roaming\Google\Chrome\Application\chrome.exe");
    assert_eq!(system_chrome_paths(Os::Windows, None, None).len(), 4);
    assert_eq!(system_chrome_paths(Os::MacOs, None, None).len(), 3);
    assert_eq!(lookup_command(Os::Windows), "where");
    assert_eq!(lookup_command(Os::MacOs), "which");
    assert_eq!(lookup_names(Os::Windows), vec!["chrome.exe", "chromium.exe"]);
    assert_eq!(lookup_names(Os::Other), vec!["google-chrome", "google-chrome-stable", "chromium-browser", "chromium"]);
    assert_eq!(CHROMIUM_DOWNLOAD_TIMEOUT_SECS, 15 * 60);
}

#[test]
fn chrome_search_order() {
    let mut probe = ChromeProbe::Bundled;
    let mut seen = Vec::new();
    while probe != ChromeProbe::Exhausted {
        seen.push(probe);
        let (next, found) = next_chrome_probe(probe, None, 2, 1);
        assert_eq!(found, None);
        probe = next;
    }
    assert_eq!(
        seen,
        vec![
            ChromeProbe::Bundled,
            ChromeProbe::EnvVar,
            ChromeProbe::System(0),
            ChromeProbe::System(1),
            ChromeProbe::Lookup(0),
            ChromeProbe::Download
        ]
    );
    assert_eq!(next_chrome_probe(ChromeProbe::EnvVar, None, 0, 0), (ChromeProbe::Download, None));
    assert_eq!(
        next_chrome_probe(ChromeProbe::System(0), Some("/usr/bin/google-chrome".to_string()), 2, 1),
        (ChromeProbe::Exhausted, Some("/usr/bin/google-chrome".to_string()))
    );
}

#[test]
fn white_space() {
    for c in [' ', '\t', '\n', '\r', '\u{0B}', '\u{0C}', '\u{85}', '\u{A0}', '\u{1680}', '\u{2000}', '\u{200A}', '\u{2028}', '\u{2029}', '\u{202F}', '\u{205F}', '\u{3000}'] {
        assert!(is_whitespace(c));
        assert_eq!(is_whitespace(c), c.is_whitespace());
    }
    for c in ['a', '/', '\u{200B}', '\u{FEFF}', '\u{180E}', '\0'] {
        assert!(!is_whitespace(c));
    }
    for u in 0..0x110000u32 {
        if let Some(c) = char::from_u32(u) {
            assert_eq!(is_whitespace(c), c.is_whitespace(), "{:x}", u);
        }
    }
}
