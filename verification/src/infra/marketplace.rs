//! The decisions of the marketplace automation: which client ids are
//! accepted, how form options are located, and the failures it reports.

use vstd::prelude::*;
use crate::domain::error::DomainError;
use crate::text::{str_eq, str_contains, seq_contains, chars_of};
use crate::infra::scripts::{UPLOAD_ATTEMPTS, UPLOAD_RETRY_PAUSE_MS};

verus! {

broadcast use vstd::string::group_string_axioms;

// ─── Client ids ──────────────────────────────────────────────────────────────

/// What `char::is_alphanumeric` gives for `c`.
pub uninterp spec fn alphanumeric(c: char) -> bool;

/// `c` is an ASCII letter or an ASCII digit.
pub open spec fn ascii_letter_or_digit(c: char) -> bool {
    ('a' <= c && c <= 'z') || ('A' <= c && c <= 'Z') || ('0' <= c && c <= '9')
}

/// Calls `char::is_alphanumeric`, which is true when `c` has the Unicode
/// Alphabetic property or a numeric general category. Stated: the result is
/// `alphanumeric(c)`, and on ASCII characters it is true exactly for letters
/// and digits. Left unsaid: which characters beyond ASCII it accepts.
#[verifier::external_body]
fn is_alphanumeric(c: char) -> (r: bool)
    ensures
        r == alphanumeric(c),
        (c as u32) < 128 ==> (r == ascii_letter_or_digit(c)),
{
    c.is_alphanumeric()
}

/// A character that a client id may hold.
pub open spec fn allowed_id_char(c: char) -> bool {
    alphanumeric(c) || c == '_' || c == '-'
}

/// A client id that is accepted: not empty, and only letters, digits, `_` and `-`.
pub open spec fn valid_client_id(id: Seq<char>) -> bool {
    &&& id.len() > 0
    &&& forall|i: int| 0 <= i < id.len() ==> allowed_id_char(#[trigger] id[i])
}

/// Whether a client id is accepted depends only on the characters it holds,
/// never on its length: an id is accepted exactly when it is not empty and
/// each of its characters is a letter, a digit, `_` or `-`. So an id of any
/// length made of such characters is accepted, and one holding any other
/// character is refused; two accepted ids joined make an accepted id.
pub proof fn lemma_client_id_by_characters(id: Seq<char>)
    ensures
        valid_client_id(id) <==> (id.len() > 0 && forall|i: int| 0 <= i < id.len() ==> allowed_id_char(#[trigger] id[i])),
        forall|extra: Seq<char>| valid_client_id(id) && valid_client_id(extra) ==> #[trigger] valid_client_id(id + extra),
{
    assert forall|extra: Seq<char>| valid_client_id(id) && valid_client_id(extra) implies #[trigger] valid_client_id(id + extra) by {
        let joined = id + extra;
        assert forall|i: int| 0 <= i < joined.len() implies allowed_id_char(#[trigger] joined[i]) by {
            if i < id.len() {
                assert(joined[i] == id[i]);
            } else {
                assert(joined[i] == extra[i - id.len()]);
            }
        }
    }
}

/// Checks a client id before it names a browser profile directory, so that it
/// cannot reach outside that directory: the id is accepted only when it is not
/// empty and holds nothing but letters, digits, `_` and `-`. An accepted id
/// holds no `/`, `\` or `.`.
pub fn sanitize_client_id(client_id: &str) -> (r: Result<&str, DomainError>)
    ensures
        r is Ok <==> valid_client_id(client_id@),
        (client_id@.len() > 0 && forall|i: int| 0 <= i < client_id@.len() ==> allowed_id_char(#[trigger] client_id@[i]))
            ==> (r matches Ok(id) && id@ == client_id@),
        (exists|i: int| 0 <= i < client_id@.len() && !allowed_id_char(#[trigger] client_id@[i])) ==> r is Err,
        client_id@.len() == 0 ==> r is Err,
        r matches Ok(id) ==> id@ == client_id@,
        r matches Err(e) ==> e.is_automation_with("Formato inválido de client_id"@),
        r is Ok ==> forall|i: int|
            0 <= i < client_id@.len() ==> {
                let c = #[trigger] client_id@[i];
                c != '/' && c != '\\' && c != '.'
            },
        forall|i: int|
            0 <= i < client_id@.len() ==> {
                let c = #[trigger] client_id@[i];
                (c as u32) < 128 ==> (allowed_id_char(c) <==> (ascii_letter_or_digit(c) || c == '_' || c == '-'))
            },
{
    let chars = chars_of(client_id);
    let mut ok = chars.len() > 0;
    let mut i: usize = 0;
    while i < chars.len()
        invariant
            chars@ == client_id@,
            i <= chars@.len(),
            ok == (chars@.len() > 0 && forall|j: int| 0 <= j < i ==> allowed_id_char(#[trigger] chars@[j])),
            ok ==> forall|j: int| 0 <= j < i ==> {
                let c = #[trigger] chars@[j];
                c != '/' && c != '\\' && c != '.'
            },
            forall|j: int| 0 <= j < i ==> {
                let c = #[trigger] chars@[j];
                (c as u32) < 128 ==> (alphanumeric(c) == ascii_letter_or_digit(c))
            },
        decreases chars@.len() - i,
    {
        let c = chars[i];
        let alnum = is_alphanumeric(c);
        let allowed = alnum || c == '_' || c == '-';
        if !allowed {
            ok = false;
        }
        i = i + 1;
    }
    if !ok {
        return Err(DomainError::AutomationError(String::from_str("Formato inválido de client_id")));
    }
    Ok(client_id)
}

// ─── Locating options in the form's dropdowns ────────────────────────────────

/// The other names under which the marketplace may show the option labelled
/// `text`, in the order they are tried after `text` itself.
pub open spec fn option_synonyms(text: Seq<char>) -> Seq<Seq<char>> {
    if text == "Casa"@ {
        seq!["House"@]
    } else if text == "Apartamento"@ {
        seq!["Apartment"@, "Condo"@]
    } else if text == "Casa geminada"@ {
        seq!["Townhouse"@]
    } else if text == "À venda"@ {
        seq!["sale"@, "Venda"@, "For sale"@]
    } else if text == "Aluguel"@ {
        seq!["rent"@, "Locação"@, "Aluguel"@, "For rent"@]
    } else if text == "Carro/picape"@ {
        seq!["Car/Truck"@, "Car or pickup"@, "Carro"@, "Picape"@, "Carro/Caminhão"@]
    } else if text == "Motocicleta"@ {
        seq!["Motorcycle"@]
    } else if text == "Veículos para esportes"@ {
        seq!["Powersport"@, "Powersports"@]
    } else if text == "Trailer"@ {
        seq!["Trailer"@]
    } else if text == "Reboque"@ {
        seq!["Utility trailer"@, "reboque"@]
    } else if text == "Barco"@ {
        seq!["Boat"@]
    } else if text == "Comercial/industrial"@ {
        seq!["Commercial"@, "Industrial"@]
    } else if text == "Excelente"@ {
        seq!["Like new"@, "excelente"@]
    } else if text == "Muito bom"@ {
        seq!["Very good"@, "muito bom"@]
    } else if text == "Bom"@ {
        seq!["Good"@, "bom"@]
    } else if text == "Razoável"@ {
        seq!["Fair"@, "razoável"@]
    } else if text == "Ruim"@ {
        seq!["Poor"@, "ruim"@]
    } else if text == "Gasolina"@ {
        seq!["Gas"@, "Gasoline"@]
    } else if text == "Diesel"@ {
        seq!["Diesel"@]
    } else if text == "Híbrido"@ {
        seq!["Hybrid"@]
    } else if text == "Híbrido plug-in"@ {
        seq!["Plug-in hybrid"@]
    } else if text == "Elétrico"@ {
        seq!["Electric"@]
    } else if text == "Flex"@ {
        seq!["Flex"@]
    } else if text == "Cupê"@ {
        seq!["Coupe"@]
    } else if text == "Sedã"@ {
        seq!["Sedan"@]
    } else if text == "Hatch"@ {
        seq!["Hatchback"@]
    } else if text == "SUV"@ {
        seq!["SUV"@]
    } else if text == "Conversível"@ {
        seq!["Convertible"@]
    } else if text == "Station wagon"@ {
        seq!["Wagon"@, "Station"@]
    } else if text == "Minivan"@ {
        seq!["Minivan"@]
    } else if text == "Carro compacto"@ {
        seq!["Compact"@, "Compact car"@]
    } else if text == "Outro"@ {
        seq!["Other"@]
    } else {
        seq![]
    }
}

fn option_synonym_list(text: &str) -> (r: Vec<&'static str>)
    ensures
        r.deep_view() == option_synonyms(text@),
{
    if str_eq(text, "Casa") {
        let r = vec!["House"];
        assert(r.deep_view() =~= option_synonyms(text@));
        r
    } else if str_eq(text, "Apartamento") {
        let r = vec!["Apartment", "Condo"];
        assert(r.deep_view() =~= option_synonyms(text@));
        r
    } else if str_eq(text, "Casa geminada") {
        let r = vec!["Townhouse"];
        assert(r.deep_view() =~= option_synonyms(text@));
        r
    } else if str_eq(text, "À venda") {
        let r = vec!["sale", "Venda", "For sale"];
        assert(r.deep_view() =~= option_synonyms(text@));
        r
    } else if str_eq(text, "Aluguel") {
        let r = vec!["rent", "Locação", "Aluguel", "For rent"];
        assert(r.deep_view() =~= option_synonyms(text@));
        r
    } else if str_eq(text, "Carro/picape") {
        let r = vec!["Car/Truck", "Car or pickup", "Carro", "Picape", "Carro/Caminhão"];
        assert(r.deep_view() =~= option_synonyms(text@));
        r
    } else if str_eq(text, "Motocicleta") {
        let r = vec!["Motorcycle"];
        assert(r.deep_view() =~= option_synonyms(text@));
        r
    } else if str_eq(text, "Veículos para esportes") {
        let r = vec!["Powersport", "Powersports"];
        assert(r.deep_view() =~= option_synonyms(text@));
        r
    } else if str_eq(text, "Trailer") {
        let r = vec!["Trailer"];
        assert(r.deep_view() =~= option_synonyms(text@));
        r
    } else if str_eq(text, "Reboque") {
        let r = vec!["Utility trailer", "reboque"];
        assert(r.deep_view() =~= option_synonyms(text@));
        r
    } else if str_eq(text, "Barco") {
        let r = vec!["Boat"];
        assert(r.deep_view() =~= option_synonyms(text@));
        r
    } else if str_eq(text, "Comercial/industrial") {
        let r = vec!["Commercial", "Industrial"];
        assert(r.deep_view() =~= option_synonyms(text@));
        r
    } else if str_eq(text, "Excelente") {
        let r = vec!["Like new", "excelente"];
        assert(r.deep_view() =~= option_synonyms(text@));
        r
    } else if str_eq(text, "Muito bom") {
        let r = vec!["Very good", "muito bom"];
        assert(r.deep_view() =~= option_synonyms(text@));
        r
    } else if str_eq(text, "Bom") {
        let r = vec!["Good", "bom"];
        assert(r.deep_view() =~= option_synonyms(text@));
        r
    } else if str_eq(text, "Razoável") {
        let r = vec!["Fair", "razoável"];
        assert(r.deep_view() =~= option_synonyms(text@));
        r
    } else if str_eq(text, "Ruim") {
        let r = vec!["Poor", "ruim"];
        assert(r.deep_view() =~= option_synonyms(text@));
        r
    } else if str_eq(text, "Gasolina") {
        let r = vec!["Gas", "Gasoline"];
        assert(r.deep_view() =~= option_synonyms(text@));
        r
    } else if str_eq(text, "Diesel") {
        let r = vec!["Diesel"];
        assert(r.deep_view() =~= option_synonyms(text@));
        r
    } else if str_eq(text, "Híbrido") {
        let r = vec!["Hybrid"];
        assert(r.deep_view() =~= option_synonyms(text@));
        r
    } else if str_eq(text, "Híbrido plug-in") {
        let r = vec!["Plug-in hybrid"];
        assert(r.deep_view() =~= option_synonyms(text@));
        r
    } else if str_eq(text, "Elétrico") {
        let r = vec!["Electric"];
        assert(r.deep_view() =~= option_synonyms(text@));
        r
    } else if str_eq(text, "Flex") {
        let r = vec!["Flex"];
        assert(r.deep_view() =~= option_synonyms(text@));
        r
    } else if str_eq(text, "Cupê") {
        let r = vec!["Coupe"];
        assert(r.deep_view() =~= option_synonyms(text@));
        r
    } else if str_eq(text, "Sedã") {
        let r = vec!["Sedan"];
        assert(r.deep_view() =~= option_synonyms(text@));
        r
    } else if str_eq(text, "Hatch") {
        let r = vec!["Hatchback"];
        assert(r.deep_view() =~= option_synonyms(text@));
        r
    } else if str_eq(text, "SUV") {
        let r = vec!["SUV"];
        assert(r.deep_view() =~= option_synonyms(text@));
        r
    } else if str_eq(text, "Conversível") {
        let r = vec!["Convertible"];
        assert(r.deep_view() =~= option_synonyms(text@));
        r
    } else if str_eq(text, "Station wagon") {
        let r = vec!["Wagon", "Station"];
        assert(r.deep_view() =~= option_synonyms(text@));
        r
    } else if str_eq(text, "Minivan") {
        let r = vec!["Minivan"];
        assert(r.deep_view() =~= option_synonyms(text@));
        r
    } else if str_eq(text, "Carro compacto") {
        let r = vec!["Compact", "Compact car"];
        assert(r.deep_view() =~= option_synonyms(text@));
        r
    } else if str_eq(text, "Outro") {
        let r = vec!["Other"];
        assert(r.deep_view() =~= option_synonyms(text@));
        r
    } else {
        let r: Vec<&'static str> = Vec::new();
        assert(r.deep_view() =~= option_synonyms(text@));
        r
    }
}

/// The names tried for the option labelled `text`: `text` first, then its synonyms.
pub open spec fn option_terms(text: Seq<char>) -> Seq<Seq<char>> {
    seq![text] + option_synonyms(text)
}

/// The XPath test that an element's text holds `term`.
pub open spec fn contains_condition(term: Seq<char>) -> Seq<char> {
    "contains(., '"@ + term + "')"@
}

/// The tests for each term, joined by `or`.
pub open spec fn or_conditions(terms: Seq<Seq<char>>) -> Seq<char>
    decreases terms.len(),
{
    if terms.len() == 0 {
        seq![]
    } else if terms.len() == 1 {
        contains_condition(terms[0])
    } else {
        or_conditions(terms.drop_last()) + " or "@ + contains_condition(terms.last())
    }
}

/// The XPath of a dropdown option whose text holds `text` or one of its synonyms.
pub open spec fn option_xpath(text: Seq<char>) -> Seq<char> {
    "//*[@role='option']["@ + or_conditions(option_terms(text)) + "]"@
}

/// The XPath of the dropdown option labelled `text`, matching the label or any
/// of the other names the marketplace uses for it.
pub fn get_option_xpath(text: &str) -> (r: String)
    ensures
        r@ == option_xpath(text@),
{
    let synonyms = option_synonym_list(text);
    let ghost terms = option_terms(text@);
    let mut conditions = String::from_str("contains(., '");
    conditions.append(text);
    conditions.append("')");
    assert(terms.take(1) =~= seq![text@]);
    let mut i: usize = 0;
    while i < synonyms.len()
        invariant
            terms == option_terms(text@),
            synonyms.deep_view() == option_synonyms(text@),
            i <= synonyms@.len(),
            conditions@ == or_conditions(terms.take(i + 1)),
        decreases synonyms@.len() - i,
    {
        let term: &str = synonyms[i];
        conditions.append(" or ");
        conditions.append("contains(., '");
        conditions.append(term);
        conditions.append("')");
        assert(terms.take(i + 2).drop_last() =~= terms.take(i + 1));
        assert(terms.take(i + 2).last() == term@);
        i = i + 1;
    }
    assert(terms.take(i + 1) =~= terms);
    let mut r = String::from_str("//*[@role='option'][");
    r.append(conditions.as_str());
    r.append("]");
    r
}

// ─── Failures of the automation ──────────────────────────────────────────────

/// The text of the failure when no browser could be started.
pub open spec fn chrome_not_found_text() -> Seq<char> {
    "Não foi possível iniciar o navegador. Verifique se o Google Chrome está instalado no computador. Caso esteja instalado e o erro persistir, tente reiniciar o aplicativo ou desativar temporariamente o antivírus."@
}

/// The failure when no browser could be started.
pub fn chrome_not_found_error() -> (r: DomainError)
    ensures
        r.is_automation_with(chrome_not_found_text()),
{
    DomainError::AutomationError(String::from_str("Não foi possível iniciar o navegador. Verifique se o Google Chrome está instalado no computador. Caso esteja instalado e o erro persistir, tente reiniciar o aplicativo ou desativar temporariamente o antivírus."))
}

/// The text of the failure when another browser operation is still running.
pub open spec fn operation_busy_text() -> Seq<char> {
    "Já existe uma operação em andamento no navegador. Aguarde ela terminar antes de iniciar outra."@
}

/// The failure when another browser operation is still running.
pub fn operation_busy_error() -> (r: DomainError)
    ensures
        r.is_automation_with(operation_busy_text()),
{
    DomainError::AutomationError(String::from_str("Já existe uma operação em andamento no navegador. Aguarde ela terminar antes de iniciar outra."))
}

/// The text of the failure when the started browser is no longer at hand.
pub open spec fn browser_unavailable_text() -> Seq<char> {
    "Browser não disponível"@
}

/// The failure when the started browser is no longer at hand.
pub fn browser_unavailable_error() -> (r: DomainError)
    ensures
        r.is_automation_with(browser_unavailable_text()),
{
    DomainError::AutomationError(String::from_str("Browser não disponível"))
}

/// The text of the failure when the user must sign in before publishing.
pub open spec fn not_logged_in_text() -> Seq<char> {
    "Você precisa estar logado no Facebook antes de publicar. Use a opção 'Entrar' primeiro."@
}

/// The failure when the user must sign in before publishing.
pub fn not_logged_in_error() -> (r: DomainError)
    ensures
        r.is_automation_with(not_logged_in_text()),
{
    DomainError::AutomationError(String::from_str("Você precisa estar logado no Facebook antes de publicar. Use a opção 'Entrar' primeiro."))
}

/// The text of the failure when the publication was not confirmed.
pub open spec fn publication_failed_text() -> Seq<char> {
    "A publicação falhou, o tempo esgotou ou a janela foi fechada prematuramente."@
}

/// The failure when the publication was not confirmed.
pub fn publication_failed_error() -> (r: DomainError)
    ensures
        r.is_automation_with(publication_failed_text()),
{
    DomainError::AutomationError(String::from_str("A publicação falhou, o tempo esgotou ou a janela foi fechada prematuramente."))
}

/// The text of the failure when the sign-out was not confirmed in time.
pub open spec fn signout_timeout_text() -> Seq<char> {
    "Timeout: logout não foi confirmado"@
}

/// The failure when the sign-out was not confirmed in time.
pub fn signout_timeout_error() -> (r: DomainError)
    ensures
        r.is_automation_with(signout_timeout_text()),
{
    DomainError::AutomationError(String::from_str("Timeout: logout não foi confirmado"))
}

/// The text of the failure when none of the photos is on disk.
pub open spec fn no_valid_photos_text() -> Seq<char> {
    "Nenhuma foto válida foi encontrada para enviar (os arquivos podem ter falhado no download/otimização)."@
}

/// The failure when none of the photos is on disk.
pub fn no_valid_photos_error() -> (r: DomainError)
    ensures
        r.is_automation_with(no_valid_photos_text()),
{
    DomainError::AutomationError(String::from_str("Nenhuma foto válida foi encontrada para enviar (os arquivos podem ter falhado no download/otimização)."))
}

/// The failure when an element never appeared on the page.
pub fn element_not_loaded_error(selector: &str) -> (r: DomainError)
    ensures
        r.is_automation_with("Elemento não carregou na tela: "@ + selector@),
{
    let mut s = String::from_str("Elemento não carregou na tela: ");
    s.append(selector);
    DomainError::AutomationError(s)
}

/// The failure when an XPath never matched on the page.
pub fn xpath_not_loaded_error(xpath: &str) -> (r: DomainError)
    ensures
        r.is_automation_with("XPath não carregou na tela: "@ + xpath@),
{
    let mut s = String::from_str("XPath não carregou na tela: ");
    s.append(xpath);
    DomainError::AutomationError(s)
}

/// The failure when the typing script reported that it could not type into the field.
pub fn typing_rejected_error(xpath: &str) -> (r: DomainError)
    ensures
        r.is_automation_with("O JS de digitação falhou no elemento: "@ + xpath@),
{
    let mut s = String::from_str("O JS de digitação falhou no elemento: ");
    s.append(xpath);
    DomainError::AutomationError(s)
}

/// The failure when the photos could not be handed to the browser; `detail` is the last error seen.
pub fn upload_failed_error(detail: &str) -> (r: DomainError)
    ensures
        r.is_automation_with("Falha ao enviar as fotos para o Chromium: "@ + detail@),
{
    let mut s = String::from_str("Falha ao enviar as fotos para o Chromium: ");
    s.append(detail);
    DomainError::AutomationError(s)
}

/// The failure when the page could not be opened; `detail` is the browser's error.
pub fn navigation_failed_error(detail: &str) -> (r: DomainError)
    ensures
        r.is_automation_with("Falha ao navegar para a página: "@ + detail@),
{
    let mut s = String::from_str("Falha ao navegar para a página: ");
    s.append(detail);
    DomainError::AutomationError(s)
}

/// The failure when no page could be created; `detail` is the browser's error.
pub fn page_creation_failed_error(detail: &str) -> (r: DomainError)
    ensures
        r.is_automation_with("Falha ao criar nova página: "@ + detail@),
{
    let mut s = String::from_str("Falha ao criar nova página: ");
    s.append(detail);
    DomainError::AutomationError(s)
}

/// The failure when the page script could not be applied; `detail` is the browser's error.
pub fn anti_detection_failed_error(detail: &str) -> (r: DomainError)
    ensures
        r.is_automation_with("Falha ao aplicar script anti-detecção: "@ + detail@),
{
    let mut s = String::from_str("Falha ao aplicar script anti-detecção: ");
    s.append(detail);
    DomainError::AutomationError(s)
}

/// The failure when the sign-out script could not run; `detail` is the browser's error.
pub fn logout_script_failed_error(detail: &str) -> (r: DomainError)
    ensures
        r.is_automation_with("Falha ao executar logout: "@ + detail@),
{
    let mut s = String::from_str("Falha ao executar logout: ");
    s.append(detail);
    DomainError::AutomationError(s)
}

/// The failure when the typing script itself could not be run on the field at
/// `xpath`; `detail` is the browser's error.
pub fn typing_script_error(xpath: &str, detail: &str) -> (r: DomainError)
    ensures
        r.is_automation_with("Falha ao executar script de digitação ("@ + xpath@ + "): "@ + detail@),
{
    let mut s = String::from_str("Falha ao executar script de digitação (");
    s.append(xpath);
    s.append("): ");
    s.append(detail);
    DomainError::AutomationError(s)
}

// ─── Reading the page's address ──────────────────────────────────────────────

/// The page still belongs to the sign-in or security-check flow.
pub open spec fn asks_for_login(url: Seq<char>) -> bool {
    seq_contains(url, "login"@) || seq_contains(url, "checkpoint"@)
}

/// Whether the page at `url` asks the user to sign in first.
pub fn requires_login(url: &str) -> (r: bool)
    ensures
        r == asks_for_login(url@),
{
    str_contains(url, "login") || str_contains(url, "checkpoint")
}

/// The marketplace moved on to the seller's listings, which it does once a
/// listing was published.
pub open spec fn shows_own_listings(url: Seq<char>) -> bool {
    seq_contains(url, "marketplace/you/selling"@) || seq_contains(url, "marketplace/you/vehicles"@)
}

/// Whether the page at `url` confirms that the listing was published.
pub fn publication_confirmed(url: &str) -> (r: bool)
    ensures
        r == shows_own_listings(url@),
{
    str_contains(url, "marketplace/you/selling") || str_contains(url, "marketplace/you/vehicles")
}

/// The page is past every step of signing in: not the sign-in page, nor a
/// second-factor, save-device or trust prompt.
pub open spec fn past_login_flow(url: Seq<char>) -> bool {
    &&& !seq_contains(url, "login"@)
    &&& !seq_contains(url, "two_factor"@)
    &&& !seq_contains(url, "two-factor"@)
    &&& !seq_contains(url, "save-device"@)
    &&& !seq_contains(url, "trust"@)
}

/// Whether the page at `url` is past every step of signing in.
pub fn left_login_flow(url: &str) -> (r: bool)
    ensures
        r == past_login_flow(url@),
{
    !str_contains(url, "login") && !str_contains(url, "two_factor") && !str_contains(url, "two-factor")
        && !str_contains(url, "save-device") && !str_contains(url, "trust")
}

/// Where the browser stands while a sign-out is being confirmed.
#[derive(Clone, Copy, Debug, PartialEq, Eq, Structural)]
pub enum SignoutPage {
    /// The session is gone: a sign-in, signed-out or security-check page.
    SignedOut,
    /// Still on the site, outside the sign-in page: the user is sent to the
    /// account chooser, and the sign-out counts as done.
    StillOnSite,
    /// Neither; keep watching.
    Elsewhere,
}

/// The sign-out state that the page at `url` shows.
pub open spec fn signout_page_of(url: Seq<char>) -> SignoutPage {
    if seq_contains(url, "login"@) || seq_contains(url, "logged_out"@) || seq_contains(url, "checkpoint"@)
        || seq_contains(url, "accounts/login"@) {
        SignoutPage::SignedOut
    } else if seq_contains(url, "facebook.com"@) && !seq_contains(url, "login"@) {
        SignoutPage::StillOnSite
    } else {
        SignoutPage::Elsewhere
    }
}

/// Classifies the page at `url` while a sign-out is being confirmed.
pub fn signout_page(url: &str) -> (r: SignoutPage)
    ensures
        r == signout_page_of(url@),
{
    if str_contains(url, "login") || str_contains(url, "logged_out") || str_contains(url, "checkpoint")
        || str_contains(url, "accounts/login") {
        SignoutPage::SignedOut
    } else if str_contains(url, "facebook.com") && !str_contains(url, "login") {
        SignoutPage::StillOnSite
    } else {
        SignoutPage::Elsewhere
    }
}

// ─── Watching the page ───────────────────────────────────────────────────────

/// How many times, two seconds apart, the page is checked for a confirmed
/// publication or a finished sign-in.
pub const CONFIRMATION_POLLS: u32 = 240;

/// How many times, two seconds apart, the page is checked for a finished sign-out.
pub const SIGNOUT_POLLS: u32 = 20;

/// What one look at the page decides.
#[derive(Clone, Copy, Debug, PartialEq, Eq, Structural)]
pub enum Poll {
    /// Look again after the next pause.
    KeepWaiting,
    /// What was waited for happened.
    Confirmed,
    /// The page is gone; stop watching.
    Stop,
}

/// One look at the page while waiting for a publication: `readable` is false
/// when the page could not be queried at all (the window was closed), and
/// `url` is its address when it could be read as text.
pub fn publication_poll(readable: bool, url: Option<&str>) -> (r: Poll)
    ensures
        !readable ==> r == Poll::Stop,
        readable && url is None ==> r == Poll::KeepWaiting,
        readable && url is Some ==> r == (if shows_own_listings(url->0@) {
            Poll::Confirmed
        } else {
            Poll::KeepWaiting
        }),
{
    if !readable {
        return Poll::Stop;
    }
    match url {
        None => Poll::KeepWaiting,
        Some(u) => {
            if publication_confirmed(u) {
                Poll::Confirmed
            } else {
                Poll::KeepWaiting
            }
        },
    }
}

/// The answer of a publication, given whether it was confirmed.
pub fn publication_result(confirmed: bool) -> (r: Result<(), DomainError>)
    ensures
        confirmed ==> r is Ok,
        !confirmed ==> (r matches Err(e) && e.is_automation_with(publication_failed_text())),
{
    if confirmed {
        Ok(())
    } else {
        Err(publication_failed_error())
    }
}

/// One look at the page while the user signs in: the sign-in is done once the
/// page is past every sign-in step, the signed-in marker shows, and no prompt
/// to trust the device is left open.
pub fn signin_poll(url: &str, signed_in_marker: bool, trust_prompt: bool) -> (r: Poll)
    ensures
        r == (if past_login_flow(url@) && signed_in_marker && !trust_prompt {
            Poll::Confirmed
        } else {
            Poll::KeepWaiting
        }),
{
    if left_login_flow(url) && signed_in_marker && !trust_prompt {
        Poll::Confirmed
    } else {
        Poll::KeepWaiting
    }
}

/// The failure when the user did not finish signing in while it was watched.
pub fn signin_timeout_error() -> (r: DomainError)
    ensures
        r is NotFound,
{
    DomainError::NotFound
}

// ─── Handing the photos to the browser ───────────────────────────────────────

/// The photos that are handed to the browser, given those found on disk: all
/// of them, and a failure when there is none.
pub fn photos_to_upload(on_disk: Vec<String>) -> (r: Result<Vec<String>, DomainError>)
    ensures
        on_disk@.len() > 0 ==> (r matches Ok(v) && v@ == on_disk@),
        on_disk@.len() == 0 ==> (r matches Err(e) && e.is_automation_with(no_valid_photos_text())),
{
    if on_disk.len() == 0 {
        Err(no_valid_photos_error())
    } else {
        Ok(on_disk)
    }
}

/// What follows a try at handing the photos to the browser.
#[derive(Debug)]
pub enum UploadStep {
    /// The photos were handed over.
    Done,
    /// Pause for `pause_ms` milliseconds, then make try number `attempt`.
    Retry { pause_ms: u64, attempt: u32 },
    /// Pause for `pause_ms` milliseconds, then give up with `error`.
    GiveUp { pause_ms: u64, error: DomainError },
}

/// Decides what follows try number `attempt` (counted from 1) at handing the
/// photos to the browser, given how it went (the error's text when it
/// failed): a success ends the upload; a failure is followed by a pause and
/// then by the next try, or after the last try by the failure that carries
/// the last error's text.
pub fn after_upload_attempt(attempt: u32, outcome: Result<(), String>) -> (r: UploadStep)
    requires
        1 <= attempt <= UPLOAD_ATTEMPTS,
    ensures
        outcome is Ok ==> r is Done,
        outcome is Err && attempt < UPLOAD_ATTEMPTS
            ==> r == (UploadStep::Retry { pause_ms: UPLOAD_RETRY_PAUSE_MS, attempt: (attempt + 1) as u32 }),
        attempt == UPLOAD_ATTEMPTS ==> (outcome matches Err(e)
            ==> (r matches UploadStep::GiveUp { pause_ms, error }
                && pause_ms == UPLOAD_RETRY_PAUSE_MS
                && error.is_automation_with("Falha ao enviar as fotos para o Chromium: "@ + e@))),
{
    match outcome {
        Ok(()) => UploadStep::Done,
        Err(e) => {
            if attempt < UPLOAD_ATTEMPTS {
                UploadStep::Retry { pause_ms: UPLOAD_RETRY_PAUSE_MS, attempt: attempt + 1 }
            } else {
                UploadStep::GiveUp { pause_ms: UPLOAD_RETRY_PAUSE_MS, error: upload_failed_error(e.as_str()) }
            }
        },
    }
}

} // verus!
