//! The page scripts and fixed locators that the browser automation uses.

use vstd::prelude::*;

verus! {

broadcast use vstd::string::group_string_axioms;

/// Where the user signs in.
pub const LOGIN_URL: &'static str = "https://www.facebook.com/login?locale=pt_BR";

/// The home page, used to tell whether the user is signed in.
pub const HOME_URL: &'static str = "https://www.facebook.com/?locale=pt_BR";

/// Where the user is sent once signed out while still on the site.
pub const ACCOUNT_CHOOSER_URL: &'static str = "https://www.facebook.com/login?next&prompt=select_account&login_attempt=1&lwv=100&locale=pt_BR";

/// An element that only a signed-in page shows.
pub const SEL_FACEBOOK_LOGGED_IN: &'static str = "div[aria-label='Facebook']";

/// The prompt that asks the user to trust this device.
pub const SEL_FACEBOOK_TRUST_DEVICE: &'static str = "div[data-testid='save-device-button'], button[name='save_device'], div[aria-label='Salvar dispositivo'], .__7n5 button";

/// The first suggestion of an autocompleting field.
pub const FIRST_OPTION_XPATH: &'static str = "//*[@role='option'][1]";

/// Reads the page's address.
pub const LOCATION_HREF_JS: &'static str = "window.location.href";

/// Reloads the page.
pub const RELOAD_JS: &'static str = "window.location.reload()";

/// Sets the site's language to Brazilian Portuguese.
pub const LOCALE_COOKIE_JS: &'static str = "document.cookie = \"locale=pt_BR; domain=.facebook.com; path=/; max-age=31536000; SameSite=None; Secure\";";

/// Hides the signs that the browser is automated.
pub const ANTI_DETECTION_JS: &'static str = "
    Object.defineProperty(navigator, 'webdriver', {
        get: () => undefined,
        configurable: true
    });
    delete window.cdc_adoQpoasnfa76pfcZLmcfl_Array;
    delete window.cdc_adoQpoasnfa76pfcZLmcfl_Promise;
    delete window.cdc_adoQpoasnfa76pfcZLmcfl_Symbol;
    Object.defineProperty(navigator, 'plugins', {
        get: () => [1, 2, 3, 4, 5],
    });
    Object.defineProperty(navigator, 'languages', {
        get: () => ['pt-BR', 'pt', 'en-US', 'en'],
    });
";

/// Posts the site's sign-out form with the session's token.
pub const LOGOUT_JS: &'static str = "
                (function() {
                    const form = document.querySelector('form[action*=\"logout.php\"]');
                    if (!form) return { success: false, reason: 'form not found' };
                    const h = form.querySelector('input[name=\"h\"]');
                    const ref_ = form.querySelector('input[name=\"ref\"]');
                    if (!h) return { success: false, reason: 'token h not found' };
                    const params = new URLSearchParams();
                    params.append('h', h.value);
                    params.append('ref', ref_ ? ref_.value : 'mb');
                    fetch('/logout.php?button_location=settings&button_name=logout', {
                        method: 'POST',
                        credentials: 'include',
                        headers: { 'Content-Type': 'application/x-www-form-urlencoded' },
                        body: params.toString()
                    });
                    return { success: true, h: h.value };
                })()
            ";

/// What `format!("{:?}", s)` gives for the text `s`: `s` as a quoted and
/// escaped string literal.
pub uninterp spec fn debug_quoted(s: Seq<char>) -> Seq<char>;

/// Calls the `Debug` formatting of `str`, which quotes the text and escapes
/// quotes, backslashes and control characters. Stated: the result is
/// `debug_quoted(s)`; the escaping rules themselves are left unsaid.
#[verifier::external_body]
fn quote(s: &str) -> (r: String)
    ensures
        r@ == debug_quoted(s@),
{
    format!("{:?}", s)
}

/// The script text before the quoted XPath, in the scripts that locate an element.
pub const LOCATE_PREFIX: &'static str = "(function() {
                    var el = document.evaluate(";

/// The script text after the quoted XPath in the clicking script.
pub const CLICK_SUFFIX: &'static str = ", document, null,
                        XPathResult.FIRST_ORDERED_NODE_TYPE, null).singleNodeValue;
                    if (el) { el.click(); return true; }
                    return false;
                })()";

/// The script text after the quoted XPath in the focusing script.
pub const FOCUS_SUFFIX: &'static str = ", document, null,
                        XPathResult.FIRST_ORDERED_NODE_TYPE, null).singleNodeValue;
                    if (el) { el.focus(); el.click(); return true; }
                    return false;
                })()";

/// The pieces of the typing script around the quoted XPath and the three
/// quoted copies of the value.
pub const TYPE_PART_0: &'static str = "(function() {
                var el = document.evaluate(";

pub const TYPE_PART_1: &'static str = ", document, null,
                    XPathResult.FIRST_ORDERED_NODE_TYPE, null).singleNodeValue;
                if (!el) return false;
                el.focus();
                var success = document.execCommand('insertText', false, ";

pub const TYPE_PART_2: &'static str = ");
                if (!success || el.value !== ";

pub const TYPE_PART_3: &'static str = ") {
                    el.value = ";

pub const TYPE_PART_4: &'static str = ";
                    el.dispatchEvent(new Event('input', { bubbles: true }));
                    el.dispatchEvent(new Event('change', { bubbles: true }));
                }
                return true;
            })()";

/// The script that clicks the first element at `xpath`, answering whether there was one.
pub fn click_script(xpath: &str) -> (r: String)
    ensures
        r@ == LOCATE_PREFIX@ + debug_quoted(xpath@) + CLICK_SUFFIX@,
{
    let mut r = String::from_str(LOCATE_PREFIX);
    let q = quote(xpath);
    r.append(q.as_str());
    r.append(CLICK_SUFFIX);
    r
}

/// The script that focuses and clicks the first element at `xpath`,
/// answering whether there was one.
pub fn focus_script(xpath: &str) -> (r: String)
    ensures
        r@ == LOCATE_PREFIX@ + debug_quoted(xpath@) + FOCUS_SUFFIX@,
{
    let mut r = String::from_str(LOCATE_PREFIX);
    let q = quote(xpath);
    r.append(q.as_str());
    r.append(FOCUS_SUFFIX);
    r
}

/// The typing script for `value` into the element at `xpath`.
pub open spec fn typing_script_text(xpath: Seq<char>, value: Seq<char>) -> Seq<char> {
    TYPE_PART_0@ + debug_quoted(xpath) + TYPE_PART_1@ + debug_quoted(value) + TYPE_PART_2@
        + debug_quoted(value) + TYPE_PART_3@ + debug_quoted(value) + TYPE_PART_4@
}

/// The script that types `value` into the element at `xpath`: it inserts the
/// text as typing would, and when the field does not then hold exactly
/// `value` it sets the value and announces the change; it answers false when
/// there is no such element.
pub fn typing_script(xpath: &str, value: &str) -> (r: String)
    ensures
        r@ == typing_script_text(xpath@, value@),
{
    let qx = quote(xpath);
    let qv = quote(value);
    let mut r = String::from_str(TYPE_PART_0);
    r.append(qx.as_str());
    r.append(TYPE_PART_1);
    r.append(qv.as_str());
    r.append(TYPE_PART_2);
    r.append(qv.as_str());
    r.append(TYPE_PART_3);
    r.append(qv.as_str());
    r.append(TYPE_PART_4);
    r
}

// ─── Waiting and retrying ────────────────────────────────────────────────────

/// How many times an element is looked for before giving up.
pub const ELEMENT_WAIT_TRIES: u32 = 40;

/// The pause between two looks for an element, in milliseconds.
pub const ELEMENT_WAIT_PAUSE_MS: u64 = 750;

/// How many times the photos are handed to the browser before giving up.
pub const UPLOAD_ATTEMPTS: u32 = 5;

/// The pause between two uploads of the photos, in milliseconds.
pub const UPLOAD_RETRY_PAUSE_MS: u64 = 800;

/// How many times the browser is asked for an open page before one is created.
pub const PAGE_LOOKUPS: u32 = 15;

} // verus!
