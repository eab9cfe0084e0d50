//! How the browser is started: the flags of each launch attempt, and what to
//! do after an attempt.

use vstd::prelude::*;
use crate::domain::error::DomainError;
use crate::infra::marketplace::{chrome_not_found_error, chrome_not_found_text};
use crate::text::chars_of;

verus! {

broadcast use vstd::string::group_string_axioms;

/// The flag sets for a browser with a window, from the usual one to the most
/// permissive; each is tried in turn until the browser starts.
pub open spec fn headed_flags() -> Seq<Seq<Seq<char>>> {
    seq![
        seq!["--no-sandbox"@, "--disable-dev-shm-usage"@, "--disable-setuid-sandbox"@, "--disable-gpu"@, "--disable-infobars"@, "--disable-notifications"@, "--disable-blink-features=AutomationControlled"@],
        seq!["--no-sandbox"@, "--disable-dev-shm-usage"@, "--disable-setuid-sandbox"@, "--disable-gpu"@, "--no-zygote"@, "--disable-infobars"@, "--disable-notifications"@, "--disable-blink-features=AutomationControlled"@],
        seq!["--no-sandbox"@, "--disable-dev-shm-usage"@, "--disable-setuid-sandbox"@, "--disable-gpu"@, "--no-zygote"@, "--single-process"@, "--disable-infobars"@, "--disable-notifications"@],
    ]
}

/// The flag sets for a browser without a window, each one a superset of the one before.
pub open spec fn headless_flags() -> Seq<Seq<Seq<char>>> {
    seq![
        seq!["--no-sandbox"@, "--disable-dev-shm-usage"@, "--disable-setuid-sandbox"@, "--disable-gpu"@],
        seq!["--no-sandbox"@, "--disable-dev-shm-usage"@, "--disable-setuid-sandbox"@, "--disable-gpu"@, "--no-zygote"@],
        seq!["--no-sandbox"@, "--disable-dev-shm-usage"@, "--disable-setuid-sandbox"@, "--disable-gpu"@, "--no-zygote"@, "--single-process"@],
    ]
}

/// The flags added to every attempt of a browser with a window.
pub open spec fn headed_extra_flags() -> Seq<Seq<char>> {
    seq!["--start-maximized"@, "--window-size=1280,720"@, "--disable-infobars"@, "--disable-notifications"@, "--disable-blink-features=AutomationControlled"@, "--user-agent=Mozilla/5.0 (Windows NT 10.0; Win64; x64) AppleWebKit/537.36 (KHTML, like Gecko) Chrome/136.0.0.0 Safari/537.36"@, "--no-restore-session-state"@, "--restore-last-session=false"@, "--disable-session-crashed-bubble"@, "--disable-background-mode"@, "--password-store=basic"@, "--use-mock-keychain"@, "--lang=pt-BR"@, "--disable-ipc-flooding-protection"@, "--disable-renderer-backgrounding"@, "--disable-backgrounding-occluded-windows"@, "--disable-client-side-phishing-detection"@, "--disable-crash-reporter"@, "--disable-oopr-debug-crash-dump"@, "--no-crash-upload"@, "--hide-crash-restore-bubble"@, "--suppress-message-center-popups"@, "--disable-popup-blocking"@, "--no-first-run"@, "--no-default-browser-check"@, "--new-window"@]
}

pub fn headed_flag_sets() -> (r: Vec<Vec<&'static str>>)
    ensures
        r.deep_view() == headed_flags(),
{
    let a: Vec<&'static str> = vec!["--no-sandbox", "--disable-dev-shm-usage", "--disable-setuid-sandbox", "--disable-gpu", "--disable-infobars", "--disable-notifications", "--disable-blink-features=AutomationControlled"];
    assert(a.deep_view() =~= headed_flags()[0]);
    let b: Vec<&'static str> = vec!["--no-sandbox", "--disable-dev-shm-usage", "--disable-setuid-sandbox", "--disable-gpu", "--no-zygote", "--disable-infobars", "--disable-notifications", "--disable-blink-features=AutomationControlled"];
    assert(b.deep_view() =~= headed_flags()[1]);
    let c: Vec<&'static str> = vec!["--no-sandbox", "--disable-dev-shm-usage", "--disable-setuid-sandbox", "--disable-gpu", "--no-zygote", "--single-process", "--disable-infobars", "--disable-notifications"];
    assert(c.deep_view() =~= headed_flags()[2]);
    let r = vec![a, b, c];
    assert(r.deep_view() =~= headed_flags());
    r
}

pub fn headless_flag_sets() -> (r: Vec<Vec<&'static str>>)
    ensures
        r.deep_view() == headless_flags(),
{
    let a: Vec<&'static str> = vec!["--no-sandbox", "--disable-dev-shm-usage", "--disable-setuid-sandbox", "--disable-gpu"];
    assert(a.deep_view() =~= headless_flags()[0]);
    let b: Vec<&'static str> = vec!["--no-sandbox", "--disable-dev-shm-usage", "--disable-setuid-sandbox", "--disable-gpu", "--no-zygote"];
    assert(b.deep_view() =~= headless_flags()[1]);
    let c: Vec<&'static str> = vec!["--no-sandbox", "--disable-dev-shm-usage", "--disable-setuid-sandbox", "--disable-gpu", "--no-zygote", "--single-process"];
    assert(c.deep_view() =~= headless_flags()[2]);
    let r = vec![a, b, c];
    assert(r.deep_view() =~= headless_flags());
    r
}

/// The arguments of one attempt at a browser with a window: the attempt's own
/// flags, then the flags that every such attempt adds.
pub fn headed_launch_args(base: &Vec<&'static str>) -> (r: Vec<&'static str>)
    ensures
        r.deep_view() == base.deep_view() + headed_extra_flags(),
{
    let extra: Vec<&'static str> = vec!["--start-maximized", "--window-size=1280,720", "--disable-infobars", "--disable-notifications", "--disable-blink-features=AutomationControlled", "--user-agent=Mozilla/5.0 (Windows NT 10.0; Win64; x64) AppleWebKit/537.36 (KHTML, like Gecko) Chrome/136.0.0.0 Safari/537.36", "--no-restore-session-state", "--restore-last-session=false", "--disable-session-crashed-bubble", "--disable-background-mode", "--password-store=basic", "--use-mock-keychain", "--lang=pt-BR", "--disable-ipc-flooding-protection", "--disable-renderer-backgrounding", "--disable-backgrounding-occluded-windows", "--disable-client-side-phishing-detection", "--disable-crash-reporter", "--disable-oopr-debug-crash-dump", "--no-crash-upload", "--hide-crash-restore-bubble", "--suppress-message-center-popups", "--disable-popup-blocking", "--no-first-run", "--no-default-browser-check", "--new-window"];
    assert(extra.deep_view() =~= headed_extra_flags());
    let mut r: Vec<&'static str> = Vec::new();
    let mut i: usize = 0;
    while i < base.len()
        invariant
            i <= base@.len(),
            r@ == base@.take(i as int),
        decreases base@.len() - i,
    {
        r.push(base[i]);
        assert(r@ =~= base@.take(i + 1));
        i = i + 1;
    }
    let mut j: usize = 0;
    while j < extra.len()
        invariant
            i == base@.len(),
            j <= extra@.len(),
            r@ == base@ + extra@.take(j as int),
        decreases extra@.len() - j,
    {
        r.push(extra[j]);
        assert(r@ =~= base@ + extra@.take(j + 1));
        j = j + 1;
    }
    assert(r@ =~= base@ + extra@);
    assert(r.deep_view() =~= base.deep_view() + extra.deep_view());
    r
}

/// Each headless flag set keeps every flag of the set before it.
pub proof fn lemma_headless_flags_grow()
    ensures
        forall|k: int, f: Seq<char>|
            0 <= k < headless_flags().len() - 1 && #[trigger] headless_flags()[k].contains(f)
                ==> headless_flags()[k + 1].contains(f),
{
    let s = headless_flags();
    assert forall|k: int, f: Seq<char>| 0 <= k < s.len() - 1 && #[trigger] s[k].contains(f) implies s[k + 1].contains(f) by {
        let i = choose|i: int| 0 <= i < s[k].len() && s[k][i] == f;
        assert(s[k + 1][i] == s[k][i]);
    }
}

/// The second flag set of a browser with a window keeps every flag of the first.
pub proof fn lemma_headed_second_set_keeps_first()
    ensures
        forall|f: Seq<char>| #[trigger] headed_flags()[0].contains(f) ==> headed_flags()[1].contains(f),
{
    let s = headed_flags();
    assert forall|f: Seq<char>| #[trigger] s[0].contains(f) implies s[1].contains(f) by {
        let i = choose|i: int| 0 <= i < s[0].len() && s[0][i] == f;
        if i < 4 {
            assert(s[1][i] == f);
        } else {
            assert(s[1][i + 1] == f);
        }
    }
}

// ─── Launch attempts ─────────────────────────────────────────────────────────

/// How one launch attempt ended.
#[derive(Clone, Copy, Debug, PartialEq, Eq, Structural)]
pub enum LaunchOutcome {
    /// The configuration for this attempt could not be built.
    ConfigRejected,
    /// The browser process failed to start.
    Failed,
    /// The browser did not start within the time allowed.
    TimedOut,
    /// The browser is running.
    Started,
}

/// What to do after a launch attempt.
#[derive(Debug)]
pub enum LaunchStep {
    /// Wait `pause_ms` milliseconds, then make attempt number `attempt`.
    Retry { attempt: usize, pause_ms: u64 },
    /// Use the browser that started.
    Started,
    /// Wait `pause_ms` milliseconds, then fail with `error`.
    GiveUp { pause_ms: u64, error: DomainError },
}

/// The wait after an attempt that ended with `outcome`: half a second after a
/// failed start, none otherwise.
pub open spec fn pause_after(outcome: LaunchOutcome) -> u64 {
    if outcome == LaunchOutcome::Failed {
        500
    } else {
        0
    }
}

/// Decides what follows launch attempt `attempt` (counted from 0) of
/// `attempts`: a started browser is used; otherwise the next attempt is made,
/// and after the last one the launch fails with the browser-not-found error.
pub fn after_launch_attempt(attempt: usize, attempts: usize, outcome: LaunchOutcome) -> (r: LaunchStep)
    requires
        attempt < attempts,
    ensures
        outcome == LaunchOutcome::Started ==> r is Started,
        outcome != LaunchOutcome::Started && attempt + 1 < attempts ==> r == (LaunchStep::Retry {
            attempt: (attempt + 1) as usize,
            pause_ms: pause_after(outcome),
        }),
        outcome != LaunchOutcome::Started && attempt + 1 == attempts ==> (r matches LaunchStep::GiveUp { pause_ms, error }
            && pause_ms == pause_after(outcome)
            && error.is_automation_with(chrome_not_found_text())),
{
    let pause_ms: u64 = match outcome {
        LaunchOutcome::Failed => 500,
        _ => 0,
    };
    match outcome {
        LaunchOutcome::Started => LaunchStep::Started,
        _ => {
            if attempt + 1 < attempts {
                LaunchStep::Retry { attempt: attempt + 1, pause_ms }
            } else {
                LaunchStep::GiveUp { pause_ms, error: chrome_not_found_error() }
            }
        },
    }
}

// ─── Reading a lookup on the PATH ────────────────────────────────────────────

/// A character with the Unicode White_Space property, which is what
/// `char::is_whitespace` tests: tab, line feed, vertical tab, form feed,
/// carriage return and space; next line and no-break space; the Ogham space
/// mark; the spaces from en quad to hair space; the line and paragraph
/// separators; the narrow no-break space, the medium mathematical space and
/// the ideographic space.
pub open spec fn whitespace(c: char) -> bool {
    let u = c as u32;
    ||| 0x09 <= u <= 0x0D
    ||| u == 0x20
    ||| u == 0x85
    ||| u == 0xA0
    ||| u == 0x1680
    ||| 0x2000 <= u <= 0x200A
    ||| u == 0x2028
    ||| u == 0x2029
    ||| u == 0x202F
    ||| u == 0x205F
    ||| u == 0x3000
}

/// Whether `c` is white space, as `char::is_whitespace` tells.
pub fn is_whitespace(c: char) -> (r: bool)
    ensures
        r == whitespace(c),
{
    let u = c as u32;
    (0x09 <= u && u <= 0x0D) || u == 0x20 || u == 0x85 || u == 0xA0 || u == 0x1680
        || (0x2000 <= u && u <= 0x200A) || u == 0x2028 || u == 0x2029 || u == 0x202F || u == 0x205F
        || u == 0x3000
}

/// `n` is where the first line of `s` ends: at its first line feed, or at
/// its end when it has none.
pub open spec fn first_line_end(s: Seq<char>, n: int) -> bool {
    &&& 0 <= n <= s.len()
    &&& n < s.len() ==> s[n] == '\n'
    &&& forall|i: int| 0 <= i < n ==> #[trigger] s[i] != '\n'
}

/// The path that a lookup on the PATH (`which`, or `where` on Windows)
/// printed as `output`: its first line without the whitespace around it,
/// or nothing when that is empty.
pub fn path_from_lookup(output: &str) -> (r: Option<String>)
    ensures
        forall|n: int| #![trigger first_line_end(output@, n)] first_line_end(output@, n) ==> {
            &&& r is None <==> (forall|i: int| 0 <= i < n ==> whitespace(#[trigger] output@[i]))
            &&& r matches Some(path) ==> exists|a: int, b: int| {
                &&& 0 <= a < b <= n
                &&& #[trigger] output@.subrange(a, b) == path@
                &&& (forall|i: int| 0 <= i < a ==> whitespace(#[trigger] output@[i]))
                &&& (forall|i: int| b <= i < n ==> whitespace(#[trigger] output@[i]))
                &&& !whitespace(output@[a])
                &&& !whitespace(output@[b - 1])
            }
        },
{
    let chars = chars_of(output);
    let len = chars.len();
    let mut n: usize = 0;
    while n < len && chars[n] != '\n'
        invariant
            chars@ == output@,
            len == chars@.len(),
            n <= len,
            forall|i: int| 0 <= i < n ==> #[trigger] chars@[i] != '\n',
        decreases len - n,
    {
        n = n + 1;
    }
    assert(first_line_end(output@, n as int));
    assert forall|m: int| first_line_end(output@, m) implies m == n by {
        if m < n {
            assert(chars@[m] != '\n');
        } else if m > n {
            assert(output@[n as int] != '\n');
        }
    }
    let mut a: usize = 0;
    while a < n && is_whitespace(chars[a])
        invariant
            chars@ == output@,
            len == chars@.len(),
            n <= len,
            a <= n,
            forall|i: int| 0 <= i < a ==> whitespace(#[trigger] chars@[i]),
        decreases n - a,
    {
        a = a + 1;
    }
    if a == n {
        return None;
    }
    let mut b: usize = n;
    while b > a && is_whitespace(chars[b - 1])
        invariant
            chars@ == output@,
            len == chars@.len(),
            a < n <= len,
            a < b <= n,
            !whitespace(chars@[a as int]),
            forall|i: int| b <= i < n ==> whitespace(#[trigger] chars@[i]),
        decreases b - a,
    {
        b = b - 1;
    }
    let path = String::from_str(output.substring_char(a, b));
    assert(output@.subrange(a as int, b as int) == path@);
    Some(path)
}

// ─── Finding a Chrome executable ─────────────────────────────────────────────

/// How long a download of Chromium may take, in seconds: 15 minutes.
pub const CHROMIUM_DOWNLOAD_TIMEOUT_SECS: u64 = 900;

/// The family of operating system the search runs on.
#[derive(Clone, Copy, Debug, PartialEq, Eq, Structural)]
pub enum Os {
    Windows,
    MacOs,
    /// Linux and the other Unix systems.
    Other,
}

/// The path of the Chromium bundled with the application, given the
/// directory of the application's executable.
pub open spec fn bundled_chrome_text(os: Os, exe_dir: Seq<char>) -> Seq<char> {
    match os {
        Os::Windows => exe_dir + "\\chrome-win\\chrome.exe"@,
        Os::MacOs => exe_dir + "/chrome-win/Google Chrome.app/Contents/MacOS/Google Chrome"@,
        Os::Other => exe_dir + "/chrome-win/chrome"@,
    }
}

/// The path of the Chromium bundled with the application: in the
/// `chrome-win` directory next to its executable.
pub fn bundled_chrome_path(os: Os, exe_dir: &str) -> (r: String)
    ensures
        r@ == bundled_chrome_text(os, exe_dir@),
{
    let mut r = String::from_str(exe_dir);
    match os {
        Os::Windows => r.append("\\chrome-win\\chrome.exe"),
        Os::MacOs => r.append("/chrome-win/Google Chrome.app/Contents/MacOS/Google Chrome"),
        Os::Other => r.append("/chrome-win/chrome"),
    }
    r
}

/// The usual install locations of Chrome and Chromium, in the order they are
/// tried; on Windows the per-user ones follow the system-wide ones, under the
/// local and then the roaming application data directory, when known.
pub open spec fn system_chrome_texts(os: Os, local_data: Option<Seq<char>>, roaming_data: Option<Seq<char>>) -> Seq<Seq<char>> {
    match os {
        Os::Windows => {
            seq![
                "C:\\Program Files\\Google\\Chrome\\Application\\chrome.exe"@,
                "C:\\Program Files (x86)\\Google\\Chrome\\Application\\chrome.exe"@,
                "C:\\Program Files\\Chromium\\Application\\chrome.exe"@,
                "C:\\Program Files (x86)\\Chromium\\Application\\chrome.exe"@,
            ] + match local_data {
                Some(dir) => seq![
                    dir + "\\Google\\Chrome\\Application\\chrome.exe"@,
                    dir + "\\Chromium\\Application\\chrome.exe"@,
                ],
                None => Seq::empty(),
            } + match roaming_data {
                Some(dir) => seq![dir + "\\Google\\Chrome\\Application\\chrome.exe"@],
                None => Seq::empty(),
            }
        },
        Os::MacOs => seq![
            "/Applications/Google Chrome.app/Contents/MacOS/Google Chrome"@,
            "/Applications/Chromium.app/Contents/MacOS/Chromium"@,
            "/Applications/Google Chrome Canary.app/Contents/MacOS/Google Chrome Canary"@,
        ],
        Os::Other => seq![
            "/usr/bin/google-chrome"@,
            "/usr/bin/google-chrome-stable"@,
            "/usr/bin/chromium-browser"@,
            "/usr/bin/chromium"@,
            "/snap/bin/chromium"@,
            "/usr/local/bin/chromium"@,
            "/usr/local/bin/google-chrome"@,
        ],
    }
}

/// `s` starts with `prefix`.
pub open spec fn starts_with(s: Seq<char>, prefix: Seq<char>) -> bool {
    prefix.len() <= s.len() && s.subrange(0, prefix.len() as int) == prefix
}

/// `s` ends with `suffix`.
pub open spec fn ends_with(s: Seq<char>, suffix: Seq<char>) -> bool {
    suffix.len() <= s.len() && s.subrange(s.len() - suffix.len(), s.len() as int) == suffix
}

/// Where a Chrome install keeps its executable under its install root on
/// Windows.
pub open spec fn windows_chrome_layout() -> Seq<char> {
    "\\Google\\Chrome\\Application\\chrome.exe"@
}

/// Where a Chromium install keeps its executable under its install root on
/// Windows.
pub open spec fn windows_chromium_layout() -> Seq<char> {
    "\\Chromium\\Application\\chrome.exe"@
}

proof fn lemma_joined_ends_starts(root: Seq<char>, layout: Seq<char>)
    ensures
        starts_with(root + layout, root),
        ends_with(root + layout, layout),
{
    assert((root + layout).subrange(0, root.len() as int) =~= root);
    assert((root + layout).subrange((root + layout).len() - layout.len(), (root + layout).len() as int) =~= layout);
}

/// The install locations tried on Windows follow the install layout of
/// Chrome and Chromium: each one ends in `\Google\Chrome\Application\chrome.exe`
/// or `\Chromium\Application\chrome.exe` and lies under the program files
/// directories or under the user's application data; Chrome and Chromium are
/// both tried under the program files directories and under the local
/// application data, and Chrome under the roaming one.
pub proof fn lemma_windows_chrome_layout(local_data: Option<Seq<char>>, roaming_data: Option<Seq<char>>)
    ensures
        ({
            let t = system_chrome_texts(Os::Windows, local_data, roaming_data);
            &&& forall|k: int| 0 <= k < t.len() ==>
                ends_with(#[trigger] t[k], windows_chrome_layout()) || ends_with(t[k], windows_chromium_layout())
            &&& forall|k: int| 0 <= k < t.len() ==> {
                ||| starts_with(#[trigger] t[k], "C:\\Program Files"@)
                ||| (local_data matches Some(d) && starts_with(t[k], d))
                ||| (roaming_data matches Some(d) && starts_with(t[k], d))
            }
            &&& t.contains("C:\\Program Files"@ + windows_chrome_layout())
            &&& t.contains("C:\\Program Files (x86)"@ + windows_chrome_layout())
            &&& t.contains("C:\\Program Files"@ + windows_chromium_layout())
            &&& t.contains("C:\\Program Files (x86)"@ + windows_chromium_layout())
            &&& local_data matches Some(d) ==> t.contains(d + windows_chrome_layout()) && t.contains(d + windows_chromium_layout())
            &&& roaming_data matches Some(d) ==> t.contains(d + windows_chrome_layout())
        }),
{
    reveal_strlit("C:\\Program Files\\Google\\Chrome\\Application\\chrome.exe");
    reveal_strlit("C:\\Program Files (x86)\\Google\\Chrome\\Application\\chrome.exe");
    reveal_strlit("C:\\Program Files\\Chromium\\Application\\chrome.exe");
    reveal_strlit("C:\\Program Files (x86)\\Chromium\\Application\\chrome.exe");
    reveal_strlit("\\Google\\Chrome\\Application\\chrome.exe");
    reveal_strlit("\\Chromium\\Application\\chrome.exe");
    reveal_strlit("C:\\Program Files");
    reveal_strlit("C:\\Program Files (x86)");
    let pf = "C:\\Program Files"@;
    let pfx = "C:\\Program Files (x86)"@;
    let g = windows_chrome_layout();
    let c = windows_chromium_layout();
    assert("C:\\Program Files\\Google\\Chrome\\Application\\chrome.exe"@ =~= pf + g);
    assert("C:\\Program Files (x86)\\Google\\Chrome\\Application\\chrome.exe"@ =~= pfx + g);
    assert("C:\\Program Files\\Chromium\\Application\\chrome.exe"@ =~= pf + c);
    assert("C:\\Program Files (x86)\\Chromium\\Application\\chrome.exe"@ =~= pfx + c);
    lemma_joined_ends_starts(pf, g);
    lemma_joined_ends_starts(pfx, g);
    lemma_joined_ends_starts(pf, c);
    lemma_joined_ends_starts(pfx, c);
    assert(starts_with(pfx + g, pf)) by {
        assert((pfx + g).subrange(0, pf.len() as int) =~= pf);
    }
    assert(starts_with(pfx + c, pf)) by {
        assert((pfx + c).subrange(0, pf.len() as int) =~= pf);
    }
    if let Some(d) = local_data {
        lemma_joined_ends_starts(d, g);
        lemma_joined_ends_starts(d, c);
    }
    if let Some(d) = roaming_data {
        lemma_joined_ends_starts(d, g);
    }
    let t = system_chrome_texts(Os::Windows, local_data, roaming_data);
    assert(t[0] == pf + g);
    assert(t[1] == pfx + g);
    assert(t[2] == pf + c);
    assert(t[3] == pfx + c);
    if let Some(d) = local_data {
        assert(t[4] == d + g);
        assert(t[5] == d + c);
    }
    if let Some(d) = roaming_data {
        assert(t[t.len() - 1] == d + g);
    }
}

/// The path of the executable inside a macOS application bundle named
/// `name`, installed in the Applications folder.
pub open spec fn mac_bundle_executable(name: Seq<char>) -> Seq<char> {
    "/Applications/"@ + name + ".app/Contents/MacOS/"@ + name
}

/// The install locations tried on macOS are application bundles in the
/// Applications folder whose executable bears the bundle's name: those of
/// Google Chrome, Chromium and Google Chrome Canary, in that order.
pub proof fn lemma_mac_chrome_layout(local_data: Option<Seq<char>>, roaming_data: Option<Seq<char>>)
    ensures
        system_chrome_texts(Os::MacOs, local_data, roaming_data) == seq![
            mac_bundle_executable("Google Chrome"@),
            mac_bundle_executable("Chromium"@),
            mac_bundle_executable("Google Chrome Canary"@),
        ],
{
    reveal_strlit("/Applications/Google Chrome.app/Contents/MacOS/Google Chrome");
    reveal_strlit("/Applications/Chromium.app/Contents/MacOS/Chromium");
    reveal_strlit("/Applications/Google Chrome Canary.app/Contents/MacOS/Google Chrome Canary");
    reveal_strlit("/Applications/");
    reveal_strlit(".app/Contents/MacOS/");
    reveal_strlit("Google Chrome");
    reveal_strlit("Chromium");
    reveal_strlit("Google Chrome Canary");
    assert("/Applications/Google Chrome.app/Contents/MacOS/Google Chrome"@ =~= mac_bundle_executable("Google Chrome"@));
    assert("/Applications/Chromium.app/Contents/MacOS/Chromium"@ =~= mac_bundle_executable("Chromium"@));
    assert("/Applications/Google Chrome Canary.app/Contents/MacOS/Google Chrome Canary"@
        =~= mac_bundle_executable("Google Chrome Canary"@));
    assert(system_chrome_texts(Os::MacOs, local_data, roaming_data) =~= seq![
        mac_bundle_executable("Google Chrome"@),
        mac_bundle_executable("Chromium"@),
        mac_bundle_executable("Google Chrome Canary"@),
    ]);
}

/// The program directories where Chrome and Chromium are installed on Linux
/// and the other Unix systems.
pub open spec fn unix_bin_dir(dir: Seq<char>) -> bool {
    dir == "/usr/bin"@ || dir == "/snap/bin"@ || dir == "/usr/local/bin"@
}

/// The install locations tried on Linux and the other Unix systems are the
/// programs that the PATH lookup also asks for, in a program directory: each
/// is such a directory, a `/`, and one of the looked-up program names.
pub proof fn lemma_unix_chrome_layout(local_data: Option<Seq<char>>, roaming_data: Option<Seq<char>>)
    ensures
        forall|k: int| 0 <= k < system_chrome_texts(Os::Other, local_data, roaming_data).len() ==>
            exists|d: Seq<char>, n: int| unix_bin_dir(d) && 0 <= n < lookup_name_texts(Os::Other).len()
                && #[trigger] system_chrome_texts(Os::Other, local_data, roaming_data)[k] == d + "/"@ + lookup_name_texts(Os::Other)[n],
{
    reveal_strlit("/usr/bin/google-chrome");
    reveal_strlit("/usr/bin/google-chrome-stable");
    reveal_strlit("/usr/bin/chromium-browser");
    reveal_strlit("/usr/bin/chromium");
    reveal_strlit("/snap/bin/chromium");
    reveal_strlit("/usr/local/bin/chromium");
    reveal_strlit("/usr/local/bin/google-chrome");
    reveal_strlit("/usr/bin");
    reveal_strlit("/snap/bin");
    reveal_strlit("/usr/local/bin");
    reveal_strlit("/");
    reveal_strlit("google-chrome");
    reveal_strlit("google-chrome-stable");
    reveal_strlit("chromium-browser");
    reveal_strlit("chromium");
    let t = system_chrome_texts(Os::Other, local_data, roaming_data);
    let names = lookup_name_texts(Os::Other);
    let (ub, sb, lb) = ("/usr/bin"@, "/snap/bin"@, "/usr/local/bin"@);
    assert(t[0] =~= ub + "/"@ + names[0]);
    assert(t[1] =~= ub + "/"@ + names[1]);
    assert(t[2] =~= ub + "/"@ + names[2]);
    assert(t[3] =~= ub + "/"@ + names[3]);
    assert(t[4] =~= sb + "/"@ + names[3]);
    assert(t[5] =~= lb + "/"@ + names[3]);
    assert(t[6] =~= lb + "/"@ + names[0]);
    assert forall|k: int| 0 <= k < t.len() implies exists|d: Seq<char>, n: int| unix_bin_dir(d) && 0 <= n < names.len()
        && #[trigger] t[k] == d + "/"@ + names[n] by {
        if k == 0 { assert(t[k] == ub + "/"@ + names[0]); }
        else if k == 1 { assert(t[k] == ub + "/"@ + names[1]); }
        else if k == 2 { assert(t[k] == ub + "/"@ + names[2]); }
        else if k == 3 { assert(t[k] == ub + "/"@ + names[3]); }
        else if k == 4 { assert(t[k] == sb + "/"@ + names[3]); }
        else if k == 5 { assert(t[k] == lb + "/"@ + names[3]); }
        else { assert(t[k] == lb + "/"@ + names[0]); }
    }
}

/// `dir` followed by `suffix`.
fn joined(dir: &str, suffix: &str) -> (r: String)
    ensures
        r@ == dir@ + suffix@,
{
    let mut r = String::from_str(dir);
    r.append(suffix);
    r
}

/// The usual install locations of Chrome and Chromium on `os`, in the order
/// they are tried. On Windows `local_data` and `roaming_data` are the local
/// and roaming application data directories, when they are known.
pub fn system_chrome_paths(os: Os, local_data: Option<&str>, roaming_data: Option<&str>) -> (r: Vec<String>)
    ensures
        r@.map_values(|p: String| p@) == system_chrome_texts(
            os,
            match local_data { Some(d) => Some(d@), None => None },
            match roaming_data { Some(d) => Some(d@), None => None },
        ),
{
    let mut r: Vec<String> = Vec::new();
    match os {
        Os::Windows => {
            r.push(String::from_str("C:\\Program Files\\Google\\Chrome\\Application\\chrome.exe"));
            r.push(String::from_str("C:\\Program Files (x86)\\Google\\Chrome\\Application\\chrome.exe"));
            r.push(String::from_str("C:\\Program Files\\Chromium\\Application\\chrome.exe"));
            r.push(String::from_str("C:\\Program Files (x86)\\Chromium\\Application\\chrome.exe"));
            match local_data {
                Some(dir) => {
                    r.push(joined(dir, "\\Google\\Chrome\\Application\\chrome.exe"));
                    r.push(joined(dir, "\\Chromium\\Application\\chrome.exe"));
                },
                None => {},
            }
            match roaming_data {
                Some(dir) => r.push(joined(dir, "\\Google\\Chrome\\Application\\chrome.exe")),
                None => {},
            }
        },
        Os::MacOs => {
            r.push(String::from_str("/Applications/Google Chrome.app/Contents/MacOS/Google Chrome"));
            r.push(String::from_str("/Applications/Chromium.app/Contents/MacOS/Chromium"));
            r.push(String::from_str("/Applications/Google Chrome Canary.app/Contents/MacOS/Google Chrome Canary"));
        },
        Os::Other => {
            r.push(String::from_str("/usr/bin/google-chrome"));
            r.push(String::from_str("/usr/bin/google-chrome-stable"));
            r.push(String::from_str("/usr/bin/chromium-browser"));
            r.push(String::from_str("/usr/bin/chromium"));
            r.push(String::from_str("/snap/bin/chromium"));
            r.push(String::from_str("/usr/local/bin/chromium"));
            r.push(String::from_str("/usr/local/bin/google-chrome"));
        },
    }
    assert(r@.map_values(|p: String| p@) =~= system_chrome_texts(
        os,
        match local_data { Some(d) => Some(d@), None => None },
        match roaming_data { Some(d) => Some(d@), None => None },
    ));
    r
}

/// The command that looks a program up on the PATH.
pub fn lookup_command(os: Os) -> (r: &'static str)
    ensures
        r@ == (if os == Os::Windows { "where"@ } else { "which"@ }),
{
    if os == Os::Windows { "where" } else { "which" }
}

/// The program names looked up on the PATH, in order.
pub open spec fn lookup_name_texts(os: Os) -> Seq<Seq<char>> {
    if os == Os::Windows {
        seq!["chrome.exe"@, "chromium.exe"@]
    } else {
        seq!["google-chrome"@, "google-chrome-stable"@, "chromium-browser"@, "chromium"@]
    }
}

/// The program names looked up on the PATH, in order.
pub fn lookup_names(os: Os) -> (r: Vec<&'static str>)
    ensures
        r@.map_values(|n: &'static str| n@) == lookup_name_texts(os),
{
    let r: Vec<&'static str> = if os == Os::Windows {
        vec!["chrome.exe", "chromium.exe"]
    } else {
        vec!["google-chrome", "google-chrome-stable", "chromium-browser", "chromium"]
    };
    assert(r@.map_values(|n: &'static str| n@) =~= lookup_name_texts(os));
    r
}

/// A place where a Chrome executable is looked for.
#[derive(Clone, Copy, Debug, PartialEq, Eq, Structural)]
pub enum ChromeProbe {
    /// The Chromium bundled with the application.
    Bundled,
    /// The path in the `CHROME_PATH` variable.
    EnvVar,
    /// The usual install location at this position.
    System(usize),
    /// The PATH lookup of the program name at this position.
    Lookup(usize),
    /// A download of Chromium.
    Download,
    /// Nothing is left to try.
    Exhausted,
}

/// The places tried, in order, when there are `n_system` usual install
/// locations and `n_lookup` program names: the bundled Chromium, the
/// `CHROME_PATH` variable, the install locations, the PATH lookups, and last
/// a download.
pub open spec fn probe_order(n_system: nat, n_lookup: nat) -> Seq<ChromeProbe> {
    seq![ChromeProbe::Bundled, ChromeProbe::EnvVar]
        + Seq::new(n_system, |i: int| ChromeProbe::System(i as usize))
        + Seq::new(n_lookup, |i: int| ChromeProbe::Lookup(i as usize))
        + seq![ChromeProbe::Download]
}

/// The first install location, or what follows them when there is none.
pub open spec fn after_env_var(n_system: usize, n_lookup: usize) -> ChromeProbe {
    if n_system > 0 {
        ChromeProbe::System(0)
    } else if n_lookup > 0 {
        ChromeProbe::Lookup(0)
    } else {
        ChromeProbe::Download
    }
}

/// The place tried after `probe` found nothing.
pub open spec fn probe_after_miss(probe: ChromeProbe, n_system: usize, n_lookup: usize) -> ChromeProbe {
    match probe {
        ChromeProbe::Bundled => ChromeProbe::EnvVar,
        ChromeProbe::EnvVar => after_env_var(n_system, n_lookup),
        ChromeProbe::System(i) => {
            if i + 1 < n_system {
                ChromeProbe::System((i + 1) as usize)
            } else if n_lookup > 0 {
                ChromeProbe::Lookup(0)
            } else {
                ChromeProbe::Download
            }
        },
        ChromeProbe::Lookup(i) => {
            if i + 1 < n_lookup { ChromeProbe::Lookup((i + 1) as usize) } else { ChromeProbe::Download }
        },
        _ => ChromeProbe::Exhausted,
    }
}

/// A place that the search with `n_system` install locations and `n_lookup`
/// program names tries.
pub open spec fn probe_in_range(probe: ChromeProbe, n_system: usize, n_lookup: usize) -> bool {
    match probe {
        ChromeProbe::System(i) => i < n_system,
        ChromeProbe::Lookup(i) => i < n_lookup,
        ChromeProbe::Exhausted => false,
        _ => true,
    }
}

/// Decides what follows a look at `probe`, given the executable found there,
/// if any: the first executable found ends the search with it; otherwise the
/// next place in the order of `probe_order` is tried, and after the download
/// the search ends with nothing.
pub fn next_chrome_probe(probe: ChromeProbe, hit: Option<String>, n_system: usize, n_lookup: usize) -> (r: (
    ChromeProbe,
    Option<String>,
))
    requires
        probe_in_range(probe, n_system, n_lookup),
    ensures
        hit is Some ==> r == (ChromeProbe::Exhausted, hit),
        hit is None ==> r.0 == probe_after_miss(probe, n_system, n_lookup) && r.1 is None,
{
    if hit.is_some() {
        return (ChromeProbe::Exhausted, hit);
    }
    let next = match probe {
        ChromeProbe::Bundled => ChromeProbe::EnvVar,
        ChromeProbe::EnvVar => {
            if n_system > 0 {
                ChromeProbe::System(0)
            } else if n_lookup > 0 {
                ChromeProbe::Lookup(0)
            } else {
                ChromeProbe::Download
            }
        },
        ChromeProbe::System(i) => {
            if i + 1 < n_system {
                ChromeProbe::System(i + 1)
            } else if n_lookup > 0 {
                ChromeProbe::Lookup(0)
            } else {
                ChromeProbe::Download
            }
        },
        ChromeProbe::Lookup(i) => {
            if i + 1 < n_lookup { ChromeProbe::Lookup(i + 1) } else { ChromeProbe::Download }
        },
        _ => ChromeProbe::Exhausted,
    };
    (next, None)
}

/// The search tries the places in the documented order: it starts with the
/// bundled Chromium, each place that finds nothing is followed by the next
/// one of `probe_order`, and the download, which comes last, is followed by
/// the end of the search.
pub proof fn lemma_probes_follow_order(n_system: usize, n_lookup: usize)
    ensures
        probe_order(n_system as nat, n_lookup as nat)[0] == ChromeProbe::Bundled,
        forall|k: int| 0 <= k < probe_order(n_system as nat, n_lookup as nat).len() - 1 ==>
            probe_after_miss(#[trigger] probe_order(n_system as nat, n_lookup as nat)[k], n_system, n_lookup)
                == probe_order(n_system as nat, n_lookup as nat)[k + 1],
        probe_after_miss(probe_order(n_system as nat, n_lookup as nat).last(), n_system, n_lookup)
            == ChromeProbe::Exhausted,
        forall|k: int| 0 <= k < probe_order(n_system as nat, n_lookup as nat).len() ==>
            probe_in_range(#[trigger] probe_order(n_system as nat, n_lookup as nat)[k], n_system, n_lookup),
{
    let ns = n_system as int;
    let nl = n_lookup as int;
    let order = probe_order(n_system as nat, n_lookup as nat);
    assert(order.len() == 3 + ns + nl);
    assert forall|k: int| 0 <= k < order.len() implies #[trigger] order[k] == (if k == 0 {
        ChromeProbe::Bundled
    } else if k == 1 {
        ChromeProbe::EnvVar
    } else if k < 2 + ns {
        ChromeProbe::System((k - 2) as usize)
    } else if k < 2 + ns + nl {
        ChromeProbe::Lookup((k - 2 - ns) as usize)
    } else {
        ChromeProbe::Download
    }) by {}
    assert forall|k: int| 0 <= k < order.len() - 1 implies
        probe_after_miss(#[trigger] order[k], n_system, n_lookup) == order[k + 1] by {
        assert(order[k + 1] == order[k + 1]);
    }
}

} // verus!
