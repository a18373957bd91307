//! Scraping reels from Instagram accounts: the reels themselves, the
//! decisions of a scraping worker, the login into Instagram as a state
//! machine, and what the supervisor of the workers reports.
pub mod reel;
pub mod scraper;

pub use reel::Reel;

use crate::config::USER_AGENT;
use crate::text::{decimal, decimal_text, has_prefix, starts_with};
use vstd::prelude::*;

verus! {

// ---------------------------------------------------------------------------
// Logging in
// ---------------------------------------------------------------------------
/// The login page.
pub const LOGIN_URL: &'static str = "https://www.instagram.com/accounts/login/";

/// Every address of the login pages starts so; the login is waited for
/// until the browser has left them.
pub const LOGIN_PAGES: &'static str = "https://www.instagram.com/accounts/login";

/// The button that declines cookies, in English or in French.
pub const DECLINE_COOKIES: &'static str = "//button[contains(text(), 'Decline') or contains(text(), 'Refuser')]";

pub const USERNAME_INPUT: &'static str = "input[name=username]";

pub const PASSWORD_INPUT: &'static str = "input[name=password]";

pub const SUBMIT_BUTTON: &'static str = "button[type=submit]";

/// The button that saves the login information, offered after logging in.
pub const SAVE_INFO_BUTTON: &'static str = "button[type=button]";

/// How an element of the page is found.
pub enum Locator {
    XPath(String),
    Css(String),
}

/// What the browser tab is asked to do next.
pub enum LoginAction {
    /// Announce this user agent.
    SetUserAgent { agent: String },
    /// Open `url` and wait until it is loaded.
    Navigate { url: String },
    /// Look for an element; answer whether there is one.
    Probe { locator: Locator },
    /// Click the element that the last probe found.
    ClickFound,
    /// Find the element that `selector` selects and click it.
    Click { selector: String },
    /// Find the element that `selector` selects and type `text` into it.
    TypeInto { selector: String, text: String },
    /// Wait until the tab has finished navigating.
    WaitNavigated,
    /// Sleep this many milliseconds.
    Sleep { millis: u64 },
    /// Answer the address that the tab shows.
    ReadUrl,
    /// The login is over.
    LoggedIn,
}

/// What came of the last action.
pub enum LoginEvent {
    /// It was carried out.
    Done,
    /// The probe found an element, or did not.
    Found(bool),
    /// The tab shows this address.
    Url(String),
}

/// What the login waits for.
#[derive(Clone, Copy, PartialEq, Eq, Structural, Debug)]
pub enum LoginPhase {
    AwaitUserAgent,
    AwaitNavigate,
    AwaitCookieProbe,
    AwaitCookieClick,
    AwaitCookieNavigation,
    AwaitCookieSleep,
    AwaitLoginProbe,
    AwaitUserTyped,
    AwaitPasswordTyped,
    AwaitSubmit,
    AwaitUrl,
    AwaitPoll,
    AwaitRedirect,
    AwaitRedirectSleep,
    AwaitSaveProbe,
    AwaitSaveClick,
    AwaitSaveNavigation,
    AwaitSaveSleep,
    AwaitFinalNavigation,
    AwaitFinalSleep,
    Finished,
}

pub enum LocatorView {
    XPath(Seq<char>),
    Css(Seq<char>),
}

pub enum LoginActionView {
    SetUserAgent { agent: Seq<char> },
    Navigate { url: Seq<char> },
    Probe { locator: LocatorView },
    ClickFound,
    Click { selector: Seq<char> },
    TypeInto { selector: Seq<char>, text: Seq<char> },
    WaitNavigated,
    Sleep { millis: u64 },
    ReadUrl,
    LoggedIn,
}

pub enum LoginEventView {
    Done,
    Found(bool),
    Url(Seq<char>),
}

impl View for Locator {
    type V = LocatorView;

    open spec fn view(&self) -> LocatorView {
        match self {
            Locator::XPath(s) => LocatorView::XPath(s@),
            Locator::Css(s) => LocatorView::Css(s@),
        }
    }
}

impl View for LoginAction {
    type V = LoginActionView;

    open spec fn view(&self) -> LoginActionView {
        match self {
            LoginAction::SetUserAgent { agent } => LoginActionView::SetUserAgent { agent: agent@ },
            LoginAction::Navigate { url } => LoginActionView::Navigate { url: url@ },
            LoginAction::Probe { locator } => LoginActionView::Probe { locator: locator@ },
            LoginAction::ClickFound => LoginActionView::ClickFound,
            LoginAction::Click { selector } => LoginActionView::Click { selector: selector@ },
            LoginAction::TypeInto { selector, text } => LoginActionView::TypeInto {
                selector: selector@,
                text: text@,
            },
            LoginAction::WaitNavigated => LoginActionView::WaitNavigated,
            LoginAction::Sleep { millis } => LoginActionView::Sleep { millis: *millis },
            LoginAction::ReadUrl => LoginActionView::ReadUrl,
            LoginAction::LoggedIn => LoginActionView::LoggedIn,
        }
    }
}

impl View for LoginEvent {
    type V = LoginEventView;

    open spec fn view(&self) -> LoginEventView {
        match self {
            LoginEvent::Done => LoginEventView::Done,
            LoginEvent::Found(b) => LoginEventView::Found(*b),
            LoginEvent::Url(s) => LoginEventView::Url(s@),
        }
    }
}

/// Whether the phase waits for an event of this kind: a probe's answer
/// after a probe, an address after reading it, and the end of the action
/// otherwise. A finished login waits for nothing.
pub open spec fn login_accepts(phase: LoginPhase, event: LoginEventView) -> bool {
    match phase {
        LoginPhase::AwaitCookieProbe | LoginPhase::AwaitLoginProbe | LoginPhase::AwaitSaveProbe => event is Found,
        LoginPhase::AwaitUrl => event is Url,
        LoginPhase::Finished => false,
        _ => event is Done,
    }
}

/// One step of the login: the phase it moves to and the action to take.
pub open spec fn login_step(user: Seq<char>, pass: Seq<char>, phase: LoginPhase, event: LoginEventView) -> (LoginPhase, LoginActionView) {
    match phase {
        LoginPhase::AwaitUserAgent => (LoginPhase::AwaitNavigate, LoginActionView::Navigate { url: LOGIN_URL@ }),
        LoginPhase::AwaitNavigate => (
            LoginPhase::AwaitCookieProbe,
            LoginActionView::Probe { locator: LocatorView::XPath(DECLINE_COOKIES@) },
        ),
        LoginPhase::AwaitCookieProbe => if event == LoginEventView::Found(true) {
            (LoginPhase::AwaitCookieClick, LoginActionView::ClickFound)
        } else {
            (LoginPhase::AwaitLoginProbe, LoginActionView::Probe { locator: LocatorView::Css(USERNAME_INPUT@) })
        },
        LoginPhase::AwaitCookieClick => (LoginPhase::AwaitCookieNavigation, LoginActionView::WaitNavigated),
        LoginPhase::AwaitCookieNavigation => (LoginPhase::AwaitCookieSleep, LoginActionView::Sleep { millis: 2000 }),
        LoginPhase::AwaitCookieSleep => (
            LoginPhase::AwaitLoginProbe,
            LoginActionView::Probe { locator: LocatorView::Css(USERNAME_INPUT@) },
        ),
        LoginPhase::AwaitLoginProbe => if event == LoginEventView::Found(true) {
            (LoginPhase::AwaitUserTyped, LoginActionView::TypeInto { selector: USERNAME_INPUT@, text: user })
        } else {
            (LoginPhase::Finished, LoginActionView::LoggedIn)
        },
        LoginPhase::AwaitUserTyped => (
            LoginPhase::AwaitPasswordTyped,
            LoginActionView::TypeInto { selector: PASSWORD_INPUT@, text: pass },
        ),
        LoginPhase::AwaitPasswordTyped => (LoginPhase::AwaitSubmit, LoginActionView::Click { selector: SUBMIT_BUTTON@ }),
        LoginPhase::AwaitSubmit => (LoginPhase::AwaitUrl, LoginActionView::ReadUrl),
        LoginPhase::AwaitUrl => match event {
            LoginEventView::Url(u) => if has_prefix(u, LOGIN_PAGES@) {
                (LoginPhase::AwaitPoll, LoginActionView::Sleep { millis: 100 })
            } else {
                (LoginPhase::AwaitRedirect, LoginActionView::WaitNavigated)
            },
            _ => (LoginPhase::AwaitUrl, LoginActionView::ReadUrl),
        },
        LoginPhase::AwaitPoll => (LoginPhase::AwaitUrl, LoginActionView::ReadUrl),
        LoginPhase::AwaitRedirect => (LoginPhase::AwaitRedirectSleep, LoginActionView::Sleep { millis: 2000 }),
        LoginPhase::AwaitRedirectSleep => (
            LoginPhase::AwaitSaveProbe,
            LoginActionView::Probe { locator: LocatorView::Css(SAVE_INFO_BUTTON@) },
        ),
        LoginPhase::AwaitSaveProbe => if event == LoginEventView::Found(true) {
            (LoginPhase::AwaitSaveClick, LoginActionView::ClickFound)
        } else {
            (LoginPhase::AwaitFinalNavigation, LoginActionView::WaitNavigated)
        },
        LoginPhase::AwaitSaveClick => (LoginPhase::AwaitSaveNavigation, LoginActionView::WaitNavigated),
        LoginPhase::AwaitSaveNavigation => (LoginPhase::AwaitSaveSleep, LoginActionView::Sleep { millis: 2000 }),
        LoginPhase::AwaitSaveSleep => (LoginPhase::AwaitFinalNavigation, LoginActionView::WaitNavigated),
        LoginPhase::AwaitFinalNavigation => (LoginPhase::AwaitFinalSleep, LoginActionView::Sleep { millis: 2000 }),
        LoginPhase::AwaitFinalSleep => (LoginPhase::Finished, LoginActionView::LoggedIn),
        LoginPhase::Finished => (LoginPhase::Finished, LoginActionView::LoggedIn),
    }
}

/// Logging into Instagram with a user name and a password.
pub struct LoginFlow {
    user: String,
    pass: String,
    phase: LoginPhase,
}

fn css(selector: &str) -> (l: Locator)
    ensures
        l@ == LocatorView::Css(selector@),
{
    Locator::Css(String::from_str(selector))
}

impl LoginFlow {
    pub closed spec fn user(&self) -> Seq<char> {
        self.user@
    }

    pub closed spec fn pass(&self) -> Seq<char> {
        self.pass@
    }

    pub closed spec fn phase(&self) -> LoginPhase {
        self.phase
    }

    /// Begins a login: the tab first announces the scraper's user agent.
    pub fn new(user: String, pass: String) -> (r: (LoginFlow, LoginAction))
        ensures
            r.0.user() == user@,
            r.0.pass() == pass@,
            r.0.phase() == LoginPhase::AwaitUserAgent,
            r.1@ == (LoginActionView::SetUserAgent { agent: USER_AGENT@ }),
    {
        (
            LoginFlow { user, pass, phase: LoginPhase::AwaitUserAgent },
            LoginAction::SetUserAgent { agent: String::from_str(USER_AGENT) },
        )
    }

    /// Whether the login is over.
    pub fn is_finished(&self) -> (b: bool)
        ensures
            b == (self.phase() == LoginPhase::Finished),
    {
        self.phase == LoginPhase::Finished
    }

    /// Whether `event` is of the kind that the login waits for.
    pub fn accepts(&self, event: &LoginEvent) -> (b: bool)
        ensures
            b == login_accepts(self.phase(), event@),
    {
        match self.phase {
            LoginPhase::AwaitCookieProbe | LoginPhase::AwaitLoginProbe | LoginPhase::AwaitSaveProbe => {
                match event {
                    LoginEvent::Found(_) => true,
                    _ => false,
                }
            },
            LoginPhase::AwaitUrl => match event {
                LoginEvent::Url(_) => true,
                _ => false,
            },
            LoginPhase::Finished => false,
            _ => match event {
                LoginEvent::Done => true,
                _ => false,
            },
        }
    }

    /// Takes what came of the last action and gives the next one.
    pub fn step(&mut self, event: LoginEvent) -> (action: LoginAction)
        requires
            login_accepts(old(self).phase(), event@),
        ensures
            final(self).user() == old(self).user(),
            final(self).pass() == old(self).pass(),
            (final(self).phase(), action@) == login_step(
                old(self).user(),
                old(self).pass(),
                old(self).phase(),
                event@,
            ),
    {
        let found = match &event {
            LoginEvent::Found(b) => *b,
            _ => false,
        };
        let (phase, action) = match self.phase {
            LoginPhase::AwaitUserAgent => (
                LoginPhase::AwaitNavigate,
                LoginAction::Navigate { url: String::from_str(LOGIN_URL) },
            ),
            LoginPhase::AwaitNavigate => (
                LoginPhase::AwaitCookieProbe,
                LoginAction::Probe { locator: Locator::XPath(String::from_str(DECLINE_COOKIES)) },
            ),
            LoginPhase::AwaitCookieProbe => if found {
                (LoginPhase::AwaitCookieClick, LoginAction::ClickFound)
            } else {
                (LoginPhase::AwaitLoginProbe, LoginAction::Probe { locator: css(USERNAME_INPUT) })
            },
            LoginPhase::AwaitCookieClick => (LoginPhase::AwaitCookieNavigation, LoginAction::WaitNavigated),
            LoginPhase::AwaitCookieNavigation => (LoginPhase::AwaitCookieSleep, LoginAction::Sleep { millis: 2000 }),
            LoginPhase::AwaitCookieSleep => (
                LoginPhase::AwaitLoginProbe,
                LoginAction::Probe { locator: css(USERNAME_INPUT) },
            ),
            LoginPhase::AwaitLoginProbe => if found {
                (
                    LoginPhase::AwaitUserTyped,
                    LoginAction::TypeInto {
                        selector: String::from_str(USERNAME_INPUT),
                        text: self.user.clone(),
                    },
                )
            } else {
                (LoginPhase::Finished, LoginAction::LoggedIn)
            },
            LoginPhase::AwaitUserTyped => (
                LoginPhase::AwaitPasswordTyped,
                LoginAction::TypeInto {
                    selector: String::from_str(PASSWORD_INPUT),
                    text: self.pass.clone(),
                },
            ),
            LoginPhase::AwaitPasswordTyped => (
                LoginPhase::AwaitSubmit,
                LoginAction::Click { selector: String::from_str(SUBMIT_BUTTON) },
            ),
            LoginPhase::AwaitSubmit => (LoginPhase::AwaitUrl, LoginAction::ReadUrl),
            LoginPhase::AwaitUrl => match &event {
                LoginEvent::Url(u) => if starts_with(u.as_str(), LOGIN_PAGES) {
                    (LoginPhase::AwaitPoll, LoginAction::Sleep { millis: 100 })
                } else {
                    (LoginPhase::AwaitRedirect, LoginAction::WaitNavigated)
                },
                _ => (LoginPhase::AwaitUrl, LoginAction::ReadUrl),
            },
            LoginPhase::AwaitPoll => (LoginPhase::AwaitUrl, LoginAction::ReadUrl),
            LoginPhase::AwaitRedirect => (LoginPhase::AwaitRedirectSleep, LoginAction::Sleep { millis: 2000 }),
            LoginPhase::AwaitRedirectSleep => (
                LoginPhase::AwaitSaveProbe,
                LoginAction::Probe { locator: css(SAVE_INFO_BUTTON) },
            ),
            LoginPhase::AwaitSaveProbe => if found {
                (LoginPhase::AwaitSaveClick, LoginAction::ClickFound)
            } else {
                (LoginPhase::AwaitFinalNavigation, LoginAction::WaitNavigated)
            },
            LoginPhase::AwaitSaveClick => (LoginPhase::AwaitSaveNavigation, LoginAction::WaitNavigated),
            LoginPhase::AwaitSaveNavigation => (LoginPhase::AwaitSaveSleep, LoginAction::Sleep { millis: 2000 }),
            LoginPhase::AwaitSaveSleep => (LoginPhase::AwaitFinalNavigation, LoginAction::WaitNavigated),
            LoginPhase::AwaitFinalNavigation => (LoginPhase::AwaitFinalSleep, LoginAction::Sleep { millis: 2000 }),
            LoginPhase::AwaitFinalSleep => (LoginPhase::Finished, LoginAction::LoggedIn),
            LoginPhase::Finished => (LoginPhase::Finished, LoginAction::LoggedIn),
        };
        self.phase = phase;
        action
    }
}

/// How the login treats what it is given: the user name is typed only into
/// the user name input and the password only into the password input; while
/// the tab shows a login page after submitting, the login waits a tenth of a
/// second and looks again, and once it shows another page it goes on; the
/// login says it is over exactly when it is finished, and a finished login
/// takes no event.
pub proof fn law_login_steps(user: Seq<char>, pass: Seq<char>, phase: LoginPhase, event: LoginEventView)
    requires
        login_accepts(phase, event),
    ensures
        ({
            let (next, action) = login_step(user, pass, phase, event);
            &&& action matches LoginActionView::TypeInto { selector, text } ==> (selector
                == USERNAME_INPUT@ && text == user) || (selector == PASSWORD_INPUT@ && text == pass)
            &&& (action is LoggedIn <==> next == LoginPhase::Finished)
            &&& forall|e: LoginEventView| !login_accepts(LoginPhase::Finished, e)
            &&& event matches LoginEventView::Url(u) ==> (has_prefix(u, LOGIN_PAGES@) ==> next
                == LoginPhase::AwaitPoll && action == (LoginActionView::Sleep { millis: 100 }))
                && (!has_prefix(u, LOGIN_PAGES@) ==> next == LoginPhase::AwaitRedirect)
            &&& phase == LoginPhase::AwaitPoll ==> next == LoginPhase::AwaitUrl && action
                == LoginActionView::ReadUrl
        }),
{
}

/// Cookies are declined, never accepted: once the login page has loaded,
/// the login looks for exactly the cookie-declining button, and whenever it
/// clicks a found element it is right after a probe that found one; in the
/// cookie dialog that probe is the one for the declining button.
pub proof fn law_login_declines_cookies(user: Seq<char>, pass: Seq<char>, phase: LoginPhase, event: LoginEventView)
    requires
        login_accepts(phase, event),
    ensures
        ({
            let (next, action) = login_step(user, pass, phase, event);
            &&& phase == LoginPhase::AwaitNavigate ==> action == (LoginActionView::Probe {
                locator: LocatorView::XPath(DECLINE_COOKIES@),
            })
            &&& next == LoginPhase::AwaitCookieProbe ==> phase == LoginPhase::AwaitNavigate
                && action == (LoginActionView::Probe {
                locator: LocatorView::XPath(DECLINE_COOKIES@),
            })
            &&& action is ClickFound ==> event == LoginEventView::Found(true) && (phase
                == LoginPhase::AwaitCookieProbe || phase == LoginPhase::AwaitSaveProbe)
            &&& next == LoginPhase::AwaitCookieClick ==> phase == LoginPhase::AwaitCookieProbe
                && action is ClickFound
        }),
{
}

/// Worker threads numbered apart are named apart.
pub proof fn law_worker_names_are_distinct(i: usize, j: usize)
    ensures
        i != j ==> decimal(i as nat) != decimal(j as nat),
{
    crate::text::law_decimal_is_injective(i as nat, j as nat);
}

// ---------------------------------------------------------------------------
// Supervising the workers
// ---------------------------------------------------------------------------
/// How a worker thread ended.
pub enum WorkerOutcome {
    /// It scraped every account it took; it reports its id.
    Finished(String),
    /// It stopped on an error, written out here.
    Failed(String),
    /// It panicked, with this payload written out.
    Panicked(String),
}

/// The name of the `i`-th worker thread: `i` in decimal.
pub fn worker_name(i: usize) -> (name: String)
    ensures
        name@ == decimal(i as nat),
{
    decimal_text(i)
}

/// The name given to a worker thread that has none, from the text of a
/// thread id.
pub fn unnamed_worker(thread_id: &str) -> (name: String)
    ensures
        name@ == "id:"@ + thread_id@,
{
    let mut name = String::from_str("id:");
    name.append(thread_id);
    name
}

/// The notice sent to Telegram when the worker `name` ends badly.
pub open spec fn worker_notice_text(name: Seq<char>, outcome_kind: Seq<char>, detail: Seq<char>) -> Seq<char> {
    "instagram-reels-scraper: worker "@ + name + " thread "@ + outcome_kind + ": "@ + detail
}

/// The notice to send about how the worker `name` ended: none when it
/// finished, and one that names the error or the panic otherwise.
pub fn worker_notice(name: &str, outcome: &WorkerOutcome) -> (notice: Option<String>)
    ensures
        outcome is Finished ==> notice is None,
        outcome matches WorkerOutcome::Failed(e) ==> notice matches Some(n) && n@
            == worker_notice_text(name@, "error"@, e@),
        outcome matches WorkerOutcome::Panicked(e) ==> notice matches Some(n) && n@
            == worker_notice_text(name@, "panicked"@, e@),
{
    let (kind, detail): (&str, &String) = match outcome {
        WorkerOutcome::Finished(_) => {
            return None;
        },
        WorkerOutcome::Failed(e) => ("error", e),
        WorkerOutcome::Panicked(e) => ("panicked", e),
    };
    let mut n = String::from_str("instagram-reels-scraper: worker ");
    n.append(name);
    n.append(" thread ");
    n.append(kind);
    n.append(": ");
    n.append(detail.as_str());
    Some(n)
}

/// The first of the workers that has finished, by position.
pub fn first_finished(finished: &Vec<bool>) -> (pos: Option<usize>)
    ensures
        pos matches Some(p) ==> p < finished@.len() && finished@[p as int] && forall|k: int|
            0 <= k < p ==> !finished@[k],
        pos is None ==> forall|k: int| 0 <= k < finished@.len() ==> !finished@[k],
{
    let mut i: usize = 0;
    while i < finished.len()
        invariant
            i <= finished@.len(),
            forall|k: int| 0 <= k < i ==> !finished@[k],
        decreases finished@.len() - i,
    {
        if finished[i] {
            return Some(i);
        }
        i = i + 1;
    }
    None
}

} // verus!
