//! Per-site resolution strategy as a state machine. The decisions live here,
//! verified; the caller performs the network actions the machine asks for and
//! hands the outcome back as the next event.
//!
//! States run `FetchingHtml` → `ProbingWellKnown` → `ProbingDeclared` and end
//! in `Found` or `NotFound`: the well-known path `/favicon.ico` is probed
//! before the document's declared links are consulted, and only the single
//! top-ranked declared candidate is ever attempted — a deliberate
//! simplicity/latency trade-off, not a bug.

use vstd::prelude::*;
use vstd::string::*;

use crate::favicon::{
    join_url, parse_favicon_url, top_candidate, url_join_of, Favicon, FaviconV,
};
use crate::mime_type::{classify, MimeKind, MimeType};
use crate::utils::{has_prefix_at, starts_with_at};

verus! {

// ---------------------------------------------------------------------------
// Normalizing a site identifier into the base URL to fetch.
// ---------------------------------------------------------------------------

/// The position left after repeatedly trimming prefix `p` from `s` at `off`.
pub open spec fn trimmed_from(s: Seq<char>, p: Seq<char>, off: int) -> int
    decreases s.len() - off,
{
    if p.len() == 0 {
        off
    } else if starts_with_at(s, p, off) {
        trimmed_from(s, p, off + p.len())
    } else {
        off
    }
}

/// The base URL a site identifier resolves to: an identifier that already
/// starts with `www.` is used as given; anything else has every leading
/// `https://` stripped and is prefixed with `https://www.`.
pub open spec fn resolved_base(site: Seq<char>) -> Seq<char> {
    if starts_with_at(site, "www."@, 0) {
        site
    } else {
        "https://www."@ + site.skip(trimmed_from(site, "https://"@, 0))
    }
}

/// Normalizes a raw site identifier into the origin URL to fetch.
#[verifier::loop_isolation(false)]
pub fn resolve_identifier(website: &str) -> (r: String)
    ensures
        r@ == resolved_base(website@),
{
    if has_prefix_at(website, "www.", 0) {
        return website.to_owned();
    }
    let n = website.unicode_len();
    let plen = "https://".unicode_len();
    proof {
        reveal_strlit("https://");
    }
    let mut off: usize = 0;
    while has_prefix_at(website, "https://", off)
        invariant
            off <= n,
            trimmed_from(website@, "https://"@, 0) == trimmed_from(website@, "https://"@, off as int),
        decreases n - off,
    {
        off = off + plen;
    }
    let mut out = String::from_str("https://www.");
    let rest = website.substring_char(off, n);
    proof {
        assert(rest@ =~= website@.skip(trimmed_from(website@, "https://"@, 0)));
    }
    out.append(rest);
    out
}

// ---------------------------------------------------------------------------
// The resolution state machine.
// ---------------------------------------------------------------------------

/// Where one site's resolution stands.
pub enum ResolveState {
    /// Waiting for the site's HTML page (fetched from the resolved base URL).
    FetchingHtml,
    /// Waiting for the well-known `/favicon.ico` probe; the fetched document
    /// and the post-redirect base URL are kept for the fallback step.
    ProbingWellKnown { html: String, base_url: String },
    /// Waiting for the probe of the top-ranked declared candidate, whose
    /// classified MIME type is already known.
    ProbingDeclared { mime_type: MimeType },
    /// Resolution succeeded.
    Found { favicon: Favicon },
    /// No favicon could be resolved for this site.
    NotFound,
}

/// Specification-level resolution state.
pub enum StateV {
    FetchingHtml,
    ProbingWellKnown { html: Seq<char>, base_url: Seq<char> },
    ProbingDeclared { mime: MimeKind },
    Found { favicon: FaviconV },
    NotFound,
}

impl View for ResolveState {
    type V = StateV;

    open spec fn view(&self) -> StateV {
        match self {
            ResolveState::FetchingHtml => StateV::FetchingHtml,
            ResolveState::ProbingWellKnown { html, base_url } => StateV::ProbingWellKnown {
                html: html@,
                base_url: base_url@,
            },
            ResolveState::ProbingDeclared { mime_type } => StateV::ProbingDeclared {
                mime: mime_type@,
            },
            ResolveState::Found { favicon } => StateV::Found { favicon: favicon@ },
            ResolveState::NotFound => StateV::NotFound,
        }
    }
}

/// The outcome of the network action the machine last asked for.
pub enum ResolveEvent {
    /// The HTML fetch succeeded: the URL after all redirects, and the body.
    HtmlOk { final_url: String, body: String },
    /// The HTML fetch failed (transport error or non-success status).
    HtmlFailed,
    /// The icon fetch succeeded with these bytes.
    IconOk { data: Vec<u8> },
    /// The icon fetch failed (transport error or non-success status).
    IconFailed,
}

/// Specification-level event.
pub enum EventV {
    HtmlOk { final_url: Seq<char>, body: Seq<char> },
    HtmlFailed,
    IconOk { data: Seq<u8> },
    IconFailed,
}

impl View for ResolveEvent {
    type V = EventV;

    open spec fn view(&self) -> EventV {
        match self {
            ResolveEvent::HtmlOk { final_url, body } => EventV::HtmlOk {
                final_url: final_url@,
                body: body@,
            },
            ResolveEvent::HtmlFailed => EventV::HtmlFailed,
            ResolveEvent::IconOk { data } => EventV::IconOk { data: data@ },
            ResolveEvent::IconFailed => EventV::IconFailed,
        }
    }
}

/// The network action the caller must perform next.
pub enum ResolveAction {
    /// Fetch this URL as HTML, following redirects, and report `HtmlOk` or
    /// `HtmlFailed`.
    FetchHtml { url: String },
    /// Fetch this URL as an icon and report `IconOk` or `IconFailed`.
    FetchIcon { url: String },
    /// Resolution has ended; the state is terminal.
    Done,
}

/// Specification-level action.
pub enum ActionV {
    FetchHtml { url: Seq<char> },
    FetchIcon { url: Seq<char> },
    Done,
}

impl View for ResolveAction {
    type V = ActionV;

    open spec fn view(&self) -> ActionV {
        match self {
            ResolveAction::FetchHtml { url } => ActionV::FetchHtml { url: url@ },
            ResolveAction::FetchIcon { url } => ActionV::FetchIcon { url: url@ },
            ResolveAction::Done => ActionV::Done,
        }
    }
}

/// Which events may answer which states: fetch outcomes for the state that
/// awaits them; terminal states take no event.
pub open spec fn event_fits(s: StateV, e: EventV) -> bool {
    match s {
        StateV::FetchingHtml => e is HtmlOk || e is HtmlFailed,
        StateV::ProbingWellKnown { .. } => e is IconOk || e is IconFailed,
        StateV::ProbingDeclared { .. } => e is IconOk || e is IconFailed,
        StateV::Found { .. } => false,
        StateV::NotFound => false,
    }
}

/// The transition relation of the resolution strategy.
pub open spec fn step_spec(s: StateV, e: EventV) -> (StateV, ActionV) {
    match (s, e) {
        (StateV::FetchingHtml, EventV::HtmlOk { final_url, body }) => match url_join_of(
            final_url,
            "/favicon.ico"@,
        ) {
            Some(well_known) => (
                StateV::ProbingWellKnown { html: body, base_url: final_url },
                ActionV::FetchIcon { url: well_known },
            ),
            None => (StateV::NotFound, ActionV::Done),
        },
        (StateV::FetchingHtml, EventV::HtmlFailed) => (StateV::NotFound, ActionV::Done),
        (StateV::ProbingWellKnown { .. }, EventV::IconOk { data }) => (
            StateV::Found { favicon: FaviconV { data: data, mime: MimeKind::Ico } },
            ActionV::Done,
        ),
        (StateV::ProbingWellKnown { html, base_url }, EventV::IconFailed) => match top_candidate(
            html,
            base_url,
        ) {
            Some(c) => (
                StateV::ProbingDeclared { mime: classify(c.mime) },
                ActionV::FetchIcon { url: c.url },
            ),
            None => (StateV::NotFound, ActionV::Done),
        },
        (StateV::ProbingDeclared { mime }, EventV::IconOk { data }) => (
            StateV::Found { favicon: FaviconV { data: data, mime: mime } },
            ActionV::Done,
        ),
        (StateV::ProbingDeclared { .. }, EventV::IconFailed) => (StateV::NotFound, ActionV::Done),
        _ => (StateV::NotFound, ActionV::Done),
    }
}

pub open spec fn is_terminal(s: StateV) -> bool {
    s is Found || s is NotFound
}

/// Begins a site's resolution: the first action is to fetch the resolved base
/// URL as HTML.
pub fn start_resolution(website: &str) -> (r: (ResolveState, ResolveAction))
    ensures
        r.0@ == StateV::FetchingHtml,
        r.1@ == (ActionV::FetchHtml { url: resolved_base(website@) }),
{
    let url = resolve_identifier(website);
    (ResolveState::FetchingHtml, ResolveAction::FetchHtml { url: url })
}

/// Advances one site's resolution by one observed fetch outcome.
pub fn resolve_step(state: ResolveState, event: ResolveEvent) -> (r: (ResolveState, ResolveAction))
    requires
        event_fits(state@, event@),
    ensures
        (r.0@, r.1@) == step_spec(state@, event@),
{
    match (state, event) {
        (ResolveState::FetchingHtml, ResolveEvent::HtmlOk { final_url, body }) => {
            match join_url(final_url.as_str(), "/favicon.ico") {
                Some(well_known) => (
                    ResolveState::ProbingWellKnown { html: body, base_url: final_url },
                    ResolveAction::FetchIcon { url: well_known },
                ),
                None => (ResolveState::NotFound, ResolveAction::Done),
            }
        },
        (ResolveState::FetchingHtml, ResolveEvent::HtmlFailed) => (
            ResolveState::NotFound,
            ResolveAction::Done,
        ),
        (ResolveState::ProbingWellKnown { .. }, ResolveEvent::IconOk { data }) => (
            ResolveState::Found {
                favicon: Favicon { data: data, mime_type: MimeType::ImageXIcon },
            },
            ResolveAction::Done,
        ),
        (ResolveState::ProbingWellKnown { html, base_url }, ResolveEvent::IconFailed) => {
            match parse_favicon_url(html.as_str(), base_url.as_str()) {
                Some(location) => (
                    ResolveState::ProbingDeclared { mime_type: location.mime_type },
                    ResolveAction::FetchIcon { url: location.url },
                ),
                None => (ResolveState::NotFound, ResolveAction::Done),
            }
        },
        (ResolveState::ProbingDeclared { mime_type }, ResolveEvent::IconOk { data }) => (
            ResolveState::Found { favicon: Favicon { data: data, mime_type: mime_type } },
            ResolveAction::Done,
        ),
        (ResolveState::ProbingDeclared { .. }, ResolveEvent::IconFailed) => (
            ResolveState::NotFound,
            ResolveAction::Done,
        ),
        _ => (ResolveState::NotFound, ResolveAction::Done),
    }
}

/// Whether the machine has ended for this site.
pub fn state_is_terminal(state: &ResolveState) -> (r: bool)
    ensures
        r == is_terminal(state@),
{
    match state {
        ResolveState::Found { .. } => true,
        ResolveState::NotFound => true,
        _ => false,
    }
}

/// Law: a successful probe of the well-known path ends resolution at once
/// with an ICO-classified favicon, whatever the fetched document holds — the
/// document is never consulted on this path.
pub proof fn lemma_well_known_hit_is_ico(html: Seq<char>, base_url: Seq<char>, data: Seq<u8>)
    ensures
        step_spec(
            (StateV::ProbingWellKnown { html: html, base_url: base_url }),
            (EventV::IconOk { data: data }),
        ) == ((StateV::Found { favicon: (FaviconV { data: data, mime: MimeKind::Ico }) }), ActionV::Done),
{
}

} // verus!
