//! Icon link extraction: scans a document for the three icon-declaring link
//! patterns, resolves each `href` against the base URL, and ranks the
//! candidates by declared size, descending. SVG-typed icons carry a maximal
//! sentinel size so that they always rank first.

use vstd::prelude::*;
use vstd::string::*;

use crate::mime_type::{classify, MimeKind, MimeType};

verus! {

// ---------------------------------------------------------------------------
// Parsing the `sizes` attribute: the leading numeric token before an `x`.
// ---------------------------------------------------------------------------

pub open spec fn is_digit(c: char) -> bool {
    '0' as int <= c as int && c as int <= '9' as int
}

pub open spec fn all_digits(s: Seq<char>) -> bool {
    forall|i: int| 0 <= i < s.len() ==> is_digit(#[trigger] s[i])
}

/// The number written by a digit string, most significant digit first.
pub open spec fn digits_val(s: Seq<char>) -> int
    decreases s.len(),
{
    if s.len() == 0 {
        0
    } else {
        digits_val(s.drop_last()) * 10 + (s.last() as int - '0' as int)
    }
}

/// What `str::parse::<u32>` accepts: an optional leading `+`, then one or
/// more ASCII digits, and a value that fits in a `u32`.
pub open spec fn parsed_u32(s: Seq<char>) -> Option<u32> {
    let t = if s.len() > 0 && s[0] == '+' {
        s.skip(1)
    } else {
        s
    };
    if t.len() > 0 && all_digits(t) && digits_val(t) <= u32::MAX {
        Some(digits_val(t) as u32)
    } else {
        None
    }
}

/// Length of the prefix before the first `x`, or of the whole string if it
/// has none.
pub open spec fn size_token_end(s: Seq<char>) -> int
    decreases s.len(),
{
    if s.len() == 0 {
        0
    } else if s[0] == 'x' {
        0
    } else {
        1 + size_token_end(s.skip(1))
    }
}

/// The size a `sizes` attribute value declares: its leading token before an
/// `x`, read as a `u32`; zero if that token is missing or malformed.
pub open spec fn parsed_size(s: Seq<char>) -> u32 {
    match parsed_u32(s.take(size_token_end(s))) {
        Some(v) => v,
        None => 0u32,
    }
}

/// Declared size of an optional `sizes` attribute; absent means zero.
pub open spec fn size_of_attr(sizes: Option<Seq<char>>) -> u32 {
    match sizes {
        Some(s) => parsed_size(s),
        None => 0u32,
    }
}

proof fn lemma_digits_val_nonneg(s: Seq<char>)
    requires
        all_digits(s),
    ensures
        0 <= digits_val(s),
    decreases s.len(),
{
    if s.len() > 0 {
        assert(all_digits(s.drop_last())) by {
            assert(forall|i: int|
                0 <= i < s.drop_last().len() ==> #[trigger] s.drop_last()[i] == s[i]);
        }
        lemma_digits_val_nonneg(s.drop_last());
    }
}

proof fn lemma_digits_val_prefix(s: Seq<char>, i: int)
    requires
        all_digits(s),
        0 <= i <= s.len(),
    ensures
        digits_val(s.take(i)) <= digits_val(s),
    decreases s.len() - i,
{
    if i == s.len() {
        assert(s.take(i) =~= s);
    } else {
        lemma_digits_val_prefix(s, i + 1);
        assert(s.take(i + 1).drop_last() =~= s.take(i));
        assert(all_digits(s.take(i))) by {
            assert(forall|k: int| 0 <= k < i ==> #[trigger] s.take(i)[k] == s[k]);
        }
        lemma_digits_val_nonneg(s.take(i));
        assert(s.take(i + 1).last() == s[i]);
        assert(digits_val(s.take(i + 1)) == digits_val(s.take(i)) * 10 + (s[i] as int - '0' as int));
    }
}

proof fn lemma_size_token_end(s: Seq<char>)
    ensures
        0 <= size_token_end(s) <= s.len(),
        forall|j: int| 0 <= j < size_token_end(s) ==> s[j] != 'x',
        size_token_end(s) < s.len() ==> s[size_token_end(s)] == 'x',
    decreases s.len(),
{
    if s.len() == 0 {
    } else if s[0] == 'x' {
    } else {
        lemma_size_token_end(s.skip(1));
        assert forall|j: int| 0 <= j < size_token_end(s) implies s[j] != 'x' by {
            if j >= 1 {
                assert(s.skip(1)[j - 1] == s[j]);
            }
        }
        if size_token_end(s) < s.len() {
            assert(s.skip(1)[size_token_end(s) - 1] == s[size_token_end(s)]);
        }
    }
}

/// Parses a string exactly as `str::parse::<u32>` would.
#[verifier::loop_isolation(false)]
fn parse_u32_str(s: &str) -> (r: Option<u32>)
    ensures
        r == parsed_u32(s@),
{
    let n = s.unicode_len();
    let has_sign = n > 0 && s.get_char(0) == '+';
    let start: usize = if has_sign {
        1
    } else {
        0
    };
    let ghost t = if has_sign {
        s@.skip(1)
    } else {
        s@
    };
    if n == start {
        return None;
    }
    let mut val: u32 = 0;
    let mut i: usize = start;
    while i < n
        invariant
            start <= i <= n,
            all_digits(t.take(i - start)),
            val == digits_val(t.take(i - start)),
        decreases n - i,
    {
        let c = s.get_char(i);
        let cv = c as u32;
        proof {
            assert(t[i - start] == s@[i as int]);
        }
        if cv < 48 || cv > 57 {
            assert(!is_digit(t[i - start]));
            return None;
        }
        let d = cv - 48;
        proof {
            assert(t.take(i - start + 1).drop_last() =~= t.take(i - start));
            assert(t.take(i - start + 1).last() == t[i - start]);
            assert(all_digits(t.take(i - start + 1)));
            vstd::arithmetic::div_mod::lemma_fundamental_div_mod((u32::MAX - d) as int, 10);
        }
        if val > (u32::MAX - d) / 10 {
            proof {
                assert(digits_val(t.take(i - start + 1)) > u32::MAX);
                if all_digits(t) {
                    lemma_digits_val_prefix(t, i - start + 1);
                }
            }
            return None;
        }
        val = val * 10 + d;
        i = i + 1;
    }
    proof {
        assert(t.take(i - start) =~= t);
    }
    Some(val)
}

/// Parses the leading numeric token of a `sizes` attribute value (`"32x32"`
/// gives 32); a missing or malformed token counts as size zero.
#[verifier::loop_isolation(false)]
pub fn parse_size(sizes: &str) -> (r: u32)
    ensures
        r == parsed_size(sizes@),
{
    let n = sizes.unicode_len();
    let mut e: usize = 0;
    while e < n && sizes.get_char(e) != 'x'
        invariant
            e <= n,
            forall|j: int| 0 <= j < e ==> sizes@[j] != 'x',
        decreases n - e,
    {
        e = e + 1;
    }
    proof {
        lemma_size_token_end(sizes@);
        let ste = size_token_end(sizes@);
        if e < ste {
            assert(sizes@[e as int] != 'x');
            assert(false);
        }
        if ste < e {
            assert(sizes@[ste] != 'x');
            assert(false);
        }
    }
    let token = sizes.substring_char(0, e);
    proof {
        assert(token@ =~= sizes@.take(size_token_end(sizes@)));
    }
    match parse_u32_str(token) {
        Some(v) => v,
        None => 0,
    }
}

// ---------------------------------------------------------------------------
// Candidate icons and the trusted boundary to the HTML and URL crates.
// ---------------------------------------------------------------------------

/// Specification-level candidate icon: resolved location, declared size and
/// MIME hint.
pub struct CandidateV {
    pub size: u32,
    pub url: Seq<char>,
    pub mime: Seq<char>,
}

/// An icon location declared in a document, with its resolved URL, its
/// declared size (a sentinel `u32::MAX` for SVG icons) and its MIME hint.
pub struct CandidateIcon {
    pub size: u32,
    pub url: String,
    pub mime: String,
}

impl View for CandidateIcon {
    type V = CandidateV;

    open spec fn view(&self) -> CandidateV {
        CandidateV { size: self.size, url: self.url@, mime: self.mime@ }
    }
}

impl DeepView for CandidateIcon {
    type V = CandidateV;

    open spec fn deep_view(&self) -> CandidateV {
        self@
    }
}

/// A favicon's location before retrieval: where to fetch it and what image
/// kind its declaration promises.
pub struct FaviconLocation {
    pub url: String,
    pub mime_type: MimeType,
}

/// Specification-level favicon: the raw bytes and their classified kind.
pub struct FaviconV {
    pub data: Seq<u8>,
    pub mime: MimeKind,
}

/// A resolved favicon: the retrieved bytes and their classified image kind.
/// The bytes pass through unmodified; the kind is declared or inferred, never
/// validated against the content.
pub struct Favicon {
    pub data: Vec<u8>,
    pub mime_type: MimeType,
}

impl View for Favicon {
    type V = FaviconV;

    open spec fn view(&self) -> FaviconV {
        FaviconV { data: self.data@, mime: self.mime_type@ }
    }
}

/// The `href`, `sizes` and `type` attributes of one matched link element.
pub uninterp spec fn selected_links(html: Seq<char>, pattern: Seq<char>) -> Seq<
    (Option<Seq<char>>, Option<Seq<char>>, Option<Seq<char>>),
>;

/// Relies on scraper's `Html::parse_document`, `Selector::parse` and
/// `Html::select`: which elements a CSS selector pattern matches in a
/// document, and their `href`, `sizes` and `type` attribute values, depend on
/// the document text and the pattern alone.
#[verifier::external_body]
fn select_icon_links(html: &str, pattern: &str) -> (r: Vec<
    (Option<String>, Option<String>, Option<String>),
>)
    ensures
        r.deep_view() == selected_links(html@, pattern@),
{
    let document = scraper::Html::parse_document(html);
    let Ok(selector) = scraper::Selector::parse(pattern) else {
        return Vec::new();
    };
    document
        .select(&selector)
        .map(|element| (
            element.value().attr("href").map(str::to_owned),
            element.value().attr("sizes").map(str::to_owned),
            element.value().attr("type").map(str::to_owned),
        ))
        .collect()
}

/// The URL that `href` resolves to against `base`, or nothing if `base` does
/// not parse or the join fails.
pub uninterp spec fn url_join_of(base: Seq<char>, href: Seq<char>) -> Option<Seq<char>>;

/// Relies on `url::Url::parse` and `url::Url::join`: relative-reference
/// resolution per the URL standard, a function of the two strings alone.
#[verifier::external_body]
pub fn join_url(base: &str, href: &str) -> (r: Option<String>)
    ensures
        r.deep_view() == url_join_of(base@, href@),
{
    match url::Url::parse(base) {
        Ok(b) => match b.join(href) {
            Ok(joined) => Some(joined.to_string()),
            Err(_) => None,
        },
        Err(_) => None,
    }
}

// ---------------------------------------------------------------------------
// Building the candidate list from the three declaration patterns.
// ---------------------------------------------------------------------------

/// The three link declaration patterns an icon can be found under.
#[derive(Clone, Copy)]
pub enum LinkRole {
    SvgIcon,
    GenericIcon,
    AppleIcon,
}

pub open spec fn svg_pattern() -> Seq<char> {
    "link[rel=\"icon\"][type=\"image/svg+xml\"]"@
}

pub open spec fn icon_pattern() -> Seq<char> {
    "link[rel~=\"icon\"], link[rel~=\"shortcut icon\"]"@
}

pub open spec fn apple_pattern() -> Seq<char> {
    "link[rel~=\"apple-touch-icon\"]"@
}

pub open spec fn mime_or_default(t: Option<Seq<char>>) -> Seq<char> {
    match t {
        Some(m) => m,
        None => "image/x-icon"@,
    }
}

/// The candidates (none or one) contributed by a single matched link
/// element: an element with no `href`, or whose `href` does not resolve
/// against the base, is skipped silently.
pub open spec fn candidate_of(
    role: LinkRole,
    link: (Option<Seq<char>>, Option<Seq<char>>, Option<Seq<char>>),
    base: Seq<char>,
) -> Seq<CandidateV> {
    match link.0 {
        Some(href) => match url_join_of(base, href) {
            Some(u) => seq![
                CandidateV {
                    size: match role {
                        LinkRole::SvgIcon => u32::MAX,
                        LinkRole::GenericIcon => size_of_attr(link.1),
                        LinkRole::AppleIcon => size_of_attr(link.1),
                    },
                    url: u,
                    mime: match role {
                        LinkRole::SvgIcon => "image/svg+xml"@,
                        LinkRole::GenericIcon => mime_or_default(link.2),
                        LinkRole::AppleIcon => "image/png"@,
                    },
                },
            ],
            None => Seq::empty(),
        },
        None => Seq::empty(),
    }
}

/// Candidates contributed by a list of matched link elements, in document
/// order.
pub open spec fn candidates_from(
    role: LinkRole,
    links: Seq<(Option<Seq<char>>, Option<Seq<char>>, Option<Seq<char>>)>,
    base: Seq<char>,
) -> Seq<CandidateV>
    decreases links.len(),
{
    if links.len() == 0 {
        Seq::empty()
    } else {
        candidates_from(role, links.drop_last(), base) + candidate_of(role, links.last(), base)
    }
}

/// All candidates a document declares, in order of consideration: SVG icons,
/// then generic icons, then Apple touch icons.
pub open spec fn candidates_of(html: Seq<char>, base: Seq<char>) -> Seq<CandidateV> {
    candidates_from(LinkRole::SvgIcon, selected_links(html, svg_pattern()), base)
        + candidates_from(LinkRole::GenericIcon, selected_links(html, icon_pattern()), base)
        + candidates_from(LinkRole::AppleIcon, selected_links(html, apple_pattern()), base)
}

/// Appends to `out` the candidates that `links` contribute under `role`.
#[verifier::loop_isolation(false)]
fn collect_candidates(
    out: &mut Vec<CandidateIcon>,
    role: LinkRole,
    links: &Vec<(Option<String>, Option<String>, Option<String>)>,
    base_url: &str,
)
    ensures
        final(out).deep_view() == old(out).deep_view() + candidates_from(
            role,
            links.deep_view(),
            base_url@,
        ),
{
    let n = links.len();
    let mut i: usize = 0;
    while i < n
        invariant
            i <= n,
            out.deep_view() == old(out).deep_view() + candidates_from(
                role,
                links.deep_view().take(i as int),
                base_url@,
            ),
        decreases n - i,
    {
        let ghost taken = links.deep_view().take(i + 1);
        proof {
            assert(taken.drop_last() =~= links.deep_view().take(i as int));
            assert(taken.last() == links.deep_view()[i as int]);
        }
        let link = &links[i];
        let joined: Option<String> = match &link.0 {
            Some(href) => join_url(base_url, href.as_str()),
            None => None,
        };
        match joined {
            Some(u) => {
                let size: u32 = match role {
                    LinkRole::SvgIcon => u32::MAX,
                    _ => match &link.1 {
                        Some(sz) => parse_size(sz.as_str()),
                        None => 0,
                    },
                };
                let mime: String = match role {
                    LinkRole::SvgIcon => String::from_str("image/svg+xml"),
                    LinkRole::GenericIcon => match &link.2 {
                        Some(m) => m.clone(),
                        None => String::from_str("image/x-icon"),
                    },
                    LinkRole::AppleIcon => String::from_str("image/png"),
                };
                let candidate = CandidateIcon { size: size, url: u, mime: mime };
                let ghost before = out.deep_view();
                out.push(candidate);
                proof {
                    assert(out.deep_view() =~= before + candidate_of(
                        role,
                        links.deep_view()[i as int],
                        base_url@,
                    ));
                    assert(out.deep_view() =~= old(out).deep_view() + candidates_from(
                        role,
                        taken,
                        base_url@,
                    ));
                }
            },
            None => {
                proof {
                    assert(out.deep_view() =~= old(out).deep_view() + candidates_from(
                        role,
                        taken,
                        base_url@,
                    ));
                }
            },
        }
        i = i + 1;
    }
    proof {
        assert(links.deep_view().take(n as int) =~= links.deep_view());
    }
}

// ---------------------------------------------------------------------------
// Ranking: stable sort by declared size, descending.
// ---------------------------------------------------------------------------

pub open spec fn sorted_desc(s: Seq<CandidateV>) -> bool {
    forall|i: int, j: int| 0 <= i <= j < s.len() ==> #[trigger] s[i].size >= #[trigger] s[j].size
}

/// Inserts `c` after every already-placed candidate of equal or larger size,
/// so that candidates of equal size keep their discovery order.
pub open spec fn insert_desc(s: Seq<CandidateV>, c: CandidateV) -> Seq<CandidateV>
    decreases s.len(),
{
    if s.len() == 0 {
        seq![c]
    } else if s[0].size >= c.size {
        seq![s[0]] + insert_desc(s.skip(1), c)
    } else {
        seq![c] + s
    }
}

/// The candidate list ranked by declared size, descending; candidates of
/// equal size keep their discovery order.
pub open spec fn rank_desc(s: Seq<CandidateV>) -> Seq<CandidateV>
    decreases s.len(),
{
    if s.len() == 0 {
        Seq::empty()
    } else {
        insert_desc(rank_desc(s.drop_last()), s.last())
    }
}

proof fn lemma_insert_desc_sorted(s: Seq<CandidateV>, c: CandidateV)
    requires
        sorted_desc(s),
    ensures
        sorted_desc(insert_desc(s, c)),
        insert_desc(s, c).len() == s.len() + 1,
        forall|k: int|
            0 <= k < s.len() + 1 ==> #[trigger] insert_desc(s, c)[k].size <= c.size || (s.len() > 0
                && insert_desc(s, c)[k].size <= s[0].size),
    decreases s.len(),
{
    if s.len() == 0 {
    } else if s[0].size >= c.size {
        assert(sorted_desc(s.skip(1))) by {
            assert(forall|i: int|
                0 <= i < s.skip(1).len() ==> #[trigger] s.skip(1)[i] == s[i + 1]);
        }
        lemma_insert_desc_sorted(s.skip(1), c);
        let r = seq![s[0]] + insert_desc(s.skip(1), c);
        assert forall|i: int, j: int| 0 <= i <= j < r.len() implies #[trigger] r[i].size
            >= #[trigger] r[j].size by {
            if i == 0 && j > 0 {
                if s.len() > 1 {
                    assert(s.skip(1)[0] == s[1]);
                    assert(r[j].size <= c.size || r[j].size <= s[1].size);
                }
            }
        }
    } else {
    }
}

proof fn lemma_rank_desc_basics(s: Seq<CandidateV>)
    ensures
        rank_desc(s).len() == s.len(),
        sorted_desc(rank_desc(s)),
    decreases s.len(),
{
    if s.len() > 0 {
        lemma_rank_desc_basics(s.drop_last());
        lemma_insert_desc_sorted(rank_desc(s.drop_last()), s.last());
    }
}

/// Law: the ranked candidate list is ordered by declared size, descending —
/// numerically larger declared sizes always come first, and candidates whose
/// size was missing or malformed (size zero) come after every candidate with
/// a positive declared size.
pub proof fn lemma_ranking_is_descending(s: Seq<CandidateV>)
    ensures
        rank_desc(s).len() == s.len(),
        sorted_desc(rank_desc(s)),
        forall|i: int, j: int|
            0 <= i <= j < s.len() && #[trigger] rank_desc(s)[j].size > 0 ==> #[trigger] rank_desc(
                s,
            )[i].size > 0,
{
    lemma_rank_desc_basics(s);
}

/// Law: a `sizes` attribute value whose leading token is not a well-formed
/// number ranks as size zero.
pub proof fn lemma_unparsable_sizes_rank_as_zero(s: Seq<char>)
    requires
        parsed_u32(s.take(size_token_end(s))) is None,
    ensures
        size_of_attr(Some(s)) == 0,
        size_of_attr(None) == 0,
{
}

proof fn lemma_insert_desc_keeps_head(s: Seq<CandidateV>, c: CandidateV)
    requires
        s.len() > 0,
        s[0].size >= c.size,
    ensures
        insert_desc(s, c)[0] == s[0],
{
}

proof fn lemma_rank_desc_keeps_first_max(s: Seq<CandidateV>)
    requires
        s.len() > 0,
        forall|k: int| 0 <= k < s.len() ==> #[trigger] s[k].size <= s[0].size,
    ensures
        rank_desc(s).len() == s.len(),
        rank_desc(s)[0] == s[0],
    decreases s.len(),
{
    lemma_rank_desc_basics(s);
    if s.len() == 1 {
        assert(rank_desc(s.drop_last()).len() == 0);
        assert(insert_desc(rank_desc(s.drop_last()), s.last())[0] == s.last());
        assert(s.last() == s[0]);
    } else {
        let front = s.drop_last();
        assert(front[0] == s[0]);
        assert(forall|k: int| 0 <= k < front.len() ==> #[trigger] front[k].size <= front[0].size);
        lemma_rank_desc_keeps_first_max(front);
        lemma_insert_desc_keeps_head(rank_desc(front), s.last());
        assert(s.last().size <= s[0].size);
    }
}

// ---------------------------------------------------------------------------
// Extraction: candidates in ranked order, and the top-ranked location.
// ---------------------------------------------------------------------------

fn clone_candidate(c: &CandidateIcon) -> (r: CandidateIcon)
    ensures
        r@ == c@,
{
    CandidateIcon { size: c.size, url: c.url.clone(), mime: c.mime.clone() }
}

/// Inserts `c` behind every element of equal or larger size.
#[verifier::loop_isolation(false)]
fn insert_sorted(ranked: &mut Vec<CandidateIcon>, c: CandidateIcon)
    ensures
        final(ranked).deep_view() == insert_desc(old(ranked).deep_view(), c@),
{
    let n = ranked.len();
    let mut j: usize = 0;
    while j < n && ranked[j].size >= c.size
        invariant
            j <= n,
            forall|k: int| 0 <= k < j ==> #[trigger] ranked.deep_view()[k].size >= c@.size,
        decreases n - j,
    {
        j = j + 1;
    }
    proof {
        lemma_insert_desc_at(ranked.deep_view(), c@, j as int);
    }
    ranked.insert(j, c);
    proof {
        assert(ranked.deep_view() =~= old(ranked).deep_view().take(j as int) + seq![c@] + old(
            ranked,
        ).deep_view().skip(j as int));
    }
}

proof fn lemma_insert_desc_at(s: Seq<CandidateV>, c: CandidateV, j: int)
    requires
        0 <= j <= s.len(),
        forall|k: int| 0 <= k < j ==> #[trigger] s[k].size >= c.size,
        j < s.len() ==> s[j].size < c.size,
    ensures
        insert_desc(s, c) == s.take(j) + seq![c] + s.skip(j),
    decreases j,
{
    if j == 0 {
        if s.len() == 0 {
            assert(insert_desc(s, c) =~= s.take(0) + seq![c] + s.skip(0));
        } else {
            assert(insert_desc(s, c) =~= s.take(0) + seq![c] + s.skip(0));
        }
    } else {
        assert(forall|k: int| 0 <= k < j - 1 ==> #[trigger] s.skip(1)[k].size >= c.size) by {
            assert(forall|k: int| 0 <= k < s.skip(1).len() ==> #[trigger] s.skip(1)[k] == s[k + 1]);
        }
        if j - 1 < s.skip(1).len() {
            assert(s.skip(1)[j - 1] == s[j]);
        }
        lemma_insert_desc_at(s.skip(1), c, j - 1);
        assert(insert_desc(s, c) == seq![s[0]] + insert_desc(s.skip(1), c));
        assert(seq![s[0]] + (s.skip(1).take(j - 1) + seq![c] + s.skip(1).skip(j - 1)) =~= s.take(j)
            + seq![c] + s.skip(j));
    }
}

/// Ranks a candidate list by declared size, descending; candidates of equal
/// size keep their discovery order.
#[verifier::loop_isolation(false)]
pub fn rank_candidates(candidates: &Vec<CandidateIcon>) -> (r: Vec<CandidateIcon>)
    ensures
        r.deep_view() == rank_desc(candidates.deep_view()),
{
    let n = candidates.len();
    let mut ranked: Vec<CandidateIcon> = Vec::new();
    proof {
        assert(ranked.deep_view() =~= rank_desc(candidates.deep_view().take(0)));
    }
    let mut i: usize = 0;
    while i < n
        invariant
            i <= n,
            ranked.deep_view() == rank_desc(candidates.deep_view().take(i as int)),
        decreases n - i,
    {
        proof {
            assert(candidates.deep_view().take(i + 1).drop_last() =~= candidates.deep_view().take(
                i as int,
            ));
            assert(candidates.deep_view().take(i + 1).last() == candidates.deep_view()[i as int]);
        }
        let c = clone_candidate(&candidates[i]);
        insert_sorted(&mut ranked, c);
        i = i + 1;
    }
    proof {
        assert(candidates.deep_view().take(n as int) =~= candidates.deep_view());
    }
    ranked
}

/// Extracts every candidate icon a document declares, in document order of
/// the three patterns considered: SVG icons, generic icons, Apple touch
/// icons.
pub fn extract_candidates(html: &str, base_url: &str) -> (r: Vec<CandidateIcon>)
    ensures
        r.deep_view() == candidates_of(html@, base_url@),
{
    let svg_links = select_icon_links(html, "link[rel=\"icon\"][type=\"image/svg+xml\"]");
    let icon_links = select_icon_links(html, "link[rel~=\"icon\"], link[rel~=\"shortcut icon\"]");
    let apple_links = select_icon_links(html, "link[rel~=\"apple-touch-icon\"]");
    let mut out: Vec<CandidateIcon> = Vec::new();
    proof {
        assert(out.deep_view() =~= Seq::<CandidateV>::empty());
    }
    collect_candidates(&mut out, LinkRole::SvgIcon, &svg_links, base_url);
    collect_candidates(&mut out, LinkRole::GenericIcon, &icon_links, base_url);
    collect_candidates(&mut out, LinkRole::AppleIcon, &apple_links, base_url);
    proof {
        assert(out.deep_view() =~= candidates_of(html@, base_url@));
    }
    out
}

/// The top-ranked candidate a document declares, if any.
pub open spec fn top_candidate(html: Seq<char>, base: Seq<char>) -> Option<CandidateV> {
    let ranked = rank_desc(candidates_of(html, base));
    if ranked.len() > 0 {
        Some(ranked[0])
    } else {
        None
    }
}

/// Finds the best icon location a document declares: the top candidate by
/// declared size, its MIME hint classified. Yields nothing exactly when the
/// document declares no usable candidate.
pub fn parse_favicon_url(html: &str, base_url: &str) -> (r: Option<FaviconLocation>)
    ensures
        match r {
            Some(loc) => top_candidate(html@, base_url@) matches Some(c) && loc.url@ == c.url
                && loc.mime_type@ == classify(c.mime),
            None => candidates_of(html@, base_url@).len() == 0,
        },
{
    let candidates = extract_candidates(html, base_url);
    proof {
        lemma_rank_desc_basics(candidates.deep_view());
    }
    let mut ranked = rank_candidates(&candidates);
    if ranked.len() == 0 {
        return None;
    }
    let best = ranked.remove(0);
    let mime_type = MimeType::from_str(best.mime.as_str());
    Some(FaviconLocation { url: best.url, mime_type: mime_type })
}

/// Law: if the document declares an SVG-typed icon link with a resolvable
/// `href`, the top-ranked candidate is the first such SVG candidate — its
/// sentinel size `u32::MAX` and SVG MIME hint outrank every numeric size.
pub proof fn lemma_svg_candidate_ranks_first(html: Seq<char>, base: Seq<char>)
    requires
        candidates_from(LinkRole::SvgIcon, selected_links(html, svg_pattern()), base).len() > 0,
    ensures
        top_candidate(html, base) matches Some(c) && c == candidates_of(html, base)[0] && c.size
            == u32::MAX && c.mime == "image/svg+xml"@,
{
    let svg = candidates_from(LinkRole::SvgIcon, selected_links(html, svg_pattern()), base);
    let all = candidates_of(html, base);
    lemma_svg_candidates_shape(selected_links(html, svg_pattern()), base);
    assert(all[0] == svg[0]);
    assert(all[0].size == u32::MAX);
    lemma_rank_desc_keeps_first_max(all);
}

proof fn lemma_svg_candidates_shape(
    links: Seq<(Option<Seq<char>>, Option<Seq<char>>, Option<Seq<char>>)>,
    base: Seq<char>,
)
    ensures
        forall|k: int|
            0 <= k < candidates_from(LinkRole::SvgIcon, links, base).len() ==> #[trigger]
            candidates_from(LinkRole::SvgIcon, links, base)[k].size == u32::MAX
                && candidates_from(LinkRole::SvgIcon, links, base)[k].mime == "image/svg+xml"@,
    decreases links.len(),
{
    if links.len() > 0 {
        lemma_svg_candidates_shape(links.drop_last(), base);
        let front = candidates_from(LinkRole::SvgIcon, links.drop_last(), base);
        let tail = candidate_of(LinkRole::SvgIcon, links.last(), base);
        assert forall|k: int|
            0 <= k < candidates_from(LinkRole::SvgIcon, links, base).len() implies #[trigger]
        candidates_from(LinkRole::SvgIcon, links, base)[k].size == u32::MAX && candidates_from(
            LinkRole::SvgIcon,
            links,
            base,
        )[k].mime == "image/svg+xml"@ by {
            if k < front.len() {
                assert(candidates_from(LinkRole::SvgIcon, links, base)[k] == front[k]);
            } else {
                assert(candidates_from(LinkRole::SvgIcon, links, base)[k] == tail[k - front.len()]);
            }
        }
    }
}

} // verus!
