//! Recognition of post links: which platform a typed link belongs to and which
//! media it names.
//!
//! Each platform accepts three link shapes, tried in this order, each searched
//! for at the leftmost position where it occurs:
//! - a post page: `<host>/<id>` or `<host>/images/<id>`;
//! - a stored file: `<cdn>/<y>/<m>/<d>/<id>`;
//! - a stored file view: `<cdn>/view/<y>/<m>/<d>/<id>` or the same with `download`.
//! Hosts are matched case-sensitively and ids are runs of decimal digits.

use vstd::prelude::*;
use vstd::string::*;

use crate::platform::{
    canonical_host, cdn_prefix, page_hosts, platform_at, platform_name, MediaId, Platform,
    PLATFORM_COUNT,
};
use crate::text::{
    all_digits, chars_of, decimal, decimal_string, decimal_value, digit_run, digit_run_exec, lit_at, lit_at_exec, parse_u64,
};

verus! {

/// Where one link shape matched in the input.
pub struct Hit {
    /// First character of the match.
    pub start: int,
    /// Index into the platform's page hosts of the host that matched, for a page link.
    pub host: Option<int>,
    /// End of the part of the link that names its origin.
    pub origin_end: int,
    /// First digit of the id.
    pub id_start: int,
    /// End of the id.
    pub id_end: int,
}

/// The link shapes, in the order they are tried.
#[derive(Clone, Copy, PartialEq, Eq, Structural)]
pub enum Shape {
    Page,
    Cdn,
    CdnView,
}

/// A request for one post of one platform.
#[derive(Clone, Copy, Debug, PartialEq, Eq, Structural, Hash)]
pub struct Request {
    pub platform: Platform,
    pub media: MediaId,
}

/// Identifier of a post: its platform and its media id.
#[derive(Clone, Copy, Debug, PartialEq, Eq, Structural, Hash)]
pub struct PostId {
    pub platform: Platform,
    pub media: MediaId,
}

/// Identifier of one blob of a post. Derpibooru-family posts have exactly one
/// blob, so the platform alone names it.
#[derive(Clone, Copy, Debug, PartialEq, Eq, Structural, Hash)]
pub struct BlobId {
    pub platform: Platform,
}

/// The canonical web page of a post.
pub open spec fn post_web_url_of(p: Platform, media: MediaId) -> Seq<char> {
    "https://"@ + canonical_host(p) + "/images/"@ + decimal(media as nat)
}

impl Platform {
    /// The canonical web page of post `media`, whatever host the user typed.
    pub fn post_web_url(&self, media: MediaId) -> (r: String)
        ensures
            r@ == post_web_url_of(*self, media),
    {
        let hosts = self.page_hosts();
        let mut r = String::from_str("https://");
        r.append(hosts[hosts.len() - 1]);
        r.append("/images/");
        r.append(decimal_string(media).as_str());
        r
    }
}

impl Request {
    /// The post this request asks for.
    pub fn post_id(&self) -> (r: PostId)
        ensures
            r == (PostId { platform: self.platform, media: self.media }),
    {
        PostId { platform: self.platform, media: self.media }
    }
}

impl PostId {
    /// Name of the platform that hosts the post.
    pub fn platform_name(&self) -> (r: &'static str)
        ensures
            r@ == platform_name(self.platform),
    {
        self.platform.name()
    }
}

/// The host a user typed, when it is an alias of the platform's canonical one.
#[derive(Clone, Debug)]
pub struct Mirror {
    pub canonical: String,
    pub typed: String,
}

/// Name for a chain of two calls of the `url` crate and a conversion: `url`
/// parsed by `Url::parse`, moved to `host` by `Url::set_host`, and the
/// resulting URL's text; nothing when either call fails.
pub uninterp spec fn url_on_host_of(url: Seq<char>, host: Seq<char>) -> Option<Seq<char>>;

/// Relies on `url::Url::parse` and `url::Url::set_host`, whose result depends
/// on the two strings alone.
#[verifier::external_body]
fn url_on_host(url: &str, host: &str) -> (r: Option<String>)
    ensures
        r is None <==> url_on_host_of(url@, host@) is None,
        r matches Some(s) ==> url_on_host_of(url@, host@) == Some(s@),
{
    let mut u = url::Url::parse(url).ok()?;
    u.set_host(Some(host)).ok()?;
    Some(u.as_str().to_owned())
}

impl Mirror {
    /// `url` moved to the host the user typed, for presenting it back to them.
    pub fn try_update_url_to_mirror(&self, url: &str) -> (r: Option<String>)
        ensures
            r is None <==> url_on_host_of(url@, self.typed@) is None,
            r matches Some(s) ==> url_on_host_of(url@, self.typed@) == Some(s@),
    {
        url_on_host(url, self.typed.as_str())
    }
}

/// What a recognized link yields.
#[derive(Clone, Debug)]
pub struct ParsedQuery {
    /// The host and path prefix the link was found under.
    pub origin: String,
    /// Present when the typed host is not the canonical one.
    pub mirror: Option<Mirror>,
    pub request: Request,
}

/// The mathematical value of a `Mirror`: `(canonical, typed)`.
pub open spec fn mirror_view(m: Option<Mirror>) -> Option<(Seq<char>, Seq<char>)> {
    match m {
        Some(m) => Some((m.canonical@, m.typed@)),
        None => None,
    }
}

/// The mathematical value of a parse result: origin, mirror and request.
pub open spec fn parsed_view(r: Option<ParsedQuery>) -> Option<
    (Seq<char>, Option<(Seq<char>, Seq<char>)>, Request),
> {
    match r {
        Some(q) => Some((q.origin@, mirror_view(q.mirror), q.request)),
        None => None,
    }
}

/// End of a `/<digits>` segment that starts at `k`.
pub open spec fn segment_end(s: Seq<char>, k: int) -> Option<int> {
    if lit_at(s, k, "/"@) && digit_run(s, k + 1) > 0 {
        Some(k + 1 + digit_run(s, k + 1))
    } else {
        None
    }
}

/// The id digits of a `/<y>/<m>/<d>/<id>` tail starting at `k`.
pub open spec fn dated_id(s: Seq<char>, k: int) -> Option<(int, int)> {
    match segment_end(s, k) {
        Some(a) => match segment_end(s, a) {
            Some(b) => match segment_end(s, b) {
                Some(c) => match segment_end(s, c) {
                    Some(d) => Some((c + 1, d)),
                    None => None,
                },
                None => None,
            },
            None => None,
        },
        None => None,
    }
}

/// A page link with the `j`-th host at position `i`.
pub open spec fn page_hit(s: Seq<char>, i: int, hosts: Seq<Seq<char>>, j: int) -> Option<Hit> {
    let k = i + hosts[j].len();
    if !lit_at(s, i, hosts[j]) {
        None
    } else if lit_at(s, k, "/images/"@) && digit_run(s, k + "/images/"@.len()) > 0 {
        let d = k + "/images/"@.len();
        Some(Hit { start: i, host: Some(j), origin_end: d - 1, id_start: d, id_end: d + digit_run(s, d) })
    } else if lit_at(s, k, "/"@) && digit_run(s, k + 1) > 0 {
        Some(Hit { start: i, host: Some(j), origin_end: k, id_start: k + 1, id_end: k + 1 + digit_run(s, k + 1) })
    } else {
        None
    }
}

/// A page link at position `i` with one of the hosts from the `j`-th on, the first that fits.
pub open spec fn page_hit_from(s: Seq<char>, i: int, hosts: Seq<Seq<char>>, j: int) -> Option<Hit>
    decreases hosts.len() - j,
{
    if j < 0 || j >= hosts.len() {
        None
    } else {
        match page_hit(s, i, hosts, j) {
            Some(h) => Some(h),
            None => page_hit_from(s, i, hosts, j + 1),
        }
    }
}

/// A stored-file link with prefix `cdn` at position `i`.
pub open spec fn cdn_hit(s: Seq<char>, i: int, cdn: Seq<char>) -> Option<Hit> {
    if !lit_at(s, i, cdn) {
        None
    } else {
        match dated_id(s, i + cdn.len()) {
            Some((a, b)) => Some(Hit { start: i, host: None, origin_end: i + cdn.len(), id_start: a, id_end: b }),
            None => None,
        }
    }
}

/// A stored-file view link at position `i`, `view` tried before `download`.
pub open spec fn cdn_view_hit(s: Seq<char>, i: int, cdn: Seq<char>) -> Option<Hit> {
    let k = i + cdn.len();
    if !lit_at(s, i, cdn) {
        None
    } else if lit_at(s, k, "/view"@) {
        match dated_id(s, k + "/view"@.len()) {
            Some((a, b)) => Some(Hit { start: i, host: None, origin_end: k + "/view"@.len(), id_start: a, id_end: b }),
            None => None,
        }
    } else if lit_at(s, k, "/download"@) {
        match dated_id(s, k + "/download"@.len()) {
            Some((a, b)) => Some(Hit { start: i, host: None, origin_end: k + "/download"@.len(), id_start: a, id_end: b }),
            None => None,
        }
    } else {
        None
    }
}

/// The link of the given shape at position `i`.
pub open spec fn shape_hit(p: Platform, shape: Shape, s: Seq<char>, i: int) -> Option<Hit> {
    match shape {
        Shape::Page => page_hit_from(s, i, page_hosts(p), 0),
        Shape::Cdn => cdn_hit(s, i, cdn_prefix(p)),
        Shape::CdnView => cdn_view_hit(s, i, cdn_prefix(p)),
    }
}

/// The leftmost link of the given shape at position `i` or later.
pub open spec fn leftmost_hit(p: Platform, shape: Shape, s: Seq<char>, i: int) -> Option<Hit>
    decreases s.len() - i,
{
    if i < 0 || i >= s.len() {
        None
    } else {
        match shape_hit(p, shape, s, i) {
            Some(h) => Some(h),
            None => leftmost_hit(p, shape, s, i + 1),
        }
    }
}

/// The link a platform finds in `s`: the first shape that occurs anywhere.
pub open spec fn platform_hit(p: Platform, s: Seq<char>) -> Option<Hit> {
    match leftmost_hit(p, Shape::Page, s, 0) {
        Some(h) => Some(h),
        None => match leftmost_hit(p, Shape::Cdn, s, 0) {
            Some(h) => Some(h),
            None => leftmost_hit(p, Shape::CdnView, s, 0),
        },
    }
}

/// What a platform's parser yields for `s`: the link it finds, provided its id fits a `MediaId`.
#[verifier::opaque]
pub open spec fn platform_parse(p: Platform, s: Seq<char>) -> Option<
    (Seq<char>, Option<(Seq<char>, Seq<char>)>, Request),
> {
    match platform_hit(p, s) {
        None => None,
        Some(h) => {
            let v = decimal_value(s.subrange(h.id_start, h.id_end));
            if v > u64::MAX {
                None
            } else {
                let mirror = match h.host {
                    Some(j) => if j == page_hosts(p).len() - 1 {
                        None
                    } else {
                        Some((canonical_host(p), page_hosts(p)[j]))
                    },
                    None => None,
                };
                Some((s.subrange(h.start, h.origin_end), mirror, Request { platform: p, media: v as u64 }))
            }
        },
    }
}

/// What the platforms from the `k`-th on yield for `s`: the first that recognizes it.
pub open spec fn parse_from(s: Seq<char>, k: int) -> Option<
    (Seq<char>, Option<(Seq<char>, Seq<char>)>, Request),
> decreases PLATFORM_COUNT - k,
{
    if k < 0 || k >= PLATFORM_COUNT {
        None
    } else {
        match platform_parse(platform_at(k), s) {
            Some(q) => Some(q),
            None => parse_from(s, k + 1),
        }
    }
}

/// What the dispatch over all platforms yields for an already trimmed input.
pub open spec fn parse_all(s: Seq<char>) -> Option<
    (Seq<char>, Option<(Seq<char>, Seq<char>)>, Request),
> {
    parse_from(s, 0)
}

/// Where one link shape matched, in positions of the input.
#[derive(Clone, Copy)]
struct HitPos {
    start: usize,
    host: Option<usize>,
    origin_end: usize,
    id_start: usize,
    id_end: usize,
}

impl HitPos {
    spec fn view(self) -> Hit {
        Hit {
            start: self.start as int,
            host: match self.host {
                Some(j) => Some(j as int),
                None => None,
            },
            origin_end: self.origin_end as int,
            id_start: self.id_start as int,
            id_end: self.id_end as int,
        }
    }
}

spec fn hit_pos_view(r: Option<HitPos>) -> Option<Hit> {
    match r {
        Some(h) => Some(h.view()),
        None => None,
    }
}

/// A hit lies within `len` characters, its origin before its id.
spec fn hit_in_bounds(h: Hit, len: int) -> bool {
    0 <= h.start <= h.origin_end <= h.id_start <= h.id_end <= len
}

spec fn hit_pos_ok(r: Option<HitPos>, s: Seq<char>) -> bool {
    match r {
        Some(h) => hit_in_bounds(h.view(), s.len() as int) && all_digits(s, h.id_start as int, h.id_end as int),
        None => true,
    }
}

/// End of a `/<digits>` segment that starts at `k`.
fn segment_end_exec(s: &Vec<char>, k: usize) -> (r: Option<usize>)
    ensures
        r is None <==> segment_end(s@, k as int) is None,
        r matches Some(e) ==> segment_end(s@, k as int) == Some(e as int) && k < e <= s@.len()
            && all_digits(s@, k + 1, e as int),
{
    proof { reveal_strlit("/"); }
    if lit_at_exec(s, k, "/") {
        let n = digit_run_exec(s, k + 1);
        if n > 0 {
            return Some(k + 1 + n);
        }
    }
    None
}

/// The id digits of a `/<y>/<m>/<d>/<id>` tail starting at `k`.
fn dated_id_exec(s: &Vec<char>, k: usize) -> (r: Option<(usize, usize)>)
    ensures
        r is None <==> dated_id(s@, k as int) is None,
        r matches Some((a, b)) ==> dated_id(s@, k as int) == Some((a as int, b as int)) && k < a <= b <= s@.len()
            && all_digits(s@, a as int, b as int),
{
    let a = match segment_end_exec(s, k) {
        Some(a) => a,
        None => return None,
    };
    let b = match segment_end_exec(s, a) {
        Some(b) => b,
        None => return None,
    };
    let c = match segment_end_exec(s, b) {
        Some(c) => c,
        None => return None,
    };
    let d = match segment_end_exec(s, c) {
        Some(d) => d,
        None => return None,
    };
    Some((c + 1, d))
}

/// A page link with the `j`-th host at position `i`.
fn page_hit_exec(s: &Vec<char>, i: usize, hosts: &Vec<&'static str>, j: usize, Ghost(sh): Ghost<Seq<Seq<char>>>) -> (r: Option<HitPos>)
    requires
        j < hosts@.len(),
        hosts@.len() == sh.len(),
        forall|t: int| 0 <= t < sh.len() ==> hosts@[t]@ == sh[t],
    ensures
        hit_pos_view(r) == page_hit(s@, i as int, sh, j as int),
        hit_pos_ok(r, s@),
        r matches Some(h) ==> h.host == Some(j),
{
    let host = hosts[j];
    if !lit_at_exec(s, i, host) {
        return None;
    }
    let k = i + host.unicode_len();
    let images = "/images/";
    if lit_at_exec(s, k, images) {
        let d = k + images.unicode_len();
        let n = digit_run_exec(s, d);
        if n > 0 {
            proof { reveal_strlit("/images/"); }
            return Some(HitPos { start: i, host: Some(j), origin_end: d - 1, id_start: d, id_end: d + n });
        }
    }
    proof { reveal_strlit("/"); }
    if lit_at_exec(s, k, "/") {
        let n = digit_run_exec(s, k + 1);
        if n > 0 {
            return Some(HitPos { start: i, host: Some(j), origin_end: k, id_start: k + 1, id_end: k + 1 + n });
        }
    }
    None
}

/// A stored-file link with prefix `cdn` at position `i`.
fn cdn_hit_exec(s: &Vec<char>, i: usize, cdn: &str) -> (r: Option<HitPos>)
    ensures
        hit_pos_view(r) == cdn_hit(s@, i as int, cdn@),
        hit_pos_ok(r, s@),
{
    if !lit_at_exec(s, i, cdn) {
        return None;
    }
    let k = i + cdn.unicode_len();
    match dated_id_exec(s, k) {
        Some((a, b)) => Some(HitPos { start: i, host: None, origin_end: k, id_start: a, id_end: b }),
        None => None,
    }
}

/// A stored-file view link at position `i`.
fn cdn_view_hit_exec(s: &Vec<char>, i: usize, cdn: &str) -> (r: Option<HitPos>)
    ensures
        hit_pos_view(r) == cdn_view_hit(s@, i as int, cdn@),
        hit_pos_ok(r, s@),
{
    if !lit_at_exec(s, i, cdn) {
        return None;
    }
    let k = i + cdn.unicode_len();
    let view = "/view";
    let download = "/download";
    if lit_at_exec(s, k, view) {
        let e = k + view.unicode_len();
        match dated_id_exec(s, e) {
            Some((a, b)) => Some(HitPos { start: i, host: None, origin_end: e, id_start: a, id_end: b }),
            None => None,
        }
    } else if lit_at_exec(s, k, download) {
        let e = k + download.unicode_len();
        match dated_id_exec(s, e) {
            Some((a, b)) => Some(HitPos { start: i, host: None, origin_end: e, id_start: a, id_end: b }),
            None => None,
        }
    } else {
        None
    }
}

/// The link of the given shape at position `i`.
fn shape_hit_exec(p: Platform, shape: Shape, s: &Vec<char>, i: usize) -> (r: Option<HitPos>)
    ensures
        hit_pos_view(r) == shape_hit(p, shape, s@, i as int),
        hit_pos_ok(r, s@),
        r matches Some(h) ==> (h.host matches Some(j) ==> j < page_hosts(p).len()),
{
    match shape {
        Shape::Page => {
            let hosts = p.page_hosts();
            let ghost sh = page_hosts(p);
            let mut j: usize = 0;
            while j < hosts.len()
                invariant
                    sh == page_hosts(p),
                    shape == Shape::Page,
                    hosts@.len() == sh.len(),
                    forall|t: int| 0 <= t < sh.len() ==> hosts@[t]@ == sh[t],
                    j <= hosts@.len(),
                    page_hit_from(s@, i as int, sh, 0) == page_hit_from(s@, i as int, sh, j as int),
                decreases hosts@.len() - j,
            {
                let h = page_hit_exec(s, i, &hosts, j, Ghost(sh));
                if h.is_some() {
                    assert(page_hit_from(s@, i as int, sh, j as int) == page_hit(s@, i as int, sh, j as int));
                    assert(shape_hit(p, shape, s@, i as int) == page_hit_from(s@, i as int, sh, 0));
                    return h;
                }
                j = j + 1;
            }
            None
        },
        Shape::Cdn => cdn_hit_exec(s, i, p.cdn_prefix()),
        Shape::CdnView => cdn_view_hit_exec(s, i, p.cdn_prefix()),
    }
}

/// The leftmost link of the given shape.
fn leftmost_hit_exec(p: Platform, shape: Shape, s: &Vec<char>) -> (r: Option<HitPos>)
    ensures
        hit_pos_view(r) == leftmost_hit(p, shape, s@, 0),
        hit_pos_ok(r, s@),
        r matches Some(h) ==> (h.host matches Some(j) ==> j < page_hosts(p).len()),
{
    let mut i: usize = 0;
    while i < s.len()
        invariant
            i <= s@.len(),
            leftmost_hit(p, shape, s@, 0) == leftmost_hit(p, shape, s@, i as int),
        decreases s@.len() - i,
    {
        let h = shape_hit_exec(p, shape, s, i);
        if h.is_some() {
            return h;
        }
        i = i + 1;
    }
    None
}

/// The link a platform finds in `s`.
fn platform_hit_exec(p: Platform, s: &Vec<char>) -> (r: Option<HitPos>)
    ensures
        hit_pos_view(r) == platform_hit(p, s@),
        hit_pos_ok(r, s@),
        r matches Some(h) ==> (h.host matches Some(j) ==> j < page_hosts(p).len()),
{
    let h = leftmost_hit_exec(p, Shape::Page, s);
    if h.is_some() {
        return h;
    }
    let h = leftmost_hit_exec(p, Shape::Cdn, s);
    if h.is_some() {
        return h;
    }
    leftmost_hit_exec(p, Shape::CdnView, s)
}

/// Parses the link found in `s`, the characters of `query`, for platform `p`.
fn parse_chars(p: Platform, query: &str, s: &Vec<char>) -> (r: Option<ParsedQuery>)
    requires
        s@ == query@,
    ensures
        parsed_view(r) == platform_parse(p, query@),
{
    proof {
        reveal(platform_parse);
    }
    let h = match platform_hit_exec(p, s) {
        Some(h) => h,
        None => return None,
    };
    let media = match parse_u64(s, h.id_start, h.id_end) {
        Some(v) => v,
        None => return None,
    };
    let origin = String::from_str(query.substring_char(h.start, h.origin_end));
    let mirror = match h.host {
        Some(j) => {
            let hosts = p.page_hosts();
            if j == hosts.len() - 1 {
                None
            } else {
                Some(Mirror { canonical: String::from_str(hosts[hosts.len() - 1]), typed: String::from_str(hosts[j]) })
            }
        },
        None => None,
    };
    Some(ParsedQuery { origin, mirror, request: Request { platform: p, media } })
}

impl Platform {
    /// Recognizes a link to one of this platform's posts.
    pub fn parse_query(&self, query: &str) -> (r: Option<ParsedQuery>)
        ensures
            parsed_view(r) == platform_parse(*self, query@),
    {
        let s = chars_of(query);
        parse_chars(*self, query, &s)
    }
}

/// Recognizes a link, already trimmed, with the first platform, in declared
/// order, whose parser accepts it.
pub fn parse_trimmed(input: &str) -> (r: Option<ParsedQuery>)
    ensures
        parsed_view(r) == parse_all(input@),
{
    let s = chars_of(input);
    let mut k: usize = 0;
    while k < PLATFORM_COUNT
        invariant
            s@ == input@,
            k <= PLATFORM_COUNT,
            parse_all(input@) == parse_from(input@, k as int),
        decreases PLATFORM_COUNT - k,
    {
        let q = parse_chars(Platform::at(k), input, &s);
        if q.is_some() {
            return q;
        }
        k = k + 1;
    }
    None
}

/// The characters with the Unicode `White_Space` property, which `str::trim`
/// strips.
pub open spec fn is_white_space(c: char) -> bool {
    ('\t' <= c && c <= '\r') || c == ' ' || c == '\u{85}' || c == '\u{a0}' || c == '\u{1680}' || (
    '\u{2000}' <= c && c <= '\u{200a}') || c == '\u{2028}' || c == '\u{2029}' || c == '\u{202f}' || c
        == '\u{205f}' || c == '\u{3000}'
}

/// End of the run of white space in `s` that starts at `i`.
pub open spec fn skip_white_space(s: Seq<char>, i: int) -> int
    decreases s.len() - i,
{
    if 0 <= i < s.len() && is_white_space(s[i]) {
        skip_white_space(s, i + 1)
    } else {
        i
    }
}

/// Start of the run of white space in `s` that ends at `j`, not going below `lo`.
pub open spec fn back_white_space(s: Seq<char>, lo: int, j: int) -> int
    decreases j - lo,
{
    if lo < j <= s.len() && is_white_space(s[j - 1]) {
        back_white_space(s, lo, j - 1)
    } else {
        j
    }
}

/// `s` without leading and trailing white space.
pub open spec fn trimmed(s: Seq<char>) -> Seq<char> {
    let a = skip_white_space(s, 0);
    s.subrange(a, back_white_space(s, a, s.len() as int))
}

proof fn lemma_skip_bounds(s: Seq<char>, i: int)
    requires
        0 <= i <= s.len(),
    ensures
        i <= skip_white_space(s, i) <= s.len(),
    decreases s.len() - i,
{
    if i < s.len() && is_white_space(s[i]) {
        lemma_skip_bounds(s, i + 1);
    }
}

proof fn lemma_back_bounds(s: Seq<char>, lo: int, j: int)
    requires
        0 <= lo <= j <= s.len(),
    ensures
        lo <= back_white_space(s, lo, j) <= j,
    decreases j - lo,
{
    if lo < j && is_white_space(s[j - 1]) {
        lemma_back_bounds(s, lo, j - 1);
    }
}

/// Whether `c` has the Unicode `White_Space` property.
pub fn white_space(c: char) -> (r: bool)
    ensures
        r == is_white_space(c),
{
    ('\t' <= c && c <= '\r') || c == ' ' || c == '\u{85}' || c == '\u{a0}' || c == '\u{1680}' || (
    '\u{2000}' <= c && c <= '\u{200a}') || c == '\u{2028}' || c == '\u{2029}' || c == '\u{202f}' || c
        == '\u{205f}' || c == '\u{3000}'
}

/// `s` without leading and trailing white space, as `str::trim` gives it.
pub fn trim(s: &str) -> (r: &str)
    ensures
        r@ == trimmed(s@),
{
    let n = s.unicode_len();
    let mut a: usize = 0;
    while a < n && white_space(s.get_char(a))
        invariant
            n == s@.len(),
            a <= n,
            skip_white_space(s@, 0) == skip_white_space(s@, a as int),
        decreases n - a,
    {
        a = a + 1;
    }
    let mut b: usize = n;
    while b > a && white_space(s.get_char(b - 1))
        invariant
            n == s@.len(),
            a <= b <= n,
            a == skip_white_space(s@, 0),
            back_white_space(s@, a as int, n as int) == back_white_space(s@, a as int, b as int),
        decreases b - a,
    {
        b = b - 1;
    }
    s.substring_char(a, b)
}

/// No character that `trim` keeps at either end is white space, and it takes
/// away nothing from an input that has none at its ends.
pub proof fn lemma_trimmed(s: Seq<char>)
    ensures
        trimmed(s).len() > 0 ==> !is_white_space(trimmed(s)[0]) && !is_white_space(
            trimmed(s)[trimmed(s).len() - 1],
        ),
        (s.len() == 0 || (!is_white_space(s[0]) && !is_white_space(s[s.len() - 1]))) ==> trimmed(s)
            == s,
{
    let a = skip_white_space(s, 0);
    lemma_skip_bounds(s, 0);
    lemma_back_bounds(s, a, s.len() as int);
    let b = back_white_space(s, a, s.len() as int);
    if b > a {
        lemma_skip_end(s, 0);
        lemma_back_end(s, a, s.len() as int);
    }
    if s.len() == 0 || (!is_white_space(s[0]) && !is_white_space(s[s.len() - 1])) {
        assert(s.subrange(0, s.len() as int) =~= s);
    }
}

proof fn lemma_skip_end(s: Seq<char>, i: int)
    requires
        0 <= i <= s.len(),
    ensures
        skip_white_space(s, i) < s.len() ==> !is_white_space(s[skip_white_space(s, i)]),
    decreases s.len() - i,
{
    if i < s.len() && is_white_space(s[i]) {
        lemma_skip_end(s, i + 1);
    }
}

proof fn lemma_back_end(s: Seq<char>, lo: int, j: int)
    requires
        0 <= lo <= j <= s.len(),
    ensures
        back_white_space(s, lo, j) > lo ==> !is_white_space(s[back_white_space(s, lo, j) - 1]),
    decreases j - lo,
{
    if lo < j && is_white_space(s[j - 1]) {
        lemma_back_end(s, lo, j - 1);
    }
}

/// Recognizes a link typed by a user: the input is trimmed, then each platform
/// is tried in declared order.
pub fn parse_query(input: &str) -> (r: Option<ParsedQuery>)
    ensures
        parsed_view(r) == parse_all(trimmed(input@)),
{
    parse_trimmed(trim(input))
}

/// Position of the first platform, from the `k`-th on, whose parser accepts `s`.
pub open spec fn first_accepting(s: Seq<char>, k: int) -> int
    decreases PLATFORM_COUNT - k,
{
    if k < 0 || k >= PLATFORM_COUNT {
        PLATFORM_COUNT as int
    } else if platform_parse(platform_at(k), s) is Some {
        k
    } else {
        first_accepting(s, k + 1)
    }
}

/// Whatever the platforms from the `k`-th on recognize comes from the first of
/// them whose parser accepts the input.
proof fn lemma_parse_from_first(s: Seq<char>, k: int)
    requires
        0 <= k,
        parse_from(s, k) is Some,
    ensures
        k <= first_accepting(s, k) < PLATFORM_COUNT,
        platform_parse(platform_at(first_accepting(s, k)), s) == parse_from(s, k),
        forall|j: int| k <= j < first_accepting(s, k) ==> platform_parse(#[trigger] platform_at(j), s) is None,
    decreases PLATFORM_COUNT - k,
{
    if platform_parse(platform_at(k), s) is None {
        lemma_parse_from_first(s, k + 1);
    }
}

/// A platform's parser only ever yields requests for that platform.
pub proof fn lemma_platform_parse_tags(p: Platform, s: Seq<char>)
    ensures
        platform_parse(p, s) matches Some(q) ==> q.2.platform == p && platform_hit(p, s) is Some,
{
    reveal(platform_parse);
}

/// When a trimmed link is recognized, the request names a platform whose own
/// parser recognizes the link with the same result, and no platform declared
/// before it recognizes the link.
pub proof fn lemma_first_platform_wins(s: Seq<char>)
    requires
        parse_all(s) is Some,
    ensures
        exists|k: int|
            0 <= k < PLATFORM_COUNT && platform_at(k) == parse_all(s)->Some_0.2.platform
                && platform_hit(platform_at(k), s) is Some
                && #[trigger] platform_parse(platform_at(k), s) == parse_all(s)
                && forall|j: int| 0 <= j < k ==> platform_parse(#[trigger] platform_at(j), s) is None,
{
    lemma_parse_from_first(s, 0);
    let m = first_accepting(s, 0);
    lemma_platform_parse_tags(platform_at(m), s);
}

} // verus!
