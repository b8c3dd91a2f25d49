//! Optional debug/replay sink: what to write to disk of every solved page, so that callers can
//! inspect / diff what the solver actually returned.

use crate::cookie::{Cookie, CookieView};
use crate::text;
use crate::time;
use crate::time::SystemTime;
use crate::types::{Solution, SolutionSource, SolutionView};
use vstd::prelude::*;

verus! {

#[derive(Debug)]
pub struct DebugConfig {
    /// Directory under which artifacts are written. Created on first solve.
    pub directory: String,
    /// If `true`, also dump the request URL and what was solved as JSON next to the HTML.
    pub include_metadata: bool,
}

/// What a [`DebugConfig`] says.
pub struct DebugView {
    pub directory: Seq<char>,
    pub include_metadata: bool,
}

impl View for DebugConfig {
    type V = DebugView;

    open spec fn view(&self) -> DebugView {
        DebugView { directory: self.directory@, include_metadata: self.include_metadata }
    }
}

pub open spec fn opt_debug(c: Option<DebugConfig>) -> Option<DebugView> {
    match c {
        Some(c) => Some(c@),
        None => None,
    }
}

impl Clone for DebugConfig {
    fn clone(&self) -> (r: Self)
        ensures
            r@ == self@,
    {
        DebugConfig {
            directory: self.directory.clone(),
            include_metadata: self.include_metadata,
        }
    }
}

impl DebugConfig {
    pub fn new(directory: &str) -> (c: Self)
        ensures
            c@ == (DebugView { directory: directory@, include_metadata: true }),
    {
        DebugConfig { directory: directory.to_string(), include_metadata: true }
    }
}

#[derive(Debug)]
pub struct ReplayCookie {
    pub name: String,
    pub value: String,
    pub domain: String,
    pub path: String,
}

/// What a [`ReplayCookie`] says.
pub struct ReplayCookieView {
    pub name: Seq<char>,
    pub value: Seq<char>,
    pub domain: Seq<char>,
    pub path: Seq<char>,
}

impl View for ReplayCookie {
    type V = ReplayCookieView;

    open spec fn view(&self) -> ReplayCookieView {
        ReplayCookieView {
            name: self.name@,
            value: self.value@,
            domain: self.domain@,
            path: self.path@,
        }
    }
}

/// What is noted of a solved page.
#[derive(Debug)]
pub struct ReplayMetadata {
    pub url: String,
    pub status: u16,
    pub user_agent: String,
    pub cookies: Vec<ReplayCookie>,
    pub source: String,
    /// Seconds since the Unix epoch.
    pub solved_at: u64,
}

/// What a [`ReplayMetadata`] says.
pub struct MetadataView {
    pub url: Seq<char>,
    pub status: u16,
    pub user_agent: Seq<char>,
    pub cookies: Seq<ReplayCookieView>,
    pub source: Seq<char>,
    pub solved_at: u64,
}

impl View for ReplayMetadata {
    type V = MetadataView;

    open spec fn view(&self) -> MetadataView {
        MetadataView {
            url: self.url@,
            status: self.status,
            user_agent: self.user_agent@,
            cookies: self.cookies@.map_values(|c: ReplayCookie| c@),
            source: self.source@,
            solved_at: self.solved_at,
        }
    }
}

/// Files to write under the sink's directory.
#[derive(Debug)]
pub struct Artifacts {
    /// Name and contents of the page.
    pub html: Option<(String, String)>,
    /// Name and contents of the metadata, to be written as JSON.
    pub metadata: Option<(String, ReplayMetadata)>,
}

/// What [`Artifacts`] say.
pub struct ArtifactsView {
    pub html: Option<(Seq<char>, Seq<char>)>,
    pub metadata: Option<(Seq<char>, MetadataView)>,
}

impl View for Artifacts {
    type V = ArtifactsView;

    open spec fn view(&self) -> ArtifactsView {
        ArtifactsView {
            html: match self.html {
                Some(f) => Some((f.0@, f.1@)),
                None => None,
            },
            metadata: match self.metadata {
                Some(f) => Some((f.0@, f.1@)),
                None => None,
            },
        }
    }
}

#[derive(Debug)]
pub struct DebugSink {
    pub config: DebugConfig,
    /// When the run began, in milliseconds since the Unix epoch.
    pub run: u128,
    /// Pages written so far.
    pub counter: u64,
}

pub open spec fn source_name(s: SolutionSource) -> Seq<char> {
    match s {
        SolutionSource::Fresh => "fresh"@,
        SolutionSource::Cached { .. } => "cached"@,
    }
}

fn source_label(solution: &Solution) -> (s: &'static str)
    ensures
        s@ == source_name(solution@.source),
{
    match solution.source {
        SolutionSource::Fresh => "fresh",
        SolutionSource::Cached { .. } => "cached",
    }
}

/// Seconds since the Unix epoch, as far as 64 bits can hold them.
pub open spec fn unix_stamp(t: SystemTime) -> u64 {
    if time::unix_seconds(t) <= u64::MAX {
        time::unix_seconds(t) as u64
    } else {
        u64::MAX
    }
}

fn chrono_unix(t: SystemTime) -> (s: u64)
    ensures
        s == unix_stamp(t),
{
    let secs: u128 = t.unix_secs();
    if secs <= u64::MAX as u128 {
        secs as u64
    } else {
        u64::MAX
    }
}

/// Letters and digits as they are, everything else as an underscore.
pub open spec fn slug_char(c: char) -> char {
    if ('0' <= c && c <= '9') || ('A' <= c && c <= 'Z') || ('a' <= c && c <= 'z') {
        c
    } else {
        '_'
    }
}

/// The part of a file name that stands for `url`.
pub open spec fn slug_of(url: Seq<char>) -> Seq<char> {
    if url.len() == 0 {
        "page"@
    } else {
        url.take(if url.len() < 80 {
            url.len() as int
        } else {
            80
        }).map_values(|c: char| slug_char(c))
    }
}

pub fn slug_from_url(url: &str) -> (s: String)
    ensures
        s@ == slug_of(url@),
{
    let v = text::chars_of(url);
    if v.len() == 0 {
        return "page".to_string();
    }
    let n: usize = if v.len() < 80 {
        v.len()
    } else {
        80
    };
    let mut s = String::new();
    let mut i: usize = 0;
    while i < n
        invariant
            i <= n <= v.len(),
            s@ == v@.take(i as int).map_values(|c: char| slug_char(c)),
        decreases n - i,
    {
        let c = v[i];
        if ('0' <= c && c <= '9') || ('A' <= c && c <= 'Z') || ('a' <= c && c <= 'z') {
            s.push(c);
        } else {
            s.push('_');
        }
        i = i + 1;
        assert(s@ =~= v@.take(i as int).map_values(|c: char| slug_char(c)));
    }
    s
}

/// The name, without ending, of the files of page `n` of the run that began at `run`.
pub open spec fn stem_of(run: u128, n: u64, url: Seq<char>) -> Seq<char> {
    text::decimal(run as nat) + "_"@ + text::zero_padded(n as nat, 6) + "_"@ + slug_of(url)
}

pub open spec fn replayed(c: CookieView) -> ReplayCookieView {
    ReplayCookieView { name: c.name, value: c.value, domain: c.domain, path: c.path }
}

pub open spec fn metadata_of(url: Seq<char>, s: SolutionView) -> MetadataView {
    MetadataView {
        url,
        status: s.status,
        user_agent: s.user_agent,
        cookies: s.cookies.map_values(|c: CookieView| replayed(c)),
        source: source_name(s.source),
        solved_at: unix_stamp(s.solved_at),
    }
}

/// What the sink writes of the solution of `url`: the page, where there is one, and the metadata,
/// where it is wanted.
pub open spec fn artifacts_of(sink: DebugSink, url: Seq<char>, s: SolutionView) -> ArtifactsView {
    let stem = stem_of(sink.run, sink.counter, url);
    ArtifactsView {
        html: match s.response {
            Some(html) => Some((stem + ".html"@, html)),
            None => None,
        },
        metadata: if sink.config.include_metadata {
            Some((stem + ".json"@, metadata_of(url, s)))
        } else {
            None
        },
    }
}

fn replay_cookies(cookies: &Vec<Cookie>) -> (r: Vec<ReplayCookie>)
    ensures
        r@.map_values(|c: ReplayCookie| c@) == crate::cookie::views(cookies@).map_values(
            |c: CookieView| replayed(c),
        ),
{
    let mut r: Vec<ReplayCookie> = Vec::new();
    let mut i: usize = 0;
    while i < cookies.len()
        invariant
            i <= cookies.len(),
            r.len() == i,
            forall|j: int| 0 <= j < i ==> r@[j]@ == replayed(cookies@[j]@),
        decreases cookies.len() - i,
    {
        let c = &cookies[i];
        r.push(
            ReplayCookie {
                name: c.name.clone(),
                value: c.value.clone(),
                domain: c.domain.clone(),
                path: c.path.clone(),
            },
        );
        i = i + 1;
    }
    assert(r@.map_values(|c: ReplayCookie| c@) =~= crate::cookie::views(cookies@).map_values(
        |c: CookieView| replayed(c),
    ));
    r
}

impl DebugSink {
    /// A sink for the run that begins at `now`.
    pub fn new(config: DebugConfig, now: SystemTime) -> (s: Self)
        ensures
            s.config == config,
            s.counter == 0,
            s.run == if now.unix_nanos >= 0 {
                now.unix_nanos as int / time::NANOS_PER_MILLI as int
            } else {
                0
            },
    {
        DebugSink { config, run: now.unix_millis(), counter: 0 }
    }

    /// What to write of the solution of `url`. Failing to write it must never break the solve
    /// path.
    pub fn write(&mut self, url: &str, solution: &Solution) -> (a: Artifacts)
        ensures
            a@ == artifacts_of(*old(self), url@, solution@),
            *final(self) == (DebugSink {
                counter: old(self).counter.wrapping_add(1),
                ..*old(self)
            }),
    {
        let mut stem = text::decimal_text(self.run);
        stem.append("_");
        stem.append(text::zero_padded_text(self.counter, 6).as_str());
        stem.append("_");
        stem.append(slug_from_url(url).as_str());
        self.counter = self.counter.wrapping_add(1);

        let html = match &solution.response {
            Some(html) => {
                let mut name = stem.clone();
                name.append(".html");
                Some((name, html.clone()))
            },
            None => None,
        };
        let metadata = if self.config.include_metadata {
            let meta = ReplayMetadata {
                url: url.to_string(),
                status: solution.status,
                user_agent: solution.user_agent.clone(),
                cookies: replay_cookies(&solution.cookies),
                source: source_label(solution).to_string(),
                solved_at: chrono_unix(solution.solved_at),
            };
            let mut name = stem;
            name.append(".json");
            Some((name, meta))
        } else {
            None
        };
        Artifacts { html, metadata }
    }
}

/// Digits in front of an underscore can be read off.
proof fn digits_end_at_underscore(a: Seq<char>, x: Seq<char>, b: Seq<char>, y: Seq<char>)
    requires
        text::all_digits(a),
        text::all_digits(b),
        a + "_"@ + x == b + "_"@ + y,
    ensures
        a == b,
        x == y,
{
    reveal_strlit("_");
    let l = a + "_"@ + x;
    let r = b + "_"@ + y;
    assert(l[a.len() as int] == '_');
    assert(r[b.len() as int] == '_');
    if a.len() < b.len() {
        assert(r[a.len() as int] == b[a.len() as int]);
    } else if b.len() < a.len() {
        assert(l[b.len() as int] == a[b.len() as int]);
    }
    assert(a =~= l.take(a.len() as int));
    assert(b =~= r.take(b.len() as int));
    assert(x =~= l.skip(a.len() as int + 1));
    assert(y =~= r.skip(b.len() as int + 1));
}

/// No two pages are written under the same name, whatever their URLs: neither pages with different
/// numbers of one run, nor pages of two runs that began in different milliseconds.
pub proof fn artifacts_never_collide(
    run1: u128,
    n1: u64,
    url1: Seq<char>,
    run2: u128,
    n2: u64,
    url2: Seq<char>,
)
    requires
        run1 != run2 || n1 != n2,
    ensures
        stem_of(run1, n1, url1) != stem_of(run2, n2, url2),
{
    if stem_of(run1, n1, url1) == stem_of(run2, n2, url2) {
        text::decimal_is_its_number(run1 as nat);
        text::decimal_is_its_number(run2 as nat);
        text::padded_is_its_number(n1 as nat, 6);
        text::padded_is_its_number(n2 as nat, 6);
        let x1 = text::zero_padded(n1 as nat, 6) + "_"@ + slug_of(url1);
        let x2 = text::zero_padded(n2 as nat, 6) + "_"@ + slug_of(url2);
        assert(text::decimal(run1 as nat) + "_"@ + x1 =~= stem_of(run1, n1, url1));
        assert(text::decimal(run2 as nat) + "_"@ + x2 =~= stem_of(run2, n2, url2));
        digits_end_at_underscore(
            text::decimal(run1 as nat),
            x1,
            text::decimal(run2 as nat),
            x2,
        );
        digits_end_at_underscore(
            text::zero_padded(n1 as nat, 6),
            slug_of(url1),
            text::zero_padded(n2 as nat, 6),
            slug_of(url2),
        );
    }
}

/// The part of a file name that stands for a URL is never empty nor longer than 80 characters, and
/// holds nothing but letters, digits and underscores.
pub proof fn slugs_are_short_and_plain(url: Seq<char>)
    ensures
        1 <= slug_of(url).len() <= 80,
        forall|i: int|
            0 <= i < slug_of(url).len() ==> slug_char(#[trigger] slug_of(url)[i]) == slug_of(
                url,
            )[i],
{
    reveal_strlit("page");
}

/// The part of a file name that stands for a URL is its first 80 characters, one for one: letters
/// and digits as they are, and underscores for all others; no URL at all is a page.
pub proof fn slugs_spell_the_url(url: Seq<char>, i: int)
    ensures
        url.len() == 0 ==> slug_of(url) == "page"@,
        0 < url.len() <= 80 ==> slug_of(url).len() == url.len(),
        url.len() > 80 ==> slug_of(url).len() == 80,
        0 <= i < url.len() && i < 80 ==> {
            let plain = '0' <= url[i] <= '9' || 'A' <= url[i] <= 'Z' || 'a' <= url[i] <= 'z';
            &&& plain ==> slug_of(url)[i] == url[i]
            &&& !plain ==> slug_of(url)[i] == '_'
        },
{
}

/// The name of a page's files tells the run, the number of the page, in six digits or more, and its
/// URL.
pub proof fn names_tell_run_page_and_url(run: u128, n: u64, url: Seq<char>)
    ensures
        exists|a: Seq<char>, b: Seq<char>|
            stem_of(run, n, url) == #[trigger] (a + "_"@ + b + "_"@ + slug_of(url))
                && text::all_digits(a) && text::number(a) == run && text::all_digits(b)
                && text::number(b) == n && b.len() >= 6,
{
    text::decimal_is_its_number(run as nat);
    text::padded_is_its_number(n as nat, 6);
    let a = text::decimal(run as nat);
    let b = text::zero_padded(n as nat, 6);
    assert(stem_of(run, n, url) == a + "_"@ + b + "_"@ + slug_of(url));
}

/// A solve leaves its page, exactly as it came, if there is one, and its metadata if they are
/// wanted: both under the name of the page, told apart by their endings.
pub proof fn artifacts_are_the_page_and_its_metadata(sink: DebugSink, url: Seq<char>, s: SolutionView)
    ensures
        ({
            let a = artifacts_of(sink, url, s);
            let stem = stem_of(sink.run, sink.counter, url);
            &&& a.html is Some <==> s.response is Some
            &&& a.html is Some ==> (a.html->0).0 == stem + ".html"@ && (a.html->0).1 == s.response->0
            &&& a.metadata is Some <==> sink.config.include_metadata
            &&& a.metadata is Some ==> (a.metadata->0).0 == stem + ".json"@ && (a.metadata->0).1
                == metadata_of(url, s)
            &&& a.html is Some && a.metadata is Some ==> (a.html->0).0 != (a.metadata->0).0
        }),
{
    reveal_strlit(".html");
    reveal_strlit(".json");
    let stem = stem_of(sink.run, sink.counter, url);
    assert((stem + ".html"@)[stem.len() as int + 1] == 'h');
    assert((stem + ".json"@)[stem.len() as int + 1] == 'j');
}

/// The metadata of a page tell the URL that was asked for, the status, the user agent, every cookie
/// by name, value, domain and path, whether the solution was fresh, and the second it was solved in.
pub proof fn metadata_tell_what_was_solved(url: Seq<char>, s: SolutionView, i: int)
    ensures
        ({
            let m = metadata_of(url, s);
            &&& m.url == url
            &&& m.status == s.status
            &&& m.user_agent == s.user_agent
            &&& m.cookies.len() == s.cookies.len()
            &&& 0 <= i < s.cookies.len() ==> {
                &&& m.cookies[i].name == s.cookies[i].name
                &&& m.cookies[i].value == s.cookies[i].value
                &&& m.cookies[i].domain == s.cookies[i].domain
                &&& m.cookies[i].path == s.cookies[i].path
            }
            &&& s.source is Fresh ==> m.source == "fresh"@
            &&& s.source is Cached ==> m.source == "cached"@
            &&& s.solved_at.unix_nanos < 0 ==> m.solved_at == 0
            &&& 0 <= s.solved_at.unix_nanos < (u64::MAX + 1) * 1_000_000_000 ==> m.solved_at
                * 1_000_000_000 <= s.solved_at.unix_nanos < (m.solved_at + 1) * 1_000_000_000
            &&& s.solved_at.unix_nanos >= (u64::MAX + 1) * 1_000_000_000 ==> m.solved_at == u64::MAX
        }),
{
    time::seconds_since_the_epoch(s.solved_at);
}

/// What the settings of a sink, and what it has to write, say is what their fields hold.
pub proof fn artifacts_say_what_they_hold(c: DebugConfig, a: Artifacts, m: ReplayMetadata, i: int)
    ensures
        c@.directory == c.directory@,
        c@.include_metadata == c.include_metadata,
        a@.html is Some <==> a.html is Some,
        a.html is Some ==> (a@.html->0).0 == (a.html->0).0@ && (a@.html->0).1 == (a.html->0).1@,
        a@.metadata is Some <==> a.metadata is Some,
        a.metadata is Some ==> (a@.metadata->0).0 == (a.metadata->0).0@ && (a@.metadata->0).1
            == (a.metadata->0).1@,
        m@.url == m.url@,
        m@.status == m.status,
        m@.user_agent == m.user_agent@,
        m@.source == m.source@,
        m@.solved_at == m.solved_at,
        m@.cookies.len() == m.cookies@.len(),
        0 <= i < m.cookies@.len() ==> {
            &&& m@.cookies[i].name == m.cookies@[i].name@
            &&& m@.cookies[i].value == m.cookies@[i].value@
            &&& m@.cookies[i].domain == m.cookies@[i].domain@
            &&& m@.cookies[i].path == m.cookies@[i].path@
        },
{
}

} // verus!
