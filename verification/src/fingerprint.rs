//! Browser fingerprint configuration for solve requests.
//!
//! Only Byparr-class providers honor these fields; FlareSolverr ignores them.

use crate::text;
use vstd::prelude::*;

verus! {

#[derive(Debug)]
pub struct BrowserFingerprint {
    pub user_agent: Option<String>,
    pub locale: Option<String>,
    pub viewport: Option<Viewport>,
    pub timezone: Option<String>,
    pub platform: Option<String>,
}

#[derive(Debug, Clone, Copy, PartialEq, Eq, Structural)]
pub struct Viewport {
    pub width: u32,
    pub height: u32,
}

/// What a [`BrowserFingerprint`] says.
pub struct FingerprintView {
    pub user_agent: Option<Seq<char>>,
    pub locale: Option<Seq<char>>,
    pub viewport: Option<Viewport>,
    pub timezone: Option<Seq<char>>,
    pub platform: Option<Seq<char>>,
}

impl View for BrowserFingerprint {
    type V = FingerprintView;

    open spec fn view(&self) -> FingerprintView {
        FingerprintView {
            user_agent: text::opt_text(self.user_agent),
            locale: text::opt_text(self.locale),
            viewport: self.viewport,
            timezone: text::opt_text(self.timezone),
            platform: text::opt_text(self.platform),
        }
    }
}

impl Clone for BrowserFingerprint {
    fn clone(&self) -> (r: Self)
        ensures
            r@ == self@,
    {
        BrowserFingerprint {
            user_agent: self.user_agent.clone(),
            locale: self.locale.clone(),
            viewport: self.viewport,
            timezone: self.timezone.clone(),
            platform: self.platform.clone(),
        }
    }
}

/// The fingerprint that gives no hint at all.
pub open spec fn no_hints() -> FingerprintView {
    FingerprintView { user_agent: None, locale: None, viewport: None, timezone: None, platform: None }
}

/// What an optional fingerprint says.
pub open spec fn opt_fingerprint(f: Option<BrowserFingerprint>) -> Option<FingerprintView> {
    match f {
        Some(f) => Some(f@),
        None => None,
    }
}

impl Default for BrowserFingerprint {
    fn default() -> (f: Self)
        ensures
            f@ == no_hints(),
    {
        BrowserFingerprint {
            user_agent: None,
            locale: None,
            viewport: None,
            timezone: None,
            platform: None,
        }
    }
}

impl BrowserFingerprint {
    pub fn user_agent(self, ua: &str) -> (f: Self)
        ensures
            f@ == (FingerprintView { user_agent: Some(ua@), ..self@ }),
    {
        let mut f = self;
        f.user_agent = Some(ua.to_string());
        f
    }

    pub fn locale(self, locale: &str) -> (f: Self)
        ensures
            f@ == (FingerprintView { locale: Some(locale@), ..self@ }),
    {
        let mut f = self;
        f.locale = Some(locale.to_string());
        f
    }

    pub fn viewport(self, width: u32, height: u32) -> (f: Self)
        ensures
            f@ == (FingerprintView { viewport: Some(Viewport { width, height }), ..self@ }),
    {
        let mut f = self;
        f.viewport = Some(Viewport { width, height });
        f
    }

    pub fn timezone(self, timezone: &str) -> (f: Self)
        ensures
            f@ == (FingerprintView { timezone: Some(timezone@), ..self@ }),
    {
        let mut f = self;
        f.timezone = Some(timezone.to_string());
        f
    }

    pub fn platform(self, platform: &str) -> (f: Self)
        ensures
            f@ == (FingerprintView { platform: Some(platform@), ..self@ }),
    {
        let mut f = self;
        f.platform = Some(platform.to_string());
        f
    }

    pub fn is_empty(&self) -> (b: bool)
        ensures
            b == (self@ == no_hints()),
    {
        self.user_agent.is_none() && self.locale.is_none() && self.viewport.is_none()
            && self.timezone.is_none() && self.platform.is_none()
    }
}

/// A fingerprint says what it holds, and the empty one gives no hint of any kind.
pub proof fn fingerprints_say_what_they_hold(f: BrowserFingerprint)
    ensures
        f@.user_agent is Some <==> f.user_agent is Some,
        f.user_agent is Some ==> f@.user_agent->0 == f.user_agent->0@,
        f@.locale is Some <==> f.locale is Some,
        f.locale is Some ==> f@.locale->0 == f.locale->0@,
        f@.viewport == f.viewport,
        f@.timezone is Some <==> f.timezone is Some,
        f.timezone is Some ==> f@.timezone->0 == f.timezone->0@,
        f@.platform is Some <==> f.platform is Some,
        f.platform is Some ==> f@.platform->0 == f.platform->0@,
        opt_fingerprint(Some(f)) == Some(f@),
        opt_fingerprint(None) is None,
        f@ == no_hints() <==> f.user_agent is None && f.locale is None && f.viewport is None
            && f.timezone is None && f.platform is None,
{
}

} // verus!
