//! The Docker images that can solve challenges.

use vstd::prelude::*;

verus! {

/// Docker image provider for the challenge-solving proxy.
#[derive(Debug)]
#[non_exhaustive]
pub enum Provider {
    /// Byparr — recommended, actively maintained.
    Byparr,
    /// FlareSolverr — the solver whose `/v1` protocol the others speak.
    FlareSolverr,
    /// Custom Docker image with a FlareSolverr-compatible `/v1` endpoint.
    Custom(String),
}

/// What a [`Provider`] says.
pub enum ProviderView {
    Byparr,
    FlareSolverr,
    Custom(Seq<char>),
}

impl View for Provider {
    type V = ProviderView;

    open spec fn view(&self) -> ProviderView {
        match self {
            Provider::Byparr => ProviderView::Byparr,
            Provider::FlareSolverr => ProviderView::FlareSolverr,
            Provider::Custom(image) => ProviderView::Custom(image@),
        }
    }
}

pub open spec fn opt_provider(p: Option<Provider>) -> Option<ProviderView> {
    match p {
        Some(p) => Some(p@),
        None => None,
    }
}

impl Clone for Provider {
    fn clone(&self) -> (r: Self)
        ensures
            r@ == self@,
    {
        match self {
            Provider::Byparr => Provider::Byparr,
            Provider::FlareSolverr => Provider::FlareSolverr,
            Provider::Custom(image) => Provider::Custom(image.clone()),
        }
    }
}

impl Default for Provider {
    fn default() -> (p: Self)
        ensures
            p@ == ProviderView::Byparr,
    {
        Provider::Byparr
    }
}

pub open spec fn image_of(p: ProviderView) -> Seq<char> {
    match p {
        ProviderView::Byparr => "ghcr.io/thephaseless/byparr:latest"@,
        ProviderView::FlareSolverr => "ghcr.io/flaresolverr/flaresolverr:latest"@,
        ProviderView::Custom(image) => image,
    }
}

pub open spec fn label_of(p: ProviderView) -> Seq<char> {
    match p {
        ProviderView::Byparr => "Byparr"@,
        ProviderView::FlareSolverr => "FlareSolverr"@,
        ProviderView::Custom(_) => "Custom"@,
    }
}

impl Provider {
    pub fn image(&self) -> (s: &str)
        ensures
            s@ == image_of(self@),
    {
        match self {
            Provider::Byparr => "ghcr.io/thephaseless/byparr:latest",
            Provider::FlareSolverr => "ghcr.io/flaresolverr/flaresolverr:latest",
            Provider::Custom(image) => image.as_str(),
        }
    }

    pub fn label(&self) -> (s: &str)
        ensures
            s@ == label_of(self@),
    {
        match self {
            Provider::Byparr => "Byparr",
            Provider::FlareSolverr => "FlareSolverr",
            Provider::Custom(_) => "Custom",
        }
    }

    /// The label, with the image in brackets.
    pub fn describe(&self) -> (s: String)
        ensures
            s@ == label_of(self@) + " ("@ + image_of(self@) + ")"@,
    {
        let mut s = self.label().to_string();
        s.append(" (");
        s.append(self.image());
        s.append(")");
        s
    }
}

/// A custom provider's image is the one it was given, and the label of a provider tells its kind.
pub proof fn providers_have_their_own_images(image: Seq<char>, p: Provider)
    ensures
        image_of(ProviderView::Custom(image)) == image,
        image_of(ProviderView::Byparr) == "ghcr.io/thephaseless/byparr:latest"@,
        image_of(ProviderView::FlareSolverr) == "ghcr.io/flaresolverr/flaresolverr:latest"@,
        label_of(ProviderView::Byparr) == "Byparr"@,
        label_of(ProviderView::FlareSolverr) == "FlareSolverr"@,
        label_of(ProviderView::Custom(image)) == "Custom"@,
        p is Byparr <==> p@ is Byparr,
        p is FlareSolverr <==> p@ is FlareSolverr,
        p is Custom ==> p@ == ProviderView::Custom(p->Custom_0@),
{
}

} // verus!
