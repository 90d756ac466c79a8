//! The raw entity shape served by the primary data provider, and the
//! decisions the entity fetcher makes from the provider's status code.
//!
//! A species carries an ordered list of localized description variants; the
//! public record keeps the first variant tagged with the canonical language
//! code, in provider-supplied order. That extraction rule is specified here
//! as [`canonical_description`].

use vstd::prelude::*;

verus! {

/// The classification an entity belongs to (the provider calls it a
/// habitat). Its name drives style selection.
#[derive(Debug, PartialEq, Eq)]
pub struct Habitat {
    pub name: String,
}

/// The language tag of one description variant.
#[derive(Debug, PartialEq, Eq)]
pub struct Language {
    pub name: String,
}

/// One localized description variant, in provider-supplied order.
#[derive(Debug, PartialEq, Eq)]
pub struct FlavorText {
    pub flavor_text: String,
    pub language: Language,
}

/// The raw entity as the primary provider serves it.
#[derive(Debug, PartialEq, Eq)]
pub struct Species {
    pub name: String,
    pub is_legendary: bool,
    pub habitat: Habitat,
    pub flavor_text_entries: Vec<FlavorText>,
}

/// Mathematical model of one description variant.
#[verifier::ext_equal]
pub struct FlavorTextView {
    pub flavor_text: Seq<char>,
    pub language: Seq<char>,
}

impl View for FlavorText {
    type V = FlavorTextView;

    open spec fn view(&self) -> FlavorTextView {
        FlavorTextView { flavor_text: self.flavor_text@, language: self.language.name@ }
    }
}

/// Mathematical model of a raw entity.
#[verifier::ext_equal]
pub struct SpeciesView {
    pub name: Seq<char>,
    pub is_legendary: bool,
    pub habitat: Seq<char>,
    pub flavor_text_entries: Seq<FlavorTextView>,
}

impl View for Species {
    type V = SpeciesView;

    open spec fn view(&self) -> SpeciesView {
        SpeciesView {
            name: self.name@,
            is_legendary: self.is_legendary,
            habitat: self.habitat.name@,
            flavor_text_entries: self.flavor_text_entries@.map_values(|ft: FlavorText| ft@),
        }
    }
}

/// The fixed language code whose first description variant is kept.
pub open spec fn canonical_language() -> Seq<char> {
    "en"@
}

/// The description the public record derives from an entity's variants: the
/// whitespace-normalized text of the first variant tagged with the canonical
/// language code, or the empty text when no variant is.
pub open spec fn canonical_description(entries: Seq<FlavorTextView>) -> Seq<char>
    decreases entries.len(),
{
    if entries.len() == 0 {
        Seq::<char>::empty()
    } else if entries[0].language == canonical_language() {
        crate::api::cleaned(entries[0].flavor_text)
    } else {
        canonical_description(entries.drop_first())
    }
}

/// An entity without a canonical-language variant gets the empty
/// description.
pub proof fn lemma_description_no_canonical(entries: Seq<FlavorTextView>)
    requires
        forall|i: int|
            0 <= i < entries.len() ==> (#[trigger] entries[i]).language != canonical_language(),
    ensures
        canonical_description(entries) == Seq::<char>::empty(),
    decreases entries.len(),
{
    if entries.len() > 0 {
        assert(forall|i: int|
            0 <= i < entries.drop_first().len() ==> #[trigger] entries.drop_first()[i]
                == entries[i + 1]);
        lemma_description_no_canonical(entries.drop_first());
    }
}

/// An entity with at least one canonical-language variant gets the
/// normalized text of the first such variant, in provider-supplied order.
pub proof fn lemma_description_first_canonical(entries: Seq<FlavorTextView>, j: int)
    requires
        0 <= j < entries.len(),
        entries[j].language == canonical_language(),
        forall|i: int| 0 <= i < j ==> (#[trigger] entries[i]).language != canonical_language(),
    ensures
        canonical_description(entries) == crate::api::cleaned(entries[j].flavor_text),
    decreases j,
{
    if j > 0 {
        assert(forall|i: int|
            0 <= i < entries.drop_first().len() ==> #[trigger] entries.drop_first()[i]
                == entries[i + 1]);
        lemma_description_first_canonical(entries.drop_first(), j - 1);
    }
}

/// A failed entity fetch. Any of these is fatal for the whole request.
#[derive(Debug, PartialEq, Eq)]
pub enum FetchError {
    /// The provider answered with a non-success status code other than the
    /// not-found one.
    UpstreamStatus(u16),
    /// The connection could not be made or timed out.
    TransportFailure,
    /// The response body did not parse into the expected shape.
    MalformedResponse,
}

/// What the fetcher does next with a provider response.
#[derive(Debug, PartialEq, Eq)]
pub enum FetchStep {
    /// The entity does not exist: a normal outcome, not an error.
    NotFound,
    /// A success: the body holds the entity and is to be read.
    ReadBody,
}

/// The not-found status code of the primary provider.
pub open spec fn not_found_status() -> u16 {
    404
}

/// The fetcher's decision rule over the provider's status code: the
/// not-found status is a normal empty outcome (checked first), any other
/// client or server error fails the fetch, and everything else is a success
/// whose body is read.
pub open spec fn fetch_status_decision(status: u16) -> Result<FetchStep, FetchError> {
    if status == not_found_status() {
        Ok(FetchStep::NotFound)
    } else if 400 <= status <= 599 {
        Err(FetchError::UpstreamStatus(status))
    } else {
        Ok(FetchStep::ReadBody)
    }
}

/// Decide from the primary provider's status code whether the entity is
/// missing, the fetch failed, or the response body is to be read.
pub fn classify_fetch_status(status: u16) -> (r: Result<FetchStep, FetchError>)
    ensures
        r == fetch_status_decision(status),
{
    if status == 404 {
        Ok(FetchStep::NotFound)
    } else if 400 <= status && status <= 599 {
        Err(FetchError::UpstreamStatus(status))
    } else {
        Ok(FetchStep::ReadBody)
    }
}

} // verus!
