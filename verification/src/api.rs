//! The public record, the text-normalization rule, style selection, and the
//! two aggregator operations: the basic fetch-and-project path and the
//! enriched fetch-then-transform path with graceful degradation.

use vstd::prelude::*;
use vstd::string::StrSliceExecFns;

use crate::pokemon::{canonical_description, FetchError, Species, SpeciesView};
use crate::translations::TransformError;

verus! {

/// What `char::is_whitespace` returns for a character: whether it has the
/// Unicode white-space property. The result depends on the character alone.
pub uninterp spec fn is_unicode_whitespace(c: char) -> bool;

/// Relies on `char::is_whitespace`: true exactly for the characters with
/// the Unicode white-space property, a function of the character alone.
pub assume_specification[ char::is_whitespace ](c: char) -> (r: bool)
    ensures
        r == is_unicode_whitespace(c),
;

/// Relies on `String::push`: appends exactly the given character at the end.
#[verifier::external_body]
fn push_char(s: &mut String, c: char)
    ensures
        final(s)@ == old(s)@.push(c),
{
    s.push(c)
}

/// One normalized character: any whitespace character becomes a single
/// ASCII space; every other character is kept unaltered.
pub open spec fn clean_char(c: char) -> char {
    if is_unicode_whitespace(c) {
        ' '
    } else {
        c
    }
}

/// The text-normalization rule applied to upstream free text: each
/// character normalized by [`clean_char`], positions and length unchanged.
pub open spec fn cleaned(s: Seq<char>) -> Seq<char> {
    Seq::new(s.len(), |i: int| clean_char(s[i]))
}

/// Normalization keeps the length, maps each whitespace character
/// (newlines and form feeds included) to a single ASCII space, and alters
/// no other character.
pub proof fn lemma_cleaned_pointwise(s: Seq<char>)
    ensures
        cleaned(s).len() == s.len(),
        forall|i: int|
            0 <= i < s.len() && is_unicode_whitespace(s[i]) ==> #[trigger] cleaned(s)[i] == ' ',
        forall|i: int|
            0 <= i < s.len() && !is_unicode_whitespace(s[i]) ==> #[trigger] cleaned(s)[i] == s[i],
{
}

/// Replace every whitespace character in the string with a normal ASCII
/// space, leaving all other characters unaltered.
pub fn clean_description(s: &str) -> (r: String)
    ensures
        r@ == cleaned(s@),
{
    let n: usize = s.unicode_len();
    let mut r = String::new();
    let mut i: usize = 0;
    while i < n
        invariant
            n == s@.len(),
            i <= n,
            r@.len() == i as int,
            forall|k: int| 0 <= k < i ==> #[trigger] r@[k] == clean_char(s@[k]),
        decreases n - i,
    {
        let c = s.get_char(i);
        if c.is_whitespace() {
            push_char(&mut r, ' ');
        } else {
            push_char(&mut r, c);
        }
        i = i + 1;
    }
    proof {
        assert(r@ =~= cleaned(s@));
    }
    r
}

/// The externally visible record derived from a fetched entity.
#[derive(Debug, PartialEq, Eq)]
pub struct PokemonInfo {
    pub name: String,
    pub description: String,
    pub is_legendary: bool,
    pub habitat: String,
}

/// Mathematical model of the public record.
#[verifier::ext_equal]
pub struct PokemonInfoView {
    pub name: Seq<char>,
    pub description: Seq<char>,
    pub is_legendary: bool,
    pub habitat: Seq<char>,
}

impl View for PokemonInfo {
    type V = PokemonInfoView;

    open spec fn view(&self) -> PokemonInfoView {
        PokemonInfoView {
            name: self.name@,
            description: self.description@,
            is_legendary: self.is_legendary,
            habitat: self.habitat@,
        }
    }
}

/// The projection of a raw entity to the public record: name, flagged
/// status and classification kept verbatim, the description derived by the
/// canonical-language extraction and normalization rule.
pub open spec fn project(sp: SpeciesView) -> PokemonInfoView {
    PokemonInfoView {
        name: sp.name,
        description: canonical_description(sp.flavor_text_entries),
        is_legendary: sp.is_legendary,
        habitat: sp.habitat,
    }
}

/// The whimsical style, requested for cave-dwelling or flagged entities.
pub open spec fn style_a() -> Seq<char> {
    "yoda"@
}

/// The formal style, requested for every other entity.
pub open spec fn style_b() -> Seq<char> {
    "shakespeare"@
}

/// The style-selection rule, in priority order: the cave classification
/// first, the flagged status second, the formal style otherwise. Total over
/// all inputs.
pub open spec fn selected_style(habitat: Seq<char>, is_legendary: bool) -> Seq<char> {
    if habitat == "cave"@ || is_legendary {
        style_a()
    } else {
        style_b()
    }
}

/// Style selection is a pure total function over the two driving
/// attributes: the cave classification forces the whimsical style
/// regardless of flagged status; otherwise a flagged entity gets the
/// whimsical style; every other entity gets the formal style.
pub proof fn lemma_style_selection(habitat: Seq<char>, is_legendary: bool)
    ensures
        habitat == "cave"@ ==> selected_style(habitat, is_legendary) == style_a(),
        habitat != "cave"@ && is_legendary ==> selected_style(habitat, is_legendary) == style_a(),
        habitat != "cave"@ && !is_legendary ==> selected_style(habitat, is_legendary) == style_b(),
{
}

/// Projection keeps both attributes that drive style selection verbatim, so
/// selecting the style from the projected record is the same as selecting it
/// from the just-fetched entity.
pub proof fn lemma_style_from_entity(sv: SpeciesView)
    ensures
        selected_style(project(sv).habitat, project(sv).is_legendary) == selected_style(
            sv.habitat,
            sv.is_legendary,
        ),
{
}

impl PokemonInfo {
    /// The transformation style this record's attributes select.
    pub fn translation(&self) -> (r: &'static str)
        ensures
            r@ == selected_style(self.habitat@, self.is_legendary),
    {
        let cave: String = "cave".to_owned();
        if self.habitat == cave || self.is_legendary {
            "yoda"
        } else {
            "shakespeare"
        }
    }

    /// Project a fetched entity to its public record: the description
    /// becomes the normalized text of the first canonical-language variant,
    /// in provider-supplied order, or the empty string when no variant is
    /// tagged with the canonical language.
    pub fn from_species(ps: Species) -> (r: PokemonInfo)
        ensures
            r@ == project(ps@),
    {
        let ghost sp = ps@;
        let en: String = "en".to_owned();
        let n: usize = ps.flavor_text_entries.len();
        let mut idx: usize = n;
        let mut i: usize = 0;
        while i < n
            invariant
                n == sp.flavor_text_entries.len(),
                n == ps.flavor_text_entries.len(),
                sp == ps@,
                en@ == crate::pokemon::canonical_language(),
                i <= n,
                idx <= n,
                idx == n ==> forall|k: int|
                    0 <= k < i ==> (#[trigger] sp.flavor_text_entries[k]).language
                        != crate::pokemon::canonical_language(),
                idx < n ==> idx < i && sp.flavor_text_entries[idx as int].language
                    == crate::pokemon::canonical_language() && forall|k: int|
                    0 <= k < idx ==> (#[trigger] sp.flavor_text_entries[k]).language
                        != crate::pokemon::canonical_language(),
            decreases n - i,
        {
            if idx == n {
                if ps.flavor_text_entries[i].language.name == en {
                    idx = i;
                }
            }
            i = i + 1;
        }
        let description: String = if idx < n {
            clean_description(ps.flavor_text_entries[idx].flavor_text.as_str())
        } else {
            String::new()
        };
        proof {
            if idx < n {
                crate::pokemon::lemma_description_first_canonical(
                    sp.flavor_text_entries,
                    idx as int,
                );
            } else {
                crate::pokemon::lemma_description_no_canonical(sp.flavor_text_entries);
            }
        }
        let r = PokemonInfo {
            name: ps.name,
            description,
            is_legendary: ps.is_legendary,
            habitat: ps.habitat.name,
        };
        proof {
            assert(r@ =~= project(sp));
        }
        r
    }
}

/// A request-fatal failure. Only an entity-fetch failure ever surfaces to
/// the caller; transformation failures are swallowed by design and have no
/// variant here.
#[derive(Debug, PartialEq, Eq)]
pub enum ServiceError {
    Fetch(FetchError),
}

/// Model of a fetch result: the entity replaced by its view.
pub open spec fn fetched_view(f: Result<Option<Species>, FetchError>) -> Result<
    Option<SpeciesView>,
    FetchError,
> {
    match f {
        Ok(Some(sp)) => Ok(Some(sp@)),
        Ok(None) => Ok(None),
        Err(e) => Err(e),
    }
}

/// Model of an aggregator result: the record replaced by its view.
pub open spec fn record_view(r: Result<Option<PokemonInfo>, ServiceError>) -> Result<
    Option<PokemonInfoView>,
    ServiceError,
> {
    match r {
        Ok(Some(info)) => Ok(Some(info@)),
        Ok(None) => Ok(None),
        Err(e) => Err(e),
    }
}

/// What the basic path returns for each fetch result: a missing entity is
/// an empty result, a fetched entity is projected, and a fetch failure
/// surfaces as the service error that wraps it.
pub open spec fn basic_outcome(f: Result<Option<SpeciesView>, FetchError>) -> Result<
    Option<PokemonInfoView>,
    ServiceError,
> {
    match f {
        Ok(Some(sv)) => Ok(Some(project(sv))),
        Ok(None) => Ok(None),
        Err(e) => Err(ServiceError::Fetch(e)),
    }
}

/// The basic aggregator operation, given the entity fetcher's result:
/// project the fetched entity to its public record, pass a missing entity
/// through as an empty result, and propagate any fetch failure.
pub fn get_basic(fetched: Result<Option<Species>, FetchError>) -> (r: Result<
    Option<PokemonInfo>,
    ServiceError,
>)
    ensures
        record_view(r) == basic_outcome(fetched_view(fetched)),
{
    match fetched {
        Ok(Some(species)) => Ok(Some(PokemonInfo::from_species(species))),
        Ok(None) => Ok(None),
        Err(e) => Err(ServiceError::Fetch(e)),
    }
}

/// What the enrichment step leaves in the record: a successful
/// transformation replaces the whole description; a failed one leaves the
/// record exactly as it was.
pub open spec fn enriched_record(
    info: PokemonInfoView,
    outcome: Result<Seq<char>, TransformError>,
) -> PokemonInfoView {
    match outcome {
        Ok(t) => PokemonInfoView { description: t, ..info },
        Err(_) => info,
    }
}

/// Model of a transformation result: the text replaced by its view.
pub open spec fn transformed_view(t: Result<String, TransformError>) -> Result<
    Seq<char>,
    TransformError,
> {
    match t {
        Ok(text) => Ok(text@),
        Err(e) => Err(e),
    }
}

/// The enrichment step of the enriched aggregator operation: substitute the
/// transformed description on success, and on failure silently keep the
/// record from the basic path. A transformation failure is discarded here
/// by construction: this step cannot fail.
pub fn apply_transformation(info: PokemonInfo, transformed: Result<String, TransformError>) -> (r:
    PokemonInfo)
    ensures
        r@ == enriched_record(info@, transformed_view(transformed)),
        transformed is Err ==> r == info,
{
    let ghost iv = info@;
    match transformed {
        Ok(text) => {
            let r = PokemonInfo { description: text, ..info };
            proof {
                assert(r@ =~= enriched_record(iv, transformed_view(transformed)));
            }
            r
        },
        Err(_) => info,
    }
}

/// What the enriched path returns for each pair of fetch result and
/// transformation result: identical to the basic path except that a
/// successfully transformed description replaces the projected one.
pub open spec fn enriched_outcome(
    f: Result<Option<SpeciesView>, FetchError>,
    outcome: Result<Seq<char>, TransformError>,
) -> Result<Option<PokemonInfoView>, ServiceError> {
    match f {
        Ok(Some(sv)) => Ok(Some(enriched_record(project(sv), outcome))),
        Ok(None) => Ok(None),
        Err(e) => Err(ServiceError::Fetch(e)),
    }
}

/// Graceful degradation: whatever the fetch result, a failed transformation
/// leaves the enriched path with exactly the basic path's outcome — never
/// with an error of its own.
pub proof fn lemma_transform_failure_degrades(
    f: Result<Option<SpeciesView>, FetchError>,
    e: TransformError,
)
    ensures
        enriched_outcome(f, Err(e)) == basic_outcome(f),
{
}

/// A not-found answer from the primary provider is an empty result on both
/// aggregator paths, never an error, whatever any transformation did.
pub proof fn lemma_not_found_is_empty_result(outcome: Result<Seq<char>, TransformError>)
    ensures
        crate::pokemon::fetch_status_decision(crate::pokemon::not_found_status()) == Ok::<
            crate::pokemon::FetchStep,
            FetchError,
        >(crate::pokemon::FetchStep::NotFound),
        basic_outcome(Ok(None)) == Ok::<Option<PokemonInfoView>, ServiceError>(None),
        enriched_outcome(Ok(None), outcome) == Ok::<Option<PokemonInfoView>, ServiceError>(None),
{
}

} // verus!
