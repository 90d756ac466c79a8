use pokeinfo::api::{apply_transformation, get_basic, PokemonInfo, ServiceError};
use pokeinfo::pokemon::{
    classify_fetch_status, FetchError, FetchStep, FlavorText, Habitat, Language, Species,
};
use pokeinfo::translations::{classify_transform_status, TransformError};

fn species(name: &str, is_legendary: bool, habitat: &str, entries: &[(&str, &str)]) -> Species {
    Species {
        name: name.to_owned(),
        is_legendary,
        habitat: Habitat { name: habitat.to_owned() },
        flavor_text_entries: entries
            .iter()
            .map(|(text, lang)| FlavorText {
                flavor_text: (*text).to_owned(),
                language: Language { name: (*lang).to_owned() },
            })
            .collect(),
    }
}

const MEWTWO_RAW: &str = "It was created by\na scientist after\nyears of horrific\u{c}gene splicing and\nDNA engineering\nexperiments.";
const MEWTWO_CLEAN: &str = "It was created by a scientist after years of horrific gene splicing and DNA engineering experiments.";
const MEWTWO_YODA: &str = "Created by a scientist after years of horrific gene splicing and dna engineering experiments,  it was.";

const ZUBAT_RAW: &str = "Forms colonies in\nperpetually dark\nplaces. Uses\nultrasonic waves\nto identify and\napproach targets.";
const ZUBAT_CLEAN: &str = "Forms colonies in perpetually dark places. Uses ultrasonic waves to identify and approach targets.";
const ZUBAT_YODA: &str = "Forms colonies in perpetually dark places.Ultrasonic waves to identify and approach targets,  uses.";

const DITTO_RAW: &str = "It can freely recombine its own cellular structure to\ntransform into other life-forms.";
const DITTO_CLEAN: &str = "It can freely recombine its own cellular structure to transform into other life-forms.";
const DITTO_SHAKESPEARE: &str = "'t can freely recombine its own cellular structure to transform into other life-forms.";

fn mewtwo() -> Species {
    species(
        "mewtwo",
        true,
        "rare",
        &[("Es wurde durch\nGen-Manipulation\nerzeugt.", "de"), (MEWTWO_RAW, "en")],
    )
}

fn zubat() -> Species {
    species("zubat", false, "cave", &[(ZUBAT_RAW, "en")])
}

fn ditto() -> Species {
    species("ditto", false, "urban", &[(DITTO_RAW, "en")])
}

fn fetch_ok(sp: Species) -> Result<Option<Species>, FetchError> {
    Ok(Some(sp))
}

#[test]
fn get_pokemon_ok_mocked() {
    let status = classify_fetch_status(200);
    assert_eq!(status, Ok(FetchStep::ReadBody));
    let result = get_basic(fetch_ok(mewtwo())).expect("valid response").expect("found");
    assert_eq!(
        result,
        PokemonInfo {
            name: "mewtwo".into(),
            description: MEWTWO_CLEAN.into(),
            is_legendary: true,
            habitat: "rare".into(),
        }
    )
}

#[test]
fn get_pokemon_not_found_mocked() {
    let status = classify_fetch_status(404);
    assert_eq!(status, Ok(FetchStep::NotFound));
    let result = get_basic(Ok(None)).expect("valid response");
    assert_eq!(result, None);
}

#[test]
fn get_pokemon_translated_legendary_mocked() {
    let info = get_basic(fetch_ok(mewtwo())).expect("valid response").expect("found");
    assert_eq!(info.translation(), "yoda");
    let result = apply_transformation(info, Ok(MEWTWO_YODA.to_owned()));
    assert_eq!(
        result,
        PokemonInfo {
            name: "mewtwo".into(),
            description: MEWTWO_YODA.into(),
            is_legendary: true,
            habitat: "rare".into(),
        }
    )
}

#[test]
fn get_pokemon_translated_cave_mocked() {
    let info = get_basic(fetch_ok(zubat())).expect("valid response").expect("found");
    assert_eq!(info.description, ZUBAT_CLEAN);
    assert_eq!(info.translation(), "yoda");
    let result = apply_transformation(info, Ok(ZUBAT_YODA.to_owned()));
    assert_eq!(
        result,
        PokemonInfo {
            name: "zubat".into(),
            description: ZUBAT_YODA.into(),
            is_legendary: false,
            habitat: "cave".into(),
        }
    )
}

#[test]
fn get_pokemon_translated_other_mocked() {
    let info = get_basic(fetch_ok(ditto())).expect("valid response").expect("found");
    assert_eq!(info.description, DITTO_CLEAN);
    assert_eq!(info.translation(), "shakespeare");
    let result = apply_transformation(info, Ok(DITTO_SHAKESPEARE.to_owned()));
    assert_eq!(
        result,
        PokemonInfo {
            name: "ditto".into(),
            description: DITTO_SHAKESPEARE.into(),
            is_legendary: false,
            habitat: "urban".into(),
        }
    )
}

#[test]
fn get_pokemon_translated_not_found_mocked() {
    let status = classify_fetch_status(404);
    assert_eq!(status, Ok(FetchStep::NotFound));
    let result = get_basic(Ok(None)).expect("valid response");
    assert_eq!(result, None);
}

#[test]
fn get_pokemon_translated_bad_translation_mocked() {
    let info = get_basic(fetch_ok(mewtwo())).expect("valid response").expect("found");
    let outcome = classify_transform_status(500);
    assert_eq!(outcome, Err(TransformError::UpstreamStatus(500)));
    let result = apply_transformation(info, Err(TransformError::UpstreamStatus(500)));
    assert_eq!(
        result,
        PokemonInfo {
            name: "mewtwo".into(),
            description: MEWTWO_CLEAN.into(),
            is_legendary: true,
            habitat: "rare".into(),
        }
    )
}

#[test]
fn get_pokemon_ok() {
    let result = get_basic(fetch_ok(mewtwo())).expect("valid response").expect("found");
    assert_eq!(
        result,
        PokemonInfo {
            name: "mewtwo".into(),
            description: MEWTWO_CLEAN.into(),
            is_legendary: true,
            habitat: "rare".into(),
        }
    )
}

#[test]
fn get_pokemon_not_found() {
    let result = get_basic(Ok(None)).expect("valid response");
    assert_eq!(result, None);
}

#[test]
fn get_pokemon_translated_legendary() {
    let info = get_basic(fetch_ok(mewtwo())).expect("valid response").expect("found");
    assert_eq!(info.translation(), "yoda");
    let result = apply_transformation(info, Ok(MEWTWO_YODA.to_owned()));
    assert_eq!(
        result,
        PokemonInfo {
            name: "mewtwo".into(),
            description: MEWTWO_YODA.into(),
            is_legendary: true,
            habitat: "rare".into(),
        }
    )
}

#[test]
fn get_pokemon_translated_cave() {
    let info = get_basic(fetch_ok(zubat())).expect("valid response").expect("found");
    assert_eq!(info.translation(), "yoda");
    let result = apply_transformation(info, Ok(ZUBAT_YODA.to_owned()));
    assert_eq!(
        result,
        PokemonInfo {
            name: "zubat".into(),
            description: ZUBAT_YODA.into(),
            is_legendary: false,
            habitat: "cave".into(),
        }
    )
}

#[test]
fn get_pokemon_translated_other() {
    let info = get_basic(fetch_ok(ditto())).expect("valid response").expect("found");
    assert_eq!(info.translation(), "shakespeare");
    let result = apply_transformation(info, Ok(DITTO_SHAKESPEARE.to_owned()));
    assert_eq!(
        result,
        PokemonInfo {
            name: "ditto".into(),
            description: DITTO_SHAKESPEARE.into(),
            is_legendary: false,
            habitat: "urban".into(),
        }
    )
}

#[test]
fn get_pokemon_translated_not_found() {
    let result = get_basic(Ok(None)).expect("valid response");
    assert_eq!(result, None);
}

#[test]
fn fetch_errors_propagate() {
    let result = get_basic(Err(FetchError::TransportFailure));
    assert_eq!(result, Err(ServiceError::Fetch(FetchError::TransportFailure)));
    let result = get_basic(Err(FetchError::MalformedResponse));
    assert_eq!(result, Err(ServiceError::Fetch(FetchError::MalformedResponse)));
    let result = get_basic(Err(FetchError::UpstreamStatus(500)));
    assert_eq!(result, Err(ServiceError::Fetch(FetchError::UpstreamStatus(500))));
}

#[test]
fn transform_failure_keeps_record_for_any_error() {
    for err in [
        TransformError::UpstreamStatus(429),
        TransformError::TransportFailure,
        TransformError::MalformedResponse,
    ] {
        let info = get_basic(fetch_ok(ditto())).expect("valid response").expect("found");
        let kept = apply_transformation(info, Err(err));
        assert_eq!(kept.description, DITTO_CLEAN);
        assert_eq!(kept.name, "ditto");
    }
}

#[test]
fn fetch_status_classification() {
    assert_eq!(classify_fetch_status(404), Ok(FetchStep::NotFound));
    assert_eq!(classify_fetch_status(200), Ok(FetchStep::ReadBody));
    assert_eq!(classify_fetch_status(204), Ok(FetchStep::ReadBody));
    assert_eq!(classify_fetch_status(301), Ok(FetchStep::ReadBody));
    assert_eq!(classify_fetch_status(400), Err(FetchError::UpstreamStatus(400)));
    assert_eq!(classify_fetch_status(403), Err(FetchError::UpstreamStatus(403)));
    assert_eq!(classify_fetch_status(500), Err(FetchError::UpstreamStatus(500)));
    assert_eq!(classify_fetch_status(599), Err(FetchError::UpstreamStatus(599)));
}

#[test]
fn transform_status_classification() {
    assert_eq!(classify_transform_status(200), Ok(()));
    assert_eq!(classify_transform_status(201), Ok(()));
    assert_eq!(classify_transform_status(400), Err(TransformError::UpstreamStatus(400)));
    assert_eq!(classify_transform_status(404), Err(TransformError::UpstreamStatus(404)));
    assert_eq!(classify_transform_status(500), Err(TransformError::UpstreamStatus(500)));
    assert_eq!(classify_transform_status(599), Err(TransformError::UpstreamStatus(599)));
}
